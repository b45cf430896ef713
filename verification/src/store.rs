//! The user store: the single source of truth for account state.
//!
//! Its invariant carries the data-model rules: emails (case-normalized),
//! public identifiers and internal ids are unique, and each outstanding
//! verification or reset token belongs to at most one user, so that
//! consuming a token is an unambiguous compare-and-clear.

use vstd::prelude::*;
use crate::email::{email_norm, normalize_email, lemma_norm_idempotent};
use crate::outcome::AuthError;
use crate::user::{User, UserModel, user_valid};

verus! {

/// Mathematical model of the store: the records and the next internal id.
#[verifier::ext_equal]
pub ghost struct StoreModel {
    pub users: Seq<UserModel>,
    pub next_id: u64,
}

/// In-memory user store.
pub struct UserStore {
    pub users: Vec<User>,
    pub next_id: u64,
}

impl View for UserStore {
    type V = StoreModel;

    open spec fn view(&self) -> StoreModel {
        StoreModel { users: self.users@.map_values(|u: User| u@), next_id: self.next_id }
    }
}

/// The record at `i` holds `email` (already normalized).
pub open spec fn email_at(s: Seq<UserModel>, email: Seq<char>, i: int) -> bool {
    0 <= i < s.len() && s[i].email == email_norm(email)
}

/// Some record holds this email, up to case normalization.
pub open spec fn email_taken(s: Seq<UserModel>, email: Seq<char>) -> bool {
    exists|i: int| email_at(s, email, i)
}

/// The index of the record holding this email (meaningful when taken).
pub open spec fn email_index(s: Seq<UserModel>, email: Seq<char>) -> int {
    choose|i: int| email_at(s, email, i)
}

/// The record at `i` has `token` as its outstanding verification token.
pub open spec fn vtoken_at(s: Seq<UserModel>, token: Seq<char>, i: int) -> bool {
    0 <= i < s.len() && s[i].email_verification_token == Some(token)
}

pub open spec fn vtoken_taken(s: Seq<UserModel>, token: Seq<char>) -> bool {
    exists|i: int| vtoken_at(s, token, i)
}

pub open spec fn vtoken_index(s: Seq<UserModel>, token: Seq<char>) -> int {
    choose|i: int| vtoken_at(s, token, i)
}

/// The record at `i` has `token` as its outstanding reset token.
pub open spec fn rtoken_at(s: Seq<UserModel>, token: Seq<char>, i: int) -> bool {
    0 <= i < s.len() && s[i].reset_token == Some(token)
}

pub open spec fn rtoken_taken(s: Seq<UserModel>, token: Seq<char>) -> bool {
    exists|i: int| rtoken_at(s, token, i)
}

pub open spec fn rtoken_index(s: Seq<UserModel>, token: Seq<char>) -> int {
    choose|i: int| rtoken_at(s, token, i)
}

pub open spec fn pid_taken(s: Seq<UserModel>, pid: Seq<char>) -> bool {
    exists|i: int| 0 <= i < s.len() && (#[trigger] s[i]).pid == pid
}

/// Two records share no email, pid, id, outstanding verification token or
/// outstanding reset token.
pub open spec fn distinct_pair(a: UserModel, b: UserModel) -> bool {
    &&& a.email != b.email
    &&& a.pid != b.pid
    &&& a.id != b.id
    &&& (a.email_verification_token is Some ==> a.email_verification_token
        != b.email_verification_token)
    &&& (a.reset_token is Some ==> a.reset_token != b.reset_token)
}

/// No two records share an email, a pid, an id, an outstanding verification
/// token, or an outstanding reset token.
pub open spec fn users_distinct(s: Seq<UserModel>) -> bool {
    forall|i: int, j: int|
        0 <= i < s.len() && 0 <= j < s.len() && i != j ==> distinct_pair(
            #[trigger] s[i],
            #[trigger] s[j],
        )
}

/// Every record is well formed and the records are mutually distinct.
pub open spec fn users_wf(s: Seq<UserModel>) -> bool {
    &&& forall|i: int| 0 <= i < s.len() ==> user_valid(#[trigger] s[i])
    &&& users_distinct(s)
}

/// Store invariant: well-formed records, and every id already handed out is
/// below the next id.
pub open spec fn store_wf(m: StoreModel) -> bool {
    &&& users_wf(m.users)
    &&& forall|i: int| 0 <= i < m.users.len() ==> (#[trigger] m.users[i]).id < m.next_id
}

/// The record a freshly created account starts from: unverified, with no
/// outstanding token of either purpose.
pub open spec fn new_user_model(
    id: u64,
    pid: Seq<char>,
    email: Seq<char>,
    name: Seq<char>,
    password_hash: Seq<char>,
) -> UserModel {
    UserModel {
        id,
        pid,
        email: email_norm(email),
        name,
        password_hash,
        email_verified_at: None,
        email_verification_token: None,
        email_verification_sent_at: None,
        reset_token: None,
        reset_sent_at: None,
    }
}

/// When a token is unique in the store, the chosen index is the witness.
pub proof fn lemma_vtoken_index_is(s: Seq<UserModel>, token: Seq<char>, i: int)
    requires
        users_distinct(s),
        vtoken_at(s, token, i),
    ensures
        vtoken_index(s, token) == i,
{
    let k = vtoken_index(s, token);
    assert(vtoken_at(s, token, k));
}

pub proof fn lemma_rtoken_index_is(s: Seq<UserModel>, token: Seq<char>, i: int)
    requires
        users_distinct(s),
        rtoken_at(s, token, i),
    ensures
        rtoken_index(s, token) == i,
{
    let k = rtoken_index(s, token);
    assert(rtoken_at(s, token, k));
}

pub proof fn lemma_email_index_is(s: Seq<UserModel>, email: Seq<char>, i: int)
    requires
        users_distinct(s),
        email_at(s, email, i),
    ensures
        email_index(s, email) == i,
{
    let k = email_index(s, email);
    assert(email_at(s, email, k));
}

/// Replacing one record with a valid one that clashes with no other record
/// keeps the store well formed.
pub(crate) proof fn lemma_wf_update(s: Seq<UserModel>, i: int, u: UserModel, next_id: u64)
    requires
        users_wf(s),
        0 <= i < s.len(),
        user_valid(u),
        u.id < next_id,
        forall|j: int|
            0 <= j < s.len() && j != i ==> distinct_pair(u, #[trigger] s[j]) && distinct_pair(
                s[j],
                u,
            ),
        forall|j: int| 0 <= j < s.len() ==> (#[trigger] s[j]).id < next_id,
    ensures
        users_wf(s.update(i, u)),
        forall|j: int| 0 <= j < s.update(i, u).len() ==> (#[trigger] s.update(i, u)[j]).id
            < next_id,
{
    let s1 = s.update(i, u);
    assert forall|j: int| 0 <= j < s1.len() implies user_valid(#[trigger] s1[j]) by {
        if j != i {
            assert(s1[j] == s[j]);
        }
    }
    assert forall|a: int, b: int|
        0 <= a < s1.len() && 0 <= b < s1.len() && a != b implies distinct_pair(
        #[trigger] s1[a],
        #[trigger] s1[b],
    ) by {
        if a == i {
            assert(distinct_pair(u, s[b]));
        } else if b == i {
            assert(distinct_pair(s[a], u));
        } else {
            assert(distinct_pair(s[a], s[b]));
        }
    }
}

/// Appending a valid record that clashes with no existing record keeps the
/// store well formed.
pub(crate) proof fn lemma_wf_push(s: Seq<UserModel>, u: UserModel, next_id: u64)
    requires
        users_wf(s),
        user_valid(u),
        u.id < next_id,
        forall|j: int|
            0 <= j < s.len() ==> distinct_pair(u, #[trigger] s[j]) && distinct_pair(s[j], u),
        forall|j: int| 0 <= j < s.len() ==> (#[trigger] s[j]).id < next_id,
    ensures
        users_wf(s.push(u)),
        forall|j: int| 0 <= j < s.push(u).len() ==> (#[trigger] s.push(u)[j]).id < next_id,
{
    let s1 = s.push(u);
    assert forall|j: int| 0 <= j < s1.len() implies user_valid(#[trigger] s1[j]) by {
        if j < s.len() {
            assert(s1[j] == s[j]);
        } else {
            assert(s1[j] == u);
        }
    }
    assert forall|a: int, b: int|
        0 <= a < s1.len() && 0 <= b < s1.len() && a != b implies distinct_pair(
        #[trigger] s1[a],
        #[trigger] s1[b],
    ) by {
        if a == s.len() {
            assert(distinct_pair(u, s[b]));
        } else if b == s.len() {
            assert(distinct_pair(s[a], u));
        } else {
            assert(distinct_pair(s[a], s[b]));
        }
    }
}

impl UserStore {
    /// An empty store.
    pub fn new() -> (r: UserStore)
        ensures
            r@.users == Seq::<UserModel>::empty(),
            r@.next_id == 1u64,
            store_wf(r@),
    {
        let r = UserStore { users: Vec::new(), next_id: 1 };
        proof {
            assert(r@.users =~= Seq::<UserModel>::empty());
        }
        r
    }

    pub fn len(&self) -> (n: usize)
        ensures
            n == self@.users.len(),
    {
        self.users.len()
    }

    /// The record at a known index.
    pub fn user_at(&self, i: usize) -> (u: &User)
        requires
            i < self@.users.len(),
        ensures
            u@ == self@.users[i as int],
    {
        &self.users[i]
    }

    /// Exact-match lookup by email, case-normalized. `NotFound` exactly when
    /// no record holds the address.
    pub fn find_by_email(&self, email: &str) -> (r: Result<usize, AuthError>)
        ensures
            match r {
                Ok(i) => email_at(self@.users, email@, i as int),
                Err(e) => e == AuthError::NotFound && !email_taken(self@.users, email@),
            },
    {
        let norm = normalize_email(email);
        let n = self.users.len();
        let mut i: usize = 0;
        while i < n
            invariant
                i <= n,
                n == self@.users.len(),
                norm@ == email_norm(email@),
                forall|j: int| 0 <= j < i ==> (#[trigger] self@.users[j]).email != email_norm(email@),
            decreases n - i,
        {
            if self.users[i].email == norm {
                return Ok(i);
            }
            i += 1;
        }
        Err(AuthError::NotFound)
    }

    /// Lookup by outstanding verification token; exact match.
    pub fn find_by_verification_token(&self, token: &str) -> (r: Result<usize, AuthError>)
        ensures
            match r {
                Ok(i) => vtoken_at(self@.users, token@, i as int),
                Err(e) => e == AuthError::NotFound && !vtoken_taken(self@.users, token@),
            },
    {
        let q = token.to_owned();
        let n = self.users.len();
        let mut i: usize = 0;
        while i < n
            invariant
                i <= n,
                n == self@.users.len(),
                q@ == token@,
                forall|j: int| 0 <= j < i ==> (#[trigger] self@.users[j]).email_verification_token
                    != Some(token@),
            decreases n - i,
        {
            match &self.users[i].email_verification_token {
                Some(t) => {
                    if *t == q {
                        return Ok(i);
                    }
                },
                None => {},
            }
            i += 1;
        }
        Err(AuthError::NotFound)
    }

    /// Lookup by outstanding reset token; exact match.
    pub fn find_by_reset_token(&self, token: &str) -> (r: Result<usize, AuthError>)
        ensures
            match r {
                Ok(i) => rtoken_at(self@.users, token@, i as int),
                Err(e) => e == AuthError::NotFound && !rtoken_taken(self@.users, token@),
            },
    {
        let q = token.to_owned();
        let n = self.users.len();
        let mut i: usize = 0;
        while i < n
            invariant
                i <= n,
                n == self@.users.len(),
                q@ == token@,
                forall|j: int| 0 <= j < i ==> (#[trigger] self@.users[j]).reset_token
                    != Some(token@),
            decreases n - i,
        {
            match &self.users[i].reset_token {
                Some(t) => {
                    if *t == q {
                        return Ok(i);
                    }
                },
                None => {},
            }
            i += 1;
        }
        Err(AuthError::NotFound)
    }

    /// Whether some record already uses this public identifier.
    pub fn pid_exists(&self, pid: &str) -> (r: bool)
        ensures
            r == pid_taken(self@.users, pid@),
    {
        let q = pid.to_owned();
        let n = self.users.len();
        let mut i: usize = 0;
        while i < n
            invariant
                i <= n,
                n == self@.users.len(),
                q@ == pid@,
                forall|j: int| 0 <= j < i ==> (#[trigger] self@.users[j]).pid != pid@,
            decreases n - i,
        {
            if self.users[i].pid == q {
                proof {
                    assert((#[trigger] self@.users[i as int]).pid == pid@);
                }
                return true;
            }
            i += 1;
        }
        false
    }

    /// Creates a new, unverified account with the given public identifier
    /// and password hash. The plaintext password never reaches the store.
    /// Fails with `DuplicateEmail` exactly when the address is already held,
    /// and with `PersistenceFailure` when the id space is exhausted; either
    /// failure leaves the store unchanged.
    pub fn create(&mut self, email: &str, name: &str, pid: String, password_hash: String) -> (r:
        Result<usize, AuthError>)
        requires
            store_wf(old(self)@),
            !pid_taken(old(self)@.users, pid@),
            password_hash@.len() > 0,
        ensures
            store_wf(final(self)@),
            match r {
                Ok(i) => {
                    &&& !email_taken(old(self)@.users, email@)
                    &&& old(self)@.next_id < u64::MAX
                    &&& i as int == old(self)@.users.len()
                    &&& final(self)@.users == old(self)@.users.push(
                        new_user_model(old(self)@.next_id, pid@, email@, name@, password_hash@),
                    )
                    &&& final(self)@.next_id == old(self)@.next_id + 1
                },
                Err(e) => {
                    &&& final(self)@ == old(self)@
                    &&& (e == AuthError::DuplicateEmail <==> email_taken(old(self)@.users, email@))
                    &&& (e == AuthError::DuplicateEmail || e == AuthError::PersistenceFailure)
                },
            },
            email_taken(old(self)@.users, email@) ==> r == Err::<usize, AuthError>(
                AuthError::DuplicateEmail,
            ),
            (!email_taken(old(self)@.users, email@) && old(self)@.next_id < u64::MAX) ==> r is Ok,
    {
        match self.find_by_email(email) {
            Ok(_) => Err(AuthError::DuplicateEmail),
            Err(_) => {
                if self.next_id == u64::MAX {
                    return Err(AuthError::PersistenceFailure);
                }
                let norm = normalize_email(email);
                proof {
                    lemma_norm_idempotent(email@);
                }
                let u = User {
                    id: self.next_id,
                    pid,
                    email: norm,
                    name: name.to_owned(),
                    password_hash,
                    email_verified_at: None,
                    email_verification_token: None,
                    email_verification_sent_at: None,
                    reset_token: None,
                    reset_sent_at: None,
                };
                let i = self.users.len();
                self.users.push(u);
                self.next_id = self.next_id + 1;
                proof {
                    let s0 = old(self)@.users;
                    let nu = new_user_model(
                        old(self)@.next_id,
                        pid@,
                        email@,
                        name@,
                        password_hash@,
                    );
                    assert(self@.users =~= s0.push(nu));
                    assert forall|j: int| 0 <= j < s0.len() implies distinct_pair(
                        nu,
                        #[trigger] s0[j],
                    ) && distinct_pair(s0[j], nu) by {
                        assert(!email_at(s0, email@, j));
                        assert(!(s0[j].pid == pid@));
                    }
                    lemma_wf_push(s0, nu, self@.next_id);
                }
                Ok(i)
            },
        }
    }

    /// Hands a fresh verification token to the (unverified) record at `i`,
    /// superseding any earlier one, and records when it was issued.
    pub fn set_verification_token(&mut self, i: usize, token: String, now: u64)
        requires
            store_wf(old(self)@),
            i < old(self)@.users.len(),
            !vtoken_taken(old(self)@.users, token@),
            old(self)@.users[i as int].email_verified_at is None,
        ensures
            store_wf(final(self)@),
            final(self)@.users == old(self)@.users.update(
                i as int,
                UserModel {
                    email_verification_token: Some(token@),
                    email_verification_sent_at: Some(now),
                    ..old(self)@.users[i as int]
                },
            ),
            final(self)@.next_id == old(self)@.next_id,
    {
        let u = &mut self.users[i];
        u.email_verification_token = Some(token);
        u.email_verification_sent_at = Some(now);
        proof {
            let s0 = old(self)@.users;
            let nu = UserModel {
                email_verification_token: Some(token@),
                email_verification_sent_at: Some(now),
                ..s0[i as int]
            };
            assert(self@.users =~= s0.update(i as int, nu));
            assert forall|j: int| 0 <= j < s0.len() && j != i as int implies distinct_pair(
                nu,
                #[trigger] s0[j],
            ) && distinct_pair(s0[j], nu) by {
                assert(!vtoken_at(s0, token@, j));
                assert(distinct_pair(s0[i as int], s0[j]));
                assert(distinct_pair(s0[j], s0[i as int]));
            }
            lemma_wf_update(s0, i as int, nu, old(self)@.next_id);
        }
    }

    /// Consumes the verification token of the record at `i`: marks the
    /// address verified and clears the token in the same state change.
    pub fn verify_user(&mut self, i: usize, now: u64)
        requires
            store_wf(old(self)@),
            i < old(self)@.users.len(),
            old(self)@.users[i as int].email_verification_token is Some,
        ensures
            store_wf(final(self)@),
            final(self)@.users == old(self)@.users.update(
                i as int,
                UserModel {
                    email_verified_at: Some(now),
                    email_verification_token: None,
                    ..old(self)@.users[i as int]
                },
            ),
            final(self)@.next_id == old(self)@.next_id,
    {
        let u = &mut self.users[i];
        u.email_verified_at = Some(now);
        u.email_verification_token = None;
        proof {
            let s0 = old(self)@.users;
            let nu = UserModel {
                email_verified_at: Some(now),
                email_verification_token: None,
                ..s0[i as int]
            };
            assert(self@.users =~= s0.update(i as int, nu));
            assert forall|j: int| 0 <= j < s0.len() && j != i as int implies distinct_pair(
                nu,
                #[trigger] s0[j],
            ) && distinct_pair(s0[j], nu) by {
                assert(distinct_pair(s0[i as int], s0[j]));
                assert(distinct_pair(s0[j], s0[i as int]));
            }
            lemma_wf_update(s0, i as int, nu, old(self)@.next_id);
        }
    }

    /// Hands a fresh reset token to the record at `i`, superseding any
    /// earlier one, and records when it was issued.
    pub fn set_reset_token(&mut self, i: usize, token: String, now: u64)
        requires
            store_wf(old(self)@),
            i < old(self)@.users.len(),
            !rtoken_taken(old(self)@.users, token@),
        ensures
            store_wf(final(self)@),
            final(self)@.users == old(self)@.users.update(
                i as int,
                UserModel {
                    reset_token: Some(token@),
                    reset_sent_at: Some(now),
                    ..old(self)@.users[i as int]
                },
            ),
            final(self)@.next_id == old(self)@.next_id,
    {
        let u = &mut self.users[i];
        u.reset_token = Some(token);
        u.reset_sent_at = Some(now);
        proof {
            let s0 = old(self)@.users;
            let nu = UserModel {
                reset_token: Some(token@),
                reset_sent_at: Some(now),
                ..s0[i as int]
            };
            assert(self@.users =~= s0.update(i as int, nu));
            assert forall|j: int| 0 <= j < s0.len() && j != i as int implies distinct_pair(
                nu,
                #[trigger] s0[j],
            ) && distinct_pair(s0[j], nu) by {
                assert(!rtoken_at(s0, token@, j));
                assert(distinct_pair(s0[i as int], s0[j]));
                assert(distinct_pair(s0[j], s0[i as int]));
            }
            lemma_wf_update(s0, i as int, nu, old(self)@.next_id);
        }
    }

    /// Consumes the reset token of the record at `i`: installs the new
    /// password hash and clears the token in the same state change.
    pub fn update_password(&mut self, i: usize, new_hash: String)
        requires
            store_wf(old(self)@),
            i < old(self)@.users.len(),
            new_hash@.len() > 0,
        ensures
            store_wf(final(self)@),
            final(self)@.users == old(self)@.users.update(
                i as int,
                UserModel {
                    password_hash: new_hash@,
                    reset_token: None,
                    ..old(self)@.users[i as int]
                },
            ),
            final(self)@.next_id == old(self)@.next_id,
    {
        let u = &mut self.users[i];
        u.password_hash = new_hash;
        u.reset_token = None;
        proof {
            let s0 = old(self)@.users;
            let nu = UserModel { password_hash: new_hash@, reset_token: None, ..s0[i as int] };
            assert(self@.users =~= s0.update(i as int, nu));
            assert forall|j: int| 0 <= j < s0.len() && j != i as int implies distinct_pair(
                nu,
                #[trigger] s0[j],
            ) && distinct_pair(s0[j], nu) by {
                assert(distinct_pair(s0[i as int], s0[j]));
                assert(distinct_pair(s0[j], s0[i as int]));
            }
            lemma_wf_update(s0, i as int, nu, old(self)@.next_id);
        }
    }
}

} // verus!
