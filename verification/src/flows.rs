//! The auth orchestrator: registration, email verification, login, and the
//! forgot/reset password flow, sequenced over the user store.
//!
//! Failure outcomes are deliberately coarse at this boundary: login and
//! reset answer any bad credential or unknown token with the one
//! `InvalidCredentials` value, verification answers uniformly whether or not
//! the token matched, and the forgot flow has no failure outcome at all, so
//! no caller can enumerate registered addresses or live tokens.
//!
//! Tokens carry their issuance timestamp but no hard expiry: a token stays
//! consumable until it is consumed or superseded. The stored timestamps are
//! what a future expiry window would be enforced against.

use vstd::prelude::*;
use crate::crypto::{fresh_token, hash_password, password_matches, session_token_of};
use crate::email::email_norm;
use crate::outcome::{AuthError, LoginResponse, MailTask};
use crate::store::{
    email_index, email_taken, lemma_email_index_is, lemma_rtoken_index_is,
    lemma_vtoken_index_is, pid_taken, rtoken_index, rtoken_taken, store_wf,
    vtoken_at, vtoken_index, vtoken_taken, UserStore,
};
use crate::user::UserModel;

verus! {

/// The orchestrator. It owns the store (the single source of truth), the
/// server-held secret the session issuer signs with, and the session
/// lifetime in seconds. Mail is not sent from here: flows hand back a
/// `MailTask` for the external mailer.
pub struct AuthService {
    pub store: UserStore,
    pub jwt_secret: String,
    pub session_ttl: u64,
}

pub open spec fn auth_wf(a: AuthService) -> bool {
    store_wf(a.store@)
}

/// State after a successful registration: one new unverified record with a
/// fresh verification token, issued at `now`.
pub open spec fn register_transition(
    s: Seq<UserModel>,
    email: Seq<char>,
    name: Seq<char>,
    hash: Seq<char>,
    pid: Seq<char>,
    vtoken: Seq<char>,
    now: u64,
    id: u64,
) -> Seq<UserModel> {
    s.push(
        UserModel {
            id,
            pid,
            email: email_norm(email),
            name,
            password_hash: hash,
            email_verified_at: None,
            email_verification_token: Some(vtoken),
            email_verification_sent_at: Some(now),
            reset_token: None,
            reset_sent_at: None,
        },
    )
}

/// State after an attempt to consume verification token `token` at `now`:
/// if some record holds the token, that record becomes verified and the
/// token is cleared in the same step; otherwise nothing changes.
pub open spec fn verify_transition(s: Seq<UserModel>, token: Seq<char>, now: u64) -> Seq<
    UserModel,
> {
    if vtoken_taken(s, token) {
        let i = vtoken_index(s, token);
        s.update(
            i,
            UserModel { email_verified_at: Some(now), email_verification_token: None, ..s[i] },
        )
    } else {
        s
    }
}

/// State after a forgot-password request for `email` issuing `token` at
/// `now`: the matching record, if any, gets the token (superseding an
/// earlier one); an unknown address changes nothing.
pub open spec fn forgot_transition(
    s: Seq<UserModel>,
    email: Seq<char>,
    token: Seq<char>,
    now: u64,
) -> Seq<UserModel> {
    if email_taken(s, email) {
        let i = email_index(s, email);
        s.update(i, UserModel { reset_token: Some(token), reset_sent_at: Some(now), ..s[i] })
    } else {
        s
    }
}

/// State after an attempt to consume reset token `token`, installing
/// `new_hash`: if some record holds the token, its password hash is
/// replaced and the token cleared in the same step; otherwise nothing
/// changes.
pub open spec fn reset_transition(s: Seq<UserModel>, token: Seq<char>, new_hash: Seq<char>) -> Seq<
    UserModel,
> {
    if rtoken_taken(s, token) {
        let i = rtoken_index(s, token);
        s.update(i, UserModel { password_hash: new_hash, reset_token: None, ..s[i] })
    } else {
        s
    }
}

/// Login is refused exactly when no record holds the address or the
/// password does not match the stored hash; the two causes are not
/// distinguishable from the outcome.
pub open spec fn login_rejects(s: Seq<UserModel>, email: Seq<char>, password: Seq<char>) -> bool {
    ||| !email_taken(s, email)
    ||| !password_matches(s[email_index(s, email)].password_hash, password)
}

impl AuthService {
    /// An orchestrator over an empty store.
    pub fn new(jwt_secret: String, session_ttl: u64) -> (r: AuthService)
        ensures
            auth_wf(r),
            r.store@.users == Seq::<UserModel>::empty(),
            r.jwt_secret@ == jwt_secret@,
            r.session_ttl == session_ttl,
    {
        AuthService { store: UserStore::new(), jwt_secret, session_ttl }
    }

    /// Registration with the fresh identifiers passed in explicitly: creates
    /// an unverified account under the case-normalized address, hashes the
    /// password (the plaintext is discarded), issues the verification token,
    /// and hands back the welcome mail carrying that token.
    ///
    /// Fails with `DuplicateEmail` exactly when the address is already
    /// registered; `PersistenceFailure` covers an exhausted id space and a
    /// failed or degenerate hash. Either failure leaves the store unchanged.
    pub fn register_with(
        &mut self,
        email: &str,
        name: &str,
        password: &str,
        pid: String,
        vtoken: String,
        now: u64,
    ) -> (r: Result<MailTask, AuthError>)
        requires
            auth_wf(*old(self)),
            !pid_taken(old(self).store@.users, pid@),
            !vtoken_taken(old(self).store@.users, vtoken@),
        ensures
            auth_wf(*final(self)),
            final(self).jwt_secret == old(self).jwt_secret,
            final(self).session_ttl == old(self).session_ttl,
            email_taken(old(self).store@.users, email@) ==> r == Err::<MailTask, AuthError>(
                AuthError::DuplicateEmail,
            ),
            match r {
                Ok(task) => {
                    &&& !email_taken(old(self).store@.users, email@)
                    &&& old(self).store@.next_id < u64::MAX
                    &&& final(self).store@.next_id == old(self).store@.next_id + 1
                    &&& ({
                        let h = final(self).store@.users.last().password_hash;
                        &&& h.len() > 0
                        &&& h != password@
                        &&& password_matches(h, password@)
                        &&& final(self).store@.users == register_transition(
                            old(self).store@.users,
                            email@,
                            name@,
                            h,
                            pid@,
                            vtoken@,
                            now,
                            old(self).store@.next_id,
                        )
                    })
                    &&& (task matches MailTask::Welcome { email: e, token: t } && e@ == email_norm(
                        email@,
                    ) && t@ == vtoken@)
                },
                Err(e) => {
                    &&& final(self).store@ == old(self).store@
                    &&& (e == AuthError::DuplicateEmail <==> email_taken(
                        old(self).store@.users,
                        email@,
                    ))
                    &&& (e == AuthError::DuplicateEmail || e == AuthError::PersistenceFailure)
                },
            },
    {
        match self.store.find_by_email(email) {
            Ok(_) => {
                return Err(AuthError::DuplicateEmail);
            },
            Err(_) => {},
        }
        let hash = match hash_password(password) {
            Some(h) => h,
            None => {
                return Err(AuthError::PersistenceFailure);
            },
        };
        // The data-model rules, enforced rather than assumed: the stored
        // hash is never empty and never the plaintext itself.
        if hash.as_str().is_empty() {
            return Err(AuthError::PersistenceFailure);
        }
        if hash == password.to_owned() {
            return Err(AuthError::PersistenceFailure);
        }
        let i = match self.store.create(email, name, pid, hash) {
            Ok(i) => i,
            Err(e) => {
                return Err(e);
            },
        };
        proof {
            let s1 = self.store@.users;
            assert forall|j: int| 0 <= j < s1.len() implies !vtoken_at(s1, vtoken@, j) by {
                if j < s1.len() - 1 {
                    assert(s1[j] == old(self).store@.users[j]);
                    assert(!vtoken_at(old(self).store@.users, vtoken@, j));
                }
            }
        }
        let t = vtoken.clone();
        self.store.set_verification_token(i, vtoken, now);
        let e_out = self.store.user_at(i).email.clone();
        proof {
            assert(final(self).store@.users =~= register_transition(
                old(self).store@.users,
                email@,
                name@,
                final(self).store@.users.last().password_hash,
                pid@,
                vtoken@,
                now,
                old(self).store@.next_id,
            ));
        }
        Ok(MailTask::Welcome { email: e_out, token: t })
    }

    /// Registration: mints a fresh public identifier and verification token,
    /// then proceeds as `register_with`. The freshness of both random values
    /// is re-checked against the store; on the (cryptographically
    /// improbable) collision the store is left unchanged and
    /// `PersistenceFailure` is reported.
    pub fn register(&mut self, email: &str, name: &str, password: &str, now: u64) -> (r: Result<
        MailTask,
        AuthError,
    >)
        requires
            auth_wf(*old(self)),
        ensures
            auth_wf(*final(self)),
            final(self).jwt_secret == old(self).jwt_secret,
            final(self).session_ttl == old(self).session_ttl,
            email_taken(old(self).store@.users, email@) ==> r == Err::<MailTask, AuthError>(
                AuthError::DuplicateEmail,
            ),
            match r {
                Ok(task) => {
                    &&& !email_taken(old(self).store@.users, email@)
                    &&& final(self).store@.next_id == old(self).store@.next_id + 1
                    &&& ({
                        let u = final(self).store@.users.last();
                        &&& u.password_hash.len() > 0
                        &&& u.password_hash != password@
                        &&& password_matches(u.password_hash, password@)
                        &&& (u.email_verification_token matches Some(tk)
                            && final(self).store@.users == register_transition(
                            old(self).store@.users,
                            email@,
                            name@,
                            u.password_hash,
                            u.pid,
                            tk,
                            now,
                            old(self).store@.next_id,
                        ) && (task matches MailTask::Welcome { email: e, token: t } && e@
                            == email_norm(email@) && t@ == tk))
                    })
                },
                Err(e) => {
                    &&& final(self).store@ == old(self).store@
                    &&& (e == AuthError::DuplicateEmail <==> email_taken(
                        old(self).store@.users,
                        email@,
                    ))
                    &&& (e == AuthError::DuplicateEmail || e == AuthError::PersistenceFailure)
                },
            },
    {
        match self.store.find_by_email(email) {
            Ok(_) => {
                return Err(AuthError::DuplicateEmail);
            },
            Err(_) => {},
        }
        let pid = fresh_token();
        let vt = fresh_token();
        if self.store.pid_exists(pid.as_str()) {
            return Err(AuthError::PersistenceFailure);
        }
        match self.store.find_by_verification_token(vt.as_str()) {
            Ok(_) => {
                return Err(AuthError::PersistenceFailure);
            },
            Err(_) => {},
        }
        self.register_with(email, name, password, pid, vt, now)
    }

    /// Attempts to consume a verification token. If some record holds it,
    /// that record becomes verified and the token is cleared in the same
    /// state change; a token that matches nothing (including one already
    /// consumed) changes nothing. The outcome is uniform either way, so the
    /// caller learns nothing about token validity.
    pub fn verify(&mut self, token: &str, now: u64)
        requires
            auth_wf(*old(self)),
        ensures
            auth_wf(*final(self)),
            final(self).jwt_secret == old(self).jwt_secret,
            final(self).session_ttl == old(self).session_ttl,
            final(self).store@.next_id == old(self).store@.next_id,
            final(self).store@.users == verify_transition(old(self).store@.users, token@, now),
    {
        match self.store.find_by_verification_token(token) {
            Ok(i) => {
                proof {
                    lemma_vtoken_index_is(old(self).store@.users, token@, i as int);
                }
                self.store.verify_user(i, now);
                proof {
                    assert(final(self).store@.users =~= verify_transition(
                        old(self).store@.users,
                        token@,
                        now,
                    ));
                }
            },
            Err(_) => {},
        }
    }

    /// Forgot-password with the fresh token passed in explicitly: if the
    /// address matches a record, that record gets the reset token
    /// (superseding any earlier one) and the reset mail comes back; an
    /// unknown address changes nothing and no mail is produced. There is no
    /// failure outcome.
    pub fn forgot_with(&mut self, email: &str, token: String, now: u64) -> (r: Option<MailTask>)
        requires
            auth_wf(*old(self)),
            !rtoken_taken(old(self).store@.users, token@),
        ensures
            auth_wf(*final(self)),
            final(self).jwt_secret == old(self).jwt_secret,
            final(self).session_ttl == old(self).session_ttl,
            final(self).store@.next_id == old(self).store@.next_id,
            final(self).store@.users == forgot_transition(
                old(self).store@.users,
                email@,
                token@,
                now,
            ),
            r is Some <==> email_taken(old(self).store@.users, email@),
            r matches Some(task) ==> (task matches MailTask::PasswordReset { email: e, token: t }
                && e@ == email_norm(email@) && t@ == token@),
    {
        match self.store.find_by_email(email) {
            Err(_) => None,
            Ok(i) => {
                proof {
                    lemma_email_index_is(old(self).store@.users, email@, i as int);
                }
                let t = token.clone();
                self.store.set_reset_token(i, token, now);
                let e_out = self.store.user_at(i).email.clone();
                proof {
                    assert(final(self).store@.users =~= forgot_transition(
                        old(self).store@.users,
                        email@,
                        token@,
                        now,
                    ));
                }
                Some(MailTask::PasswordReset { email: e_out, token: t })
            },
        }
    }

    /// Forgot-password: mints a fresh reset token and proceeds as
    /// `forgot_with`. The response carries no failure outcome at all, so it
    /// never reveals whether the address is registered; only a matching
    /// record gets a token and a mail. On the (cryptographically
    /// improbable) token collision nothing changes and no mail is produced.
    pub fn forgot(&mut self, email: &str, now: u64) -> (r: Option<MailTask>)
        requires
            auth_wf(*old(self)),
        ensures
            auth_wf(*final(self)),
            final(self).jwt_secret == old(self).jwt_secret,
            final(self).session_ttl == old(self).session_ttl,
            final(self).store@.next_id == old(self).store@.next_id,
            !email_taken(old(self).store@.users, email@) ==> final(self).store@ == old(
                self,
            ).store@ && r is None,
            r matches Some(task) ==> email_taken(old(self).store@.users, email@) && (task matches
                MailTask::PasswordReset { email: e, token: t } && e@ == email_norm(email@)
                && !rtoken_taken(old(self).store@.users, t@) && final(self).store@.users
                == forgot_transition(
                old(self).store@.users,
                email@,
                t@,
                now,
            )),
            (r is None && email_taken(old(self).store@.users, email@)) ==> final(self).store@
                == old(self).store@,
    {
        let t = fresh_token();
        match self.store.find_by_reset_token(t.as_str()) {
            Ok(_) => None,
            Err(_) => self.forgot_with(email, t, now),
        }
    }

    /// Attempts to consume a reset token: if some record holds it, the new
    /// password is hashed and installed and the token cleared in the same
    /// state change. An unknown (or already consumed) token fails with the
    /// generic `InvalidCredentials`, never saying why.
    pub fn reset(&mut self, token: &str, new_password: &str) -> (r: Result<(), AuthError>)
        requires
            auth_wf(*old(self)),
        ensures
            auth_wf(*final(self)),
            final(self).jwt_secret == old(self).jwt_secret,
            final(self).session_ttl == old(self).session_ttl,
            final(self).store@.next_id == old(self).store@.next_id,
            !rtoken_taken(old(self).store@.users, token@) ==> r == Err::<(), AuthError>(
                AuthError::InvalidCredentials,
            ),
            match r {
                Ok(_) => {
                    &&& rtoken_taken(old(self).store@.users, token@)
                    &&& ({
                        let i = rtoken_index(old(self).store@.users, token@);
                        let h = final(self).store@.users[i].password_hash;
                        &&& h.len() > 0
                        &&& h != new_password@
                        &&& password_matches(h, new_password@)
                        &&& final(self).store@.users == reset_transition(
                            old(self).store@.users,
                            token@,
                            h,
                        )
                    })
                },
                Err(e) => {
                    &&& final(self).store@ == old(self).store@
                    &&& (e == AuthError::InvalidCredentials || e == AuthError::PersistenceFailure)
                    &&& (e == AuthError::InvalidCredentials <==> !rtoken_taken(
                        old(self).store@.users,
                        token@,
                    ))
                },
            },
    {
        let i = match self.store.find_by_reset_token(token) {
            Ok(i) => i,
            Err(_) => {
                return Err(AuthError::InvalidCredentials);
            },
        };
        proof {
            lemma_rtoken_index_is(old(self).store@.users, token@, i as int);
        }
        let hash = match hash_password(new_password) {
            Some(h) => h,
            None => {
                return Err(AuthError::PersistenceFailure);
            },
        };
        if hash.as_str().is_empty() {
            return Err(AuthError::PersistenceFailure);
        }
        if hash == new_password.to_owned() {
            return Err(AuthError::PersistenceFailure);
        }
        self.store.update_password(i, hash);
        proof {
            assert(final(self).store@.users =~= reset_transition(
                old(self).store@.users,
                token@,
                final(self).store@.users[i as int].password_hash,
            ));
        }
        Ok(())
    }

    /// Login: credential check against the stored hash, then a signed
    /// session token for the matching user. A missing account and a wrong
    /// password yield the very same `InvalidCredentials` value; a good
    /// credential is owed its session, since the HMAC signer cannot fail.
    pub fn login(&self, email: &str, password: &str, now: u64) -> (r: Result<
        LoginResponse,
        AuthError,
    >)
        requires
            auth_wf(*self),
            now + self.session_ttl <= u64::MAX,
        ensures
            login_rejects(self.store@.users, email@, password@) <==> r == Err::<
                LoginResponse,
                AuthError,
            >(AuthError::InvalidCredentials),
            !login_rejects(self.store@.users, email@, password@) ==> r is Ok,
            match r {
                Ok(resp) => {
                    &&& !login_rejects(self.store@.users, email@, password@)
                    &&& ({
                        let u = self.store@.users[email_index(self.store@.users, email@)];
                        &&& resp.pid@ == u.pid
                        &&& resp.name@ == u.name
                        &&& resp.is_verified == (u.email_verified_at is Some)
                        &&& resp.token@ == session_token_of(
                            u.pid,
                            (now + self.session_ttl) as u64,
                            self.jwt_secret@,
                        )
                    })
                },
                Err(e) => e == AuthError::InvalidCredentials,
            },
    {
        let i = match self.store.find_by_email(email) {
            Ok(i) => i,
            Err(_) => {
                return Err(AuthError::InvalidCredentials);
            },
        };
        proof {
            lemma_email_index_is(self.store@.users, email@, i as int);
        }
        let user = self.store.user_at(i);
        if !user.verify_password(password) {
            return Err(AuthError::InvalidCredentials);
        }
        let exp = now + self.session_ttl;
        let token = match user.generate_jwt(self.jwt_secret.as_str(), exp) {
            Ok(t) => t,
            Err(e) => {
                return Err(e);
            },
        };
        Ok(LoginResponse::new(user, &token))
    }
}

} // verus!
