//! Laws of the subsystem, proved once for every well-formed store state.
//!
//! Each law is stated over the transition functions that the flows' own
//! contracts are written in, so what is proved here is exactly what the
//! executable flows do to the store.

use vstd::prelude::*;
use crate::crypto::password_matches;
use crate::email::email_norm;
use crate::flows::{
    forgot_transition, login_rejects, register_transition, reset_transition, verify_transition,
};
use crate::store::{
    distinct_pair, email_at, email_index, email_taken, rtoken_at, rtoken_index, rtoken_taken,
    users_wf, vtoken_at, vtoken_index, vtoken_taken,
};
use crate::user::UserModel;

verus! {

/// Registration fills the address slot: after a successful registration of
/// `email`, every address with the same normalized form counts as taken, so
/// a later registration attempt with it fails with `DuplicateEmail` and
/// leaves the store unchanged (the `email_taken` clauses of
/// `AuthService::register`'s contract).
pub proof fn lemma_register_makes_duplicate(
    s: Seq<UserModel>,
    email: Seq<char>,
    email2: Seq<char>,
    name: Seq<char>,
    hash: Seq<char>,
    pid: Seq<char>,
    vtoken: Seq<char>,
    now: u64,
    id: u64,
)
    requires
        email_norm(email2) == email_norm(email),
    ensures
        email_taken(register_transition(s, email, name, hash, pid, vtoken, now, id), email2),
{
    let s1 = register_transition(s, email, name, hash, pid, vtoken, now, id);
    assert(email_at(s1, email2, s.len() as int));
}

/// A verification token is single use with an idempotent outcome: the first
/// consumption marks exactly its holder verified and clears the token; a
/// second consumption of the same token, at any later time, changes
/// nothing.
pub proof fn lemma_verify_idempotent(s: Seq<UserModel>, token: Seq<char>, n1: u64, n2: u64)
    requires
        users_wf(s),
    ensures
        verify_transition(verify_transition(s, token, n1), token, n2) == verify_transition(
            s,
            token,
            n1,
        ),
        vtoken_taken(s, token) ==> verify_transition(s, token, n1)[vtoken_index(
            s,
            token,
        )].email_verified_at == Some(n1),
{
    if vtoken_taken(s, token) {
        let i = vtoken_index(s, token);
        assert(vtoken_at(s, token, i));
        let s1 = verify_transition(s, token, n1);
        assert forall|j: int| 0 <= j < s1.len() implies !vtoken_at(s1, token, j) by {
            if j != i {
                assert(s1[j] == s[j]);
                assert(distinct_pair(s[j], s[i]));
            }
        }
        assert(!vtoken_taken(s1, token));
    }
}

/// A reset token is single use: consuming it installs the new hash and
/// clears the token in one step, so a second reset with the same token
/// changes nothing — the password from the first reset remains in effect.
pub proof fn lemma_reset_single_use(s: Seq<UserModel>, token: Seq<char>, h1: Seq<char>, h2: Seq<
    char,
>)
    requires
        users_wf(s),
        rtoken_taken(s, token),
    ensures
        ({
            let i = rtoken_index(s, token);
            let s1 = reset_transition(s, token, h1);
            &&& s1[i].password_hash == h1
            &&& s1[i].reset_token is None
            &&& !rtoken_taken(s1, token)
            &&& reset_transition(s1, token, h2) == s1
        }),
{
    let i = rtoken_index(s, token);
    assert(rtoken_at(s, token, i));
    let s1 = reset_transition(s, token, h1);
    assert forall|j: int| 0 <= j < s1.len() implies !rtoken_at(s1, token, j) by {
        if j != i {
            assert(s1[j] == s[j]);
            assert(distinct_pair(s[j], s[i]));
        }
    }
    assert(!rtoken_taken(s1, token));
}

/// Login failure is uniform across its causes: a registered address with a
/// password that does not match its stored hash, and an address nobody
/// registered, both satisfy `login_rejects` — and `AuthService::login`'s
/// contract maps every rejecting input to the one `InvalidCredentials`
/// outcome, so the two cases are indistinguishable by outcome.
pub proof fn lemma_login_rejects_uniformly(
    s: Seq<UserModel>,
    email1: Seq<char>,
    password1: Seq<char>,
    email2: Seq<char>,
    password2: Seq<char>,
)
    requires
        email_taken(s, email1),
        !password_matches(s[email_index(s, email1)].password_hash, password1),
        !email_taken(s, email2),
    ensures
        login_rejects(s, email1, password1),
        login_rejects(s, email2, password2),
{
}

/// The forgot flow is uniform and quiet: it has no failure outcome, an
/// unknown address changes nothing at all, and a known address changes
/// exactly one record — its reset-token slot — leaving every other record
/// untouched.
pub proof fn lemma_forgot_uniform(s: Seq<UserModel>, email: Seq<char>, token: Seq<char>, now: u64)
    requires
        users_wf(s),
    ensures
        !email_taken(s, email) ==> forgot_transition(s, email, token, now) == s,
        email_taken(s, email) ==> ({
            let i = email_index(s, email);
            let s1 = forgot_transition(s, email, token, now);
            &&& s1.len() == s.len()
            &&& s1[i] == UserModel { reset_token: Some(token), reset_sent_at: Some(now), ..s[i] }
            &&& forall|j: int| 0 <= j < s.len() && j != i ==> #[trigger] s1[j] == s[j]
        }),
{
}

} // verus!
