//! Error taxonomy and transport-neutral outcome values of the flows.

use vstd::prelude::*;
use crate::user::User;

verus! {

/// The error taxonomy of the subsystem.
///
/// `NotFound` and `InvalidCredentials` are deliberately coarse: the flows
/// never tell a caller whether an email is registered or which of
/// email/password/token was wrong. `SigningFailure` and
/// `PersistenceFailure` are internal hard errors; the HMAC session signer
/// used here cannot fail, so `SigningFailure` stands in the taxonomy for
/// signers that can.
#[derive(Clone, Copy, Debug, PartialEq, Eq, Structural)]
pub enum AuthError {
    NotFound,
    DuplicateEmail,
    InvalidCredentials,
    SigningFailure,
    PersistenceFailure,
}

/// A command for the external mailer. The flows never send mail themselves:
/// they return the message to dispatch, and a mailer failure cannot roll
/// back the state change that was already applied.
#[derive(Debug)]
pub enum MailTask {
    Welcome { email: String, token: String },
    PasswordReset { email: String, token: String },
}

/// What a successful login hands back: the signed session credential and an
/// identity summary. The internal numeric user id is never part of it.
#[derive(Debug)]
pub struct LoginResponse {
    pub token: String,
    pub pid: String,
    pub name: String,
    pub is_verified: bool,
}

impl LoginResponse {
    /// The identity summary of `user` together with its freshly minted
    /// session token.
    pub fn new(user: &User, token: &String) -> (r: LoginResponse)
        ensures
            r.token@ == token@,
            r.pid@ == user@.pid,
            r.name@ == user@.name,
            r.is_verified == (user@.email_verified_at is Some),
    {
        LoginResponse {
            token: token.clone(),
            pid: user.pid.clone(),
            name: user.name.clone(),
            is_verified: user.email_verified_at.is_some(),
        }
    }
}

} // verus!
