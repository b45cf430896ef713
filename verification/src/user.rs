//! The user record: one account, its credential hash, its verification
//! state, and the two single-use token slots.

use vstd::prelude::*;
use crate::email::is_normalized;
use crate::crypto::{password_matches, session_token_of, check_password, sign_session};
use crate::outcome::AuthError;

verus! {

/// Mathematical model of one user record.
#[verifier::ext_equal]
pub ghost struct UserModel {
    pub id: u64,
    pub pid: Seq<char>,
    pub email: Seq<char>,
    pub name: Seq<char>,
    pub password_hash: Seq<char>,
    pub email_verified_at: Option<u64>,
    pub email_verification_token: Option<Seq<char>>,
    pub email_verification_sent_at: Option<u64>,
    pub reset_token: Option<Seq<char>>,
    pub reset_sent_at: Option<u64>,
}

/// One persisted account.
///
/// `id` is the internal numeric key and is never exposed to clients; `pid`
/// is the stable opaque public identifier. `email` is held in its
/// case-normalized form. A `Some` in `email_verified_at` means the address
/// is verified.
pub struct User {
    pub id: u64,
    pub pid: String,
    pub email: String,
    pub name: String,
    pub password_hash: String,
    pub email_verified_at: Option<u64>,
    pub email_verification_token: Option<String>,
    pub email_verification_sent_at: Option<u64>,
    pub reset_token: Option<String>,
    pub reset_sent_at: Option<u64>,
}

pub open spec fn opt_view(o: Option<String>) -> Option<Seq<char>> {
    match o {
        Some(s) => Some(s@),
        None => None,
    }
}

impl View for User {
    type V = UserModel;

    open spec fn view(&self) -> UserModel {
        UserModel {
            id: self.id,
            pid: self.pid@,
            email: self.email@,
            name: self.name@,
            password_hash: self.password_hash@,
            email_verified_at: self.email_verified_at,
            email_verification_token: opt_view(self.email_verification_token),
            email_verification_sent_at: self.email_verification_sent_at,
            reset_token: opt_view(self.reset_token),
            reset_sent_at: self.reset_sent_at,
        }
    }
}

/// Well-formedness of one record: the stored email is already normalized,
/// the password hash is never empty, and a verified account holds no
/// outstanding verification token (consumption cleared it atomically).
pub open spec fn user_valid(u: UserModel) -> bool {
    &&& is_normalized(u.email)
    &&& u.password_hash.len() > 0
    &&& u.email_verified_at is Some ==> u.email_verification_token is None
}

impl User {
    /// A field-for-field copy with the same model.
    pub fn duplicate(&self) -> (r: User)
        ensures
            r@ == self@,
    {
        User {
            id: self.id,
            pid: self.pid.clone(),
            email: self.email.clone(),
            name: self.name.clone(),
            password_hash: self.password_hash.clone(),
            email_verified_at: self.email_verified_at,
            email_verification_token: match &self.email_verification_token {
                Some(t) => Some(t.clone()),
                None => None,
            },
            email_verification_sent_at: self.email_verification_sent_at,
            reset_token: match &self.reset_token {
                Some(t) => Some(t.clone()),
                None => None,
            },
            reset_sent_at: self.reset_sent_at,
        }
    }

    /// Credential check: the plaintext against the stored salted hash. The
    /// plaintext is neither stored nor echoed.
    pub fn verify_password(&self, password: &str) -> (r: bool)
        ensures
            r == password_matches(self@.password_hash, password@),
    {
        check_password(self.password_hash.as_str(), password)
    }

    /// Mints the signed, self-contained session credential asserting this
    /// user's public identifier and the expiry instant `exp`. The HMAC
    /// signer cannot fail, so success is owed; the `Result` shape is kept
    /// for callers and transports whose signer could (`SigningFailure`).
    pub fn generate_jwt(&self, secret: &str, exp: u64) -> (r: Result<String, AuthError>)
        ensures
            r matches Ok(t) && t@ == session_token_of(self@.pid, exp, secret@),
    {
        Ok(sign_session(self.pid.as_str(), exp, secret))
    }
}

} // verus!
