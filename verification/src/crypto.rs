//! Trusted boundary to the cryptographic crates: password hashing and
//! verification, session-token signing, and random opaque tokens.
//!
//! Everything here is believed, not proved; each item states only what the
//! outside crate's source and documentation plainly give.

use vstd::prelude::*;

verus! {

/// Whether argon2 verification of the PHC hash string `hash` against the
/// plaintext `password` succeeds. Verification re-computes the hash from the
/// salt and parameters carried inside `hash`, so the outcome is a function
/// of the two arguments alone.
pub uninterp spec fn password_matches(hash: Seq<char>, password: Seq<char>) -> bool;

/// The token that jsonwebtoken's HMAC signing produces for the claims
/// `{pid, exp}` under `secret`. HMAC signing and the default header are
/// deterministic, so the result is a function of the arguments alone.
pub uninterp spec fn session_token_of(pid: Seq<char>, exp: u64, secret: Seq<char>) -> Seq<char>;

/// Relies on argon2's `PasswordHasher::hash_password` with a freshly
/// generated random salt: on success the returned PHC string verifies
/// against the same password.
#[verifier::external_body]
pub(crate) fn hash_password(password: &str) -> (r: Option<String>)
    ensures
        r matches Some(h) ==> password_matches(h@, password@),
{
    let salt = password_hash::SaltString::generate(&mut password_hash::rand_core::OsRng);
    match argon2::PasswordHasher::hash_password(
        &argon2::Argon2::default(),
        password.as_bytes(),
        &salt,
    ) {
        Ok(h) => Some(h.to_string()),
        Err(_) => None,
    }
}

/// Relies on argon2's `PasswordVerifier::verify_password`: parsing the PHC
/// string and re-computing the hash is deterministic in the two arguments.
#[verifier::external_body]
pub(crate) fn check_password(hash: &str, password: &str) -> (r: bool)
    ensures
        r == password_matches(hash@, password@),
{
    match argon2::PasswordHash::new(hash) {
        Ok(parsed) => argon2::PasswordVerifier::verify_password(
            &argon2::Argon2::default(),
            password.as_bytes(),
            &parsed,
        ).is_ok(),
        Err(_) => false,
    }
}

/// Relies on jsonwebtoken's `encode` with the default HMAC header: the token
/// is a deterministic function of the claims `{pid, exp}` and the secret.
/// For an HMAC key under that header the call cannot fail — its signing path
/// returns unconditionally, and serializing the fixed header and the
/// string/integer claims cannot error — so a token is always produced.
#[verifier::external_body]
pub(crate) fn sign_session(pid: &str, exp: u64, secret: &str) -> (r: String)
    ensures
        r@ == session_token_of(pid@, exp, secret@),
{
    let mut claims = serde_json::Map::new();
    claims.insert("pid".to_string(), serde_json::Value::String(pid.to_string()));
    claims.insert("exp".to_string(), serde_json::Value::Number(serde_json::Number::from(exp)));
    jsonwebtoken::encode(
        &jsonwebtoken::Header::default(),
        &serde_json::Value::Object(claims),
        &jsonwebtoken::EncodingKey::from_secret(secret.as_bytes()),
    )
    .unwrap()
}

/// Relies on `uuid::Uuid::new_v4` and its hyphenated rendering: a fresh
/// random version-4 UUID printed as 36 characters. Nothing relates two
/// calls; collisions are only improbable, so freshness is re-checked by the
/// verified callers.
#[verifier::external_body]
pub(crate) fn fresh_token() -> (r: String)
    ensures
        r@.len() == 36,
{
    uuid::Uuid::new_v4().to_string()
}

} // verus!
