//! Verified core of an account-lifecycle subsystem: registration with email
//! verification, credential login issuing a signed session token, and a
//! forgot/reset password flow built on single-use opaque tokens.
//!
//! The store of user records and the five flows are verified; password
//! hashing, session signing, and random token generation are calls into
//! outside crates behind trusted wrappers.

pub mod crypto;
pub mod email;
pub mod flows;
pub mod laws;
pub mod outcome;
pub mod store;
pub mod user;
