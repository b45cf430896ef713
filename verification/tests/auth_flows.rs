use authflow::flows::AuthService;
use authflow::outcome::{AuthError, MailTask};

const SECRET: &str = "test-signing-secret";
// A timestamp far enough in the future that issued sessions are not expired
// while the suite runs.
const NOW: u64 = 4_000_000_000;
const TTL: u64 = 3600;

fn service() -> AuthService {
    AuthService::new(SECRET.to_owned(), TTL)
}

fn welcome_token(task: &MailTask) -> String {
    match task {
        MailTask::Welcome { token, .. } => token.clone(),
        MailTask::PasswordReset { .. } => panic!("expected a welcome mail"),
    }
}

fn reset_token(task: &MailTask) -> String {
    match task {
        MailTask::PasswordReset { token, .. } => token.clone(),
        MailTask::Welcome { .. } => panic!("expected a password-reset mail"),
    }
}

#[test]
fn register_issues_welcome_with_token() {
    let mut a = service();
    let task = a
        .register("alice@example.com", "Alice", "correct horse", NOW)
        .expect("fresh registration succeeds");
    match &task {
        MailTask::Welcome { email, token } => {
            assert_eq!(email, "alice@example.com");
            assert_eq!(token.len(), 36);
        }
        _ => panic!("expected a welcome mail"),
    }
    assert_eq!(a.store.users.len(), 1);
    assert!(a.store.users[0].email_verified_at.is_none());
    assert!(a.store.users[0].reset_token.is_none());
}

#[test]
fn register_normalizes_email_case() {
    let mut a = service();
    let task = a
        .register("Alice@Example.COM", "Alice", "pw-one-two", NOW)
        .expect("fresh registration succeeds");
    match &task {
        MailTask::Welcome { email, .. } => assert_eq!(email, "alice@example.com"),
        _ => panic!("expected a welcome mail"),
    }
    // Lookup is case-normalized too: login under another casing works.
    assert!(a.login("ALICE@example.com", "pw-one-two", NOW).is_ok());
}

#[test]
fn duplicate_register_fails_and_mutates_nothing() {
    let mut a = service();
    a.register("alice@example.com", "Alice", "first password", NOW)
        .expect("fresh registration succeeds");
    let before_name = a.store.users[0].name.clone();
    let before_hash = a.store.users[0].password_hash.clone();

    let second = a.register("alice@example.com", "Impostor", "other password", NOW + 1);
    assert_eq!(second.unwrap_err(), AuthError::DuplicateEmail);
    // A case-variant of the address is the same address.
    let third = a.register("ALICE@EXAMPLE.COM", "Impostor", "other password", NOW + 2);
    assert_eq!(third.unwrap_err(), AuthError::DuplicateEmail);

    assert_eq!(a.store.users.len(), 1);
    assert_eq!(a.store.users[0].name, before_name);
    assert_eq!(a.store.users[0].password_hash, before_hash);
    // The old credential still works; the impostor's does not.
    assert!(a.login("alice@example.com", "first password", NOW).is_ok());
    assert_eq!(
        a.login("alice@example.com", "other password", NOW).unwrap_err(),
        AuthError::InvalidCredentials
    );
}

#[test]
fn verify_consumes_token_once_and_is_idempotent() {
    let mut a = service();
    let task = a
        .register("alice@example.com", "Alice", "correct horse", NOW)
        .expect("fresh registration succeeds");
    let t1 = welcome_token(&task);

    assert!(a.store.users[0].email_verified_at.is_none());
    a.verify(&t1, NOW + 5);
    assert_eq!(a.store.users[0].email_verified_at, Some(NOW + 5));
    assert!(a.store.users[0].email_verification_token.is_none());

    // Second consumption of the same token: uniform outcome, no state change.
    a.verify(&t1, NOW + 50);
    assert_eq!(a.store.users[0].email_verified_at, Some(NOW + 5));
    assert!(a.store.users[0].email_verification_token.is_none());

    // A token that never matched anything changes nothing either.
    a.verify("not-a-token", NOW + 60);
    assert_eq!(a.store.users[0].email_verified_at, Some(NOW + 5));
}

#[test]
fn login_failure_is_uniform_across_causes() {
    let mut a = service();
    a.register("alice@example.com", "Alice", "right password", NOW)
        .expect("fresh registration succeeds");

    let wrong_password = a.login("alice@example.com", "wrong password", NOW).unwrap_err();
    let unknown_email = a.login("nobody@example.com", "right password", NOW).unwrap_err();
    assert_eq!(wrong_password, AuthError::InvalidCredentials);
    assert_eq!(unknown_email, AuthError::InvalidCredentials);
    assert_eq!(wrong_password, unknown_email);
}

#[test]
fn forgot_answers_uniformly_and_issues_only_for_known_address() {
    let mut a = service();
    a.register("real@x.com", "Real", "a password", NOW)
        .expect("fresh registration succeeds");

    let unknown = a.forgot("nonexistent@x.com", NOW + 1);
    assert!(unknown.is_none());
    assert!(a.store.users[0].reset_token.is_none());

    let known = a.forgot("real@x.com", NOW + 2);
    let task = known.expect("a known address gets a reset mail");
    match &task {
        MailTask::PasswordReset { email, token } => {
            assert_eq!(email, "real@x.com");
            assert_eq!(a.store.users[0].reset_token.as_deref(), Some(token.as_str()));
            assert_eq!(a.store.users[0].reset_sent_at, Some(NOW + 2));
        }
        _ => panic!("expected a password-reset mail"),
    }
}

#[test]
fn reissued_reset_token_supersedes_the_previous_one() {
    let mut a = service();
    a.register("alice@example.com", "Alice", "old password", NOW)
        .expect("fresh registration succeeds");
    let first = reset_token(&a.forgot("alice@example.com", NOW + 1).unwrap());
    let second = reset_token(&a.forgot("alice@example.com", NOW + 2).unwrap());
    assert_ne!(first, second);

    // The superseded token no longer consumes anything.
    assert_eq!(
        a.reset(&first, "attacker password").unwrap_err(),
        AuthError::InvalidCredentials
    );
    assert!(a.reset(&second, "fresh password").is_ok());
    assert!(a.login("alice@example.com", "fresh password", NOW).is_ok());
}

#[test]
fn reset_is_single_use_and_first_password_stays() {
    let mut a = service();
    a.register("alice@example.com", "Alice", "old password", NOW)
        .expect("fresh registration succeeds");
    let t = reset_token(&a.forgot("alice@example.com", NOW + 1).unwrap());

    assert!(a.reset(&t, "newpw-one").is_ok());
    assert!(a.store.users[0].reset_token.is_none());

    let again = a.reset(&t, "newpw-two");
    assert_eq!(again.unwrap_err(), AuthError::InvalidCredentials);

    // The password from the first call remains in effect.
    assert!(a.login("alice@example.com", "newpw-one", NOW).is_ok());
    assert_eq!(
        a.login("alice@example.com", "newpw-two", NOW).unwrap_err(),
        AuthError::InvalidCredentials
    );
}

#[test]
fn end_to_end_register_verify_login_with_decodable_session() {
    let mut a = service();
    let task = a
        .register("alice@example.com", "Alice", "correct horse", NOW)
        .expect("fresh registration succeeds");
    let t1 = welcome_token(&task);
    a.verify(&t1, NOW + 1);

    let resp = a
        .login("alice@example.com", "correct horse", NOW + 2)
        .expect("login with the right password succeeds");
    assert!(resp.is_verified);
    assert_eq!(resp.name, "Alice");
    assert_eq!(resp.pid, a.store.users[0].pid);

    // The session credential is self-contained: decoding it (as downstream
    // request authorization would) recovers alice's public id and expiry.
    let decoded = jsonwebtoken::decode::<serde_json::Value>(
        &resp.token,
        &jsonwebtoken::DecodingKey::from_secret(SECRET.as_bytes()),
        &jsonwebtoken::Validation::new(jsonwebtoken::Algorithm::HS256),
    )
    .expect("the issued session token decodes under the same secret");
    assert_eq!(
        decoded.claims.get("pid").and_then(|v| v.as_str()),
        Some(resp.pid.as_str())
    );
    assert_eq!(
        decoded.claims.get("exp").and_then(|v| v.as_u64()),
        Some(NOW + 2 + TTL)
    );

    // A tampered secret must not validate the token.
    assert!(jsonwebtoken::decode::<serde_json::Value>(
        &resp.token,
        &jsonwebtoken::DecodingKey::from_secret(b"some other secret"),
        &jsonwebtoken::Validation::new(jsonwebtoken::Algorithm::HS256),
    )
    .is_err());
}

#[test]
fn end_to_end_forgot_reset_login() {
    let mut a = service();
    a.register("alice@example.com", "Alice", "old password", NOW)
        .expect("fresh registration succeeds");

    let t2 = reset_token(&a.forgot("alice@example.com", NOW + 1).unwrap());
    // Issuing the reset token invalidates nothing yet.
    assert!(a.login("alice@example.com", "old password", NOW + 2).is_ok());

    assert!(a.reset(&t2, "newpass123").is_ok());
    assert!(a.login("alice@example.com", "newpass123", NOW + 3).is_ok());
    assert_eq!(
        a.login("alice@example.com", "old password", NOW + 4).unwrap_err(),
        AuthError::InvalidCredentials
    );
}

#[test]
fn accounts_get_distinct_identities() {
    let mut a = service();
    let t1 = a
        .register("alice@example.com", "Alice", "pw-alice", NOW)
        .expect("fresh registration succeeds");
    let t2 = a
        .register("bob@example.com", "Bob", "pw-bob", NOW)
        .expect("fresh registration succeeds");
    assert_ne!(a.store.users[0].pid, a.store.users[1].pid);
    assert_ne!(a.store.users[0].id, a.store.users[1].id);
    assert_ne!(welcome_token(&t1), welcome_token(&t2));
}

#[test]
fn stored_hash_is_salted_one_way_and_checkable() {
    let mut a = service();
    a.register("alice@example.com", "Alice", "plain secret", NOW)
        .expect("fresh registration succeeds");
    let user = &a.store.users[0];
    assert!(!user.password_hash.is_empty());
    assert_ne!(user.password_hash, "plain secret");
    assert!(user.verify_password("plain secret"));
    assert!(!user.verify_password("plain secre"));
}
