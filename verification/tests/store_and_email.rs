use authflow::email::normalize_email;
use authflow::outcome::AuthError;
use authflow::store::UserStore;

#[test]
fn normalization_lowercases_ascii_only() {
    assert_eq!(normalize_email("AbC@X.cOm"), "abc@x.com");
    assert_eq!(normalize_email("already@lower.case"), "already@lower.case");
    assert_eq!(normalize_email(""), "");
    // Non-ASCII characters pass through unchanged; digits and punctuation too.
    assert_eq!(normalize_email("Üser+1@Mail.de"), "Üser+1@mail.de");
}

#[test]
fn empty_store_finds_nothing() {
    let s = UserStore::new();
    assert_eq!(s.find_by_email("a@b.c").unwrap_err(), AuthError::NotFound);
    assert_eq!(
        s.find_by_verification_token("tok").unwrap_err(),
        AuthError::NotFound
    );
    assert_eq!(s.find_by_reset_token("tok").unwrap_err(), AuthError::NotFound);
    assert!(!s.pid_exists("pid"));
    assert_eq!(s.len(), 0);
}

#[test]
fn create_then_lookup_roundtrip() {
    let mut s = UserStore::new();
    let i = s
        .create("Bob@Example.org", "Bob", "pid-bob".to_owned(), "$hash$".to_owned())
        .expect("fresh create succeeds");
    assert_eq!(i, 0);
    assert_eq!(s.find_by_email("bob@example.org").unwrap(), 0);
    assert_eq!(s.find_by_email("BOB@EXAMPLE.ORG").unwrap(), 0);
    assert!(s.pid_exists("pid-bob"));
    let u = s.user_at(0);
    assert_eq!(u.email, "bob@example.org");
    assert_eq!(u.id, 1);

    let dup = s.create("bob@example.org", "Bobby", "pid-2".to_owned(), "$h$".to_owned());
    assert_eq!(dup.unwrap_err(), AuthError::DuplicateEmail);
    assert_eq!(s.len(), 1);
}

#[test]
fn user_duplicate_copies_every_field() {
    let mut s = UserStore::new();
    let i = s
        .create("a@b.c", "A", "pid-a".to_owned(), "$hash$".to_owned())
        .expect("fresh create succeeds");
    s.set_verification_token(i, "vtok".to_owned(), 7);
    let d = s.user_at(i).duplicate();
    let u = s.user_at(i);
    assert_eq!(d.id, u.id);
    assert_eq!(d.pid, u.pid);
    assert_eq!(d.email, u.email);
    assert_eq!(d.name, u.name);
    assert_eq!(d.password_hash, u.password_hash);
    assert_eq!(d.email_verified_at, u.email_verified_at);
    assert_eq!(d.email_verification_token, u.email_verification_token);
    assert_eq!(d.email_verification_sent_at, u.email_verification_sent_at);
    assert_eq!(d.reset_token, u.reset_token);
    assert_eq!(d.reset_sent_at, u.reset_sent_at);
}

#[test]
fn token_slots_are_set_and_consumed_atomically() {
    let mut s = UserStore::new();
    let i = s
        .create("a@b.c", "A", "pid-a".to_owned(), "$hash$".to_owned())
        .expect("fresh create succeeds");

    s.set_verification_token(i, "vtok".to_owned(), 7);
    assert_eq!(s.find_by_verification_token("vtok").unwrap(), i);
    s.verify_user(i, 9);
    assert_eq!(s.user_at(i).email_verified_at, Some(9));
    assert!(s.user_at(i).email_verification_token.is_none());
    assert_eq!(
        s.find_by_verification_token("vtok").unwrap_err(),
        AuthError::NotFound
    );

    s.set_reset_token(i, "rtok".to_owned(), 11);
    assert_eq!(s.find_by_reset_token("rtok").unwrap(), i);
    s.update_password(i, "$newhash$".to_owned());
    assert_eq!(s.user_at(i).password_hash, "$newhash$");
    assert!(s.user_at(i).reset_token.is_none());
    assert_eq!(s.find_by_reset_token("rtok").unwrap_err(), AuthError::NotFound);
}
