use inving::auth::{access_token, canonical_email, is_expired, password_hash, password_matches, prepare_registration, TokenRing};
use inving::contacts::{canonical_phone, contact_value_for};
use inving::request::{FieldError, RequestLogin, RequestRegister, RequestSetStatusSchedule, RequestUpdateCustomer, VerifyQuery};
use inving::verification::{verification_link, verification_message, LandingOutcome, Principal, Verification, VerificationStatus};

#[test]
fn email_is_trimmed_and_lowercased() {
    assert_eq!(canonical_email("A@X.io"), "a@x.io");
    assert_eq!(canonical_email("  Mixed.Case@Example.COM \n"), "mixed.case@example.com");
    assert_eq!(canonical_email(""), "");
    assert_eq!(canonical_email("\u{3000}A@X.io\u{a0}\t"), "a@x.io");
    assert_eq!(canonical_email(" a b "), "a b");
    assert_eq!(canonical_email("   "), "");
}

#[test]
fn registration_stores_canonical_email() {
    let reg = prepare_registration("Alice", "A@X.io", "hunter2", "somesaltvalue").unwrap();
    assert_eq!(reg.name, "Alice");
    assert_eq!(reg.email, "a@x.io");
    assert!(reg.password_hash.starts_with("$argon2i$v=19$m=512,t=2,p=1$"));
    assert_eq!(Some(reg.password_hash), password_hash(" hunter2 ", "somesaltvalue"));
    assert!(prepare_registration("Alice", "A@X.io", "hunter2", "abc").is_err());
}

#[test]
fn phone_numbers_are_canonical() {
    assert_eq!(canonical_phone("+6281122334455"), "6281122334455");
    assert_eq!(canonical_phone("081122334455"), "6281122334455");
    assert_eq!(canonical_phone("+081122334455"), "6281122334455");
    assert_eq!(canonical_phone("6281122334455"), "6281122334455");
    assert_eq!(canonical_phone("08+11+22"), "628+11+22");
    assert_eq!(canonical_phone("1+2"), "1+2");
    assert_eq!(canonical_phone("++0811"), "+0811");
    assert_eq!(canonical_phone("0"), "62");
    assert_eq!(canonical_phone(""), "");
    assert_eq!(canonical_phone("+"), "");
    assert_eq!(contact_value_for("whatsapp", "0811"), "62811");
    assert_eq!(contact_value_for("email", "+0a@x.io"), "+0a@x.io");
}

#[test]
fn at_most_two_tokens() {
    let mut ring = TokenRing { tokens: Vec::new() };
    assert!(ring.issue("t1".to_string()).is_empty());
    assert!(ring.issue("t2".to_string()).is_empty());
    assert_eq!(ring.issue("t3".to_string()), vec!["t1".to_string()]);
    assert_eq!(ring.tokens, vec!["t2".to_string(), "t3".to_string()]);
    let mut crowded = TokenRing { tokens: vec!["a".to_string(), "b".to_string(), "c".to_string()] };
    assert_eq!(crowded.issue("d".to_string()), vec!["a".to_string(), "b".to_string()]);
    assert_eq!(crowded.tokens, vec!["c".to_string(), "d".to_string()]);
}

#[test]
fn access_token_is_sha256_hex() {
    let t = access_token("u1", "salt", 123);
    assert_eq!(t, "bea06e7b06625e0cc638d8393eeae8691c755908f9d2ae2abe044344c04dc48b");
    assert_eq!(t.len(), 64);
    assert_ne!(access_token("u1", "salt", 124), t);
    assert!(t.chars().all(|c| c.is_ascii_digit() || ('a'..='f').contains(&c)));
}

#[test]
fn verification_link_used_once() {
    let mut v = Verification::start("v1".to_string(), Principal::User("u1".to_string()), 1000);
    assert_eq!(v.code.chars().count(), 6);
    assert!(v.code.chars().all(|c| c.is_ascii_alphanumeric()));
    assert_eq!(v.expires_at, Some(1300));
    assert_eq!(v.status, VerificationStatus::Pending);
    let code = v.code.clone();
    assert_eq!(v.land("not-it", 1050), LandingOutcome::Mismatch);
    assert_eq!(v.status, VerificationStatus::Pending);
    assert_eq!(v.land(&code, 1100), LandingOutcome::Verified);
    assert_eq!(v.status, VerificationStatus::Verified);
    assert_eq!(v.verified_at, Some(1100));
    assert_eq!(v.land(&code, 1200), LandingOutcome::AlreadyUsed);
    assert_eq!(v.verified_at, Some(1100));
}

#[test]
fn expired_link_changes_nothing() {
    let mut v = Verification::start("v2".to_string(), Principal::Customer("c1".to_string()), 1000);
    let code = v.code.clone();
    assert_eq!(v.land(&code, 1000 + 360), LandingOutcome::Expired);
    assert_eq!(v.status, VerificationStatus::Pending);
    assert_eq!(v.verified_at, None);
}

#[test]
fn verification_texts() {
    let link = verification_link("app.example", "abc123", "v1");
    assert_eq!(link, "http://app.example/verify?code=abc123&id=v1");
    assert_eq!(
        verification_message("whatsapp", "Ana", &link).unwrap(),
        "Hi Ana, please verify your account by clicking this link: http://app.example/verify?code=abc123&id=v1"
    );
    assert_eq!(
        verification_message("email", "Ana", "L").unwrap(),
        "Hello Ana, thank you for registering in Inving. Please click this link to verify your account: \n\nL"
    );
    assert_eq!(verification_message("telegram", "Ana", "L"), None);
    let q = VerifyQuery { id: Some("v1".to_string()), code: "abc123".to_string() };
    assert_eq!(q.code, "abc123");
}

#[test]
fn request_validation() {
    let ok = RequestLogin { email: "a@x.io".to_string(), password: "hunter2".to_string() };
    assert!(ok.validate().is_empty());
    let bad = RequestLogin { email: "abcdef".to_string(), password: "pw".to_string() };
    assert_eq!(bad.validate(), vec![FieldError::Email, FieldError::Password]);
    let reg = RequestRegister { name: "Al".to_string(), email: "a@x.io".to_string(), password: "hunter2".to_string() };
    assert_eq!(reg.validate(), vec![FieldError::Name]);
    let long = RequestRegister { name: "Alice".to_string(), email: "averyveryverylongname@example.com".to_string(), password: "hunter2".to_string() };
    assert_eq!(long.validate(), vec![FieldError::Email]);
    let upd = RequestUpdateCustomer { name: None, tags: None };
    assert_eq!(upd.validate(), vec![FieldError::Name, FieldError::Tags]);
    let upd = RequestUpdateCustomer { name: Some("Bobby".to_string()), tags: Some(vec!["vip".to_string()]) };
    assert!(upd.validate().is_empty());
    assert!(RequestSetStatusSchedule { status: "completed".to_string() }.validate().is_empty());
    assert!(RequestSetStatusSchedule { status: "canceled".to_string() }.validate().is_empty());
    assert_eq!(RequestSetStatusSchedule { status: "done".to_string() }.validate(), vec![FieldError::Status]);
}

#[test]
fn login_password_check() {
    let reg = prepare_registration("Alice", "A@X.io", "hunter2", "somesaltvalue").unwrap();
    assert!(password_matches(&reg.password_hash, "hunter2", "somesaltvalue"));
    assert!(password_matches(&reg.password_hash, " hunter2", "somesaltvalue"));
    assert!(!password_matches(&reg.password_hash, "Hunter2", "somesaltvalue"));
    assert!(!password_matches(&reg.password_hash, "hunter2", "short"));
    assert!(is_expired(100, 100));
    assert!(!is_expired(101, 100));
}
