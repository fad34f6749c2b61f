use vegar::error::Error;
use vegar::hash::{hash_password, verify_password};

#[test]
fn hashed_password_verifies() {
    let hash = hash_password("correct horse").unwrap();
    assert!(hash.starts_with("$argon2id$"));
    assert!(verify_password("correct horse", &hash));
    assert!(!verify_password("wrong horse", &hash));
}

#[test]
fn hashes_are_salted() {
    let a = hash_password("secret").unwrap();
    let b = hash_password("secret").unwrap();
    assert_ne!(a, b);
    assert!(verify_password("secret", &a));
    assert!(verify_password("secret", &b));
}

#[test]
fn malformed_hash_verifies_nothing() {
    assert!(!verify_password("secret", "not a hash"));
    assert!(!verify_password("secret", ""));
}

#[test]
fn hash_error_maps_to_password_hash_error() {
    let e: Error = Error::from(argon2::password_hash::Error::Password);
    assert!(matches!(e, Error::PasswordHashError(_)));
    assert_eq!(e.status_code(), 500);
}
