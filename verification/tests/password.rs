use user_permission::password::{hash_password, verify_password};

#[test]
fn hashed_password_verifies() {
    let hashed = hash_password("password123").unwrap();
    assert!(hashed.starts_with("$argon2id$"));
    assert!(verify_password("password123", &hashed));
}

#[test]
fn wrong_password_is_refused() {
    let hashed = hash_password("password123").unwrap();
    assert!(!verify_password("password124", &hashed));
    assert!(!verify_password("", &hashed));
}

#[test]
fn malformed_hash_is_refused() {
    assert!(!verify_password("anything", "not-a-phc-string"));
    assert!(!verify_password("", ""));
}

#[test]
fn hashes_are_salted() {
    let a = hash_password("same").unwrap();
    let b = hash_password("same").unwrap();
    assert_ne!(a, b);
    assert!(verify_password("same", &a));
    assert!(verify_password("same", &b));
}
