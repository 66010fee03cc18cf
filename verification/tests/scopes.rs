use user_permission::error::BindingError;
use user_permission::service_client::{is_known_scope_str, validate_scopes};

fn strings(items: &[&str]) -> Vec<String> {
    items.iter().map(|s| s.to_string()).collect()
}

fn refused_scope(r: Result<(), BindingError>) -> Option<String> {
    match r {
        Err(BindingError::UnknownScope { scope }) => Some(scope),
        _ => None,
    }
}

#[test]
fn empty_scope_list_is_valid() {
    assert!(validate_scopes(vec![]).is_ok());
}

#[test]
fn read_scopes_are_valid() {
    assert!(validate_scopes(strings(&["users:read"])).is_ok());
    assert!(validate_scopes(strings(&["groups:read"])).is_ok());
    assert!(validate_scopes(strings(&["users:read", "groups:read"])).is_ok());
    assert!(validate_scopes(strings(&["groups:read", "groups:read"])).is_ok());
}

#[test]
fn write_and_admin_scopes_are_refused() {
    assert_eq!(
        refused_scope(validate_scopes(strings(&["users:write"]))),
        Some("users:write".to_string())
    );
    assert_eq!(refused_scope(validate_scopes(strings(&["admin"]))), Some("admin".to_string()));
    assert_eq!(refused_scope(validate_scopes(strings(&[""]))), Some(String::new()));
    assert_eq!(
        refused_scope(validate_scopes(strings(&["Users:Read"]))),
        Some("Users:Read".to_string())
    );
}

#[test]
fn first_refused_scope_is_named() {
    assert_eq!(
        refused_scope(validate_scopes(strings(&["users:read", "admin", "groups:write"]))),
        Some("admin".to_string())
    );
}

#[test]
fn scope_lists_compose() {
    let a = strings(&["users:read"]);
    let b = strings(&["groups:read"]);
    let bad = strings(&["users:delete"]);
    let mut ab = a.clone();
    ab.extend(b.clone());
    assert!(validate_scopes(ab).is_ok());
    let mut a_bad = a.clone();
    a_bad.extend(bad.clone());
    assert!(validate_scopes(a_bad).is_err());
    let mut bad_b = bad.clone();
    bad_b.extend(b);
    assert!(validate_scopes(bad_b).is_err());
}

#[test]
fn known_scope_check() {
    assert!(is_known_scope_str("users:read"));
    assert!(is_known_scope_str("groups:read"));
    assert!(!is_known_scope_str("users:read "));
    assert!(!is_known_scope_str("groups"));
}

#[test]
fn core_scope_constants_are_the_known_scopes() {
    assert!(is_known_scope_str(user_permission_core::SCOPE_USERS_READ));
    assert!(is_known_scope_str(user_permission_core::SCOPE_GROUPS_READ));
    let all: Vec<String> = user_permission_core::ALL_SCOPES.iter().map(|s| s.to_string()).collect();
    assert_eq!(all.len(), 2);
    assert!(validate_scopes(all).is_ok());
}
