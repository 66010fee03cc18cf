use serde_json::Value;
use user_permission::error::BindingError;
use user_permission::token::{
    algorithm_from_str, token_lifetime_secs, JwtAlgorithm, PyTokenManager,
    DEFAULT_TOKEN_LIFETIME_SECS,
};

fn claims(text: &str) -> serde_json::Map<String, Value> {
    match serde_json::from_str::<Value>(text).unwrap() {
        Value::Object(m) => m,
        other => panic!("claims are not an object: {other}"),
    }
}

#[test]
fn known_algorithms_are_selected() {
    assert_eq!(algorithm_from_str("HS256").unwrap(), JwtAlgorithm::HS256);
    assert_eq!(algorithm_from_str("HS384").unwrap(), JwtAlgorithm::HS384);
    assert_eq!(algorithm_from_str("HS512").unwrap(), JwtAlgorithm::HS512);
}

#[test]
fn unknown_algorithms_are_refused() {
    for name in ["hs256", "RS256", "", "HS256 ", "ES256"] {
        match algorithm_from_str(name) {
            Err(BindingError::UnsupportedAlgorithm { name: n }) => assert_eq!(n, name),
            other => panic!("unexpected result for {name}: {other:?}"),
        }
    }
}

#[test]
fn token_manager_refuses_unknown_algorithm() {
    match PyTokenManager::new("secret", "RS512") {
        Err(BindingError::UnsupportedAlgorithm { name }) => assert_eq!(name, "RS512"),
        _ => panic!("RS512 must be refused"),
    }
}

#[test]
fn default_lifetime_is_one_hour() {
    assert_eq!(DEFAULT_TOKEN_LIFETIME_SECS, 3600);
    assert_eq!(token_lifetime_secs(None), 3600);
    assert_eq!(token_lifetime_secs(Some(0)), 0);
    assert_eq!(token_lifetime_secs(Some(86400)), 86400);
}

#[test]
fn created_token_verifies_with_its_claims() {
    for alg in ["HS256", "HS384", "HS512"] {
        let manager = PyTokenManager::new("test-secret", alg).unwrap();
        let token = manager.create_token(42, "alice", None, None).unwrap();
        let c = claims(&manager.verify_token(&token).unwrap());
        assert_eq!(c["sub"], Value::String("42".into()));
        assert_eq!(c["username"], Value::String("alice".into()));
        let iat = c["iat"].as_i64().unwrap();
        let exp = c["exp"].as_i64().unwrap();
        assert_eq!(exp - iat, 3600);
    }
}

#[test]
fn lifetime_is_carried_into_token() {
    let manager = PyTokenManager::new("k", "HS256").unwrap();
    let token = manager.create_token(1, "bob", Some(120), None).unwrap();
    let c = claims(&manager.verify_token(&token).unwrap());
    assert_eq!(c["exp"].as_i64().unwrap() - c["iat"].as_i64().unwrap(), 120);
}

#[test]
fn extra_claims_are_included() {
    let manager = PyTokenManager::new("k", "HS256").unwrap();
    let token = manager
        .create_token(1, "alice", None, Some("{\"is_admin\": true, \"team\": \"ops\"}"))
        .unwrap();
    let c = claims(&manager.verify_token(&token).unwrap());
    assert_eq!(c["is_admin"], Value::Bool(true));
    assert_eq!(c["team"], Value::String("ops".into()));
}

#[test]
fn non_object_extra_claims_add_nothing() {
    let manager = PyTokenManager::new("k", "HS256").unwrap();
    let token = manager.create_token(5, "carol", None, Some("[1, 2, 3]")).unwrap();
    let c = claims(&manager.verify_token(&token).unwrap());
    let mut keys: Vec<&String> = c.keys().collect();
    keys.sort();
    assert_eq!(keys, vec!["exp", "iat", "sub", "username"]);
}

#[test]
fn malformed_extra_claims_are_refused() {
    let manager = PyTokenManager::new("k", "HS256").unwrap();
    match manager.create_token(1, "alice", None, Some("{not json")) {
        Err(BindingError::InvalidClaims(_)) => {}
        other => panic!("expected InvalidClaims, got {other:?}"),
    }
}

#[test]
fn token_from_other_secret_is_refused() {
    let issuer = PyTokenManager::new("one", "HS256").unwrap();
    let verifier = PyTokenManager::new("two", "HS256").unwrap();
    let token = issuer.create_token(1, "alice", None, None).unwrap();
    assert!(matches!(verifier.verify_token(&token), Err(BindingError::Core(_))));
    assert!(matches!(verifier.verify_token("not-a-token"), Err(BindingError::Core(_))));
}

#[test]
fn service_token_carries_scopes() {
    let manager = PyTokenManager::new("k", "HS256").unwrap();
    let token = manager
        .create_service_token(
            "svc_1",
            vec!["users:read".to_string(), "groups:read".to_string()],
            None,
        )
        .unwrap();
    let c = claims(&manager.verify_token(&token).unwrap());
    assert_eq!(c["sub"], Value::String("service:svc_1".into()));
    assert_eq!(c["client_id"], Value::String("svc_1".into()));
    assert_eq!(c["kind"], Value::String("service".into()));
    assert_eq!(c["scope"], Value::String("users:read groups:read".into()));
    assert_eq!(c["exp"].as_i64().unwrap() - c["iat"].as_i64().unwrap(), 3600);
}

fn is_base64url_segment(s: &str) -> bool {
    !s.is_empty() && s.chars().all(|c| c.is_ascii_alphanumeric() || c == '-' || c == '_')
}

#[test]
fn service_token_is_compact_jwt() {
    let manager = PyTokenManager::new("k", "HS512").unwrap();
    let token = manager
        .create_service_token("svc_2", vec!["groups:read".to_string()], Some(60))
        .unwrap();
    let parts: Vec<&str> = token.split('.').collect();
    assert_eq!(parts.len(), 3);
    assert!(parts.iter().all(|p| is_base64url_segment(p)));
}

#[test]
fn verified_claims_are_object_text() {
    let manager = PyTokenManager::new("k", "HS256").unwrap();
    let token = manager.create_service_token("svc_3", vec![], None).unwrap();
    let text = manager.verify_token(&token).unwrap();
    assert!(text.starts_with('{'));
    assert!(text.ends_with('}'));
    assert!(matches!(serde_json::from_str::<Value>(&text).unwrap(), Value::Object(_)));
}

fn base64url_decode(segment: &str) -> Vec<u8> {
    let mut bits: u32 = 0;
    let mut count: u32 = 0;
    let mut out = Vec::new();
    for c in segment.chars() {
        let v = match c {
            'A'..='Z' => c as u32 - 'A' as u32,
            'a'..='z' => c as u32 - 'a' as u32 + 26,
            '0'..='9' => c as u32 - '0' as u32 + 52,
            '-' => 62,
            '_' => 63,
            _ => panic!("not base64url: {c}"),
        };
        bits = (bits << 6) | v;
        count += 6;
        if count >= 8 {
            count -= 8;
            out.push(((bits >> count) & 0xff) as u8);
        }
    }
    out
}

fn payload_text(token: &str) -> String {
    let middle = token.split('.').nth(1).unwrap();
    String::from_utf8(base64url_decode(middle)).unwrap()
}

#[test]
fn user_token_payload_is_written_claims() {
    let manager = PyTokenManager::new("k", "HS256").unwrap();
    let token = manager
        .create_token(42, "al\"ice", Some(10), Some("{\"team\":\"ops\",\"sub\":\"x\"}"))
        .unwrap();
    let payload = payload_text(&token);
    let c = claims(&payload);
    let iat = c["iat"].as_i64().unwrap();
    let expected = format!(
        "{{\"exp\":{},\"iat\":{},\"sub\":\"x\",\"team\":\"ops\",\"username\":\"al\\\"ice\"}}",
        iat + 10,
        iat
    );
    assert_eq!(payload, expected);
    assert_eq!(manager.verify_token(&token).unwrap(), expected);
}

#[test]
fn service_token_payload_is_written_claims() {
    let manager = PyTokenManager::new("k", "HS384").unwrap();
    let token = manager
        .create_service_token(
            "svc_9",
            vec!["users:read".to_string(), "groups:read".to_string()],
            Some(5),
        )
        .unwrap();
    let payload = payload_text(&token);
    let iat = claims(&payload)["iat"].as_i64().unwrap();
    let expected = format!(
        "{{\"client_id\":\"svc_9\",\"exp\":{},\"iat\":{},\"kind\":\"service\",\"scope\":\"users:read groups:read\",\"sub\":\"service:svc_9\"}}",
        iat + 5,
        iat
    );
    assert_eq!(payload, expected);
}

#[test]
fn asymmetric_manager_cannot_issue_or_verify() {
    let core = user_permission_core::TokenManager::new("k", jsonwebtoken::Algorithm::RS256);
    let manager = PyTokenManager::from_inner(core);
    assert!(matches!(manager.create_token(1, "a", None, None), Err(BindingError::Core(_))));
    assert!(matches!(
        manager.create_service_token("svc", vec![], None),
        Err(BindingError::Core(_))
    ));
    let hmac = PyTokenManager::new("k", "HS256").unwrap();
    let token = hmac.create_token(1, "a", None, None).unwrap();
    assert!(matches!(manager.verify_token(&token), Err(BindingError::Core(_))));
}

#[test]
fn manager_rejects_token_of_other_algorithm() {
    let a = PyTokenManager::new("k", "HS256").unwrap();
    let b = PyTokenManager::new("k", "HS512").unwrap();
    let token = a.create_token(1, "a", None, None).unwrap();
    assert!(matches!(b.verify_token(&token), Err(BindingError::Core(_))));
    assert!(a.verify_token(&token).is_ok());
}

#[test]
fn verified_claims_escape_strings_as_json() {
    let manager = PyTokenManager::new("k", "HS256").unwrap();
    let token = manager.create_token(-3, "a\\b\n\u{1}", None, None).unwrap();
    let text = manager.verify_token(&token).unwrap();
    assert!(text.contains("\"sub\":\"-3\""));
    assert!(text.contains("\"username\":\"a\\\\b\\n\\u0001\""));
}
