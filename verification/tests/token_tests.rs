use accounts_core::errors::TokenError;
use accounts_core::token::{current_expiry, decode_jwt, extract_bearer_token, issue_jwt};

#[test]
fn round_trip_before_expiry() {
    let exp = current_expiry(3600);
    let token = issue_jwt(42, "janedoe", 7, exp, "secret");
    let claims = decode_jwt(&token, "secret").unwrap();
    assert_eq!(claims.sub, 42);
    assert_eq!(claims.username, "janedoe");
    assert_eq!(claims.token_version, 7);
    assert_eq!(claims.exp, exp);
}

#[test]
fn wrong_secret_is_invalid() {
    let exp = current_expiry(3600);
    let token = issue_jwt(42, "janedoe", 7, exp, "secret");
    assert!(matches!(decode_jwt(&token, "other"), Err(TokenError::Invalid)));
}

#[test]
fn tampered_token_is_invalid() {
    let exp = current_expiry(3600);
    let token = issue_jwt(42, "janedoe", 7, exp, "secret");
    let mut tampered = token.clone();
    tampered.push('x');
    assert!(matches!(decode_jwt(&tampered, "secret"), Err(TokenError::Invalid)));
    assert!(matches!(decode_jwt("garbage", "secret"), Err(TokenError::Invalid)));
}

#[test]
fn past_expiry_is_reported_expired() {
    // well past the default 60-second validation leeway
    let exp = current_expiry(-7200);
    let token = issue_jwt(42, "janedoe", 7, exp, "secret");
    assert!(matches!(decode_jwt(&token, "secret"), Err(TokenError::Expired)));
}

#[test]
fn bearer_token_extracted() {
    assert_eq!(extract_bearer_token("Bearer abc.def.ghi"), Some("abc.def.ghi".to_string()));
    assert_eq!(extract_bearer_token("Basic abc"), None);
    assert_eq!(extract_bearer_token("Bearer"), None);
    assert_eq!(extract_bearer_token(""), None);
    assert_eq!(extract_bearer_token("Bearer "), Some(String::new()));
    // a leading run of the prefix is stripped whole
    assert_eq!(extract_bearer_token("Bearer Bearer abc"), Some("abc".to_string()));
    assert_eq!(extract_bearer_token("Bearer Bearer Bearer x"), Some("x".to_string()));
}
