use base64::Engine;
use daneel::api::auth::{bearer_token, generate_token, ApiKeys};

fn kin(secret: Option<Vec<u8>>) -> ApiKeys {
    ApiKeys::new().with_key("KIN", "Kin (Example)", secret)
}

#[test]
fn test_token_generation_and_validation() {
    let secret = b"test_secret_key_32_bytes_long!!!";
    let token = generate_token("GROK", secret);

    let keys = ApiKeys::grok(Some(secret.to_vec()));

    let auth = keys.validate(&token);
    assert!(auth.is_some());
    assert_eq!(auth.unwrap().key_id, "GROK");
}

#[test]
fn test_invalid_token_rejected() {
    let keys = ApiKeys::grok(Some(b"real_secret".to_vec()));

    let bad_token = "GROK:invalid_signature";
    assert!(keys.validate(bad_token).is_none());
}

#[test]
fn second_key_validation() {
    let secret = b"kin_secret_key_32_bytes_long!!!!";
    let token = generate_token("KIN", secret);

    let keys = ApiKeys::grok(None).with_key("KIN", "Kin (Example)", Some(secret.to_vec()));

    let auth = keys.validate(&token);
    assert!(auth.is_some());
    let auth = auth.unwrap();
    assert_eq!(auth.key_id, "KIN");
    assert_eq!(auth.holder, "Kin (Example)");
    assert!(kin(Some(secret.to_vec())).validate(&token).is_some());
    assert!(kin(Some(b"other".to_vec())).validate(&token).is_none());
}

#[test]
fn test_grok_key_holder_info() {
    let secret = b"grok_secret_key_32_bytes_long!!!";
    let token = generate_token("GROK", secret);

    let keys = ApiKeys::grok(Some(secret.to_vec()));

    let auth = keys.validate(&token).unwrap();
    assert_eq!(auth.holder, "Grok (xAI)");
}

#[test]
fn test_token_format_no_colon() {
    let keys = ApiKeys::grok(Some(b"secret".to_vec()));
    assert!(keys.validate("no_colon_token").is_none());
}

#[test]
fn test_token_format_multiple_colons() {
    let keys = ApiKeys::grok(Some(b"secret".to_vec()));
    assert!(keys.validate("GROK:sig:extra").is_none());
}

#[test]
fn test_unknown_key_id() {
    let keys = ApiKeys::grok(Some(b"secret".to_vec())).with_key("KIN", "Kin (Example)", Some(b"secret".to_vec()));
    assert!(keys.validate("UNKNOWN:dGVzdA==").is_none());
}

#[test]
fn test_missing_key_returns_none() {
    let keys = ApiKeys::grok(None).with_key("KIN", "Kin (Example)", None);
    assert!(keys.validate("GROK:dGVzdA==").is_none());
    assert!(keys.validate("KIN:dGVzdA==").is_none());
}

#[test]
fn test_wrong_key_secret() {
    let secret = b"correct_secret";
    let wrong_secret = b"wrong_secret_xx";
    let token = generate_token("GROK", secret);

    let keys = ApiKeys::grok(Some(wrong_secret.to_vec()));
    assert!(keys.validate(&token).is_none());
}

#[test]
fn test_generate_token_format() {
    let secret = b"test_secret";
    let token = generate_token("GROK", secret);

    let parts: Vec<&str> = token.split(':').collect();
    assert_eq!(parts.len(), 2);
    assert_eq!(parts[0], "GROK");

    assert!(base64::engine::general_purpose::STANDARD.decode(parts[1]).is_ok());
}

#[test]
fn generated_signature_is_known_hmac() {
    let token = generate_token("GROK", b"key");
    assert_eq!(token, "GROK:lAJXevPESnFL5FPI6vN1xYuqG9eSV6xmMxQKasuG5Mc=");
    let keys = ApiKeys::grok(Some(b"key".to_vec()));
    assert!(keys.validate("GROK:lAJXevPESnFL5FPI6vN1xYuqG9eSV6xmMxQKasuG5Mc=").is_some());
    assert!(keys.validate(&token).is_some());
    let other = generate_token("GROK", b"key2");
    assert_ne!(token, other);
}

#[test]
fn test_extract_bearer_token_valid() {
    assert_eq!(bearer_token("Bearer test_token_123"), Some("test_token_123"));
}

#[test]
fn test_extract_bearer_token_wrong_scheme() {
    assert_eq!(bearer_token("Basic dXNlcjpwYXNz"), None);
}

#[test]
fn test_extract_bearer_token_empty_value() {
    assert_eq!(bearer_token("Bearer "), Some(""));
    assert_eq!(bearer_token("Bear"), None);
}

#[test]
fn encoded_secrets_are_decoded() {
    let secret = b"environment_secret";
    let encoded = base64::engine::general_purpose::STANDARD.encode(secret);
    let keys = ApiKeys::new().with_encoded_key("GROK", "Grok (xAI)", Some(&encoded));
    let token = generate_token("GROK", secret);
    assert!(keys.validate(&token).is_some());

    let undecodable = ApiKeys::new().with_encoded_key("GROK", "Grok (xAI)", Some("not base64!"));
    assert!(undecodable.validate(&token).is_none());
    let missing = ApiKeys::new().with_encoded_key("GROK", "Grok (xAI)", None);
    assert!(missing.validate(&token).is_none());
}
