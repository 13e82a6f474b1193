use mesowest::auth;
use mesowest::key::{ApiKey, ApiToken, NotImplemented};

#[test]
fn key_accessor_is_idempotent() {
    let key = ApiKey::new("ABC123");
    assert_eq!(key.as_str(), key.as_str());
    assert_eq!(key.as_str(), "ABC123");
}

#[test]
fn token_accessor_is_idempotent() {
    let token = ApiToken::new("AHHHHHHHHHHHHHHHHHHHHHHHHHHHHHHHH");
    assert_eq!(token.as_str(), token.as_str());
    assert_eq!(token.as_str(), "AHHHHHHHHHHHHHHHHHHHHHHHHHHHHHHHH");
}

#[test]
fn key_display_is_always_the_placeholder() {
    let one = auth::ApiKey::new("ABC123");
    let other = auth::ApiKey::new("an-entirely-different-key");
    assert_eq!(one.display_string(), "SECRET");
    assert_eq!(other.display_string(), "SECRET");
    assert_eq!(auth::ApiKey::new("").display_string(), "SECRET");
}

#[test]
fn token_display_equals_its_value() {
    let token = ApiToken::new("AHHHHHHHHHHHHHHHHHHHHHHHHHHHHHHHH");
    assert_eq!(token.display_string(), "AHHHHHHHHHHHHHHHHHHHHHHHHHHHHHHHH");
    let other = auth::ApiToken::new("tok-42");
    assert_eq!(other.display_string(), "tok-42");
}

#[test]
fn auth_module_wrappers_hand_the_value_back() {
    let key = auth::ApiKey::new("ABC123");
    assert_eq!(key.clone().get_str(), "ABC123");
    assert_eq!(key.get_str(), "ABC123");
    let token = auth::ApiToken::new("tok");
    assert_eq!(token.get_str(), "tok");
}

#[test]
fn network_entry_points_are_not_implemented() {
    let key = ApiKey::new("ABC123");
    let token = ApiToken::new("tok");
    assert_eq!(key.create_token(), Err(NotImplemented));
    assert_eq!(key.get_tokens(), Err(NotImplemented));
    assert_eq!(key.delete_token(token), Err(NotImplemented));
}
