use twilight_oauth2::json::DecodeError;
use twilight_oauth2::request::access_token_exchange::AccessTokenExchangeResponse;
use twilight_oauth2::request::client_credentials_grant::ClientCredentialsGrantResponse;
use twilight_oauth2::request::webhook_token_exchange::WebhookTokenExchangeResponse;
use twilight_oauth2::token_type::TokenType;

#[test]
fn test_client_credentials_response_decode() {
    let payload = br#"{"access_token":"6qrZcUqja7812RVdnEKjpzOL4CvHBFG","expires_in":604800,"token_type":"Bearer","scope":"identify"}"#;
    let resp = ClientCredentialsGrantResponse::decode(payload).unwrap();
    assert_eq!(resp.access_token, "6qrZcUqja7812RVdnEKjpzOL4CvHBFG");
    assert_eq!(resp.expires_in, 604800);
    assert_eq!(resp.token_type, TokenType::Bearer);
    assert_eq!(resp.scope, "identify");

    // The decoded value carries everything needed to rebuild a JSON
    // document equivalent to the payload.
    let mut rebuilt = serde_json::Map::new();
    rebuilt.insert(
        "access_token".to_owned(),
        serde_json::Value::String(resp.access_token.clone()),
    );
    rebuilt.insert("expires_in".to_owned(), serde_json::Value::from(resp.expires_in));
    rebuilt.insert(
        "token_type".to_owned(),
        serde_json::Value::String(resp.token_type.name().to_owned()),
    );
    rebuilt.insert("scope".to_owned(), serde_json::Value::String(resp.scope.clone()));
    let parsed: serde_json::Value = serde_json::from_slice(payload).unwrap();
    assert_eq!(serde_json::Value::Object(rebuilt), parsed);
}

#[test]
fn test_client_credentials_response_missing_field() {
    let payload = br#"{"expires_in":604800,"token_type":"Bearer","scope":"identify"}"#;
    match ClientCredentialsGrantResponse::decode(payload) {
        Err(DecodeError::MissingField(name)) => assert_eq!(name, "access_token"),
        other => panic!("expected a missing-field error, got {:?}", other),
    }
}

#[test]
fn test_client_credentials_response_mismatched_field() {
    let payload = br#"{"access_token":"t","expires_in":"soon","token_type":"Bearer","scope":""}"#;
    match ClientCredentialsGrantResponse::decode(payload) {
        Err(DecodeError::MismatchedField(name)) => assert_eq!(name, "expires_in"),
        other => panic!("expected a mismatched-field error, got {:?}", other),
    }
}

#[test]
fn test_client_credentials_response_invalid_json() {
    assert_eq!(
        Err(DecodeError::InvalidJson),
        ClientCredentialsGrantResponse::decode(b"not json at all"),
    );
}

#[test]
fn test_client_credentials_response_non_object_document() {
    // Well-formed JSON that is not an object holds no fields at all,
    // so the first required field is reported missing.
    match ClientCredentialsGrantResponse::decode(b"[1, 2, 3]") {
        Err(DecodeError::MissingField(name)) => assert_eq!(name, "access_token"),
        other => panic!("expected a missing-field error, got {:?}", other),
    }
}

#[test]
fn test_unknown_token_type_is_preserved() {
    let payload = br#"{"access_token":"t","expires_in":1,"token_type":"DPoP","scope":"identify"}"#;
    let resp = ClientCredentialsGrantResponse::decode(payload).unwrap();
    assert_eq!(resp.token_type, TokenType::Unrecognized("DPoP".to_owned()));
    assert_eq!(resp.token_type.name(), "DPoP");
}

#[test]
fn test_access_token_exchange_response_decode() {
    let payload = br#"{"access_token":"acc","expires_in":604800,"refresh_token":"ref","scope":"guilds identify","token_type":"Bearer"}"#;
    let resp = AccessTokenExchangeResponse::decode(payload).unwrap();
    assert_eq!(resp.access_token, "acc");
    assert_eq!(resp.expires_in, 604800);
    assert_eq!(resp.refresh_token, "ref");
    assert_eq!(resp.scope, "guilds identify");
    assert_eq!(resp.token_type, TokenType::Bearer);
}

#[test]
fn test_access_token_exchange_response_missing_refresh_token() {
    let payload = br#"{"access_token":"acc","expires_in":604800,"scope":"","token_type":"Bearer"}"#;
    match AccessTokenExchangeResponse::decode(payload) {
        Err(DecodeError::MissingField(name)) => assert_eq!(name, "refresh_token"),
        other => panic!("expected a missing-field error, got {:?}", other),
    }
}

#[test]
fn test_webhook_token_exchange_response_decode() {
    let payload = br#"{"access_token":"acc","expires_in":604800,"refresh_token":"ref","scope":"webhook.incoming","token_type":"Bearer","webhook":{"id":"347114750880120863","channel_id":"345626669224982402"}}"#;
    let resp = WebhookTokenExchangeResponse::decode(payload).unwrap();
    assert_eq!(resp.access_token, "acc");
    assert_eq!(resp.scope, "webhook.incoming");
    assert_eq!(resp.token_type, TokenType::Bearer);
    let webhook = resp.webhook;
    assert_eq!(webhook.get("id").unwrap().as_str(), Some("347114750880120863"));
    assert_eq!(webhook.get("channel_id").unwrap().as_str(), Some("345626669224982402"));
}

#[test]
fn test_webhook_token_exchange_response_missing_webhook() {
    let payload = br#"{"access_token":"acc","expires_in":604800,"refresh_token":"ref","scope":"webhook.incoming","token_type":"Bearer"}"#;
    match WebhookTokenExchangeResponse::decode(payload) {
        Err(DecodeError::MissingField(name)) => assert_eq!(name, "webhook"),
        other => panic!("expected a missing-field error, got {:?}", other),
    }
}

#[test]
fn test_decode_error_messages() {
    assert_eq!(
        "response bytes are not well-formed JSON",
        DecodeError::InvalidJson.message(),
    );
    assert_eq!(
        "missing required field access_token",
        DecodeError::MissingField("access_token".to_owned()).message(),
    );
    assert_eq!(
        "mismatched type for field expires_in",
        DecodeError::MismatchedField("expires_in".to_owned()).message(),
    );
}
