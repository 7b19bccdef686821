use twilight_oauth2::grant_type::GrantType;
use twilight_oauth2::prompt::Prompt;
use twilight_oauth2::request::client_credentials_grant::ClientCredentialsGrantRequestBody;
use twilight_oauth2::request::BuildError;
use twilight_oauth2::scope::Scope;
use twilight_oauth2::Client;

#[test]
fn test_client_credentials_grant_request() {
    let client = Client::new(1, "a", &["https://example.com"]);
    let mut builder = client.client_credentials_grant();
    let req = builder.build();
    assert_eq!(
        req.headers,
        vec![("Content-Type".to_owned(), "application/x-www-form-urlencoded".to_owned())],
    );
    assert_eq!(req.url_base, "https://discord.com/api/v6/oauth2/token");
    assert_eq!(
        req.body,
        ClientCredentialsGrantRequestBody {
            client_id: 1,
            client_secret: "a".to_owned(),
            grant_type: GrantType::ClientCredentials,
            scope: Scope::Identify.name().to_owned(),
        }
    );
    assert_eq!(
        "https://discord.com/api/v6/oauth2/token?grant_type=client_credentials&scope=identify",
        req.url(),
    );

    builder.scopes(vec![Scope::Guilds, Scope::Identify]);
    let req = builder.build();
    assert_eq!(
        req.body,
        ClientCredentialsGrantRequestBody {
            client_id: 1,
            client_secret: "a".to_owned(),
            grant_type: GrantType::ClientCredentials,
            scope: "guilds identify".to_owned(),
        }
    );
    assert_eq!(
        "https://discord.com/api/v6/oauth2/token?grant_type=client_credentials&scope=guilds%20identify",
        req.url(),
    );
}

#[test]
fn test_client_accessors() {
    let client = Client::new(7, "secret", &["https://example.com/a", "https://example.com/b"]);
    assert_eq!(7, client.client_id());
    assert_eq!("secret", client.client_secret());
    assert_eq!(
        &vec!["https://example.com/a".to_owned(), "https://example.com/b".to_owned()],
        client.redirect_uris(),
    );
    assert!(client.has_redirect_uri("https://example.com/b"));
    assert!(!client.has_redirect_uri("https://example.com/c"));
}

#[test]
fn test_authorization_url_requires_scopes() {
    let client = Client::new(1, "a", &["https://example.com"]);
    let mut builder = client.authorization_url("https://example.com");
    assert_eq!(Err(BuildError::NoScopes), builder.build().map(|req| req.url()));

    builder.scopes(vec![Scope::Identify]);
    assert!(builder.build().is_ok());
}

#[test]
fn test_authorization_url_rejects_unregistered_redirect_uri() {
    let client = Client::new(1, "a", &["https://example.com"]);
    let mut builder = client.authorization_url("https://attacker.example");
    builder.scopes(vec![Scope::Identify]);
    assert_eq!(Err(BuildError::UnregisteredRedirectUri), builder.build().map(|req| req.url()));

    builder.redirect_uri("https://example.com");
    let url = builder.build().unwrap().url();
    assert!(url.contains("&redirect_uri=https%3A%2F%2Fexample.com"));
}

#[test]
fn test_authorization_url_rendering() {
    let client = Client::new(1, "a", &["https://example.com"]);
    let mut builder = client.authorization_url("https://example.com");
    builder.scopes(vec![Scope::Identify]);
    let req = builder.build().unwrap();
    assert_eq!(req.grant_type, GrantType::AuthorizationCode);
    assert_eq!(req.response_type, "code");
    assert_eq!(
        "https://discord.com/api/v6/oauth2/authorize?grant_type=authorization_code&client_id=1\
         &redirect_uri=https%3A%2F%2Fexample.com&response_type=code&scope=identify",
        req.url(),
    );

    builder.state("a state");
    builder.prompt(Prompt::Consent);
    builder.scopes(vec![Scope::Guilds, Scope::Identify]);
    assert_eq!(
        "https://discord.com/api/v6/oauth2/authorize?grant_type=authorization_code&client_id=1\
         &redirect_uri=https%3A%2F%2Fexample.com&response_type=code&state=a%20state\
         &prompt=consent&scope=guilds%20identify",
        builder.build().unwrap().url(),
    );
}

#[test]
fn test_authorization_url_renders_large_client_id() {
    let client = Client::new(347114750880120863, "a", &["https://example.com"]);
    let mut builder = client.authorization_url("https://example.com");
    builder.scopes(vec![Scope::Bot]);
    let url = builder.build().unwrap().url();
    assert!(url.contains("&client_id=347114750880120863&"));
}

#[test]
fn test_access_token_exchange_request() {
    let client = Client::new(42, "hunter", &["https://example.com/callback"]);
    let builder = client.access_token_exchange("splendid code", "https://example.com/callback");
    let req = builder.build().unwrap();
    assert_eq!(
        req.headers,
        vec![("Content-Type".to_owned(), "application/x-www-form-urlencoded".to_owned())],
    );
    assert_eq!(req.body.client_id, 42);
    assert_eq!(req.body.client_secret, "hunter");
    assert_eq!(req.body.grant_type, GrantType::AuthorizationCode);
    assert_eq!(
        "https://discord.com/api/v6/oauth2/token?grant_type=authorization_code\
         &code=splendid%20code&redirect_uri=https%3A%2F%2Fexample.com%2Fcallback",
        req.url(),
    );
}

#[test]
fn test_access_token_exchange_rejects_unregistered_redirect_uri() {
    let client = Client::new(42, "hunter", &["https://example.com/callback"]);
    let builder = client.access_token_exchange("splendid code", "https://example.com/other");
    assert_eq!(Err(BuildError::UnregisteredRedirectUri), builder.build().map(|req| req.url()));
}

#[test]
fn test_refresh_token_exchange_request() {
    let client = Client::new(9, "b", &["https://example.com"]);
    let mut builder = client.refresh_token_exchange("some token");
    let req = builder.build();
    assert_eq!(req.body.grant_type, GrantType::RefreshToken);
    assert_eq!(req.body.scope, "");
    assert_eq!(
        "https://discord.com/api/v6/oauth2/token?grant_type=refresh_token\
         &refresh_token=some%20token",
        req.url(),
    );

    builder.scopes(vec![Scope::Guilds, Scope::Identify]);
    assert_eq!(
        "https://discord.com/api/v6/oauth2/token?grant_type=refresh_token\
         &refresh_token=some%20token&scope=guilds%20identify",
        builder.build().url(),
    );
}
