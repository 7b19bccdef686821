use twilight_oauth2::grant_type::GrantType;
use twilight_oauth2::prompt::Prompt;
use twilight_oauth2::scope::{join, Scope};
use twilight_oauth2::token_type::TokenType;

#[test]
fn test_grant_types() {
    assert_eq!("authorization_code", GrantType::AuthorizationCode.name());
    assert_eq!("client_credentials", GrantType::ClientCredentials.name());
    assert_eq!("refresh_token", GrantType::RefreshToken.name());
}

#[test]
fn test_prompts() {
    assert_eq!("consent", Prompt::Consent.name());
    assert_eq!("consent", Prompt::Consent.to_string());
    assert_eq!("none", Prompt::NoPrompt.name());
    assert_eq!("none", Prompt::NoPrompt.to_string());
}

#[test]
fn test_token_types() {
    assert_eq!("Bearer", TokenType::Bearer.name());
}

#[test]
fn test_grant_type_round_trip() {
    for variant in [
        GrantType::AuthorizationCode,
        GrantType::ClientCredentials,
        GrantType::RefreshToken,
    ] {
        assert_eq!(Some(variant), GrantType::decode(variant.name()));
    }
    assert_eq!(None, GrantType::decode("password"));
    assert_eq!(None, GrantType::decode(""));
}

#[test]
fn test_prompt_round_trip() {
    for variant in [Prompt::Consent, Prompt::NoPrompt] {
        assert_eq!(Some(variant), Prompt::decode(variant.name()));
    }
    assert_eq!(None, Prompt::decode("select_account"));
}

#[test]
fn test_token_type_round_trip() {
    assert_eq!(TokenType::Bearer, TokenType::decode(TokenType::Bearer.name()));
    let unknown = TokenType::decode("MAC");
    assert_eq!(TokenType::Unrecognized("MAC".to_owned()), unknown);
    assert_eq!("MAC", unknown.name());
    assert_eq!(unknown, TokenType::decode(unknown.name()));
}

#[test]
fn test_scope_round_trip() {
    for variant in [Scope::Bot, Scope::Guilds, Scope::Identify, Scope::WebhookIncoming] {
        assert_eq!(variant, Scope::decode(variant.name()));
    }
    let unknown = Scope::decode("applications.commands");
    assert_eq!(Scope::Unrecognized("applications.commands".to_owned()), unknown);
    assert_eq!("applications.commands", unknown.name());
}

#[test]
fn test_scope_names() {
    assert_eq!("bot", Scope::Bot.name());
    assert_eq!("guilds", Scope::Guilds.name());
    assert_eq!("identify", Scope::Identify.name());
    assert_eq!("webhook.incoming", Scope::WebhookIncoming.name());
}

#[test]
fn test_join_empty() {
    assert_eq!("", join(&[]));
}

#[test]
fn test_join_single() {
    assert_eq!("identify", join(&[Scope::Identify]));
}

#[test]
fn test_join_preserves_order() {
    assert_eq!("guilds identify", join(&[Scope::Guilds, Scope::Identify]));
    assert_eq!("identify guilds", join(&[Scope::Identify, Scope::Guilds]));
}

#[test]
fn test_join_keeps_duplicates() {
    assert_eq!(
        "identify identify identify",
        join(&[Scope::Identify, Scope::Identify, Scope::Identify]),
    );
}
