//! Create requests and parse responses when exchanging an authorization
//! code under the `webhook.incoming` scope: the request is an ordinary
//! access token exchange, the response additionally carries the webhook
//! that the user created via authorization.

use vstd::prelude::*;
use crate::json::{
    field_error_of,
    json_has_field,
    json_ok,
    json_str_field,
    json_u64_field,
    read_string_field,
    read_u64_field,
    read_value_field,
    take_string,
    take_u64,
    DecodeError,
    JsonField,
};
use crate::request::access_token_exchange::AccessTokenExchangeRequest;
use crate::token_type::{token_type_decode_matches, TokenType};

verus! {

/// Request for exchanging an authorization code under the
/// `webhook.incoming` scope; identical on the wire to an ordinary
/// access token exchange.
pub type WebhookTokenExchangeRequest = AccessTokenExchangeRequest;

/// Response from exchanging an authorization code under the
/// `webhook.incoming` scope.
#[derive(Debug)]
pub struct WebhookTokenExchangeResponse {
    /// Access token to be used when making requests to the API on the
    /// user's behalf.
    pub access_token: String,
    /// Number of seconds from issuing that the access token is valid.
    ///
    /// After this duration, the refresh token must be exchanged for
    /// another access token and refresh token pair.
    pub expires_in: u64,
    /// Refresh token to use to exchange for another access token and
    /// refresh token pair.
    pub refresh_token: String,
    /// Space-delimited list of scopes that the token has had approved.
    pub scope: String,
    /// Type of token provided.
    ///
    /// This will always be [`TokenType::Bearer`].
    pub token_type: TokenType,
    /// Webhook that the user created via authorization, carried as the
    /// JSON value the service returned.
    pub webhook: serde_json::Value,
}

impl WebhookTokenExchangeResponse {
    /// Assemble a response from its decoded fields, in declaration
    /// order: the first missing or mismatched field decides the error.
    pub fn from_fields(
        access_token: JsonField<String>,
        expires_in: JsonField<u64>,
        refresh_token: JsonField<String>,
        scope: JsonField<String>,
        token_type: JsonField<String>,
        webhook: JsonField<serde_json::Value>,
    ) -> (r: Result<WebhookTokenExchangeResponse, DecodeError>)
        ensures
            r is Ok <==> (access_token is Value && expires_in is Value && refresh_token is Value
                && scope is Value && token_type is Value && webhook is Value),
            r matches Ok(resp) ==> {
                &&& resp.access_token == access_token->Value_0
                &&& resp.expires_in == expires_in->Value_0
                &&& resp.refresh_token == refresh_token->Value_0
                &&& resp.scope == scope->Value_0
                &&& token_type_decode_matches(token_type->Value_0@, resp.token_type)
                &&& resp.webhook == webhook->Value_0
            },
            !(access_token is Value) ==> (r matches Err(e) && field_error_of(
                access_token is Missing,
                e,
                "access_token"@,
            )),
            access_token is Value && !(expires_in is Value) ==> (r matches Err(e)
                && field_error_of(expires_in is Missing, e, "expires_in"@)),
            access_token is Value && expires_in is Value && !(refresh_token is Value) ==> (r matches Err(
                e,
            ) && field_error_of(refresh_token is Missing, e, "refresh_token"@)),
            access_token is Value && expires_in is Value && refresh_token is Value && !(scope
                is Value) ==> (r matches Err(e) && field_error_of(scope is Missing, e, "scope"@)),
            access_token is Value && expires_in is Value && refresh_token is Value && scope
                is Value && !(token_type is Value) ==> (r matches Err(e) && field_error_of(
                token_type is Missing,
                e,
                "token_type"@,
            )),
            access_token is Value && expires_in is Value && refresh_token is Value && scope
                is Value && token_type is Value && !(webhook is Value) ==> (r matches Err(e)
                && field_error_of(webhook is Missing, e, "webhook"@)),
    {
        let access_token = match take_string(access_token, "access_token") {
            Ok(v) => v,
            Err(e) => {
                return Err(e);
            },
        };
        let expires_in = match take_u64(expires_in, "expires_in") {
            Ok(v) => v,
            Err(e) => {
                return Err(e);
            },
        };
        let refresh_token = match take_string(refresh_token, "refresh_token") {
            Ok(v) => v,
            Err(e) => {
                return Err(e);
            },
        };
        let scope = match take_string(scope, "scope") {
            Ok(v) => v,
            Err(e) => {
                return Err(e);
            },
        };
        let token_type = match take_string(token_type, "token_type") {
            Ok(v) => v,
            Err(e) => {
                return Err(e);
            },
        };
        let webhook = match webhook {
            JsonField::Value(v) => v,
            JsonField::Missing => {
                return Err(DecodeError::MissingField("webhook".to_owned()));
            },
            JsonField::Mismatched => {
                return Err(DecodeError::MismatchedField("webhook".to_owned()));
            },
        };
        Ok(WebhookTokenExchangeResponse {
            access_token,
            expires_in,
            refresh_token,
            scope,
            token_type: TokenType::decode(token_type.as_str()),
            webhook,
        })
    }

    /// Decode a response from the raw JSON bytes the token endpoint
    /// returned.
    ///
    /// Succeeds exactly when the bytes are a JSON document holding all
    /// six required fields with the right shapes, and returns their
    /// values; otherwise the error is `InvalidJson`, or names the
    /// first missing or mismatched field in declaration order. An
    /// unknown `token_type` value is preserved, never an error, and
    /// the webhook is carried through as the JSON value the service
    /// returned.
    pub fn decode(bytes: &[u8]) -> (r: Result<WebhookTokenExchangeResponse, DecodeError>)
        ensures
            ((r matches Err(e) && e is InvalidJson) <==> !json_ok(bytes@)),
            r is Ok <==> (json_ok(bytes@) && json_str_field(bytes@, "access_token"@) is Some
                && json_u64_field(bytes@, "expires_in"@) is Some && json_str_field(
                bytes@,
                "refresh_token"@,
            ) is Some && json_str_field(bytes@, "scope"@) is Some && json_str_field(
                bytes@,
                "token_type"@,
            ) is Some && json_has_field(bytes@, "webhook"@)),
            r matches Ok(resp) ==> {
                &&& resp.access_token@ == json_str_field(bytes@, "access_token"@)->0
                &&& resp.expires_in == json_u64_field(bytes@, "expires_in"@)->0
                &&& resp.refresh_token@ == json_str_field(bytes@, "refresh_token"@)->0
                &&& resp.scope@ == json_str_field(bytes@, "scope"@)->0
                &&& token_type_decode_matches(
                    json_str_field(bytes@, "token_type"@)->0,
                    resp.token_type,
                )
            },
            json_ok(bytes@) && json_str_field(bytes@, "access_token"@) is None ==> (r matches Err(e)
                && field_error_of(!json_has_field(bytes@, "access_token"@), e, "access_token"@)),
            json_ok(bytes@) && json_str_field(bytes@, "access_token"@) is Some && json_u64_field(
                bytes@,
                "expires_in"@,
            ) is None ==> (r matches Err(e) && field_error_of(
                !json_has_field(bytes@, "expires_in"@),
                e,
                "expires_in"@,
            )),
            json_ok(bytes@) && json_str_field(bytes@, "access_token"@) is Some && json_u64_field(
                bytes@,
                "expires_in"@,
            ) is Some && json_str_field(bytes@, "refresh_token"@) is None ==> (r matches Err(e)
                && field_error_of(!json_has_field(bytes@, "refresh_token"@), e, "refresh_token"@)),
            json_ok(bytes@) && json_str_field(bytes@, "access_token"@) is Some && json_u64_field(
                bytes@,
                "expires_in"@,
            ) is Some && json_str_field(bytes@, "refresh_token"@) is Some && json_str_field(
                bytes@,
                "scope"@,
            ) is None ==> (r matches Err(e) && field_error_of(
                !json_has_field(bytes@, "scope"@),
                e,
                "scope"@,
            )),
            json_ok(bytes@) && json_str_field(bytes@, "access_token"@) is Some && json_u64_field(
                bytes@,
                "expires_in"@,
            ) is Some && json_str_field(bytes@, "refresh_token"@) is Some && json_str_field(
                bytes@,
                "scope"@,
            ) is Some && json_str_field(bytes@, "token_type"@) is None ==> (r matches Err(e)
                && field_error_of(!json_has_field(bytes@, "token_type"@), e, "token_type"@)),
            json_ok(bytes@) && json_str_field(bytes@, "access_token"@) is Some && json_u64_field(
                bytes@,
                "expires_in"@,
            ) is Some && json_str_field(bytes@, "refresh_token"@) is Some && json_str_field(
                bytes@,
                "scope"@,
            ) is Some && json_str_field(bytes@, "token_type"@) is Some && !json_has_field(
                bytes@,
                "webhook"@,
            ) ==> (r matches Err(e) && field_error_of(true, e, "webhook"@)),
    {
        if !crate::json::json_well_formed(bytes) {
            return Err(DecodeError::InvalidJson);
        }
        Self::from_fields(
            read_string_field(bytes, "access_token"),
            read_u64_field(bytes, "expires_in"),
            read_string_field(bytes, "refresh_token"),
            read_string_field(bytes, "scope"),
            read_string_field(bytes, "token_type"),
            read_value_field(bytes, "webhook"),
        )
    }
}

} // verus!
