//! Create requests and parse responses when exchanging an authorization
//! code for an access token and refresh token pair.

use vstd::prelude::*;
use crate::client::{is_registered_uri, Client};
use crate::encode::{percent_encode, percent_encoded};
use crate::grant_type::{grant_type_name, GrantType};
use crate::json::{
    field_error_of,
    json_has_field,
    json_ok,
    json_str_field,
    json_u64_field,
    read_string_field,
    read_u64_field,
    take_string,
    take_u64,
    DecodeError,
    JsonField,
};
use crate::request::BuildError;
use crate::token_type::{token_type_decode_matches, TokenType};

verus! {

/// Body of an access token exchange request, form-encoded when sent.
#[derive(Clone, Debug, PartialEq, Eq)]
pub struct AccessTokenExchangeBody {
    /// ID of the application that was authorized.
    pub client_id: u64,
    /// Secret of the application that was authorized.
    pub client_secret: String,
    /// Type of grant approval.
    pub grant_type: GrantType,
    /// The authorization code being exchanged.
    pub code: String,
    /// The redirect URI the code was issued for.
    pub redirect_uri: String,
}

/// A ready-to-send access token exchange request.
#[derive(Clone, Debug, PartialEq, Eq)]
pub struct AccessTokenExchangeRequest {
    /// Body to send.
    pub body: AccessTokenExchangeBody,
    /// Headers to send.
    pub headers: Vec<(String, String)>,
    /// Base of the URL.
    ///
    /// Use the [`url`] method for the full URL with query parameters.
    ///
    /// [`url`]: AccessTokenExchangeRequest::url
    pub url_base: &'static str,
}

/// The full URL of an access token exchange request: the base URL,
/// then `grant_type`, then the percent-encoded `code` and
/// `redirect_uri`.
pub open spec fn spec_access_token_exchange_url(req: AccessTokenExchangeRequest) -> Seq<char> {
    req.url_base@ + "?grant_type="@ + grant_type_name(req.body.grant_type) + "&code="@
        + percent_encoded(req.body.code@) + "&redirect_uri="@ + percent_encoded(
        req.body.redirect_uri@,
    )
}

impl AccessTokenExchangeRequest {
    /// Retrieve a URL with the body urlencoded as query parameters.
    ///
    /// This URL can be used to make a POST request with the specified
    /// [`headers`].
    ///
    /// [`headers`]: AccessTokenExchangeRequest::headers
    pub fn url(&self) -> (r: String)
        ensures
            r@ == spec_access_token_exchange_url(*self),
    {
        let mut buf = self.url_base.to_owned();
        buf.append("?grant_type=");
        buf.append(self.body.grant_type.name());
        buf.append("&code=");
        let code = percent_encode(self.body.code.as_str());
        buf.append(code.as_str());
        buf.append("&redirect_uri=");
        let redirect = percent_encode(self.body.redirect_uri.as_str());
        buf.append(redirect.as_str());
        proof {
            assert(buf@ =~= spec_access_token_exchange_url(*self));
        }
        buf
    }
}

/// Create an access token exchange request from an authorization code.
///
/// Configure, then build: the build step does not consume the builder,
/// so it can be reconfigured and built again independently. The
/// redirect URI must be one the client was constructed with, checked
/// at build time.
#[derive(Clone, Debug)]
pub struct AccessTokenExchangeBuilder<'a> {
    /// The client identity the request is built for.
    pub client: &'a Client,
    /// The authorization code being exchanged.
    pub code: String,
    /// The redirect URI the code was issued for.
    pub redirect_uri: String,
}

impl<'a> AccessTokenExchangeBuilder<'a> {
    /// Create a builder for the client from an authorization code and
    /// the redirect URI the code was issued for.
    pub(crate) fn new(client: &'a Client, code: &str, redirect_uri: &str) -> (b: Self)
        ensures
            b.client == client,
            b.code@ == code@,
            b.redirect_uri@ == redirect_uri@,
    {
        Self { client, code: code.to_owned(), redirect_uri: redirect_uri.to_owned() }
    }

    /// Build an access token exchange request.
    ///
    /// Fails with a configuration error when the redirect URI is not
    /// one the client was constructed with; succeeds otherwise, with
    /// the grant type fixed to `authorization_code`.
    pub fn build(&self) -> (r: Result<AccessTokenExchangeRequest, BuildError>)
        ensures
            r is Ok <==> is_registered_uri(*self.client, self.redirect_uri@),
            !is_registered_uri(*self.client, self.redirect_uri@) ==> r == Err::<
                AccessTokenExchangeRequest,
                BuildError,
            >(BuildError::UnregisteredRedirectUri),
            r matches Ok(req) ==> {
                &&& req.body.client_id == self.client.client_id
                &&& req.body.client_secret@ == self.client.client_secret@
                &&& req.body.grant_type == GrantType::AuthorizationCode
                &&& req.body.code@ == self.code@
                &&& req.body.redirect_uri@ == self.redirect_uri@
                &&& req.url_base@ == "https://discord.com/api/v6/oauth2/token"@
                &&& req.headers@.len() == 1
                &&& req.headers@[0].0@ == "Content-Type"@
                &&& req.headers@[0].1@ == "application/x-www-form-urlencoded"@
            },
    {
        if !self.client.has_redirect_uri(self.redirect_uri.as_str()) {
            return Err(BuildError::UnregisteredRedirectUri);
        }
        Ok(AccessTokenExchangeRequest {
            body: AccessTokenExchangeBody {
                client_id: self.client.client_id(),
                client_secret: self.client.client_secret().to_owned(),
                grant_type: GrantType::AuthorizationCode,
                code: self.code.clone(),
                redirect_uri: self.redirect_uri.clone(),
            },
            headers: vec![
                ("Content-Type".to_owned(), "application/x-www-form-urlencoded".to_owned()),
            ],
            url_base: "https://discord.com/api/v6/oauth2/token",
        })
    }
}

/// Response to an access token exchange request.
#[derive(Clone, Debug, PartialEq, Eq)]
pub struct AccessTokenExchangeResponse {
    /// Access token to be used when making requests to the API on the
    /// user's behalf.
    pub access_token: String,
    /// Number of seconds from issuing that the access token is valid.
    ///
    /// After this duration, the refresh token must be exchanged for
    /// another access token and refresh token pair.
    pub expires_in: u64,
    /// Refresh token to use to exchange for another access token and
    /// refresh token pair.
    pub refresh_token: String,
    /// Space-delimited list of scopes that the token has had approved.
    pub scope: String,
    /// Type of token provided.
    ///
    /// This will always be [`TokenType::Bearer`].
    pub token_type: TokenType,
}

impl AccessTokenExchangeResponse {
    /// Assemble a response from its decoded fields, in declaration
    /// order: the first missing or mismatched field decides the error.
    pub fn from_fields(
        access_token: JsonField<String>,
        expires_in: JsonField<u64>,
        refresh_token: JsonField<String>,
        scope: JsonField<String>,
        token_type: JsonField<String>,
    ) -> (r: Result<AccessTokenExchangeResponse, DecodeError>)
        ensures
            r is Ok <==> (access_token is Value && expires_in is Value && refresh_token is Value
                && scope is Value && token_type is Value),
            r matches Ok(resp) ==> {
                &&& resp.access_token == access_token->Value_0
                &&& resp.expires_in == expires_in->Value_0
                &&& resp.refresh_token == refresh_token->Value_0
                &&& resp.scope == scope->Value_0
                &&& token_type_decode_matches(token_type->Value_0@, resp.token_type)
            },
            !(access_token is Value) ==> (r matches Err(e) && field_error_of(
                access_token is Missing,
                e,
                "access_token"@,
            )),
            access_token is Value && !(expires_in is Value) ==> (r matches Err(e)
                && field_error_of(expires_in is Missing, e, "expires_in"@)),
            access_token is Value && expires_in is Value && !(refresh_token is Value) ==> (r matches Err(
                e,
            ) && field_error_of(refresh_token is Missing, e, "refresh_token"@)),
            access_token is Value && expires_in is Value && refresh_token is Value && !(scope
                is Value) ==> (r matches Err(e) && field_error_of(scope is Missing, e, "scope"@)),
            access_token is Value && expires_in is Value && refresh_token is Value && scope
                is Value && !(token_type is Value) ==> (r matches Err(e) && field_error_of(
                token_type is Missing,
                e,
                "token_type"@,
            )),
    {
        let access_token = match take_string(access_token, "access_token") {
            Ok(v) => v,
            Err(e) => {
                return Err(e);
            },
        };
        let expires_in = match take_u64(expires_in, "expires_in") {
            Ok(v) => v,
            Err(e) => {
                return Err(e);
            },
        };
        let refresh_token = match take_string(refresh_token, "refresh_token") {
            Ok(v) => v,
            Err(e) => {
                return Err(e);
            },
        };
        let scope = match take_string(scope, "scope") {
            Ok(v) => v,
            Err(e) => {
                return Err(e);
            },
        };
        let token_type = match take_string(token_type, "token_type") {
            Ok(v) => v,
            Err(e) => {
                return Err(e);
            },
        };
        Ok(AccessTokenExchangeResponse {
            access_token,
            expires_in,
            refresh_token,
            scope,
            token_type: TokenType::decode(token_type.as_str()),
        })
    }

    /// Decode a response from the raw JSON bytes the token endpoint
    /// returned.
    ///
    /// Succeeds exactly when the bytes are a JSON document holding all
    /// five required fields with the right shapes, and returns their
    /// values; otherwise the error is `InvalidJson`, or names the
    /// first missing or mismatched field in declaration order. An
    /// unknown `token_type` value is preserved, never an error.
    pub fn decode(bytes: &[u8]) -> (r: Result<AccessTokenExchangeResponse, DecodeError>)
        ensures
            ((r matches Err(e) && e is InvalidJson) <==> !json_ok(bytes@)),
            r is Ok <==> (json_ok(bytes@) && json_str_field(bytes@, "access_token"@) is Some
                && json_u64_field(bytes@, "expires_in"@) is Some && json_str_field(
                bytes@,
                "refresh_token"@,
            ) is Some && json_str_field(bytes@, "scope"@) is Some && json_str_field(
                bytes@,
                "token_type"@,
            ) is Some),
            r matches Ok(resp) ==> {
                &&& resp.access_token@ == json_str_field(bytes@, "access_token"@)->0
                &&& resp.expires_in == json_u64_field(bytes@, "expires_in"@)->0
                &&& resp.refresh_token@ == json_str_field(bytes@, "refresh_token"@)->0
                &&& resp.scope@ == json_str_field(bytes@, "scope"@)->0
                &&& token_type_decode_matches(
                    json_str_field(bytes@, "token_type"@)->0,
                    resp.token_type,
                )
            },
            json_ok(bytes@) && json_str_field(bytes@, "access_token"@) is None ==> (r matches Err(e)
                && field_error_of(!json_has_field(bytes@, "access_token"@), e, "access_token"@)),
            json_ok(bytes@) && json_str_field(bytes@, "access_token"@) is Some && json_u64_field(
                bytes@,
                "expires_in"@,
            ) is None ==> (r matches Err(e) && field_error_of(
                !json_has_field(bytes@, "expires_in"@),
                e,
                "expires_in"@,
            )),
            json_ok(bytes@) && json_str_field(bytes@, "access_token"@) is Some && json_u64_field(
                bytes@,
                "expires_in"@,
            ) is Some && json_str_field(bytes@, "refresh_token"@) is None ==> (r matches Err(e)
                && field_error_of(!json_has_field(bytes@, "refresh_token"@), e, "refresh_token"@)),
            json_ok(bytes@) && json_str_field(bytes@, "access_token"@) is Some && json_u64_field(
                bytes@,
                "expires_in"@,
            ) is Some && json_str_field(bytes@, "refresh_token"@) is Some && json_str_field(
                bytes@,
                "scope"@,
            ) is None ==> (r matches Err(e) && field_error_of(
                !json_has_field(bytes@, "scope"@),
                e,
                "scope"@,
            )),
            json_ok(bytes@) && json_str_field(bytes@, "access_token"@) is Some && json_u64_field(
                bytes@,
                "expires_in"@,
            ) is Some && json_str_field(bytes@, "refresh_token"@) is Some && json_str_field(
                bytes@,
                "scope"@,
            ) is Some && json_str_field(bytes@, "token_type"@) is None ==> (r matches Err(e)
                && field_error_of(!json_has_field(bytes@, "token_type"@), e, "token_type"@)),
    {
        if !crate::json::json_well_formed(bytes) {
            return Err(DecodeError::InvalidJson);
        }
        Self::from_fields(
            read_string_field(bytes, "access_token"),
            read_u64_field(bytes, "expires_in"),
            read_string_field(bytes, "refresh_token"),
            read_string_field(bytes, "scope"),
            read_string_field(bytes, "token_type"),
        )
    }
}

} // verus!
