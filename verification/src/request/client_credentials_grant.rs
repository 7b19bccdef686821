//! Create requests and parse responses for the client credentials
//! grant, which quickly creates a Bearer access token for the bot's
//! owner.

use vstd::prelude::*;
use crate::client::Client;
use crate::encode::{percent_encode, percent_encoded};
use crate::grant_type::{grant_type_name, GrantType};
use crate::json::{
    field_error_of,
    json_has_field,
    json_ok,
    json_str_field,
    json_u64_field,
    read_string_field,
    read_u64_field,
    take_string,
    take_u64,
    DecodeError,
    JsonField,
};
use crate::scope::{join, spec_join, Scope};
use crate::token_type::{token_type_decode_matches, TokenType};

verus! {

/// Body of a client credentials grant request, form-encoded when sent.
#[derive(Clone, Debug, PartialEq, Eq)]
pub struct ClientCredentialsGrantRequestBody {
    /// ID of the application that was authorized.
    pub client_id: u64,
    /// Secret of the application that was authorized.
    pub client_secret: String,
    /// Type of grant approval.
    pub grant_type: GrantType,
    /// List of scopes that the user granted.
    ///
    /// This is space-delimited.
    pub scope: String,
}

/// A ready-to-send client credentials grant request.
#[derive(Clone, Debug, PartialEq, Eq)]
pub struct ClientCredentialsGrantRequest {
    /// Body to send.
    pub body: ClientCredentialsGrantRequestBody,
    /// Headers to send.
    pub headers: Vec<(String, String)>,
    /// Base of the URL.
    ///
    /// Use the [`url`] method for the full URL with query parameters.
    ///
    /// [`url`]: ClientCredentialsGrantRequest::url
    pub url_base: &'static str,
}

/// The full URL of a client credentials grant request: the base URL,
/// then `grant_type`, then `scope` — the latter percent-encoded and
/// omitted entirely when the joined scope string is empty.
pub open spec fn spec_client_credentials_url(req: ClientCredentialsGrantRequest) -> Seq<char> {
    let head = req.url_base@ + "?grant_type="@ + grant_type_name(req.body.grant_type);
    if req.body.scope@.len() == 0 {
        head
    } else {
        head + "&scope="@ + percent_encoded(req.body.scope@)
    }
}

impl ClientCredentialsGrantRequest {
    /// Retrieve a URL with the body urlencoded as query parameters.
    ///
    /// This URL can be used to make a POST request with the specified
    /// [`headers`].
    ///
    /// [`headers`]: ClientCredentialsGrantRequest::headers
    pub fn url(&self) -> (r: String)
        ensures
            r@ == spec_client_credentials_url(*self),
    {
        let mut buf = self.url_base.to_owned();
        buf.append("?grant_type=");
        buf.append(self.body.grant_type.name());

        if !self.body.scope.as_str().is_empty() {
            buf.append("&scope=");
            let encoded = percent_encode(self.body.scope.as_str());
            buf.append(encoded.as_str());
        }

        proof {
            assert(buf@ =~= spec_client_credentials_url(*self));
        }
        buf
    }
}

/// Create a client credentials grant request.
///
/// Configure, then build: the build step does not consume the builder,
/// so it can be reconfigured and built again independently.
#[derive(Clone, Debug)]
pub struct ClientCredentialsGrantBuilder<'a> {
    /// The client identity the request is built for.
    pub client: &'a Client,
    /// The scopes the request asks for.
    pub scopes: Vec<Scope>,
}

impl<'a> ClientCredentialsGrantBuilder<'a> {
    /// Create a builder for the client, asking for the `identify`
    /// scope until other scopes are set.
    pub(crate) fn new(client: &'a Client) -> (b: Self)
        ensures
            b.client == client,
            b.scopes@ == seq![Scope::Identify],
    {
        let scopes = vec![Scope::Identify];
        proof {
            assert(scopes@ =~= seq![Scope::Identify]);
        }
        Self { client, scopes }
    }

    /// Build a client credentials grant request.
    ///
    /// The grant type is always `client_credentials`; the scope string
    /// is the configured scopes joined space-delimited.
    pub fn build(&self) -> (r: ClientCredentialsGrantRequest)
        ensures
            r.body.client_id == self.client.client_id,
            r.body.client_secret@ == self.client.client_secret@,
            r.body.grant_type == GrantType::ClientCredentials,
            r.body.scope@ == spec_join(self.scopes@),
            r.url_base@ == "https://discord.com/api/v6/oauth2/token"@,
            r.headers@.len() == 1,
            r.headers@[0].0@ == "Content-Type"@,
            r.headers@[0].1@ == "application/x-www-form-urlencoded"@,
    {
        ClientCredentialsGrantRequest {
            body: ClientCredentialsGrantRequestBody {
                client_id: self.client.client_id(),
                client_secret: self.client.client_secret().to_owned(),
                grant_type: GrantType::ClientCredentials,
                scope: join(self.scopes.as_slice()),
            },
            headers: vec![
                ("Content-Type".to_owned(), "application/x-www-form-urlencoded".to_owned()),
            ],
            url_base: "https://discord.com/api/v6/oauth2/token",
        }
    }

    /// Set the scopes for the client credentials grant request.
    ///
    /// By default the `identify` scope is selected.
    pub fn scopes(&mut self, scopes: Vec<Scope>)
        ensures
            final(self).client == old(self).client,
            final(self).scopes == scopes,
    {
        self.scopes = scopes;
    }
}

/// Response to a client credentials grant request.
#[derive(Clone, Debug, PartialEq, Eq)]
pub struct ClientCredentialsGrantResponse {
    /// Access token to be used when making requests to the API on the
    /// user's behalf.
    pub access_token: String,
    /// Number of seconds from issuing that the access token is valid.
    ///
    /// After this duration, the refresh token must be exchanged for
    /// another access token and refresh token pair.
    pub expires_in: u64,
    /// Type of token provided.
    ///
    /// This will always be [`TokenType::Bearer`].
    pub token_type: TokenType,
    /// Space-delimited list of scopes that the token has had approved.
    pub scope: String,
}

impl ClientCredentialsGrantResponse {
    /// Assemble a response from its decoded fields, in declaration
    /// order: the first missing or mismatched field decides the error.
    pub fn from_fields(
        access_token: JsonField<String>,
        expires_in: JsonField<u64>,
        token_type: JsonField<String>,
        scope: JsonField<String>,
    ) -> (r: Result<ClientCredentialsGrantResponse, DecodeError>)
        ensures
            r is Ok <==> (access_token is Value && expires_in is Value && token_type is Value
                && scope is Value),
            r matches Ok(resp) ==> {
                &&& resp.access_token == access_token->Value_0
                &&& resp.expires_in == expires_in->Value_0
                &&& token_type_decode_matches(token_type->Value_0@, resp.token_type)
                &&& resp.scope == scope->Value_0
            },
            !(access_token is Value) ==> (r matches Err(e) && field_error_of(
                access_token is Missing,
                e,
                "access_token"@,
            )),
            access_token is Value && !(expires_in is Value) ==> (r matches Err(e)
                && field_error_of(expires_in is Missing, e, "expires_in"@)),
            access_token is Value && expires_in is Value && !(token_type is Value) ==> (r matches Err(
                e,
            ) && field_error_of(token_type is Missing, e, "token_type"@)),
            access_token is Value && expires_in is Value && token_type is Value && !(scope
                is Value) ==> (r matches Err(e) && field_error_of(scope is Missing, e, "scope"@)),
    {
        let access_token = match take_string(access_token, "access_token") {
            Ok(v) => v,
            Err(e) => {
                return Err(e);
            },
        };
        let expires_in = match take_u64(expires_in, "expires_in") {
            Ok(v) => v,
            Err(e) => {
                return Err(e);
            },
        };
        let token_type = match take_string(token_type, "token_type") {
            Ok(v) => v,
            Err(e) => {
                return Err(e);
            },
        };
        let scope = match take_string(scope, "scope") {
            Ok(v) => v,
            Err(e) => {
                return Err(e);
            },
        };
        Ok(ClientCredentialsGrantResponse {
            access_token,
            expires_in,
            token_type: TokenType::decode(token_type.as_str()),
            scope,
        })
    }

    /// Decode a response from the raw JSON bytes the token endpoint
    /// returned.
    ///
    /// Succeeds exactly when the bytes are a JSON document holding all
    /// four required fields with the right shapes, and returns their
    /// values; otherwise the error is `InvalidJson`, or names the
    /// first missing or mismatched field in declaration order. An
    /// unknown `token_type` value is preserved, never an error.
    pub fn decode(bytes: &[u8]) -> (r: Result<ClientCredentialsGrantResponse, DecodeError>)
        ensures
            ((r matches Err(e) && e is InvalidJson) <==> !json_ok(bytes@)),
            r is Ok <==> (json_ok(bytes@) && json_str_field(bytes@, "access_token"@) is Some
                && json_u64_field(bytes@, "expires_in"@) is Some && json_str_field(
                bytes@,
                "token_type"@,
            ) is Some && json_str_field(bytes@, "scope"@) is Some),
            r matches Ok(resp) ==> {
                &&& resp.access_token@ == json_str_field(bytes@, "access_token"@)->0
                &&& resp.expires_in == json_u64_field(bytes@, "expires_in"@)->0
                &&& token_type_decode_matches(
                    json_str_field(bytes@, "token_type"@)->0,
                    resp.token_type,
                )
                &&& resp.scope@ == json_str_field(bytes@, "scope"@)->0
            },
            json_ok(bytes@) && json_str_field(bytes@, "access_token"@) is None ==> (r matches Err(e)
                && field_error_of(!json_has_field(bytes@, "access_token"@), e, "access_token"@)),
            json_ok(bytes@) && json_str_field(bytes@, "access_token"@) is Some && json_u64_field(
                bytes@,
                "expires_in"@,
            ) is None ==> (r matches Err(e) && field_error_of(
                !json_has_field(bytes@, "expires_in"@),
                e,
                "expires_in"@,
            )),
            json_ok(bytes@) && json_str_field(bytes@, "access_token"@) is Some && json_u64_field(
                bytes@,
                "expires_in"@,
            ) is Some && json_str_field(bytes@, "token_type"@) is None ==> (r matches Err(e)
                && field_error_of(!json_has_field(bytes@, "token_type"@), e, "token_type"@)),
            json_ok(bytes@) && json_str_field(bytes@, "access_token"@) is Some && json_u64_field(
                bytes@,
                "expires_in"@,
            ) is Some && json_str_field(bytes@, "token_type"@) is Some && json_str_field(
                bytes@,
                "scope"@,
            ) is None ==> (r matches Err(e) && field_error_of(
                !json_has_field(bytes@, "scope"@),
                e,
                "scope"@,
            )),
    {
        if !crate::json::json_well_formed(bytes) {
            return Err(DecodeError::InvalidJson);
        }
        Self::from_fields(
            read_string_field(bytes, "access_token"),
            read_u64_field(bytes, "expires_in"),
            read_string_field(bytes, "token_type"),
            read_string_field(bytes, "scope"),
        )
    }
}

} // verus!
