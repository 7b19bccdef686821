//! Create requests for exchanging a refresh token for a new access
//! token and refresh token pair.

use vstd::prelude::*;
use crate::client::Client;
use crate::encode::{percent_encode, percent_encoded};
use crate::grant_type::{grant_type_name, GrantType};
use crate::scope::{join, spec_join, Scope};

verus! {

/// Body of a refresh token exchange request, form-encoded when sent.
#[derive(Clone, Debug, PartialEq, Eq)]
pub struct RefreshTokenExchangeBody {
    /// ID of the application that was authorized.
    pub client_id: u64,
    /// Secret of the application that was authorized.
    pub client_secret: String,
    /// Type of grant approval.
    pub grant_type: GrantType,
    /// The refresh token being exchanged.
    pub refresh_token: String,
    /// List of scopes that the new token is asked to keep.
    ///
    /// This is space-delimited.
    pub scope: String,
}

/// A ready-to-send refresh token exchange request.
#[derive(Clone, Debug, PartialEq, Eq)]
pub struct RefreshTokenExchangeRequest {
    /// Body to send.
    pub body: RefreshTokenExchangeBody,
    /// Headers to send.
    pub headers: Vec<(String, String)>,
    /// Base of the URL.
    ///
    /// Use the [`url`] method for the full URL with query parameters.
    ///
    /// [`url`]: RefreshTokenExchangeRequest::url
    pub url_base: &'static str,
}

/// The full URL of a refresh token exchange request: the base URL,
/// then `grant_type`, then the percent-encoded `refresh_token`, then
/// `scope` — the latter percent-encoded and omitted entirely when the
/// joined scope string is empty.
pub open spec fn spec_refresh_token_exchange_url(req: RefreshTokenExchangeRequest) -> Seq<char> {
    let head = req.url_base@ + "?grant_type="@ + grant_type_name(req.body.grant_type)
        + "&refresh_token="@ + percent_encoded(req.body.refresh_token@);
    if req.body.scope@.len() == 0 {
        head
    } else {
        head + "&scope="@ + percent_encoded(req.body.scope@)
    }
}

impl RefreshTokenExchangeRequest {
    /// Retrieve a URL with the body urlencoded as query parameters.
    ///
    /// This URL can be used to make a POST request with the specified
    /// [`headers`].
    ///
    /// [`headers`]: RefreshTokenExchangeRequest::headers
    pub fn url(&self) -> (r: String)
        ensures
            r@ == spec_refresh_token_exchange_url(*self),
    {
        let mut buf = self.url_base.to_owned();
        buf.append("?grant_type=");
        buf.append(self.body.grant_type.name());
        buf.append("&refresh_token=");
        let token = percent_encode(self.body.refresh_token.as_str());
        buf.append(token.as_str());
        if !self.body.scope.as_str().is_empty() {
            buf.append("&scope=");
            let encoded = percent_encode(self.body.scope.as_str());
            buf.append(encoded.as_str());
        }
        proof {
            assert(buf@ =~= spec_refresh_token_exchange_url(*self));
        }
        buf
    }
}

/// Create a refresh token exchange request.
///
/// Configure, then build: the build step does not consume the builder,
/// so it can be reconfigured and built again independently.
#[derive(Clone, Debug)]
pub struct RefreshTokenExchangeBuilder<'a> {
    /// The client identity the request is built for.
    pub client: &'a Client,
    /// The refresh token being exchanged.
    pub refresh_token: String,
    /// The scopes the new token is asked to keep; when empty, the
    /// scope field is omitted from the request.
    pub scopes: Vec<Scope>,
}

impl<'a> RefreshTokenExchangeBuilder<'a> {
    /// Create a builder for the client from a refresh token, with no
    /// scopes configured.
    pub(crate) fn new(client: &'a Client, refresh_token: &str) -> (b: Self)
        ensures
            b.client == client,
            b.refresh_token@ == refresh_token@,
            b.scopes@.len() == 0,
    {
        Self { client, refresh_token: refresh_token.to_owned(), scopes: Vec::new() }
    }

    /// Set the scopes the new token is asked to keep.
    pub fn scopes(&mut self, scopes: Vec<Scope>)
        ensures
            final(self).scopes == scopes,
            final(self).client == old(self).client,
            final(self).refresh_token == old(self).refresh_token,
    {
        self.scopes = scopes;
    }

    /// Build a refresh token exchange request.
    ///
    /// The grant type is always `refresh_token`; the scope string is
    /// the configured scopes joined space-delimited.
    pub fn build(&self) -> (r: RefreshTokenExchangeRequest)
        ensures
            r.body.client_id == self.client.client_id,
            r.body.client_secret@ == self.client.client_secret@,
            r.body.grant_type == GrantType::RefreshToken,
            r.body.refresh_token@ == self.refresh_token@,
            r.body.scope@ == spec_join(self.scopes@),
            r.url_base@ == "https://discord.com/api/v6/oauth2/token"@,
            r.headers@.len() == 1,
            r.headers@[0].0@ == "Content-Type"@,
            r.headers@[0].1@ == "application/x-www-form-urlencoded"@,
    {
        RefreshTokenExchangeRequest {
            body: RefreshTokenExchangeBody {
                client_id: self.client.client_id(),
                client_secret: self.client.client_secret().to_owned(),
                grant_type: GrantType::RefreshToken,
                refresh_token: self.refresh_token.clone(),
                scope: join(self.scopes.as_slice()),
            },
            headers: vec![
                ("Content-Type".to_owned(), "application/x-www-form-urlencoded".to_owned()),
            ],
            url_base: "https://discord.com/api/v6/oauth2/token",
        }
    }
}

} // verus!
