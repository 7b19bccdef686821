//! Build the URL a user visits to authorize the application with a set
//! of scopes.

use vstd::prelude::*;
use crate::client::{is_registered_uri, Client};
use crate::encode::{decimal_of, percent_encode, percent_encoded, u64_to_string};
use crate::grant_type::{grant_type_name, GrantType};
use crate::prompt::{prompt_name, Prompt};
use crate::request::BuildError;
use crate::scope::{join, spec_join, Scope};

verus! {

/// A ready-to-render authorization URL.
#[derive(Clone, Debug, PartialEq, Eq)]
pub struct AuthorizationUrlRequest {
    /// Type of grant approval the authorization asks for.
    pub grant_type: GrantType,
    /// ID of the application to authorize.
    pub client_id: u64,
    /// Where the user is sent after authorizing; one of the client's
    /// registered redirect URIs.
    pub redirect_uri: String,
    /// The kind of response the authorization server should return.
    pub response_type: &'static str,
    /// Opaque value echoed back on redirect, for request forgery
    /// protection; omitted from the URL when absent.
    pub state: Option<String>,
    /// Whether to prompt an already-consenting user again; omitted
    /// from the URL when absent.
    pub prompt: Option<Prompt>,
    /// List of scopes the user is asked to grant, space-delimited.
    pub scope: String,
    /// Base of the URL.
    ///
    /// Use the [`url`] method for the full URL with query parameters.
    ///
    /// [`url`]: AuthorizationUrlRequest::url
    pub url_base: &'static str,
}

/// The full authorization URL: the base URL, then `grant_type`,
/// `client_id`, the percent-encoded `redirect_uri`, `response_type`,
/// then `state` and `prompt` when present, then the percent-encoded
/// `scope` string last, omitted entirely when empty.
pub open spec fn spec_authorization_url(req: AuthorizationUrlRequest) -> Seq<char> {
    let head = req.url_base@ + "?grant_type="@ + grant_type_name(req.grant_type) + "&client_id="@
        + decimal_of(req.client_id as nat) + "&redirect_uri="@ + percent_encoded(req.redirect_uri@)
        + "&response_type="@ + req.response_type@;
    let with_state = if req.state is Some {
        head + "&state="@ + percent_encoded(req.state->0@)
    } else {
        head
    };
    let with_prompt = if req.prompt is Some {
        with_state + "&prompt="@ + prompt_name(req.prompt->0)
    } else {
        with_state
    };
    if req.scope@.len() == 0 {
        with_prompt
    } else {
        with_prompt + "&scope="@ + percent_encoded(req.scope@)
    }
}

impl AuthorizationUrlRequest {
    /// Retrieve the full authorization URL with query parameters.
    pub fn url(&self) -> (r: String)
        ensures
            r@ == spec_authorization_url(*self),
    {
        let mut buf = self.url_base.to_owned();
        buf.append("?grant_type=");
        buf.append(self.grant_type.name());
        buf.append("&client_id=");
        let id = u64_to_string(self.client_id);
        buf.append(id.as_str());
        buf.append("&redirect_uri=");
        let redirect = percent_encode(self.redirect_uri.as_str());
        buf.append(redirect.as_str());
        buf.append("&response_type=");
        buf.append(self.response_type);
        match &self.state {
            Some(state) => {
                buf.append("&state=");
                let encoded = percent_encode(state.as_str());
                buf.append(encoded.as_str());
            },
            None => {},
        }
        match &self.prompt {
            Some(prompt) => {
                buf.append("&prompt=");
                buf.append(prompt.name());
            },
            None => {},
        }
        if !self.scope.as_str().is_empty() {
            buf.append("&scope=");
            let encoded = percent_encode(self.scope.as_str());
            buf.append(encoded.as_str());
        }
        proof {
            assert(buf@ =~= spec_authorization_url(*self));
        }
        buf
    }
}

/// Create an authorization URL.
///
/// Configure, then build: the build step does not consume the builder,
/// so it can be reconfigured and built again independently. At least
/// one scope must be configured, and the redirect URI must be one the
/// client was constructed with; both are checked at build time.
#[derive(Clone, Debug)]
pub struct AuthorizationUrlBuilder<'a> {
    /// The client identity the URL is built for.
    pub client: &'a Client,
    /// Where the user is sent after authorizing.
    pub redirect_uri: String,
    /// The scopes the user is asked to grant.
    pub scopes: Vec<Scope>,
    /// Opaque value echoed back on redirect, when set.
    pub state: Option<String>,
    /// Whether to prompt an already-consenting user again, when set.
    pub prompt: Option<Prompt>,
}

impl<'a> AuthorizationUrlBuilder<'a> {
    /// Create a builder for the client, with no scopes, state or
    /// prompt configured.
    pub(crate) fn new(client: &'a Client, redirect_uri: &str) -> (b: Self)
        ensures
            b.client == client,
            b.redirect_uri@ == redirect_uri@,
            b.scopes@.len() == 0,
            b.state is None,
            b.prompt is None,
    {
        Self {
            client,
            redirect_uri: redirect_uri.to_owned(),
            scopes: Vec::new(),
            state: None,
            prompt: None,
        }
    }

    /// Set the scopes the user is asked to grant.
    ///
    /// At least one scope is required at build time.
    pub fn scopes(&mut self, scopes: Vec<Scope>)
        ensures
            final(self).scopes == scopes,
            final(self).client == old(self).client,
            final(self).redirect_uri == old(self).redirect_uri,
            final(self).state == old(self).state,
            final(self).prompt == old(self).prompt,
    {
        self.scopes = scopes;
    }

    /// Set the state value echoed back on redirect.
    pub fn state(&mut self, state: &str)
        ensures
            final(self).state matches Some(s) && s@ == state@,
            final(self).client == old(self).client,
            final(self).redirect_uri == old(self).redirect_uri,
            final(self).scopes == old(self).scopes,
            final(self).prompt == old(self).prompt,
    {
        self.state = Some(state.to_owned());
    }

    /// Set whether to prompt an already-consenting user again.
    pub fn prompt(&mut self, prompt: Prompt)
        ensures
            final(self).prompt == Some(prompt),
            final(self).client == old(self).client,
            final(self).redirect_uri == old(self).redirect_uri,
            final(self).scopes == old(self).scopes,
            final(self).state == old(self).state,
    {
        self.prompt = Some(prompt);
    }

    /// Select a different redirect URI.
    ///
    /// It is validated against the client's registered set at build
    /// time, not here.
    pub fn redirect_uri(&mut self, redirect_uri: &str)
        ensures
            final(self).redirect_uri@ == redirect_uri@,
            final(self).client == old(self).client,
            final(self).scopes == old(self).scopes,
            final(self).state == old(self).state,
            final(self).prompt == old(self).prompt,
    {
        self.redirect_uri = redirect_uri.to_owned();
    }

    /// Build the authorization URL request.
    ///
    /// Fails with a configuration error when the redirect URI is not
    /// one the client was constructed with, and with a validation
    /// error when no scopes were configured; succeeds otherwise, with
    /// the grant type fixed to `authorization_code` and the response
    /// type fixed to `code`.
    pub fn build(&self) -> (r: Result<AuthorizationUrlRequest, BuildError>)
        ensures
            !is_registered_uri(*self.client, self.redirect_uri@) <==> r == Err::<
                AuthorizationUrlRequest,
                BuildError,
            >(BuildError::UnregisteredRedirectUri),
            (is_registered_uri(*self.client, self.redirect_uri@) && self.scopes@.len() == 0) <==> r
                == Err::<AuthorizationUrlRequest, BuildError>(BuildError::NoScopes),
            r is Ok <==> (is_registered_uri(*self.client, self.redirect_uri@) && self.scopes@.len()
                > 0),
            r matches Ok(req) ==> {
                &&& req.grant_type == GrantType::AuthorizationCode
                &&& req.client_id == self.client.client_id
                &&& req.redirect_uri@ == self.redirect_uri@
                &&& req.response_type@ == "code"@
                &&& (req.state is Some <==> self.state is Some)
                &&& (req.state is Some ==> req.state->0@ == self.state->0@)
                &&& req.prompt == self.prompt
                &&& req.scope@ == spec_join(self.scopes@)
                &&& req.url_base@ == "https://discord.com/api/v6/oauth2/authorize"@
            },
    {
        if !self.client.has_redirect_uri(self.redirect_uri.as_str()) {
            return Err(BuildError::UnregisteredRedirectUri);
        }
        if self.scopes.len() == 0 {
            return Err(BuildError::NoScopes);
        }
        Ok(AuthorizationUrlRequest {
            grant_type: GrantType::AuthorizationCode,
            client_id: self.client.client_id(),
            redirect_uri: self.redirect_uri.clone(),
            response_type: "code",
            state: match &self.state {
                Some(state) => Some(state.clone()),
                None => None,
            },
            prompt: self.prompt,
            scope: join(self.scopes.as_slice()),
            url_base: "https://discord.com/api/v6/oauth2/authorize",
        })
    }
}

} // verus!
