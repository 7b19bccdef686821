//! The client identity a builder borrows: application id, client
//! secret, and the set of redirect URIs registered for the application.

use vstd::prelude::*;
use vstd::slice::slice_index_get;
use crate::request::access_token_exchange::AccessTokenExchangeBuilder;
use crate::request::authorization_url::AuthorizationUrlBuilder;
use crate::request::client_credentials_grant::ClientCredentialsGrantBuilder;
use crate::request::refresh_token_exchange::RefreshTokenExchangeBuilder;
use crate::scope::Scope;

verus! {

/// The identity of the application making OAuth2 requests.
///
/// Builders borrow a client read-only; the client must outlive every
/// builder derived from it. The client owns its credentials, and a
/// builder never copies the secret before its build step.
#[derive(Clone, Debug)]
pub struct Client {
    /// ID of the application.
    pub client_id: u64,
    /// Secret of the application.
    pub client_secret: String,
    /// Redirect URIs registered for the application. A builder's
    /// redirect URI must be one of these, checked at build time.
    pub redirect_uris: Vec<String>,
}

/// Whether a URI is one of the client's registered redirect URIs.
pub open spec fn is_registered_uri(c: Client, uri: Seq<char>) -> bool {
    exists|i: int| 0 <= i < c.redirect_uris@.len() && c.redirect_uris@[i]@ == uri
}

impl Client {
    /// Create a new client from its application id, client secret and
    /// registered redirect URIs.
    pub fn new(client_id: u64, client_secret: &str, redirect_uris: &[&str]) -> (c: Client)
        ensures
            c.client_id == client_id,
            c.client_secret@ == client_secret@,
            c.redirect_uris@.len() == redirect_uris@.len(),
            forall|i: int|
                0 <= i < redirect_uris@.len() ==> c.redirect_uris@[i]@ == redirect_uris@[i]@,
    {
        let mut uris: Vec<String> = Vec::new();
        let mut i: usize = 0;
        while i < redirect_uris.len()
            invariant
                i <= redirect_uris@.len(),
                uris@.len() == i,
                forall|j: int| 0 <= j < i ==> uris@[j]@ == redirect_uris@[j]@,
            decreases redirect_uris@.len() - i,
        {
            uris.push((*slice_index_get(redirect_uris, i)).to_owned());
            i += 1;
        }
        Client { client_id, client_secret: client_secret.to_owned(), redirect_uris: uris }
    }

    /// Return the ID of the application.
    pub fn client_id(&self) -> (r: u64)
        ensures
            r == self.client_id,
    {
        self.client_id
    }

    /// Return the secret of the application.
    pub fn client_secret(&self) -> (r: &str)
        ensures
            r@ == self.client_secret@,
    {
        self.client_secret.as_str()
    }

    /// Return the redirect URIs registered for the application.
    pub fn redirect_uris(&self) -> (r: &Vec<String>)
        ensures
            r == &self.redirect_uris,
    {
        &self.redirect_uris
    }

    /// Whether the given URI is one of the registered redirect URIs.
    pub fn has_redirect_uri(&self, uri: &str) -> (r: bool)
        ensures
            r == is_registered_uri(*self, uri@),
    {
        let mut i: usize = 0;
        while i < self.redirect_uris.len()
            invariant
                i <= self.redirect_uris@.len(),
                forall|j: int| 0 <= j < i ==> self.redirect_uris@[j]@ != uri@,
            decreases self.redirect_uris@.len() - i,
        {
            if crate::strutil::str_eq(self.redirect_uris[i].as_str(), uri) {
                return true;
            }
            i += 1;
        }
        false
    }

    /// Create a builder for a client credentials grant request.
    ///
    /// By default the request asks for the `identify` scope alone.
    pub fn client_credentials_grant(&self) -> (b: ClientCredentialsGrantBuilder<'_>)
        ensures
            b.client == self,
            b.scopes@ == seq![Scope::Identify],
    {
        ClientCredentialsGrantBuilder::new(self)
    }

    /// Create a builder for an authorization URL, sending the user to
    /// the given redirect URI after authorization.
    ///
    /// The redirect URI is validated against the registered set at
    /// build time, not here.
    pub fn authorization_url(&self, redirect_uri: &str) -> (b: AuthorizationUrlBuilder<'_>)
        ensures
            b.client == self,
            b.redirect_uri@ == redirect_uri@,
            b.scopes@.len() == 0,
            b.state is None,
            b.prompt is None,
    {
        AuthorizationUrlBuilder::new(self, redirect_uri)
    }

    /// Create a builder for exchanging an authorization code for an
    /// access token.
    ///
    /// The redirect URI is validated against the registered set at
    /// build time, not here.
    pub fn access_token_exchange(&self, code: &str, redirect_uri: &str) -> (b:
        AccessTokenExchangeBuilder<'_>)
        ensures
            b.client == self,
            b.code@ == code@,
            b.redirect_uri@ == redirect_uri@,
    {
        AccessTokenExchangeBuilder::new(self, code, redirect_uri)
    }

    /// Create a builder for exchanging a refresh token for a new
    /// access token and refresh token pair.
    pub fn refresh_token_exchange(&self, refresh_token: &str) -> (b:
        RefreshTokenExchangeBuilder<'_>)
        ensures
            b.client == self,
            b.refresh_token@ == refresh_token@,
            b.scopes@.len() == 0,
    {
        RefreshTokenExchangeBuilder::new(self, refresh_token)
    }
}

} // verus!
