//! Request builders, one per grant flow, and the typed responses of the
//! token endpoint.

pub mod access_token_exchange;
pub mod authorization_url;
pub mod client_credentials_grant;
pub mod refresh_token_exchange;
pub mod webhook_token_exchange;

use vstd::prelude::*;

verus! {

/// Why a builder refused to assemble its request.
#[derive(Clone, Copy, Debug, PartialEq, Eq, Structural)]
pub enum BuildError {
    /// The configured redirect URI is not one the client was
    /// constructed with. The URI is rejected, never silently replaced.
    UnregisteredRedirectUri,
    /// The authorization-code flow was configured with no scopes at
    /// all; at least one explicit scope is required.
    NoScopes,
}

} // verus!
