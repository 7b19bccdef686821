//! Client-side modeling of Discord's OAuth2 flows: strongly typed wire
//! tokens (grant type, prompt, token type, scope), request builders that
//! assemble exact query-encoded URLs, and typed decoders for the JSON
//! responses of the token endpoint.

pub mod client;
pub mod encode;
pub mod grant_type;
pub mod json;
pub mod prompt;
pub mod request;
pub mod scope;
pub mod strutil;
pub mod token_type;

pub use client::Client;
pub use grant_type::GrantType;
pub use prompt::Prompt;
pub use scope::Scope;
pub use token_type::TokenType;

use vstd::prelude::*;

verus! {

} // verus!
