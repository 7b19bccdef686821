//! Type of approved grant.

use vstd::prelude::*;

verus! {

/// Type of approved grant.
///
/// The set is closed: the client, not the service, decides which grant
/// flows it supports, so an unknown wire token fails to decode.
#[derive(Clone, Copy, Debug, PartialEq, Eq, Structural)]
pub enum GrantType {
    /// Authorization code.
    AuthorizationCode,
    /// Client credentials.
    ClientCredentials,
    /// Refresh token.
    RefreshToken,
}

/// The canonical wire token of a grant type.
pub open spec fn grant_type_name(g: GrantType) -> Seq<char> {
    match g {
        GrantType::AuthorizationCode => "authorization_code"@,
        GrantType::ClientCredentials => "client_credentials"@,
        GrantType::RefreshToken => "refresh_token"@,
    }
}

/// What decoding a wire token yields: the variant whose name it is,
/// or nothing, since the set is closed.
pub open spec fn grant_type_decode(s: Seq<char>) -> Option<GrantType> {
    if s == grant_type_name(GrantType::AuthorizationCode) {
        Some(GrantType::AuthorizationCode)
    } else if s == grant_type_name(GrantType::ClientCredentials) {
        Some(GrantType::ClientCredentials)
    } else if s == grant_type_name(GrantType::RefreshToken) {
        Some(GrantType::RefreshToken)
    } else {
        None
    }
}

impl GrantType {
    /// Return the name of the grant type.
    ///
    /// This is the exact wire token used in query strings and form
    /// bodies, and equals what serializing the variant produces.
    pub fn name(&self) -> (r: &'static str)
        ensures
            r@ == grant_type_name(*self),
    {
        match self {
            Self::AuthorizationCode => "authorization_code",
            Self::ClientCredentials => "client_credentials",
            Self::RefreshToken => "refresh_token",
        }
    }

    /// Decode a wire token into a grant type.
    ///
    /// Returns `None` when the token matches no variant.
    pub fn decode(s: &str) -> (r: Option<GrantType>)
        ensures
            r == grant_type_decode(s@),
    {
        if crate::strutil::str_eq(s, "authorization_code") {
            Some(Self::AuthorizationCode)
        } else if crate::strutil::str_eq(s, "client_credentials") {
            Some(Self::ClientCredentials)
        } else if crate::strutil::str_eq(s, "refresh_token") {
            Some(Self::RefreshToken)
        } else {
            None
        }
    }
}

/// Round trip: decoding the name of any grant type yields that
/// grant type back.
pub proof fn lemma_grant_type_round_trip(g: GrantType)
    ensures
        grant_type_decode(grant_type_name(g)) == Some(g),
{
    reveal_strlit("authorization_code");
    reveal_strlit("client_credentials");
    reveal_strlit("refresh_token");
    assert("client_credentials"@[0] != "authorization_code"@[0]);
    assert("refresh_token"@.len() != "authorization_code"@.len());
    assert("refresh_token"@.len() != "client_credentials"@.len());
}

} // verus!
