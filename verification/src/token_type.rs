//! Type of token.

use vstd::prelude::*;

verus! {

/// Type of token.
///
/// The service may add token types in the future, so decoding an
/// unknown wire token preserves it in [`TokenType::Unrecognized`]
/// instead of failing.
#[derive(Clone, Debug, PartialEq, Eq)]
pub enum TokenType {
    /// Bearer token.
    Bearer,
    /// A token type this client does not know, preserved verbatim.
    Unrecognized(String),
}

/// The canonical wire token of a token type.
pub open spec fn token_type_name(t: TokenType) -> Seq<char> {
    match t {
        TokenType::Bearer => "Bearer"@,
        TokenType::Unrecognized(raw) => raw@,
    }
}

/// What decoding a wire token yields: decoding is total; the known
/// token gives `Bearer`, any other token is preserved as
/// `Unrecognized`.
pub open spec fn token_type_decode_matches(s: Seq<char>, r: TokenType) -> bool {
    if s == "Bearer"@ {
        r == TokenType::Bearer
    } else {
        r matches TokenType::Unrecognized(raw) && raw@ == s
    }
}

impl TokenType {
    /// Return the name of the token type.
    ///
    /// This is the exact case-sensitive wire token, and equals what
    /// serializing the variant produces.
    pub fn name(&self) -> (r: &str)
        ensures
            r@ == token_type_name(*self),
    {
        match self {
            Self::Bearer => "Bearer",
            Self::Unrecognized(raw) => raw.as_str(),
        }
    }

    /// Decode a wire token into a token type.
    ///
    /// Never fails: an unknown token comes back as `Unrecognized`,
    /// holding the raw token.
    pub fn decode(s: &str) -> (r: TokenType)
        ensures
            token_type_decode_matches(s@, r),
    {
        if crate::strutil::str_eq(s, "Bearer") {
            Self::Bearer
        } else {
            Self::Unrecognized(s.to_owned())
        }
    }
}

/// Round trip: whatever decoding the name of a token type yields has
/// that same name, and the name of `Bearer` decodes to `Bearer` itself.
pub proof fn lemma_token_type_round_trip(t: TokenType, r: TokenType)
    requires
        token_type_decode_matches(token_type_name(t), r),
    ensures
        token_type_name(r) == token_type_name(t),
        t == TokenType::Bearer ==> r == t,
{
}

} // verus!
