//! Whether to prompt the user again when they have already authorized
//! the application.

use vstd::prelude::*;

verus! {

/// Whether to prompt the user again when they have already authorized
/// the application.
///
/// The set is closed: an unknown wire token fails to decode.
#[derive(Clone, Copy, Debug, PartialEq, Eq, Structural)]
pub enum Prompt {
    /// Always ask the user for consent.
    Consent,
    /// Don't ask the user for consent.
    NoPrompt,
}

/// The canonical wire token of a prompt directive.
pub open spec fn prompt_name(p: Prompt) -> Seq<char> {
    match p {
        Prompt::Consent => "consent"@,
        Prompt::NoPrompt => "none"@,
    }
}

/// What decoding a wire token yields: the variant whose name it is,
/// or nothing, since the set is closed.
pub open spec fn prompt_decode(s: Seq<char>) -> Option<Prompt> {
    if s == prompt_name(Prompt::Consent) {
        Some(Prompt::Consent)
    } else if s == prompt_name(Prompt::NoPrompt) {
        Some(Prompt::NoPrompt)
    } else {
        None
    }
}

impl Prompt {
    /// Return the name of the prompt.
    ///
    /// This is the exact wire token used in query strings, and equals
    /// what serializing the variant produces.
    pub fn name(&self) -> (r: &'static str)
        ensures
            r@ == prompt_name(*self),
    {
        match self {
            Self::Consent => "consent",
            Self::NoPrompt => "none",
        }
    }

    /// The human-readable form of the prompt, identical to its wire
    /// token.
    pub fn to_string(&self) -> (r: String)
        ensures
            r@ == prompt_name(*self),
    {
        self.name().to_owned()
    }

    /// Decode a wire token into a prompt directive.
    ///
    /// Returns `None` when the token matches no variant.
    pub fn decode(s: &str) -> (r: Option<Prompt>)
        ensures
            r == prompt_decode(s@),
    {
        if crate::strutil::str_eq(s, "consent") {
            Some(Self::Consent)
        } else if crate::strutil::str_eq(s, "none") {
            Some(Self::NoPrompt)
        } else {
            None
        }
    }
}

/// Round trip: decoding the name of any prompt yields that prompt back.
pub proof fn lemma_prompt_round_trip(p: Prompt)
    ensures
        prompt_decode(prompt_name(p)) == Some(p),
{
    reveal_strlit("consent");
    reveal_strlit("none");
    assert("consent"@.len() != "none"@.len());
}

} // verus!
