//! OAuth2 permission scopes and the space-delimited wire form of a
//! scope list.

use vstd::prelude::*;
use vstd::slice::slice_index_get;

verus! {

/// An OAuth2 permission scope.
///
/// The set of scopes is open-ended on the service's side, so decoding
/// an unknown wire token preserves it in [`Scope::Unrecognized`]
/// instead of failing.
#[derive(Clone, Debug, PartialEq, Eq)]
pub enum Scope {
    /// Put the application's bot in the user's selected guild.
    Bot,
    /// Access to a user's guilds.
    Guilds,
    /// Access to a user's id, username, avatar and discriminator.
    Identify,
    /// Create a webhook in the user's selected channel.
    WebhookIncoming,
    /// A scope this client does not know, preserved verbatim.
    Unrecognized(String),
}

/// The canonical wire token of a scope.
pub open spec fn scope_name(s: Scope) -> Seq<char> {
    match s {
        Scope::Bot => "bot"@,
        Scope::Guilds => "guilds"@,
        Scope::Identify => "identify"@,
        Scope::WebhookIncoming => "webhook.incoming"@,
        Scope::Unrecognized(raw) => raw@,
    }
}

/// What decoding a wire token yields: decoding is total; a known token
/// gives its variant, any other token is preserved as `Unrecognized`.
pub open spec fn scope_decode_matches(s: Seq<char>, r: Scope) -> bool {
    if s == "bot"@ {
        r == Scope::Bot
    } else if s == "guilds"@ {
        r == Scope::Guilds
    } else if s == "identify"@ {
        r == Scope::Identify
    } else if s == "webhook.incoming"@ {
        r == Scope::WebhookIncoming
    } else {
        r matches Scope::Unrecognized(raw) && raw@ == s
    }
}

impl Scope {
    /// Return the name of the scope.
    ///
    /// This is the exact wire token used in scope lists, and equals
    /// what serializing the variant produces.
    pub fn name(&self) -> (r: &str)
        ensures
            r@ == scope_name(*self),
    {
        match self {
            Self::Bot => "bot",
            Self::Guilds => "guilds",
            Self::Identify => "identify",
            Self::WebhookIncoming => "webhook.incoming",
            Self::Unrecognized(raw) => raw.as_str(),
        }
    }

    /// Decode a wire token into a scope.
    ///
    /// Never fails: an unknown token comes back as `Unrecognized`,
    /// holding the raw token.
    pub fn decode(s: &str) -> (r: Scope)
        ensures
            scope_decode_matches(s@, r),
    {
        if crate::strutil::str_eq(s, "bot") {
            Self::Bot
        } else if crate::strutil::str_eq(s, "guilds") {
            Self::Guilds
        } else if crate::strutil::str_eq(s, "identify") {
            Self::Identify
        } else if crate::strutil::str_eq(s, "webhook.incoming") {
            Self::WebhookIncoming
        } else {
            Self::Unrecognized(s.to_owned())
        }
    }
}

/// Round trip: whatever decoding the name of a scope yields has that
/// same name.
pub proof fn lemma_scope_round_trip(s: Scope, r: Scope)
    requires
        scope_decode_matches(scope_name(s), r),
    ensures
        scope_name(r) == scope_name(s),
{
}

/// The space-delimited wire form of a scope list: the names of the
/// scopes in their given order, separated by single spaces. Nothing is
/// trimmed, deduplicated or sorted; the empty list gives the empty
/// string.
pub open spec fn spec_join(scopes: Seq<Scope>) -> Seq<char>
    decreases scopes.len(),
{
    if scopes.len() == 0 {
        Seq::empty()
    } else if scopes.len() == 1 {
        scope_name(scopes[0])
    } else {
        spec_join(scopes.drop_last()) + " "@ + scope_name(scopes.last())
    }
}

/// Join a list of scopes into the single space-delimited string the
/// service expects for multi-scope lists.
///
/// Order is preserved and duplicates are kept: the caller's list is
/// rendered exactly as given.
pub fn join(scopes: &[Scope]) -> (r: String)
    ensures
        r@ == spec_join(scopes@),
{
    let mut buf = String::new();
    let mut i: usize = 0;
    while i < scopes.len()
        invariant
            i <= scopes@.len(),
            buf@ == spec_join(scopes@.take(i as int)),
        decreases scopes@.len() - i,
    {
        if i > 0 {
            buf.append(" ");
        }
        buf.append(slice_index_get(scopes, i).name());
        proof {
            assert(scopes@.take(i + 1 as int).drop_last() =~= scopes@.take(i as int));
            assert(scopes@.take(i + 1 as int).last() == scopes@[i as int]);
        }
        i += 1;
    }
    proof {
        assert(scopes@.take(scopes@.len() as int) =~= scopes@);
    }
    buf
}

} // verus!
