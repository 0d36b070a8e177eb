//! Identity resolution: derive a display name for prompt personalization
//! from the message's sender and forward-origin metadata.

use vstd::prelude::*;

verus! {

/// Where a forwarded message originally came from.
#[derive(Debug)]
pub enum ForwardOrigin {
    /// Forwarded from a user account, which may or may not expose a username.
    User { username: Option<String> },
    /// Forwarded from a chat or channel; no personal name is available.
    Chat,
    /// Forwarded from an anonymous sender who left only a free-text name.
    SenderName { name: String },
}

/// The name the forward origin contributes, if any: a free-text sender name
/// counts, so does the forwarding user's username; a chat contributes none.
pub open spec fn spec_forward_name(forward: Option<ForwardOrigin>) -> Option<Seq<char>> {
    match forward {
        Some(ForwardOrigin::SenderName { name }) => Some(name@),
        Some(ForwardOrigin::User { username: Some(u) }) => Some(u@),
        _ => None,
    }
}

/// The resolved display name: the forward origin's name takes precedence,
/// then the original sender's username, then the fixed fallback.
pub open spec fn spec_identity(
    sender_username: Option<String>,
    forward: Option<ForwardOrigin>,
) -> Seq<char> {
    match spec_forward_name(forward) {
        Some(n) => n,
        None => match sender_username {
            Some(u) => u@,
            None => "Nutzer"@,
        },
    }
}

/// Resolves the display name used to personalize the summary prompt.
/// Never fails: every combination of metadata yields a string.
pub fn resolve_identity(
    sender_username: Option<String>,
    forward: Option<ForwardOrigin>,
) -> (name: String)
    ensures
        name@ == spec_identity(sender_username, forward),
{
    match forward {
        Some(ForwardOrigin::SenderName { name }) => name,
        Some(ForwardOrigin::User { username: Some(u) }) => u,
        _ => match sender_username {
            Some(u) => u,
            None => String::from_str("Nutzer"),
        },
    }
}

/// As long as every name the metadata carries is itself non-empty, the
/// resolved display name is non-empty, whichever branch produced it.
pub proof fn lemma_identity_non_empty(
    sender_username: Option<String>,
    forward: Option<ForwardOrigin>,
)
    requires
        (sender_username matches Some(u) ==> u@.len() > 0),
        (forward matches Some(ForwardOrigin::User { username: Some(u) }) ==> u@.len() > 0),
        (forward matches Some(ForwardOrigin::SenderName { name }) ==> name@.len() > 0),
    ensures
        spec_identity(sender_username, forward).len() > 0,
{
    reveal_strlit("Nutzer");
}

} // verus!
