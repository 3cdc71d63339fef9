//! Decisions taken on gateway events.
//!
//! The event handlers around this crate look names and member counts up over
//! the network, then let these functions decide and fill in fallbacks.

use vstd::prelude::*;

verus! {

/// Whether a voice-state update should trigger a notification: only a fresh
/// join (the user had no previous voice state) into a channel, and only when
/// the joiner is the channel's sole member.
pub fn should_notify_voice_join(
    has_previous_state: bool,
    joined_channel: bool,
    member_count: usize,
) -> (notify: bool)
    ensures
        notify == (!has_previous_state && joined_channel && member_count <= 1),
{
    !has_previous_state && joined_channel && member_count <= 1
}

/// A looked-up name, or the placeholder when the lookup yielded nothing.
pub fn resolve_name(lookup: Option<String>) -> (name: String)
    ensures
        lookup matches Some(n) ==> name@ == n@,
        lookup is None ==> name@ == "<not_obtained>"@,
{
    match lookup {
        Some(n) => n,
        None => String::from_str("<not_obtained>"),
    }
}

} // verus!
