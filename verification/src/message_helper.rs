//! Notification message templates.
//!
//! Both notification kinds share one template — the user, channel and server
//! names between bold markers, with a phrase picked by the event kind — so
//! one rendering function serves both triggers.

use vstd::prelude::*;

verus! {

/// Which event a notification reports.
#[derive(Debug, Clone, Copy, PartialEq, Eq, Structural)]
pub enum EventKind {
    /// A user joined a voice channel.
    VoiceChannelJoin,
    /// A user is calling for company from a text channel.
    TextChannelCall,
}

/// The template phrase between the user name and the channel name.
pub open spec fn event_phrase(kind: EventKind) -> Seq<char> {
    match kind {
        EventKind::VoiceChannelJoin => "* joined to voice channel *"@,
        EventKind::TextChannelCall => "* is calling in text channel *"@,
    }
}

/// The full notification text for an event.
pub open spec fn notification_message(
    kind: EventKind,
    user_name: Seq<char>,
    channel_name: Seq<char>,
    guild_name: Seq<char>,
) -> Seq<char> {
    "*"@ + user_name + event_phrase(kind) + channel_name + "* in server *"@ + guild_name
        + "*. Are you joining?"@
}

/// Render the notification text for the given event kind and names.
pub fn build_notification_message(
    kind: EventKind,
    user_name: &str,
    channel_name: &str,
    guild_name: &str,
) -> (message: String)
    ensures
        message@ == notification_message(kind, user_name@, channel_name@, guild_name@),
{
    let mut message = String::from_str("*");
    message.append(user_name);
    match kind {
        EventKind::VoiceChannelJoin => message.append("* joined to voice channel *"),
        EventKind::TextChannelCall => message.append("* is calling in text channel *"),
    }
    message.append(channel_name);
    message.append("* in server *");
    message.append(guild_name);
    message.append("*. Are you joining?");
    proof {
        assert(message@ =~= notification_message(kind, user_name@, channel_name@, guild_name@));
    }
    message
}

/// The notification sent when a user joins a voice channel.
pub fn build_voice_channel_notification_message(
    user_name: &str,
    channel_name: &str,
    guild_name: &str,
) -> (message: String)
    ensures
        message@ == notification_message(
            EventKind::VoiceChannelJoin,
            user_name@,
            channel_name@,
            guild_name@,
        ),
{
    build_notification_message(EventKind::VoiceChannelJoin, user_name, channel_name, guild_name)
}

/// The notification sent when a user calls for company from a text channel.
pub fn build_text_channel_notification_message(
    user_name: &str,
    channel_name: &str,
    guild_name: &str,
) -> (message: String)
    ensures
        message@ == notification_message(
            EventKind::TextChannelCall,
            user_name@,
            channel_name@,
            guild_name@,
        ),
{
    build_notification_message(EventKind::TextChannelCall, user_name, channel_name, guild_name)
}

} // verus!
