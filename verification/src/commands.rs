//! The slash commands the bot serves, and what each replies.
//!
//! The surrounding client hands this module plain values — the command name,
//! the options it carried — and takes plain values back: the reply text, the
//! URL list, or a structured refusal it can render.

use crate::animation::AnimationStore;
use crate::message_helper::EventKind;
use crate::message_helper::build_text_channel_notification_message;
use crate::message_helper::notification_message;
use vstd::prelude::*;

verus! {

/// The commands the bot registers.
#[derive(Debug, Clone, Copy, PartialEq, Eq, Structural)]
pub enum CommandKind {
    /// Send a notification, with an optional animation index and message.
    Notify,
    /// List the animation URLs.
    Animations,
    /// Reply with the invite link.
    Invite,
}

/// The wire name of each command.
pub open spec fn spec_command_name(kind: CommandKind) -> Seq<char> {
    match kind {
        CommandKind::Notify => "notify"@,
        CommandKind::Animations => "animations"@,
        CommandKind::Invite => "invite"@,
    }
}

/// The name a command is registered and dispatched under.
pub fn command_name(kind: CommandKind) -> (name: String)
    ensures
        name@ == spec_command_name(kind),
{
    match kind {
        CommandKind::Notify => String::from_str("notify"),
        CommandKind::Animations => String::from_str("animations"),
        CommandKind::Invite => String::from_str("invite"),
    }
}

/// Which command an interaction names; `None` for a name the bot does not
/// serve.
pub open spec fn spec_parse_command(name: Seq<char>) -> Option<CommandKind> {
    if name == spec_command_name(CommandKind::Notify) {
        Some(CommandKind::Notify)
    } else if name == spec_command_name(CommandKind::Animations) {
        Some(CommandKind::Animations)
    } else if name == spec_command_name(CommandKind::Invite) {
        Some(CommandKind::Invite)
    } else {
        None
    }
}

/// Dispatch an interaction by its command name.
pub fn parse_command(name: &String) -> (r: Option<CommandKind>)
    ensures
        r == spec_parse_command(name@),
{
    if *name == command_name(CommandKind::Notify) {
        Some(CommandKind::Notify)
    } else if *name == command_name(CommandKind::Animations) {
        Some(CommandKind::Animations)
    } else if *name == command_name(CommandKind::Invite) {
        Some(CommandKind::Invite)
    } else {
        None
    }
}

/// Why a notify command could not be served.
#[derive(Debug, Clone, Copy, PartialEq, Eq, Structural)]
pub enum NotifyError {
    /// The requested animation index is outside the list; `size` reports how
    /// many URLs there are, so the reply can name the valid range.
    IndexOutOfRange { index: usize, size: usize },
}

impl AnimationStore {
    /// The animation a notify command asks for: the indexed entry when an
    /// index was supplied, any entry (chosen at random) otherwise.
    pub fn choose_animation_url(&self, requested: Option<usize>) -> (r: Result<
        String,
        NotifyError,
    >)
        requires
            self.wf(),
        ensures
            requested matches Some(index) ==> (if index < self.spec_urls().len() {
                r matches Ok(url) && url@ == self.spec_urls()[index as int]
            } else {
                r matches Err(e) && e == (NotifyError::IndexOutOfRange {
                    index,
                    size: self.spec_urls().len() as usize,
                })
            }),
            requested is None ==> (r matches Ok(url) && (exists|i: int|
                0 <= i < self.spec_urls().len() && url@ == self.spec_urls()[i])),
    {
        match requested {
            Some(index) => match self.get_animation_url(index) {
                Some(url) => Ok(url),
                None => Err(
                    NotifyError::IndexOutOfRange { index, size: self.get_animation_urls_size() },
                ),
            },
            None => Ok(self.get_random_animation_url()),
        }
    }
}

/// The caption a notify command sends: the custom message when one was
/// supplied, else the text-channel notification built from the names.
pub fn choose_notify_message(
    custom_message: Option<String>,
    user_name: &str,
    channel_name: &str,
    guild_name: &str,
) -> (message: String)
    ensures
        custom_message matches Some(m) ==> message@ == m@,
        custom_message is None ==> message@ == notification_message(
            EventKind::TextChannelCall,
            user_name@,
            channel_name@,
            guild_name@,
        ),
{
    match custom_message {
        Some(m) => m,
        None => build_text_channel_notification_message(user_name, channel_name, guild_name),
    }
}

/// The reply to the animations command: the full URL list when the
/// interaction carries the list subcommand, nothing when it does not (the
/// caller reports an invalid command then).
pub fn animations_command_urls(store: &AnimationStore, has_list_subcommand: bool) -> (r: Option<
    Vec<String>,
>)
    ensures
        has_list_subcommand ==> (r matches Some(urls) && urls.deep_view() == store.spec_urls()),
        !has_list_subcommand ==> r is None,
{
    if has_list_subcommand {
        Some(store.get_animation_urls())
    } else {
        None
    }
}

/// The reply to the invite command.
pub open spec fn invite_message(link: Seq<char>) -> Seq<char> {
    "Use this link to join our telegram!\n"@ + link
}

/// Render the invite reply around the configured link.
pub fn build_invite_message(telegram_invite_link: &str) -> (message: String)
    ensures
        message@ == invite_message(telegram_invite_link@),
{
    let mut message = String::from_str("Use this link to join our telegram!\n");
    message.append(telegram_invite_link);
    message
}

} // verus!
