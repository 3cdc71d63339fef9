//! The immutable configuration record.
//!
//! The four values are read from the environment once at process start,
//! outside this crate; invalid or missing values are a startup error there.
//! From then on the record only hands copies out.

use vstd::prelude::*;

verus! {

/// The bot's configuration, fixed at startup.
pub struct Config {
    discord_bot_token: String,
    telegram_bot_token: String,
    telegram_chat_id: String,
    telegram_invite_link: String,
}

impl Config {
    /// The token the gateway client authenticates with.
    pub closed spec fn spec_discord_bot_token(&self) -> Seq<char> {
        self.discord_bot_token@
    }

    /// The token the messaging client authenticates with.
    pub closed spec fn spec_telegram_bot_token(&self) -> Seq<char> {
        self.telegram_bot_token@
    }

    /// The chat that notifications are sent to.
    pub closed spec fn spec_telegram_chat_id(&self) -> Seq<char> {
        self.telegram_chat_id@
    }

    /// The invite link the invite command replies with.
    pub closed spec fn spec_telegram_invite_link(&self) -> Seq<char> {
        self.telegram_invite_link@
    }

    /// Assemble a configuration from the values the startup code read.
    pub fn new(
        discord_bot_token: String,
        telegram_bot_token: String,
        telegram_chat_id: String,
        telegram_invite_link: String,
    ) -> (config: Self)
        ensures
            config.spec_discord_bot_token() == discord_bot_token@,
            config.spec_telegram_bot_token() == telegram_bot_token@,
            config.spec_telegram_chat_id() == telegram_chat_id@,
            config.spec_telegram_invite_link() == telegram_invite_link@,
    {
        Config { discord_bot_token, telegram_bot_token, telegram_chat_id, telegram_invite_link }
    }

    /// A copy of the gateway token.
    pub fn discord_bot_token(&self) -> (token: String)
        ensures
            token@ == self.spec_discord_bot_token(),
    {
        self.discord_bot_token.clone()
    }

    /// A copy of the messaging token.
    pub fn telegram_bot_token(&self) -> (token: String)
        ensures
            token@ == self.spec_telegram_bot_token(),
    {
        self.telegram_bot_token.clone()
    }

    /// A copy of the chat id.
    pub fn telegram_chat_id(&self) -> (chat_id: String)
        ensures
            chat_id@ == self.spec_telegram_chat_id(),
    {
        self.telegram_chat_id.clone()
    }

    /// A copy of the invite link.
    pub fn telegram_invite_link(&self) -> (link: String)
        ensures
            link@ == self.spec_telegram_invite_link(),
    {
        self.telegram_invite_link.clone()
    }
}

} // verus!
