//! The credentials of each provider, as plain values.

use vstd::prelude::*;

verus! {

/// What a Telegram notifier needs: the chat to write to and the bot's token.
#[derive(Debug, Clone)]
pub struct TelegramOptions {
    pub chat_id: i64,
    pub token: String,
}

impl TelegramOptions {
    pub fn new(chat_id: i64, token: &str) -> (options: Self)
        ensures
            options.chat_id == chat_id,
            options.token@ == token@,
    {
        TelegramOptions { chat_id, token: token.to_owned() }
    }
}

/// What a Discord notifier needs: the webhook to post to, and optionally the
/// title and the footer of the embed.
#[derive(Debug, Clone)]
pub struct DiscordOptions {
    pub discord_webhook: String,
    pub embed_title: Option<String>,
    pub embed_footer_content: Option<String>,
}

/// The title of an embed without one.
pub const DEFAULT_EMBED_TITLE: &'static str = "Rusty Response";

impl DiscordOptions {
    /// The title an embed is sent with: the configured one, or the default.
    pub open spec fn title_text(&self) -> Seq<char> {
        match self.embed_title {
            Some(title) => title@,
            None => DEFAULT_EMBED_TITLE@,
        }
    }

    pub fn title(&self) -> (title: &str)
        ensures
            title@ == self.title_text(),
    {
        match &self.embed_title {
            Some(title) => title.as_str(),
            None => DEFAULT_EMBED_TITLE,
        }
    }

    /// The footer an embed is sent with: the configured one, or `fallback`.
    pub fn footer<'a>(&'a self, fallback: &'a str) -> (footer: &'a str)
        ensures
            footer@ == match self.embed_footer_content {
                Some(content) => content@,
                None => fallback@,
            },
    {
        match &self.embed_footer_content {
            Some(content) => content.as_str(),
            None => fallback,
        }
    }
}

} // verus!
