//! The part of the configuration that channel delivery reads.

use vstd::prelude::*;

verus! {

/// Settings of the Telegram channel.
#[derive(Debug)]
pub struct TelegramConfig {
    pub bot_token: String,
    pub allowed_users: Vec<String>,
    pub mention_only: bool,
}

/// Settings of the Discord channel.
#[derive(Debug)]
pub struct DiscordConfig {
    pub bot_token: String,
    pub guild_id: Option<String>,
    pub allowed_users: Vec<String>,
    pub listen_to_bots: bool,
    pub mention_only: bool,
}

/// Settings of the Slack channel.
#[derive(Debug)]
pub struct SlackConfig {
    pub bot_token: String,
    pub channel_id: Option<String>,
    pub allowed_users: Vec<String>,
}

/// Settings of the Mattermost channel.
#[derive(Debug)]
pub struct MattermostConfig {
    pub url: String,
    pub bot_token: String,
    pub channel_id: Option<String>,
    pub allowed_users: Vec<String>,
    /// Whether replies go to the thread; they do unless this says otherwise.
    pub thread_replies: Option<bool>,
    /// Whether only mentions are listened to; they are not unless this says so.
    pub mention_only: Option<bool>,
}

/// Which messaging channels are configured, and how.
#[derive(Debug)]
pub struct ChannelsConfig {
    pub telegram: Option<TelegramConfig>,
    pub discord: Option<DiscordConfig>,
    pub slack: Option<SlackConfig>,
    pub mattermost: Option<MattermostConfig>,
    /// Whether Lark is configured. The Lark channel reads its own settings.
    pub lark: bool,
    /// Whether Feishu is configured. The Lark channel reads its settings.
    pub feishu: bool,
    /// Whether this build contains the Lark channel, which also serves Feishu.
    pub lark_built_in: bool,
}

/// The configuration.
#[derive(Debug)]
pub struct Config {
    pub channels_config: ChannelsConfig,
}

impl ChannelsConfig {
    /// Whether no channel is configured, and the Lark channel is built in.
    pub open spec fn is_default(self) -> bool {
        &&& self.telegram is None
        &&& self.discord is None
        &&& self.slack is None
        &&& self.mattermost is None
        &&& !self.lark
        &&& !self.feishu
        &&& self.lark_built_in
    }
}

impl Default for Config {
    /// No channel is configured; the Lark channel is built in.
    fn default() -> (r: Config)
        ensures
            r.channels_config.is_default(),
    {
        Config {
            channels_config: ChannelsConfig {
                telegram: None,
                discord: None,
                slack: None,
                mattermost: None,
                lark: false,
                feishu: false,
                lark_built_in: true,
            },
        }
    }
}

// ---------------------------------------------------------------------------
// Laws
// ---------------------------------------------------------------------------

/// By default no channel has settings, and the Lark channel is there.
pub proof fn law_default_config(config: ChannelsConfig)
    ensures
        config.is_default() <==> config.telegram is None && config.discord is None && config.slack
            is None && config.mattermost is None && !config.lark && !config.feishu
            && config.lark_built_in,
{
}

} // verus!
