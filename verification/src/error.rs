//! Why a notification was not delivered.

use crate::text::{decimal, decimal_text};
use vstd::prelude::*;
use vstd::string::StringExecFns;

verus! {

/// A messaging channel that takes plain text.
#[derive(Debug, Clone, Copy, PartialEq, Eq, Structural)]
pub enum ChannelKind {
    Telegram,
    Discord,
    Slack,
    Mattermost,
}

impl ChannelKind {
    /// The name of the channel.
    pub open spec fn name(self) -> Seq<char> {
        match self {
            ChannelKind::Telegram => "telegram"@,
            ChannelKind::Discord => "discord"@,
            ChannelKind::Slack => "slack"@,
            ChannelKind::Mattermost => "mattermost"@,
        }
    }

    /// The name of the channel.
    pub fn as_str(&self) -> (r: &'static str)
        ensures
            r@ == self.name(),
    {
        match self {
            ChannelKind::Telegram => "telegram",
            ChannelKind::Discord => "discord",
            ChannelKind::Slack => "slack",
            ChannelKind::Mattermost => "mattermost",
        }
    }
}

/// Why a notification was not delivered.
#[derive(Debug)]
pub enum NotifyError {
    /// The security policy allows no actions.
    ReadOnly,
    /// The security policy allows no further action for now.
    RateLimited,
    /// `method` names no delivery method.
    UnknownMethod(String),
    /// `message` is missing, not a string or blank.
    EmptyMessage,
    /// `msg_type` names no message type.
    UnknownMessageType(String),
    /// `receive_id_type` names no recipient id type.
    InvalidReceiveIdType,
    /// Neither the Feishu nor the Lark channel is configured.
    FeishuNotConfigured,
    /// The Lark channel is not configured.
    LarkNotConfigured,
    /// Lark delivery needs a recipient.
    LarkRecipientRequired,
    /// Channel delivery needs a recipient.
    ChannelRecipientRequired,
    /// The channel is not configured.
    ChannelNotConfigured(ChannelKind),
    /// No channel has this name.
    UnsupportedChannel(String),
    /// The Pushover priority is not one of -2 to 2.
    PriorityOutOfRange(i64),
    /// The `.env` file cannot be read.
    EnvUnreadable { path: String, cause: String },
    /// The `.env` file assigns no Pushover token.
    TokenNotFound,
    /// The `.env` file assigns no Pushover user key.
    UserKeyNotFound,
    /// Pushover answered with a status that is no success.
    PushoverStatus { status: String, body: String },
    /// Pushover answered, but did not accept the notification.
    PushoverRefused { body: String },
    /// Webhook delivery needs a URL.
    WebhookRecipientRequired,
    /// The webhook URL does not start with `https://`.
    WebhookNotHttps,
    /// The webhook answered with a status that is no success.
    WebhookStatus { status: String, body: String },
    /// The message could not be handed over.
    Transport(String),
}

/// A [`NotifyError`] as a mathematical value.
pub enum ErrorView {
    ReadOnly,
    RateLimited,
    UnknownMethod(Seq<char>),
    EmptyMessage,
    UnknownMessageType(Seq<char>),
    InvalidReceiveIdType,
    FeishuNotConfigured,
    LarkNotConfigured,
    LarkRecipientRequired,
    ChannelRecipientRequired,
    ChannelNotConfigured(ChannelKind),
    UnsupportedChannel(Seq<char>),
    PriorityOutOfRange(i64),
    EnvUnreadable { path: Seq<char>, cause: Seq<char> },
    TokenNotFound,
    UserKeyNotFound,
    PushoverStatus { status: Seq<char>, body: Seq<char> },
    PushoverRefused { body: Seq<char> },
    WebhookRecipientRequired,
    WebhookNotHttps,
    WebhookStatus { status: Seq<char>, body: Seq<char> },
    Transport(Seq<char>),
}

impl View for NotifyError {
    type V = ErrorView;

    open spec fn view(&self) -> ErrorView {
        match *self {
            NotifyError::ReadOnly => ErrorView::ReadOnly,
            NotifyError::RateLimited => ErrorView::RateLimited,
            NotifyError::UnknownMethod(s) => ErrorView::UnknownMethod(s@),
            NotifyError::EmptyMessage => ErrorView::EmptyMessage,
            NotifyError::UnknownMessageType(s) => ErrorView::UnknownMessageType(s@),
            NotifyError::InvalidReceiveIdType => ErrorView::InvalidReceiveIdType,
            NotifyError::FeishuNotConfigured => ErrorView::FeishuNotConfigured,
            NotifyError::LarkNotConfigured => ErrorView::LarkNotConfigured,
            NotifyError::LarkRecipientRequired => ErrorView::LarkRecipientRequired,
            NotifyError::ChannelRecipientRequired => ErrorView::ChannelRecipientRequired,
            NotifyError::ChannelNotConfigured(kind) => ErrorView::ChannelNotConfigured(kind),
            NotifyError::UnsupportedChannel(s) => ErrorView::UnsupportedChannel(s@),
            NotifyError::PriorityOutOfRange(n) => ErrorView::PriorityOutOfRange(n),
            NotifyError::EnvUnreadable { path, cause } => ErrorView::EnvUnreadable {
                path: path@,
                cause: cause@,
            },
            NotifyError::TokenNotFound => ErrorView::TokenNotFound,
            NotifyError::UserKeyNotFound => ErrorView::UserKeyNotFound,
            NotifyError::PushoverStatus { status, body } => ErrorView::PushoverStatus {
                status: status@,
                body: body@,
            },
            NotifyError::PushoverRefused { body } => ErrorView::PushoverRefused { body: body@ },
            NotifyError::WebhookRecipientRequired => ErrorView::WebhookRecipientRequired,
            NotifyError::WebhookNotHttps => ErrorView::WebhookNotHttps,
            NotifyError::WebhookStatus { status, body } => ErrorView::WebhookStatus {
                status: status@,
                body: body@,
            },
            NotifyError::Transport(s) => ErrorView::Transport(s@),
        }
    }
}

impl ErrorView {
    /// The error in words.
    pub open spec fn message(self) -> Seq<char> {
        match self {
            ErrorView::ReadOnly => "Security policy: read-only mode, cannot send notifications"@,
            ErrorView::RateLimited => "Rate limit exceeded"@,
            ErrorView::UnknownMethod(s) => "Unknown method '"@ + s
                + "'. Expected: channel, pushover, webhook"@,
            ErrorView::EmptyMessage => "Missing or empty 'message'"@,
            ErrorView::UnknownMessageType(s) => "Unknown msg_type '"@ + s
                + "'. Expected: text, post, interactive, image, share_chat, share_user, file, audio, media, sticker"@,
            ErrorView::InvalidReceiveIdType => "Invalid receive_id_type"@,
            ErrorView::FeishuNotConfigured => "feishu/lark channel not configured"@,
            ErrorView::LarkNotConfigured => "lark channel not configured"@,
            ErrorView::LarkRecipientRequired => "'recipient' is required for lark delivery"@,
            ErrorView::ChannelRecipientRequired => "'recipient' is required for channel delivery"@,
            ErrorView::ChannelNotConfigured(kind) => kind.name() + " channel not configured"@,
            ErrorView::UnsupportedChannel(s) => "unsupported channel: "@ + s,
            ErrorView::PriorityOutOfRange(n) => "priority must be in range -2..=2, got "@ + decimal(
                n as int,
            ),
            ErrorView::EnvUnreadable { path, cause } => "Failed to read "@ + path + ": "@ + cause,
            ErrorView::TokenNotFound => "PUSHOVER_TOKEN not found in .env"@,
            ErrorView::UserKeyNotFound => "PUSHOVER_USER_KEY not found in .env"@,
            ErrorView::PushoverStatus { status, body } => "Pushover API returned status "@ + status
                + ": "@ + body,
            ErrorView::PushoverRefused { body } => "Pushover application error: "@ + body,
            ErrorView::WebhookRecipientRequired => "'recipient' (webhook URL) is required"@,
            ErrorView::WebhookNotHttps => "webhook URL must use HTTPS"@,
            ErrorView::WebhookStatus { status, body } => "webhook returned HTTP "@ + status + ": "@
                + body,
            ErrorView::Transport(s) => s,
        }
    }
}

impl NotifyError {
    /// The error in words.
    pub fn message(&self) -> (r: String)
        ensures
            r@ == self@.message(),
    {
        match self {
            NotifyError::ReadOnly => {
                "Security policy: read-only mode, cannot send notifications".to_owned()
            },
            NotifyError::RateLimited => "Rate limit exceeded".to_owned(),
            NotifyError::UnknownMethod(s) => "Unknown method '".to_owned().concat(
                s.as_str(),
            ).concat("'. Expected: channel, pushover, webhook"),
            NotifyError::EmptyMessage => "Missing or empty 'message'".to_owned(),
            NotifyError::UnknownMessageType(s) => "Unknown msg_type '".to_owned().concat(
                s.as_str(),
            ).concat(
                "'. Expected: text, post, interactive, image, share_chat, share_user, file, audio, media, sticker",
            ),
            NotifyError::InvalidReceiveIdType => "Invalid receive_id_type".to_owned(),
            NotifyError::FeishuNotConfigured => "feishu/lark channel not configured".to_owned(),
            NotifyError::LarkNotConfigured => "lark channel not configured".to_owned(),
            NotifyError::LarkRecipientRequired => {
                "'recipient' is required for lark delivery".to_owned()
            },
            NotifyError::ChannelRecipientRequired => {
                "'recipient' is required for channel delivery".to_owned()
            },
            NotifyError::ChannelNotConfigured(kind) => kind.as_str().to_owned().concat(
                " channel not configured",
            ),
            NotifyError::UnsupportedChannel(s) => "unsupported channel: ".to_owned().concat(
                s.as_str(),
            ),
            NotifyError::PriorityOutOfRange(n) => {
                "priority must be in range -2..=2, got ".to_owned().concat(
                    decimal_text(*n).as_str(),
                )
            },
            NotifyError::EnvUnreadable { path, cause } => "Failed to read ".to_owned().concat(
                path.as_str(),
            ).concat(": ").concat(cause.as_str()),
            NotifyError::TokenNotFound => "PUSHOVER_TOKEN not found in .env".to_owned(),
            NotifyError::UserKeyNotFound => "PUSHOVER_USER_KEY not found in .env".to_owned(),
            NotifyError::PushoverStatus { status, body } => {
                "Pushover API returned status ".to_owned().concat(status.as_str()).concat(
                    ": ",
                ).concat(body.as_str())
            },
            NotifyError::PushoverRefused { body } => {
                "Pushover application error: ".to_owned().concat(body.as_str())
            },
            NotifyError::WebhookRecipientRequired => {
                "'recipient' (webhook URL) is required".to_owned()
            },
            NotifyError::WebhookNotHttps => "webhook URL must use HTTPS".to_owned(),
            NotifyError::WebhookStatus { status, body } => {
                "webhook returned HTTP ".to_owned().concat(status.as_str()).concat(": ").concat(
                    body.as_str(),
                )
            },
            NotifyError::Transport(s) => s.clone(),
        }
    }
}

// ---------------------------------------------------------------------------
// Laws
// ---------------------------------------------------------------------------

/// An error about something that was given or answered tells it in full, as it
/// is, behind words that say what went wrong.
pub proof fn law_errors_tell_what_they_carry(s: Seq<char>, t: Seq<char>, n: i64, kind: ChannelKind)
    ensures
        ErrorView::UnknownMethod(s).message() == "Unknown method '"@ + s
            + "'. Expected: channel, pushover, webhook"@,
        ErrorView::UnknownMessageType(s).message() == "Unknown msg_type '"@ + s
            + "'. Expected: text, post, interactive, image, share_chat, share_user, file, audio, media, sticker"@,
        ErrorView::ChannelNotConfigured(kind).message() == kind.name() + " channel not configured"@,
        ErrorView::UnsupportedChannel(s).message() == "unsupported channel: "@ + s,
        ErrorView::PriorityOutOfRange(n).message() == "priority must be in range -2..=2, got "@
            + decimal(n as int),
        (ErrorView::EnvUnreadable { path: s, cause: t }).message() == "Failed to read "@ + s
            + ": "@ + t,
        (ErrorView::PushoverStatus { status: s, body: t }).message()
            == "Pushover API returned status "@ + s + ": "@ + t,
        (ErrorView::PushoverRefused { body: s }).message() == "Pushover application error: "@ + s,
        (ErrorView::WebhookStatus { status: s, body: t }).message() == "webhook returned HTTP "@ + s
            + ": "@ + t,
        ErrorView::Transport(s).message() == s,
{
}

/// An error that carries nothing has words of its own.
pub proof fn law_errors_in_words()
    ensures
        ErrorView::ReadOnly.message()
            == "Security policy: read-only mode, cannot send notifications"@,
        ErrorView::RateLimited.message() == "Rate limit exceeded"@,
        ErrorView::EmptyMessage.message() == "Missing or empty 'message'"@,
        ErrorView::InvalidReceiveIdType.message() == "Invalid receive_id_type"@,
        ErrorView::FeishuNotConfigured.message() == "feishu/lark channel not configured"@,
        ErrorView::LarkNotConfigured.message() == "lark channel not configured"@,
        ErrorView::LarkRecipientRequired.message() == "'recipient' is required for lark delivery"@,
        ErrorView::ChannelRecipientRequired.message()
            == "'recipient' is required for channel delivery"@,
        ErrorView::TokenNotFound.message() == "PUSHOVER_TOKEN not found in .env"@,
        ErrorView::UserKeyNotFound.message() == "PUSHOVER_USER_KEY not found in .env"@,
        ErrorView::WebhookRecipientRequired.message() == "'recipient' (webhook URL) is required"@,
        ErrorView::WebhookNotHttps.message() == "webhook URL must use HTTPS"@,
        ChannelKind::Telegram.name() == "telegram"@,
        ChannelKind::Discord.name() == "discord"@,
        ChannelKind::Slack.name() == "slack"@,
        ChannelKind::Mattermost.name() == "mattermost"@,
{
}

/// An error stands for what it carries.
pub proof fn law_error_fields(error: NotifyError)
    ensures
        error matches NotifyError::UnknownMethod(s) ==> error@ == ErrorView::UnknownMethod(s@),
        error matches NotifyError::UnknownMessageType(s) ==> error@
            == ErrorView::UnknownMessageType(s@),
        error matches NotifyError::ChannelNotConfigured(kind) ==> error@
            == ErrorView::ChannelNotConfigured(kind),
        error matches NotifyError::UnsupportedChannel(s) ==> error@
            == ErrorView::UnsupportedChannel(s@),
        error matches NotifyError::PriorityOutOfRange(n) ==> error@
            == ErrorView::PriorityOutOfRange(n),
        error matches NotifyError::EnvUnreadable { path, cause } ==> error@ == (
        ErrorView::EnvUnreadable { path: path@, cause: cause@ }),
        error matches NotifyError::PushoverStatus { status, body } ==> error@ == (
        ErrorView::PushoverStatus { status: status@, body: body@ }),
        error matches NotifyError::PushoverRefused { body } ==> error@ == (
        ErrorView::PushoverRefused { body: body@ }),
        error matches NotifyError::WebhookStatus { status, body } ==> error@ == (
        ErrorView::WebhookStatus { status: status@, body: body@ }),
        error matches NotifyError::Transport(s) ==> error@ == ErrorView::Transport(s@),
        error is ReadOnly <==> error@ is ReadOnly,
        error is RateLimited <==> error@ is RateLimited,
        error is EmptyMessage <==> error@ is EmptyMessage,
        error is InvalidReceiveIdType <==> error@ is InvalidReceiveIdType,
        error is FeishuNotConfigured <==> error@ is FeishuNotConfigured,
        error is LarkNotConfigured <==> error@ is LarkNotConfigured,
        error is LarkRecipientRequired <==> error@ is LarkRecipientRequired,
        error is ChannelRecipientRequired <==> error@ is ChannelRecipientRequired,
        error is TokenNotFound <==> error@ is TokenNotFound,
        error is UserKeyNotFound <==> error@ is UserKeyNotFound,
        error is WebhookRecipientRequired <==> error@ is WebhookRecipientRequired,
        error is WebhookNotHttps <==> error@ is WebhookNotHttps,
{
}

} // verus!
