//! The names a notification request is written in: delivery methods, message
//! types and recipient id types.

use crate::text::{lower, same_text, to_ascii_lowercase};
use vstd::prelude::*;

verus! {

// ---------------------------------------------------------------------------
// NotifyMethod
// ---------------------------------------------------------------------------

/// Supported notification delivery methods.
///
/// Each variant maps 1:1 to a [`crate::backend::NotifyBackend`] implementation.
#[derive(Debug, Clone, Copy, PartialEq, Eq, Hash, Structural)]
pub enum NotifyMethod {
    /// Deliver via a configured messaging channel (Telegram, Discord, Slack,
    /// Lark, Mattermost, etc.).
    Channel,
    /// Deliver via Pushover push notification service.
    Pushover,
    /// Deliver via a generic HTTP webhook (POST JSON).
    Webhook,
}

impl NotifyMethod {
    /// The name of the method in requests and messages.
    pub open spec fn name(self) -> Seq<char> {
        match self {
            NotifyMethod::Channel => "channel"@,
            NotifyMethod::Pushover => "pushover"@,
            NotifyMethod::Webhook => "webhook"@,
        }
    }

    /// The method that `s` names, in any ASCII letter case.
    pub open spec fn named(s: Seq<char>) -> Option<NotifyMethod> {
        let name = lower(s);
        if name == "channel"@ {
            Some(NotifyMethod::Channel)
        } else if name == "pushover"@ {
            Some(NotifyMethod::Pushover)
        } else if name == "webhook"@ {
            Some(NotifyMethod::Webhook)
        } else {
            None
        }
    }

    /// The method that `s` names, in any ASCII letter case.
    pub fn parse(s: &str) -> (r: Option<NotifyMethod>)
        ensures
            r == NotifyMethod::named(s@),
    {
        let name = to_ascii_lowercase(s);
        let name = name.as_str();
        if same_text(name, "channel") {
            Some(NotifyMethod::Channel)
        } else if same_text(name, "pushover") {
            Some(NotifyMethod::Pushover)
        } else if same_text(name, "webhook") {
            Some(NotifyMethod::Webhook)
        } else {
            None
        }
    }

    /// The name of the method, as a string slice.
    pub fn as_str(&self) -> (r: &'static str)
        ensures
            r@ == self.name(),
    {
        match self {
            NotifyMethod::Channel => "channel",
            NotifyMethod::Pushover => "pushover",
            NotifyMethod::Webhook => "webhook",
        }
    }

    /// The name of the method.
    pub fn to_string(&self) -> (r: String)
        ensures
            r@ == self.name(),
    {
        self.as_str().to_owned()
    }
}

// ---------------------------------------------------------------------------
// MessageType
// ---------------------------------------------------------------------------

/// Message content type. Backends that support rich types (e.g. Lark) will
/// use this to select the wire format; backends that only support plain text
/// (e.g. Pushover) will gracefully fall back to the `message` field.
#[derive(Debug, Clone, Copy, PartialEq, Eq, Structural)]
pub enum MessageType {
    /// Plain text message.
    Text,
    /// Rich text / post (Lark `post`, Slack `blocks`, etc.).
    Post,
    /// Interactive card (Lark `interactive` / Slack `attachments`).
    Interactive,
    /// Image by key/URL.
    Image,
    /// Share a group card (Lark `share_chat`).
    ShareChat,
    /// Share a user card (Lark `share_user`).
    ShareUser,
    /// File by key.
    File,
    /// Audio by key.
    Audio,
    /// Video/media by key.
    Media,
    /// Sticker/emoji by key.
    Sticker,
}

impl Default for MessageType {
    fn default() -> (r: MessageType)
        ensures
            r == MessageType::Text,
    {
        MessageType::Text
    }
}

impl MessageType {
    /// The wire name of the message type.
    pub open spec fn wire_name(self) -> Seq<char> {
        match self {
            MessageType::Text => "text"@,
            MessageType::Post => "post"@,
            MessageType::Interactive => "interactive"@,
            MessageType::Image => "image"@,
            MessageType::ShareChat => "share_chat"@,
            MessageType::ShareUser => "share_user"@,
            MessageType::File => "file"@,
            MessageType::Audio => "audio"@,
            MessageType::Media => "media"@,
            MessageType::Sticker => "sticker"@,
        }
    }

    /// The other name of the message type, if it has one.
    pub open spec fn alias(self) -> Option<Seq<char>> {
        match self {
            MessageType::Post => Some("rich_text"@),
            MessageType::Interactive => Some("card"@),
            MessageType::Media => Some("video"@),
            _ => None,
        }
    }

    /// The message type that `s` names, in any ASCII letter case: its wire name,
    /// or one of the aliases `rich_text`, `card` and `video`.
    pub open spec fn named(s: Seq<char>) -> Option<MessageType> {
        let name = lower(s);
        if name == "text"@ {
            Some(MessageType::Text)
        } else if name == "post"@ || name == "rich_text"@ {
            Some(MessageType::Post)
        } else if name == "interactive"@ || name == "card"@ {
            Some(MessageType::Interactive)
        } else if name == "image"@ {
            Some(MessageType::Image)
        } else if name == "share_chat"@ {
            Some(MessageType::ShareChat)
        } else if name == "share_user"@ {
            Some(MessageType::ShareUser)
        } else if name == "file"@ {
            Some(MessageType::File)
        } else if name == "audio"@ {
            Some(MessageType::Audio)
        } else if name == "media"@ || name == "video"@ {
            Some(MessageType::Media)
        } else if name == "sticker"@ {
            Some(MessageType::Sticker)
        } else {
            None
        }
    }

    /// The message type that `s` names, in any ASCII letter case.
    pub fn parse(s: &str) -> (r: Option<MessageType>)
        ensures
            r == MessageType::named(s@),
    {
        let name = to_ascii_lowercase(s);
        let name = name.as_str();
        if same_text(name, "text") {
            Some(MessageType::Text)
        } else if same_text(name, "post") || same_text(name, "rich_text") {
            Some(MessageType::Post)
        } else if same_text(name, "interactive") || same_text(name, "card") {
            Some(MessageType::Interactive)
        } else if same_text(name, "image") {
            Some(MessageType::Image)
        } else if same_text(name, "share_chat") {
            Some(MessageType::ShareChat)
        } else if same_text(name, "share_user") {
            Some(MessageType::ShareUser)
        } else if same_text(name, "file") {
            Some(MessageType::File)
        } else if same_text(name, "audio") {
            Some(MessageType::Audio)
        } else if same_text(name, "media") || same_text(name, "video") {
            Some(MessageType::Media)
        } else if same_text(name, "sticker") {
            Some(MessageType::Sticker)
        } else {
            None
        }
    }

    /// Wire name used by the Lark/Feishu API `msg_type` field.
    pub fn lark_msg_type(&self) -> (r: &'static str)
        ensures
            r@ == self.wire_name(),
    {
        match self {
            MessageType::Text => "text",
            MessageType::Post => "post",
            MessageType::Interactive => "interactive",
            MessageType::Image => "image",
            MessageType::ShareChat => "share_chat",
            MessageType::ShareUser => "share_user",
            MessageType::File => "file",
            MessageType::Audio => "audio",
            MessageType::Media => "media",
            MessageType::Sticker => "sticker",
        }
    }

    /// The wire name of the message type.
    pub fn to_string(&self) -> (r: String)
        ensures
            r@ == self.wire_name(),
    {
        self.lark_msg_type().to_owned()
    }
}

// ---------------------------------------------------------------------------
// RecipientIdType
// ---------------------------------------------------------------------------

/// Lark/Feishu `receive_id_type` for addressing the recipient.
#[derive(Debug, Clone, Copy, PartialEq, Eq, Structural)]
pub enum RecipientIdType {
    /// Group chat ID (the default).
    ChatId,
    /// User open_id (app-scoped).
    OpenId,
    /// User union_id (developer-scoped).
    UnionId,
    /// User user_id (tenant-scoped).
    UserId,
    /// User email.
    Email,
}

impl Default for RecipientIdType {
    fn default() -> (r: RecipientIdType)
        ensures
            r == RecipientIdType::ChatId,
    {
        RecipientIdType::ChatId
    }
}

impl RecipientIdType {
    /// The value of the `receive_id_type` query parameter.
    pub open spec fn query_param(self) -> Seq<char> {
        match self {
            RecipientIdType::ChatId => "chat_id"@,
            RecipientIdType::OpenId => "open_id"@,
            RecipientIdType::UnionId => "union_id"@,
            RecipientIdType::UserId => "user_id"@,
            RecipientIdType::Email => "email"@,
        }
    }

    /// The recipient id type that `s` names, in any ASCII letter case.
    pub open spec fn named(s: Seq<char>) -> Option<RecipientIdType> {
        let name = lower(s);
        if name == "chat_id"@ {
            Some(RecipientIdType::ChatId)
        } else if name == "open_id"@ {
            Some(RecipientIdType::OpenId)
        } else if name == "union_id"@ {
            Some(RecipientIdType::UnionId)
        } else if name == "user_id"@ {
            Some(RecipientIdType::UserId)
        } else if name == "email"@ {
            Some(RecipientIdType::Email)
        } else {
            None
        }
    }

    /// The recipient id type that `s` names, in any ASCII letter case.
    pub fn parse(s: &str) -> (r: Option<RecipientIdType>)
        ensures
            r == RecipientIdType::named(s@),
    {
        let name = to_ascii_lowercase(s);
        let name = name.as_str();
        if same_text(name, "chat_id") {
            Some(RecipientIdType::ChatId)
        } else if same_text(name, "open_id") {
            Some(RecipientIdType::OpenId)
        } else if same_text(name, "union_id") {
            Some(RecipientIdType::UnionId)
        } else if same_text(name, "user_id") {
            Some(RecipientIdType::UserId)
        } else if same_text(name, "email") {
            Some(RecipientIdType::Email)
        } else {
            None
        }
    }

    /// The value of the `receive_id_type` query parameter.
    pub fn as_query_param(&self) -> (r: &'static str)
        ensures
            r@ == self.query_param(),
    {
        match self {
            RecipientIdType::ChatId => "chat_id",
            RecipientIdType::OpenId => "open_id",
            RecipientIdType::UnionId => "union_id",
            RecipientIdType::UserId => "user_id",
            RecipientIdType::Email => "email",
        }
    }
}

// ---------------------------------------------------------------------------
// Laws
// ---------------------------------------------------------------------------

/// A text names a method exactly when it is the name of the method up to ASCII
/// letter case; so every name is read back as the method it was written for.
pub proof fn law_method_names(m: NotifyMethod, s: Seq<char>)
    ensures
        NotifyMethod::named(s) == Some(m) <==> lower(s) == m.name(),
        NotifyMethod::named(m.name()) == Some(m),
{
    reveal_strlit("channel");
    reveal_strlit("pushover");
    reveal_strlit("webhook");
    assert(lower(m.name()) =~= m.name());
    assert("channel"@[0] != "webhook"@[0]);
}

/// A text names a message type exactly when it is its wire name or its alias up
/// to ASCII letter case; so every wire name and every alias is read back as the
/// type it stands for.
pub proof fn law_message_type_names(t: MessageType, s: Seq<char>)
    ensures
        MessageType::named(s) == Some(t) <==> lower(s) == t.wire_name() || Some(lower(s))
            == t.alias(),
        MessageType::named(t.wire_name()) == Some(t),
        t.alias() matches Some(alias) ==> MessageType::named(alias) == Some(t),
{
    reveal_strlit("text");
    reveal_strlit("post");
    reveal_strlit("rich_text");
    reveal_strlit("interactive");
    reveal_strlit("card");
    reveal_strlit("image");
    reveal_strlit("share_chat");
    reveal_strlit("share_user");
    reveal_strlit("file");
    reveal_strlit("audio");
    reveal_strlit("media");
    reveal_strlit("video");
    reveal_strlit("sticker");
    assert(lower(t.wire_name()) =~= t.wire_name());
    if let Some(alias) = t.alias() {
        assert(lower(alias) =~= alias);
    }
    assert("text"@[0] == 't' && "post"@[0] == 'p' && "card"@[0] == 'c' && "file"@[0] == 'f');
    assert("image"@[0] == 'i' && "audio"@[0] == 'a' && "media"@[0] == 'm' && "video"@[0] == 'v');
    assert("share_chat"@[6] != "share_user"@[6]);
}

/// A text names a recipient id type exactly when it is its query parameter up to
/// ASCII letter case; so every parameter is read back as the type it stands for.
pub proof fn law_recipient_id_type_names(t: RecipientIdType, s: Seq<char>)
    ensures
        RecipientIdType::named(s) == Some(t) <==> lower(s) == t.query_param(),
        RecipientIdType::named(t.query_param()) == Some(t),
{
    reveal_strlit("chat_id");
    reveal_strlit("open_id");
    reveal_strlit("union_id");
    reveal_strlit("user_id");
    reveal_strlit("email");
    assert(lower(t.query_param()) =~= t.query_param());
    assert("chat_id"@[0] != "open_id"@[0] && "chat_id"@[0] != "user_id"@[0]);
    assert("open_id"@[0] != "user_id"@[0]);
}

/// No name depends on ASCII letter case.
pub proof fn law_names_ignore_case(a: Seq<char>, b: Seq<char>)
    requires
        lower(a) == lower(b),
    ensures
        NotifyMethod::named(a) == NotifyMethod::named(b),
        MessageType::named(a) == MessageType::named(b),
        RecipientIdType::named(a) == RecipientIdType::named(b),
{
}

/// The methods and their names: a text is taken for a method exactly when it is,
/// in any ASCII letter case, one of three words.
pub proof fn law_methods_by_word(s: Seq<char>)
    ensures
        NotifyMethod::named(s) == Some(NotifyMethod::Channel) <==> lower(s) == "channel"@,
        NotifyMethod::named(s) == Some(NotifyMethod::Pushover) <==> lower(s) == "pushover"@,
        NotifyMethod::named(s) == Some(NotifyMethod::Webhook) <==> lower(s) == "webhook"@,
        forall|m: NotifyMethod| (#[trigger] m.name()) == lower(s) ==> NotifyMethod::named(s) == Some(m),
{
    law_method_names(NotifyMethod::Channel, s);
    law_method_names(NotifyMethod::Pushover, s);
    law_method_names(NotifyMethod::Webhook, s);
}

/// The message types and their words: a text is taken for a message type exactly
/// when it is, in any ASCII letter case, one of the words for it.
pub proof fn law_message_types_by_word(s: Seq<char>)
    ensures
        MessageType::named(s) == Some(MessageType::Text) <==> lower(s) == "text"@,
        MessageType::named(s) == Some(MessageType::Post) <==> lower(s) == "post"@ || lower(s)
            == "rich_text"@,
        MessageType::named(s) == Some(MessageType::Interactive) <==> lower(s) == "interactive"@
            || lower(s) == "card"@,
        MessageType::named(s) == Some(MessageType::Image) <==> lower(s) == "image"@,
        MessageType::named(s) == Some(MessageType::ShareChat) <==> lower(s) == "share_chat"@,
        MessageType::named(s) == Some(MessageType::ShareUser) <==> lower(s) == "share_user"@,
        MessageType::named(s) == Some(MessageType::File) <==> lower(s) == "file"@,
        MessageType::named(s) == Some(MessageType::Audio) <==> lower(s) == "audio"@,
        MessageType::named(s) == Some(MessageType::Media) <==> lower(s) == "media"@ || lower(s)
            == "video"@,
        MessageType::named(s) == Some(MessageType::Sticker) <==> lower(s) == "sticker"@,
{
    law_message_type_names(MessageType::Text, s);
    law_message_type_names(MessageType::Post, s);
    law_message_type_names(MessageType::Interactive, s);
    law_message_type_names(MessageType::Image, s);
    law_message_type_names(MessageType::ShareChat, s);
    law_message_type_names(MessageType::ShareUser, s);
    law_message_type_names(MessageType::File, s);
    law_message_type_names(MessageType::Audio, s);
    law_message_type_names(MessageType::Media, s);
    law_message_type_names(MessageType::Sticker, s);
}

/// The recipient id types and their words: a text is taken for a recipient id
/// type exactly when it is, in any ASCII letter case, the word for it.
pub proof fn law_recipient_id_types_by_word(s: Seq<char>)
    ensures
        RecipientIdType::named(s) == Some(RecipientIdType::ChatId) <==> lower(s) == "chat_id"@,
        RecipientIdType::named(s) == Some(RecipientIdType::OpenId) <==> lower(s) == "open_id"@,
        RecipientIdType::named(s) == Some(RecipientIdType::UnionId) <==> lower(s) == "union_id"@,
        RecipientIdType::named(s) == Some(RecipientIdType::UserId) <==> lower(s) == "user_id"@,
        RecipientIdType::named(s) == Some(RecipientIdType::Email) <==> lower(s) == "email"@,
{
    law_recipient_id_type_names(RecipientIdType::ChatId, s);
    law_recipient_id_type_names(RecipientIdType::OpenId, s);
    law_recipient_id_type_names(RecipientIdType::UnionId, s);
    law_recipient_id_type_names(RecipientIdType::UserId, s);
    law_recipient_id_type_names(RecipientIdType::Email, s);
}

/// A name is written in the words that the services know: each of the message
/// types, recipient id types and methods has its own.
pub proof fn law_words_are_those_of_the_services(
    m: NotifyMethod,
    t: MessageType,
    id: RecipientIdType,
)
    ensures
        m is Channel ==> m.name() == "channel"@,
        m is Pushover ==> m.name() == "pushover"@,
        m is Webhook ==> m.name() == "webhook"@,
        t is Text ==> t.wire_name() == "text"@,
        t is Post ==> t.wire_name() == "post"@,
        t is Interactive ==> t.wire_name() == "interactive"@,
        t is Image ==> t.wire_name() == "image"@,
        t is ShareChat ==> t.wire_name() == "share_chat"@,
        t is ShareUser ==> t.wire_name() == "share_user"@,
        t is File ==> t.wire_name() == "file"@,
        t is Audio ==> t.wire_name() == "audio"@,
        t is Media ==> t.wire_name() == "media"@,
        t is Sticker ==> t.wire_name() == "sticker"@,
        id is ChatId ==> id.query_param() == "chat_id"@,
        id is OpenId ==> id.query_param() == "open_id"@,
        id is UnionId ==> id.query_param() == "union_id"@,
        id is UserId ==> id.query_param() == "user_id"@,
        id is Email ==> id.query_param() == "email"@,
{
}

} // verus!
