//! What the backends ask the outside world to do.

use crate::config::{DiscordConfig, MattermostConfig, SlackConfig, TelegramConfig};
use crate::json::{Json, JsonView};
use crate::text::opt_text;
use vstd::prelude::*;

verus! {

/// A plain text message for a channel.
#[derive(Debug)]
pub struct SendMessage {
    pub content: String,
    pub recipient: String,
    pub subject: Option<String>,
}

/// A [`SendMessage`] as a mathematical value.
pub struct MessageView {
    pub content: Seq<char>,
    pub recipient: Seq<char>,
    pub subject: Option<Seq<char>>,
}

impl View for SendMessage {
    type V = MessageView;

    open spec fn view(&self) -> MessageView {
        MessageView {
            content: self.content@,
            recipient: self.recipient@,
            subject: opt_text(self.subject),
        }
    }
}

/// Which settings the Lark channel is made from.
#[derive(Debug, Clone, Copy, PartialEq, Eq, Structural)]
pub enum LarkAccount {
    Feishu,
    Lark,
}

/// A message for a messaging channel, with the settings of the channel.
#[derive(Debug)]
#[allow(inconsistent_fields)]
pub enum ChannelRequest<'a> {
    /// A raw message for Lark or Feishu. The platform delivers requests with the
    /// same `uuid` within an hour once; it takes keys of up to 50 characters, and
    /// it alone judges longer ones.
    Lark {
        account: LarkAccount,
        recipient: String,
        id_type: &'static str,
        msg_type: &'static str,
        content: String,
        uuid: Option<String>,
    },
    Telegram { config: &'a TelegramConfig, message: SendMessage },
    Discord { config: &'a DiscordConfig, message: SendMessage },
    Slack { config: &'a SlackConfig, message: SendMessage },
    Mattermost {
        config: &'a MattermostConfig,
        thread_replies: bool,
        mention_only: bool,
        message: SendMessage,
    },
}

/// A [`ChannelRequest`] as a mathematical value.
#[allow(inconsistent_fields)]
pub enum ChannelRequestView {
    Lark {
        account: LarkAccount,
        recipient: Seq<char>,
        id_type: Seq<char>,
        msg_type: Seq<char>,
        content: Seq<char>,
        uuid: Option<Seq<char>>,
    },
    Telegram { config: TelegramConfig, message: MessageView },
    Discord { config: DiscordConfig, message: MessageView },
    Slack { config: SlackConfig, message: MessageView },
    Mattermost {
        config: MattermostConfig,
        thread_replies: bool,
        mention_only: bool,
        message: MessageView,
    },
}

impl<'a> View for ChannelRequest<'a> {
    type V = ChannelRequestView;

    open spec fn view(&self) -> ChannelRequestView {
        match *self {
            ChannelRequest::Lark { account, recipient, id_type, msg_type, content, uuid } => {
                ChannelRequestView::Lark {
                    account,
                    recipient: recipient@,
                    id_type: id_type@,
                    msg_type: msg_type@,
                    content: content@,
                    uuid: opt_text(uuid),
                }
            },
            ChannelRequest::Telegram { config, message } => ChannelRequestView::Telegram {
                config: *config,
                message: message@,
            },
            ChannelRequest::Discord { config, message } => ChannelRequestView::Discord {
                config: *config,
                message: message@,
            },
            ChannelRequest::Slack { config, message } => ChannelRequestView::Slack {
                config: *config,
                message: message@,
            },
            ChannelRequest::Mattermost { config, thread_replies, mention_only, message } => {
                ChannelRequestView::Mattermost {
                    config: *config,
                    thread_replies,
                    mention_only,
                    message: message@,
                }
            },
        }
    }
}

/// The body of an HTTP request.
#[derive(Debug)]
pub enum HttpBody {
    /// A multipart form of text fields, in order.
    Form(Vec<(&'static str, String)>),
    /// A JSON document.
    Json(Json),
}

/// The body of an HTTP request as a mathematical value.
pub enum BodyView {
    Form(Seq<(Seq<char>, Seq<char>)>),
    Json(JsonView),
}

/// The names and the values of form fields.
pub open spec fn fields_view(fields: Seq<(&'static str, String)>) -> Seq<(Seq<char>, Seq<char>)> {
    fields.map_values(|field: (&'static str, String)| (field.0@, field.1@))
}

impl View for HttpBody {
    type V = BodyView;

    open spec fn view(&self) -> BodyView {
        match *self {
            HttpBody::Form(fields) => BodyView::Form(fields_view(fields@)),
            HttpBody::Json(json) => BodyView::Json(json@),
        }
    }
}

/// A POST request.
#[derive(Debug)]
pub struct HttpRequest {
    /// The name under which the proxy settings of the client are found.
    pub service: &'static str,
    /// How long the request may take, in seconds.
    pub timeout_secs: u64,
    /// How long connecting may take, in seconds.
    pub connect_timeout_secs: u64,
    pub url: String,
    /// A `Content-Type` header that is set besides what the body brings.
    pub content_type: Option<&'static str>,
    pub body: HttpBody,
}

/// A [`HttpRequest`] as a mathematical value.
pub struct HttpRequestView {
    pub service: Seq<char>,
    pub timeout_secs: u64,
    pub connect_timeout_secs: u64,
    pub url: Seq<char>,
    pub content_type: Option<Seq<char>>,
    pub body: BodyView,
}

impl View for HttpRequest {
    type V = HttpRequestView;

    open spec fn view(&self) -> HttpRequestView {
        HttpRequestView {
            service: self.service@,
            timeout_secs: self.timeout_secs,
            connect_timeout_secs: self.connect_timeout_secs,
            url: self.url@,
            content_type: match self.content_type {
                Some(s) => Some(s@),
                None => None,
            },
            body: self.body@,
        }
    }
}

// ---------------------------------------------------------------------------
// Laws
// ---------------------------------------------------------------------------

/// A plain text message stands for its fields, each as it is.
pub proof fn law_message_fields(message: SendMessage)
    ensures
        message@.content == message.content@,
        message@.recipient == message.recipient@,
        message.subject matches Some(subject) ==> message@.subject == Some(subject@),
        message.subject is None ==> message@.subject is None,
{
}

/// A request for a channel stands for its fields, each as it is, and for that
/// channel.
pub proof fn law_channel_request_fields<'a>(request: ChannelRequest<'a>)
    ensures
        request matches ChannelRequest::Lark { account, recipient, id_type, msg_type, content, uuid }
            ==> request@ matches ChannelRequestView::Lark {
            account: a,
            recipient: r,
            id_type: i,
            msg_type: m,
            content: c,
            uuid: u,
        } && a == account && r == recipient@ && i == id_type@ && m == msg_type@ && c == content@ && (
        match uuid {
            Some(key) => u == Some(key@),
            None => u is None,
        }),
        request matches ChannelRequest::Telegram { config, message } ==> request@
            matches ChannelRequestView::Telegram { config: c, message: m } && c == *config && m
            == message@,
        request matches ChannelRequest::Discord { config, message } ==> request@
            matches ChannelRequestView::Discord { config: c, message: m } && c == *config && m
            == message@,
        request matches ChannelRequest::Slack { config, message } ==> request@
            matches ChannelRequestView::Slack { config: c, message: m } && c == *config && m
            == message@,
        request matches ChannelRequest::Mattermost { config, thread_replies, mention_only, message }
            ==> request@ matches ChannelRequestView::Mattermost {
            config: c,
            thread_replies: t,
            mention_only: o,
            message: m,
        } && c == *config && t == thread_replies && o == mention_only && m == message@,
{
}

/// An HTTP request stands for its fields, each as it is; a form stands for its
/// fields, one by one.
pub proof fn law_http_request_fields(request: HttpRequest, i: int)
    ensures
        request@.service == request.service@,
        request@.timeout_secs == request.timeout_secs,
        request@.connect_timeout_secs == request.connect_timeout_secs,
        request@.url == request.url@,
        request.content_type matches Some(s) ==> request@.content_type == Some(s@),
        request.content_type is None ==> request@.content_type is None,
        request.body matches HttpBody::Json(json) ==> request@.body == BodyView::Json(json@),
        request.body matches HttpBody::Form(fields) ==> request@.body matches BodyView::Form(all)
            && all.len() == fields@.len() && (0 <= i < fields@.len() ==> all[i] == (
            fields@[i].0@,
            fields@[i].1@,
        )),
{
}

} // verus!
