//! Delivery via a configured messaging channel.

use crate::backend::{agrees, NotifyBackend, Opening, OpeningView};
use crate::config::{ChannelsConfig, Config};
use crate::error::{ChannelKind, ErrorView, NotifyError};
use crate::json::text_at;
use crate::method::{
    law_message_type_names, law_recipient_id_type_names, MessageType, RecipientIdType,
};
use crate::payload::{copy_opt, own_opt, NotifyPayload, PayloadView};
use crate::request::{ChannelRequest, ChannelRequestView, LarkAccount, MessageView, SendMessage};
use crate::text::{lower, same_text, to_ascii_lowercase};
use vstd::prelude::*;
use vstd::string::StringExecFns;

verus! {

/// Delegates to configured messaging channels.
#[derive(Debug)]
pub struct ChannelBackend<'a> {
    pub config: &'a Config,
}

/// The request for a channel and what is reported when the channel takes it, or
/// why there is none.
pub type ChannelDelivery = Result<(ChannelRequestView, Seq<char>), ErrorView>;

/// The opening that a delivery by channel makes.
pub open spec fn by_channel(delivery: ChannelDelivery) -> Result<OpeningView, ErrorView> {
    match delivery {
        Ok((request, status)) => Ok(OpeningView::Channel { request, status }),
        Err(e) => Err(e),
    }
}

/// The channel that `payload` asks for, in lower case; Telegram when it asks for none.
pub open spec fn channel_name(payload: PayloadView) -> Seq<char> {
    match text_at(payload.extra, "channel"@) {
        Some(name) => lower(name),
        None => lower("telegram"@),
    }
}

/// Which settings a Lark or Feishu message goes out with: Feishu prefers its own
/// and falls back to those of Lark.
pub open spec fn lark_account(config: ChannelsConfig, is_feishu: bool) -> Result<
    LarkAccount,
    ErrorView,
> {
    if is_feishu && config.feishu {
        Ok(LarkAccount::Feishu)
    } else if config.lark {
        Ok(LarkAccount::Lark)
    } else if is_feishu {
        Err(ErrorView::FeishuNotConfigured)
    } else {
        Err(ErrorView::LarkNotConfigured)
    }
}

/// The raw message for Lark or Feishu. The `uuid` of the extra fields goes along
/// as the idempotency key, just as it is.
pub open spec fn lark_delivery(
    config: ChannelsConfig,
    payload: PayloadView,
    is_feishu: bool,
) -> ChannelDelivery {
    match (lark_account(config, is_feishu), payload.recipient) {
        (Err(e), _) => Err(e),
        (Ok(_), None) => Err(ErrorView::LarkRecipientRequired),
        (Ok(account), Some(recipient)) => Ok(
            (
                ChannelRequestView::Lark {
                    account,
                    recipient,
                    id_type: payload.receive_id_type.query_param(),
                    msg_type: payload.msg_type.wire_name(),
                    content: payload.message,
                    uuid: text_at(payload.extra, "uuid"@),
                },
                "sent "@ + payload.msg_type.wire_name() + " via lark (id_type="@
                    + payload.receive_id_type.query_param() + ")"@,
            ),
        ),
    }
}

/// The plain text message for a channel other than Lark and Feishu: whatever the
/// message type is, the message itself is the text.
pub open spec fn plain_message(payload: PayloadView, recipient: Seq<char>) -> MessageView {
    MessageView { content: payload.message, recipient, subject: payload.title }
}

/// The request for the channel `name`, other than Lark and Feishu.
pub open spec fn generic_request(
    config: ChannelsConfig,
    name: Seq<char>,
    message: MessageView,
) -> Result<ChannelRequestView, ErrorView> {
    if name == "telegram"@ {
        match config.telegram {
            Some(config) => Ok(ChannelRequestView::Telegram { config, message }),
            None => Err(ErrorView::ChannelNotConfigured(ChannelKind::Telegram)),
        }
    } else if name == "discord"@ {
        match config.discord {
            Some(config) => Ok(ChannelRequestView::Discord { config, message }),
            None => Err(ErrorView::ChannelNotConfigured(ChannelKind::Discord)),
        }
    } else if name == "slack"@ {
        match config.slack {
            Some(config) => Ok(ChannelRequestView::Slack { config, message }),
            None => Err(ErrorView::ChannelNotConfigured(ChannelKind::Slack)),
        }
    } else if name == "mattermost"@ {
        match config.mattermost {
            Some(config) => Ok(
                ChannelRequestView::Mattermost {
                    config,
                    thread_replies: config.thread_replies != Some(false),
                    mention_only: config.mention_only == Some(true),
                    message,
                },
            ),
            None => Err(ErrorView::ChannelNotConfigured(ChannelKind::Mattermost)),
        }
    } else {
        Err(ErrorView::UnsupportedChannel(name))
    }
}

/// The message for a channel other than Lark and Feishu.
pub open spec fn generic_delivery(
    config: ChannelsConfig,
    name: Seq<char>,
    payload: PayloadView,
) -> ChannelDelivery {
    match payload.recipient {
        None => Err(ErrorView::ChannelRecipientRequired),
        Some(recipient) => match generic_request(config, name, plain_message(payload, recipient)) {
            Ok(request) => Ok((request, "sent via "@ + name)),
            Err(e) => Err(e),
        },
    }
}

/// The message for the channel that `payload` asks for.
pub open spec fn channel_delivery(
    config: ChannelsConfig,
    payload: PayloadView,
) -> ChannelDelivery {
    let name = channel_name(payload);
    if config.lark_built_in && name == "lark"@ {
        lark_delivery(config, payload, false)
    } else if config.lark_built_in && name == "feishu"@ {
        lark_delivery(config, payload, true)
    } else {
        generic_delivery(config, name, payload)
    }
}

impl<'a> ChannelBackend<'a> {
    /// Send via Lark/Feishu with full msg_type + receive_id_type support.
    pub fn send_lark(&self, payload: &NotifyPayload, is_feishu: bool) -> (r: Result<
        Opening<'a>,
        NotifyError,
    >)
        ensures
            agrees(
                r,
                by_channel(lark_delivery(self.config.channels_config, payload@, is_feishu)),
            ),
    {
        let channels = &self.config.channels_config;
        let account = if is_feishu {
            // Prefer the settings of Feishu, fall back to those of Lark.
            if channels.feishu {
                LarkAccount::Feishu
            } else if channels.lark {
                LarkAccount::Lark
            } else {
                return Err(NotifyError::FeishuNotConfigured);
            }
        } else if channels.lark {
            LarkAccount::Lark
        } else {
            return Err(NotifyError::LarkNotConfigured);
        };
        let recipient = match &payload.recipient {
            Some(recipient) => recipient.clone(),
            None => {
                return Err(NotifyError::LarkRecipientRequired);
            },
        };
        let id_type = payload.receive_id_type.as_query_param();
        let msg_type = payload.msg_type.lark_msg_type();
        let status = "sent ".to_owned().concat(msg_type).concat(" via lark (id_type=").concat(
            id_type,
        ).concat(")");
        let request = ChannelRequest::Lark {
            account,
            recipient,
            id_type,
            msg_type,
            content: payload.message.clone(),
            uuid: own_opt(payload.extra.get_str("uuid")),
        };
        Ok(Opening::Channel { request, status })
    }

    /// Send via a generic channel (text-only fallback for non-Lark channels).
    pub fn send_generic(&self, channel_name: &str, payload: &NotifyPayload) -> (r: Result<
        Opening<'a>,
        NotifyError,
    >)
        ensures
            agrees(
                r,
                by_channel(
                    generic_delivery(self.config.channels_config, channel_name@, payload@),
                ),
            ),
    {
        let recipient = match &payload.recipient {
            Some(recipient) => recipient.clone(),
            None => {
                return Err(NotifyError::ChannelRecipientRequired);
            },
        };
        // Best effort for every type but text: the raw content is the text.
        let message = SendMessage {
            content: payload.message.clone(),
            recipient,
            subject: copy_opt(&payload.title),
        };
        let channels = &self.config.channels_config;
        let request = if same_text(channel_name, "telegram") {
            match &channels.telegram {
                Some(config) => ChannelRequest::Telegram { config, message },
                None => {
                    return Err(NotifyError::ChannelNotConfigured(ChannelKind::Telegram));
                },
            }
        } else if same_text(channel_name, "discord") {
            match &channels.discord {
                Some(config) => ChannelRequest::Discord { config, message },
                None => {
                    return Err(NotifyError::ChannelNotConfigured(ChannelKind::Discord));
                },
            }
        } else if same_text(channel_name, "slack") {
            match &channels.slack {
                Some(config) => ChannelRequest::Slack { config, message },
                None => {
                    return Err(NotifyError::ChannelNotConfigured(ChannelKind::Slack));
                },
            }
        } else if same_text(channel_name, "mattermost") {
            match &channels.mattermost {
                Some(config) => ChannelRequest::Mattermost {
                    config,
                    thread_replies: config.thread_replies.unwrap_or(true),
                    mention_only: config.mention_only.unwrap_or(false),
                    message,
                },
                None => {
                    return Err(NotifyError::ChannelNotConfigured(ChannelKind::Mattermost));
                },
            }
        } else {
            return Err(NotifyError::UnsupportedChannel(channel_name.to_owned()));
        };
        Ok(Opening::Channel { request, status: "sent via ".to_owned().concat(channel_name) })
    }
}

impl<'a> NotifyBackend<'a> for ChannelBackend<'a> {
    open spec fn label(&self) -> Seq<char> {
        "channel"@
    }

    open spec fn opening(&self, payload: PayloadView) -> Result<OpeningView, ErrorView> {
        by_channel(channel_delivery(self.config.channels_config, payload))
    }

    fn name(&self) -> (r: &str) {
        "channel"
    }

    fn send(&self, payload: &NotifyPayload) -> (r: Result<Opening<'a>, NotifyError>) {
        let channel_name = match payload.extra.get_str("channel") {
            Some(name) => to_ascii_lowercase(name),
            None => to_ascii_lowercase("telegram"),
        };
        let built_in = self.config.channels_config.lark_built_in;
        if built_in && same_text(channel_name.as_str(), "lark") {
            self.send_lark(payload, false)
        } else if built_in && same_text(channel_name.as_str(), "feishu") {
            self.send_lark(payload, true)
        } else {
            self.send_generic(channel_name.as_str(), payload)
        }
    }
}

// ---------------------------------------------------------------------------
// Laws
// ---------------------------------------------------------------------------

/// Without a channel in the extra fields, or with one that is no string, the
/// message goes to Telegram.
pub proof fn law_default_channel_is_telegram(payload: PayloadView)
    requires
        text_at(payload.extra, "channel"@) is None,
    ensures
        channel_name(payload) == "telegram"@,
{
    reveal_strlit("telegram");
    assert(lower("telegram"@) =~= "telegram"@);
}

/// The name of the channel is taken in any ASCII letter case.
pub proof fn law_channel_ignores_case(config: ChannelsConfig, a: PayloadView, b: PayloadView)
    requires
        text_at(a.extra, "channel"@) matches Some(x) && text_at(b.extra, "channel"@) matches Some(y)
            && lower(x) == lower(y),
        text_at(a.extra, "uuid"@) == text_at(b.extra, "uuid"@),
        a.message == b.message,
        a.msg_type == b.msg_type,
        a.title == b.title,
        a.recipient == b.recipient,
        a.receive_id_type == b.receive_id_type,
    ensures
        channel_delivery(config, a) == channel_delivery(config, b),
{
}

/// Lark and Feishu take every message type and every recipient id type: given
/// settings and a recipient, the request carries names from which the types can
/// be read back, and the message as it is.
pub proof fn law_lark_takes_every_type(
    config: ChannelsConfig,
    payload: PayloadView,
    is_feishu: bool,
)
    requires
        config.lark || (is_feishu && config.feishu),
        payload.recipient is Some,
    ensures
        lark_delivery(config, payload, is_feishu) matches Ok((request, _)) && request matches
            ChannelRequestView::Lark { recipient, id_type, msg_type, content, .. } && Some(recipient)
            == payload.recipient && RecipientIdType::named(id_type) == Some(payload.receive_id_type)
            && MessageType::named(msg_type) == Some(payload.msg_type) && content == payload.message,
{
    law_message_type_names(payload.msg_type, Seq::empty());
    law_recipient_id_type_names(payload.receive_id_type, Seq::empty());
}

/// The idempotency key of a request reaches Lark and Feishu as it is, and there
/// is none when the extra fields hold none.
pub proof fn law_lark_carries_the_idempotency_key(
    config: ChannelsConfig,
    payload: PayloadView,
    is_feishu: bool,
)
    requires
        lark_account(config, is_feishu) is Ok,
        payload.recipient is Some,
    ensures
        lark_delivery(config, payload, is_feishu) matches Ok((request, _)) && request matches
            ChannelRequestView::Lark { uuid, .. } && uuid == text_at(payload.extra, "uuid"@),
{
}

/// Feishu without settings of its own is served with those of Lark.
pub proof fn law_feishu_falls_back_to_lark(config: ChannelsConfig, payload: PayloadView)
    requires
        !config.feishu,
        config.lark,
    ensures
        lark_delivery(config, payload, true) == lark_delivery(config, payload, false),
{
}

/// Where no channel is configured, nothing is sent to any.
pub proof fn law_unconfigured_channels_send_nothing(config: ChannelsConfig, payload: PayloadView)
    requires
        config.is_default(),
    ensures
        channel_delivery(config, payload) is Err,
{
}

/// Whether the channel that `payload` asks for is `name`, in any ASCII letter
/// case. Asking for none is asking for Telegram.
pub open spec fn asks_for(payload: PayloadView, name: Seq<char>) -> bool {
    match text_at(payload.extra, "channel"@) {
        Some(asked) => lower(asked) == name,
        None => name == "telegram"@,
    }
}

/// The words for the channels are distinct.
proof fn lemma_channel_words()
    ensures
        lower("telegram"@) == "telegram"@,
        "lark"@ != "feishu"@,
        forall|kind: ChannelKind| (#[trigger] kind.name()) != "lark"@ && kind.name() != "feishu"@,
        "telegram"@ != "discord"@ && "telegram"@ != "slack"@ && "telegram"@ != "mattermost"@,
        "discord"@ != "slack"@ && "discord"@ != "mattermost"@ && "slack"@ != "mattermost"@,
{
    reveal_strlit("lark");
    reveal_strlit("feishu");
    reveal_strlit("telegram");
    reveal_strlit("discord");
    reveal_strlit("slack");
    reveal_strlit("mattermost");
    assert(lower("telegram"@) =~= "telegram"@);
    assert("lark"@.len() == 4 && "feishu"@.len() == 6 && "telegram"@.len() == 8 && "discord"@.len()
        == 7 && "slack"@.len() == 5 && "mattermost"@.len() == 10);
}

/// What a Lark request and its status say of a payload: its recipient, its types
/// in the words of the platform, its message and its idempotency key.
pub open spec fn carries(
    request: ChannelRequestView,
    status: Seq<char>,
    account: LarkAccount,
    payload: PayloadView,
) -> bool {
    &&& request matches ChannelRequestView::Lark {
        account: a,
        recipient,
        id_type,
        msg_type,
        content,
        uuid,
    } && a == account && payload.recipient == Some(recipient) && id_type
        == payload.receive_id_type.query_param() && msg_type == payload.msg_type.wire_name()
        && content == payload.message && uuid == text_at(payload.extra, "uuid"@)
    &&& status == "sent "@ + payload.msg_type.wire_name() + " via lark (id_type="@
        + payload.receive_id_type.query_param() + ")"@
}

/// Where the Lark channel is built in, a payload that asks for Lark goes to Lark
/// with everything it holds, given settings and a recipient. Missing settings are
/// told before a missing recipient.
pub proof fn law_lark_delivers(config: ChannelsConfig, payload: PayloadView)
    requires
        config.lark_built_in,
        asks_for(payload, "lark"@),
    ensures
        config.lark && payload.recipient is Some ==> (channel_delivery(config, payload) matches Ok(
            (request, status),
        ) && carries(request, status, LarkAccount::Lark, payload)),
        !config.lark ==> channel_delivery(config, payload) == Err::<
            (ChannelRequestView, Seq<char>),
            _,
        >(ErrorView::LarkNotConfigured),
        config.lark && payload.recipient is None ==> channel_delivery(config, payload) == Err::<
            (ChannelRequestView, Seq<char>),
            _,
        >(ErrorView::LarkRecipientRequired),
{
    lemma_channel_words();
    assert(ChannelKind::Telegram.name() != "lark"@);
}

/// Where the Lark channel is built in, a payload that asks for Feishu goes to
/// Feishu with everything it holds, or to Lark when Feishu has no settings of its
/// own, given a recipient.
pub proof fn law_feishu_delivers(config: ChannelsConfig, payload: PayloadView)
    requires
        config.lark_built_in,
        asks_for(payload, "feishu"@),
    ensures
        config.feishu && payload.recipient is Some ==> (channel_delivery(config, payload) matches Ok(
            (request, status),
        ) && carries(request, status, LarkAccount::Feishu, payload)),
        !config.feishu && config.lark && payload.recipient is Some ==> (channel_delivery(
            config,
            payload,
        ) matches Ok((request, status)) && carries(request, status, LarkAccount::Lark, payload)),
        !config.feishu && !config.lark ==> channel_delivery(config, payload) == Err::<
            (ChannelRequestView, Seq<char>),
            _,
        >(ErrorView::FeishuNotConfigured),
        (config.feishu || config.lark) && payload.recipient is None ==> channel_delivery(
            config,
            payload,
        ) == Err::<(ChannelRequestView, Seq<char>), _>(ErrorView::LarkRecipientRequired),
{
    lemma_channel_words();
    assert(ChannelKind::Telegram.name() != "feishu"@);
}

/// Lark delivery serves both accounts alike: with everything that the payload
/// holds, and the settings of Feishu only for Feishu.
pub proof fn law_lark_delivery(config: ChannelsConfig, payload: PayloadView, is_feishu: bool)
    ensures
        lark_delivery(config, payload, is_feishu) matches Ok((request, status)) ==> {
            &&& is_feishu && config.feishu ==> carries(
                request,
                status,
                LarkAccount::Feishu,
                payload,
            )
            &&& !(is_feishu && config.feishu) ==> config.lark && carries(
                request,
                status,
                LarkAccount::Lark,
                payload,
            )
        },
        lark_delivery(config, payload, is_feishu) is Ok <==> payload.recipient is Some && (
        config.lark || (is_feishu && config.feishu)),
        !is_feishu && !config.lark ==> lark_delivery(config, payload, is_feishu) == Err::<
            (ChannelRequestView, Seq<char>),
            _,
        >(ErrorView::LarkNotConfigured),
        is_feishu && !config.feishu && !config.lark ==> lark_delivery(config, payload, is_feishu)
            == Err::<(ChannelRequestView, Seq<char>), _>(ErrorView::FeishuNotConfigured),
        (config.lark || (is_feishu && config.feishu)) && payload.recipient is None
            ==> lark_delivery(config, payload, is_feishu) == Err::<
            (ChannelRequestView, Seq<char>),
            _,
        >(ErrorView::LarkRecipientRequired),
{
}

/// Whether `message` is the plain text message of `payload`: its message, its
/// recipient and its title, each as it is.
pub open spec fn tells(message: MessageView, payload: PayloadView) -> bool {
    &&& message.content == payload.message
    &&& payload.recipient == Some(message.recipient)
    &&& message.subject == payload.title
}

/// A message for one of the plain channels goes out with the settings of that
/// channel whenever there are settings and a recipient, and is reported under the
/// name of the channel; without a recipient, or else without settings, that is told.
pub proof fn law_plain_channels_deliver(
    config: ChannelsConfig,
    name: Seq<char>,
    payload: PayloadView,
)
    ensures
        payload.recipient is None ==> generic_delivery(config, name, payload) == Err::<
            (ChannelRequestView, Seq<char>),
            _,
        >(ErrorView::ChannelRecipientRequired),
        payload.recipient is Some ==> {
            let delivery = generic_delivery(config, name, payload);
            &&& delivery matches Ok((_, status)) ==> status == "sent via "@ + name
            &&& name == "telegram"@ ==> match config.telegram {
                Some(settings) => delivery matches Ok(
                    (ChannelRequestView::Telegram { config: c, message }, _),
                ) && c == settings && tells(message, payload),
                None => delivery == Err::<(ChannelRequestView, Seq<char>), _>(
                    ErrorView::ChannelNotConfigured(ChannelKind::Telegram),
                ),
            }
            &&& name == "discord"@ ==> match config.discord {
                Some(settings) => delivery matches Ok(
                    (ChannelRequestView::Discord { config: c, message }, _),
                ) && c == settings && tells(message, payload),
                None => delivery == Err::<(ChannelRequestView, Seq<char>), _>(
                    ErrorView::ChannelNotConfigured(ChannelKind::Discord),
                ),
            }
            &&& name == "slack"@ ==> match config.slack {
                Some(settings) => delivery matches Ok(
                    (ChannelRequestView::Slack { config: c, message }, _),
                ) && c == settings && tells(message, payload),
                None => delivery == Err::<(ChannelRequestView, Seq<char>), _>(
                    ErrorView::ChannelNotConfigured(ChannelKind::Slack),
                ),
            }
            &&& name == "mattermost"@ ==> match config.mattermost {
                Some(settings) => delivery matches Ok(
                    (
                        ChannelRequestView::Mattermost {
                            config: c,
                            thread_replies,
                            mention_only,
                            message,
                        },
                        _,
                    ),
                ) && c == settings && tells(message, payload) && (settings.thread_replies
                    == Some(false) <==> !thread_replies) && (settings.mention_only == Some(true)
                    <==> mention_only),
                None => delivery == Err::<(ChannelRequestView, Seq<char>), _>(
                    ErrorView::ChannelNotConfigured(ChannelKind::Mattermost),
                ),
            }
            &&& name != "telegram"@ && name != "discord"@ && name != "slack"@ && name
                != "mattermost"@ ==> delivery == Err::<(ChannelRequestView, Seq<char>), _>(
                ErrorView::UnsupportedChannel(name),
            )
        },
{
    lemma_channel_words();
}

/// A payload that asks for any channel but Lark and Feishu, or for these where the
/// Lark channel is not built in, is delivered as a plain message to the channel it
/// asks for.
pub proof fn law_other_channels_are_plain(
    config: ChannelsConfig,
    name: Seq<char>,
    payload: PayloadView,
)
    requires
        asks_for(payload, name),
        !config.lark_built_in || (name != "lark"@ && name != "feishu"@),
    ensures
        channel_delivery(config, payload) == generic_delivery(config, name, payload),
{
    lemma_channel_words();
}

/// Channel delivery starts by handing the request to the channel, or tells why
/// there is none.
pub proof fn law_channel_delivery_starts_with_the_channel<'a>(
    backend: ChannelBackend<'a>,
    payload: PayloadView,
)
    ensures
        channel_delivery(backend.config.channels_config, payload) matches Ok((r, s)) ==> (
        backend.opening(payload) matches Ok(OpeningView::Channel { request, status }) && request == r
            && status == s),
        channel_delivery(backend.config.channels_config, payload) matches Err(e)
            ==> backend.opening(payload) == Err::<OpeningView, _>(e),
        backend.label() == "channel"@,
{
}

/// A delivery by channel is an opening with the same request and status, or the
/// same error.
pub proof fn law_by_channel(request: ChannelRequestView, status: Seq<char>, e: ErrorView)
    ensures
        by_channel(Ok((request, status))) == Ok::<_, ErrorView>(
            OpeningView::Channel { request, status },
        ),
        by_channel(Err(e)) == Err::<OpeningView, _>(e),
{
}

} // verus!
