//! The backends, one by one.

use notify::backend::channel::ChannelBackend;
use notify::backend::pushover::{judge_pushover, PushoverBackend};
use notify::backend::webhook::{describe_webhook_status, WebhookBackend};
use notify::backend::{NotifyBackend, Opening, Service};
use notify::config::{
    ChannelsConfig, Config, DiscordConfig, MattermostConfig, SlackConfig, TelegramConfig,
};
use notify::error::{ChannelKind, NotifyError};
use notify::json::{Json, JsonMap, Number};
use notify::method::{MessageType, RecipientIdType};
use notify::payload::NotifyPayload;
use notify::reply::is_success;
use notify::request::{ChannelRequest, HttpBody, HttpRequest, LarkAccount, SendMessage};
use std::path::PathBuf;

fn users() -> Vec<String> {
    vec!["alice".to_string(), "bob".to_string()]
}

fn full_config() -> Config {
    Config {
        channels_config: ChannelsConfig {
            telegram: Some(TelegramConfig {
                bot_token: "tg".to_string(),
                allowed_users: users(),
                mention_only: true,
            }),
            discord: Some(DiscordConfig {
                bot_token: "dc".to_string(),
                guild_id: Some("guild".to_string()),
                allowed_users: users(),
                listen_to_bots: true,
                mention_only: false,
            }),
            slack: Some(SlackConfig {
                bot_token: "sl".to_string(),
                channel_id: None,
                allowed_users: users(),
            }),
            mattermost: Some(MattermostConfig {
                url: "https://mm.example".to_string(),
                bot_token: "mm".to_string(),
                channel_id: Some("town".to_string()),
                allowed_users: users(),
                thread_replies: None,
                mention_only: None,
            }),
            lark: true,
            feishu: true,
            lark_built_in: true,
        },
    }
}

fn payload() -> NotifyPayload {
    NotifyPayload {
        message: "hello".to_string(),
        msg_type: MessageType::Text,
        title: None,
        recipient: Some("someone".to_string()),
        receive_id_type: RecipientIdType::ChatId,
        extra: JsonMap::new(),
    }
}

fn to_channel(name: &str) -> NotifyPayload {
    let mut payload = payload();
    payload.extra.insert("channel", Json::text(name));
    payload
}

fn opened<'a>(opening: Result<Opening<'a>, NotifyError>) -> (ChannelRequest<'a>, String) {
    match opening {
        Ok(Opening::Channel { request, status }) => (request, status),
        other => panic!("not a channel request: {other:?}"),
    }
}

fn posted(opening: Result<Opening<'_>, NotifyError>) -> HttpRequest {
    match opening {
        Ok(Opening::Post { service: Service::Webhook, request }) => request,
        other => panic!("not a request: {other:?}"),
    }
}

fn refused(opening: Result<Opening<'_>, NotifyError>) -> String {
    opening.unwrap_err().message()
}

fn is_plain(message: &SendMessage, subject: Option<&str>) -> bool {
    message.content == "hello"
        && message.recipient == "someone"
        && message.subject.as_deref() == subject
}

// -- Channels --

#[test]
fn telegram_is_the_default_channel() {
    let config = full_config();
    let backend = ChannelBackend { config: &config };
    assert_eq!(backend.name(), "channel");
    let mut message = payload();
    message.title = Some("title".to_string());
    let (request, status) = opened(backend.send(&message));
    assert_eq!(status, "sent via telegram");
    match request {
        ChannelRequest::Telegram { config, message } => {
            assert_eq!(config.bot_token, "tg");
            assert_eq!(config.allowed_users, users());
            assert!(config.mention_only);
            assert!(is_plain(&message, Some("title")));
        }
        other => panic!("{other:?}"),
    }
    // A channel that is no string does not count.
    message.extra.insert("channel", Json::Bool(true));
    assert_eq!(opened(backend.send(&message)).1, "sent via telegram");
}

#[test]
fn every_plain_channel_gets_its_settings() {
    let config = full_config();
    let backend = ChannelBackend { config: &config };
    let (request, status) = opened(backend.send(&to_channel("Discord")));
    assert_eq!(status, "sent via discord");
    match request {
        ChannelRequest::Discord { config, message } => {
            assert_eq!(config.bot_token, "dc");
            assert_eq!(config.guild_id.as_deref(), Some("guild"));
            assert!(config.listen_to_bots && !config.mention_only);
            assert!(is_plain(&message, None));
        }
        other => panic!("{other:?}"),
    }
    let (request, status) = opened(backend.send(&to_channel("SLACK")));
    assert_eq!(status, "sent via slack");
    match request {
        ChannelRequest::Slack { config, message } => {
            assert_eq!(config.bot_token, "sl");
            assert!(is_plain(&message, None));
        }
        other => panic!("{other:?}"),
    }
}

#[test]
fn mattermost_replies_in_threads_to_everybody_by_default() {
    let mut config = full_config();
    {
        let backend = ChannelBackend { config: &config };
        let (request, status) = opened(backend.send(&to_channel("mattermost")));
        assert_eq!(status, "sent via mattermost");
        match request {
            ChannelRequest::Mattermost { config, thread_replies, mention_only, message } => {
                assert_eq!(config.url, "https://mm.example");
                assert!(thread_replies);
                assert!(!mention_only);
                assert!(is_plain(&message, None));
            }
            other => panic!("{other:?}"),
        }
    }
    let mattermost = config.channels_config.mattermost.as_mut().unwrap();
    mattermost.thread_replies = Some(false);
    mattermost.mention_only = Some(true);
    let backend = ChannelBackend { config: &config };
    match opened(backend.send(&to_channel("mattermost"))).0 {
        ChannelRequest::Mattermost { thread_replies, mention_only, .. } => {
            assert!(!thread_replies);
            assert!(mention_only);
        }
        other => panic!("{other:?}"),
    }
}

#[test]
fn plain_channels_send_rich_types_as_text() {
    let config = full_config();
    let backend = ChannelBackend { config: &config };
    let mut message = payload();
    message.msg_type = MessageType::Interactive;
    message.receive_id_type = RecipientIdType::Email;
    match opened(backend.send(&message)).0 {
        ChannelRequest::Telegram { message, .. } => assert!(is_plain(&message, None)),
        other => panic!("{other:?}"),
    }
}

#[test]
fn channels_that_are_not_configured_are_refused() {
    let config = Config::default();
    let backend = ChannelBackend { config: &config };
    let names = ["telegram", "discord", "slack", "mattermost", "lark"];
    for name in names {
        let error = refused(backend.send(&to_channel(name)));
        assert_eq!(error, format!("{name} channel not configured"));
    }
    let error = backend.send(&to_channel("slack")).unwrap_err();
    assert!(matches!(error, NotifyError::ChannelNotConfigured(ChannelKind::Slack)));
    assert_eq!(
        refused(backend.send(&to_channel("feishu"))),
        "feishu/lark channel not configured"
    );
    assert_eq!(refused(backend.send(&to_channel("Pager"))), "unsupported channel: pager");
}

#[test]
fn a_missing_recipient_comes_before_a_missing_channel_but_for_lark() {
    let config = Config::default();
    let backend = ChannelBackend { config: &config };
    let mut message = to_channel("pager");
    message.recipient = None;
    assert_eq!(
        refused(backend.send(&message)),
        "'recipient' is required for channel delivery"
    );
    let mut message = to_channel("lark");
    message.recipient = None;
    assert_eq!(refused(backend.send(&message)), "lark channel not configured");
    let config = full_config();
    let backend = ChannelBackend { config: &config };
    assert_eq!(refused(backend.send(&message)), "'recipient' is required for lark delivery");
}

#[test]
fn lark_gets_the_types() {
    let config = full_config();
    let backend = ChannelBackend { config: &config };
    let mut message = to_channel("LARK");
    message.msg_type = MessageType::ShareChat;
    message.receive_id_type = RecipientIdType::OpenId;
    let (request, status) = opened(backend.send(&message));
    assert_eq!(status, "sent share_chat via lark (id_type=open_id)");
    match request {
        ChannelRequest::Lark { account, recipient, id_type, msg_type, content, uuid } => {
            assert_eq!(account, LarkAccount::Lark);
            assert_eq!(recipient, "someone");
            assert_eq!(id_type, "open_id");
            assert_eq!(msg_type, "share_chat");
            assert_eq!(content, "hello");
            assert_eq!(uuid, None);
        }
        other => panic!("{other:?}"),
    }
}

#[test]
fn lark_and_feishu_get_the_idempotency_key() {
    let config = full_config();
    let backend = ChannelBackend { config: &config };
    let key_sent = |message: &NotifyPayload| match opened(backend.send(message)).0 {
        ChannelRequest::Lark { uuid, .. } => uuid,
        other => panic!("{other:?}"),
    };
    for name in ["lark", "feishu", "LARK", "Feishu"] {
        let mut message = to_channel(name);
        assert_eq!(key_sent(&message), None);
        message.extra.insert("uuid", Json::text("key-1"));
        assert_eq!(key_sent(&message).as_deref(), Some("key-1"));
        message.extra.insert("uuid", Json::text(""));
        assert_eq!(key_sent(&message).as_deref(), Some(""));
        // A long key goes out as it is.
        let long = "k".repeat(51);
        message.extra.insert("uuid", Json::text(&long));
        assert_eq!(key_sent(&message), Some(long));
        // A key that is no string does not count.
        message.extra.insert("uuid", Json::Number(Number::Unsigned(7)));
        assert_eq!(key_sent(&message), None);
    }
}

#[test]
fn plain_channels_ignore_the_other_extra_fields() {
    let config = full_config();
    let backend = ChannelBackend { config: &config };
    for name in ["telegram", "discord", "slack", "mattermost"] {
        let mut message = to_channel(name);
        let before = format!("{:?}", backend.send(&message));
        message.receive_id_type = RecipientIdType::Email;
        message.extra.insert("uuid", Json::text("key-1"));
        message.extra.insert("sound", Json::text("bell"));
        assert_eq!(format!("{:?}", backend.send(&message)), before);
    }
}

#[test]
fn feishu_falls_back_to_lark() {
    let account = |config: &Config| match opened(
        ChannelBackend { config }.send(&to_channel("feishu")),
    )
    .0
    {
        ChannelRequest::Lark { account, .. } => account,
        other => panic!("{other:?}"),
    };
    let mut config = full_config();
    assert_eq!(account(&config), LarkAccount::Feishu);
    config.channels_config.lark = false;
    assert_eq!(account(&config), LarkAccount::Feishu);
    config.channels_config.lark = true;
    config.channels_config.feishu = false;
    assert_eq!(account(&config), LarkAccount::Lark);
}

#[test]
fn without_the_lark_channel_lark_is_unknown() {
    let mut config = full_config();
    config.channels_config.lark_built_in = false;
    let backend = ChannelBackend { config: &config };
    assert_eq!(refused(backend.send(&to_channel("Lark"))), "unsupported channel: lark");
    assert_eq!(refused(backend.send(&to_channel("feishu"))), "unsupported channel: feishu");
}

// -- Pushover --

const ENV: &str = "PUSHOVER_TOKEN=t\nPUSHOVER_USER_KEY=u\n";

fn form(payload: &NotifyPayload) -> Vec<(&'static str, String)> {
    let dir = PathBuf::from("/nonexistent");
    let request = PushoverBackend { workspace_dir: &dir }.request(ENV, payload).unwrap();
    assert_eq!(request.service, "tool.pushover");
    assert_eq!(request.timeout_secs, 15);
    assert_eq!(request.connect_timeout_secs, 10);
    assert_eq!(request.url, "https://api.pushover.net/1/messages.json");
    assert_eq!(request.content_type, None);
    match request.body {
        HttpBody::Form(fields) => fields,
        other => panic!("{other:?}"),
    }
}

fn fields(list: &[(&'static str, &str)]) -> Vec<(&'static str, String)> {
    list.iter().map(|(name, value)| (*name, value.to_string())).collect()
}

#[test]
fn pushover_form_holds_what_is_given() {
    let mut message = payload();
    assert_eq!(form(&message), fields(&[("token", "t"), ("user", "u"), ("message", "hello")]));
    message.title = Some("title".to_string());
    message.extra.insert("priority", Json::Number(Number::Signed(-2)));
    message.extra.insert("sound", Json::text("siren"));
    message.msg_type = MessageType::Post;
    assert_eq!(
        form(&message),
        fields(&[
            ("token", "t"),
            ("user", "u"),
            ("message", "hello"),
            ("title", "title"),
            ("priority", "-2"),
            ("sound", "siren"),
        ])
    );
}

#[test]
fn pushover_takes_priorities_from_minus_two_to_two() {
    let dir = PathBuf::from("/nonexistent");
    let backend = PushoverBackend { workspace_dir: &dir };
    assert_eq!(backend.name(), "pushover");
    for n in -5i64..=5 {
        let mut message = payload();
        message.extra.insert("priority", Json::Number(Number::Signed(n)));
        match backend.send(&message) {
            Ok(Opening::ReadEnv { dir: read, file }) => {
                assert!((-2..=2).contains(&n));
                assert_eq!(read, &dir);
                assert_eq!(file, ".env");
            }
            Err(error) => {
                assert!(!(-2..=2).contains(&n));
                assert_eq!(
                    error.message(),
                    format!("priority must be in range -2..=2, got {n}")
                );
                assert!(backend.request(ENV, &message).is_err());
            }
            other => panic!("{other:?}"),
        }
    }
}

#[test]
fn pushover_ignores_priorities_that_are_no_integers() {
    for value in [
        Json::text("5"),
        Json::Null,
        Json::Number(Number::Real("5.0".to_string())),
        Json::Number(Number::Unsigned(u64::MAX)),
    ] {
        let mut message = payload();
        message.extra.insert("priority", value);
        message.extra.insert("sound", Json::Bool(true));
        assert_eq!(form(&message), fields(&[("token", "t"), ("user", "u"), ("message", "hello")]));
    }
}

#[test]
fn pushover_replies_are_judged() {
    let dir = PathBuf::from("/nonexistent");
    let backend = PushoverBackend { workspace_dir: &dir };
    let sent = "pushover notification sent";
    assert_eq!(backend.outcome(200, "{\"status\": 1, \"request\": \"x\"}").unwrap(), sent);
    assert_eq!(backend.outcome(202, "{\"status\":1}").unwrap(), sent);
    for body in [
        "{\"status\":0}",
        "{\"status\":\"1\"}",
        "{\"status\":1.0}",
        "{\"state\":1}",
        "[1]",
        "1",
        "not json",
        "{\"status\":1} trailing",
        "",
    ] {
        let error = backend.outcome(200, body).unwrap_err();
        assert!(matches!(error, NotifyError::PushoverRefused { .. }));
        assert_eq!(error.message(), format!("Pushover application error: {body}"));
    }
    let error = backend.outcome(400, "{\"status\":1}").unwrap_err();
    assert_eq!(
        error.message(),
        "Pushover API returned status 400 Bad Request: {\"status\":1}"
    );
}

#[test]
fn pushover_judgement_by_parts() {
    assert_eq!(judge_pushover(299, "x", Some(1), "b").unwrap(), "pushover notification sent");
    assert_eq!(
        judge_pushover(299, "x", Some(2), "b").unwrap_err().message(),
        "Pushover application error: b"
    );
    assert_eq!(
        judge_pushover(300, "x", Some(1), "b").unwrap_err().message(),
        "Pushover API returned status x: b"
    );
}

// -- Webhook --

fn hook(url: &str) -> NotifyPayload {
    let mut payload = payload();
    payload.recipient = Some(url.to_string());
    payload
}

#[test]
fn webhook_posts_the_payload() {
    assert_eq!(WebhookBackend.name(), "webhook");
    let mut message = hook("https://example.com/hook");
    message.msg_type = MessageType::ShareUser;
    message.title = Some("title".to_string());
    message.extra.insert("uuid", Json::text("id"));
    let request = posted(WebhookBackend.send(&message));
    assert_eq!(request.service, "tool.notify");
    assert_eq!(request.timeout_secs, 15);
    assert_eq!(request.connect_timeout_secs, 10);
    assert_eq!(request.url, "https://example.com/hook");
    assert_eq!(request.content_type, Some("application/json"));
    let body = match request.body {
        HttpBody::Json(body) => body,
        other => panic!("{other:?}"),
    };
    assert_eq!(body.get_str("msg_type"), Some("share_user"));
    assert_eq!(body.get_str("message"), Some("hello"));
    assert_eq!(body.get_str("title"), Some("title"));
    assert_eq!(body.get("extra").unwrap().get_str("uuid"), Some("id"));
    assert!(body.get("recipient").is_none());
}

#[test]
fn webhook_without_title_says_null() {
    let body = WebhookBackend.body(&hook("https://example.com"));
    assert!(matches!(body.get("title"), Some(Json::Null)));
    assert!(matches!(body.get("extra"), Some(Json::Object(map)) if map.entries().is_empty()));
}

#[test]
fn webhook_wants_https() {
    for url in ["http://example.com", "HTTPS://example.com", " https://example.com", "", "https:/"] {
        let error = WebhookBackend.send(&hook(url)).unwrap_err();
        assert!(matches!(error, NotifyError::WebhookNotHttps));
        assert_eq!(error.message(), "webhook URL must use HTTPS");
    }
    let mut message = payload();
    message.recipient = None;
    assert_eq!(
        refused(WebhookBackend.send(&message)),
        "'recipient' (webhook URL) is required"
    );
}

#[test]
fn webhook_statuses_are_shown_with_their_reason() {
    assert_eq!(WebhookBackend.success(200).unwrap(), "webhook delivered (HTTP 200 OK)");
    assert_eq!(WebhookBackend.success(204).unwrap(), "webhook delivered (HTTP 204 No Content)");
    assert_eq!(
        WebhookBackend.success(299).unwrap(),
        "webhook delivered (HTTP 299 <unknown status code>)"
    );
    assert_eq!(WebhookBackend.success(199), None);
    assert_eq!(WebhookBackend.success(300), None);
    assert_eq!(
        WebhookBackend.failure(404, "gone".to_string()).message(),
        "webhook returned HTTP 404 Not Found: gone"
    );
    assert_eq!(describe_webhook_status("x"), "webhook delivered (HTTP x)");
}

#[test]
fn success_is_that_of_the_http_library() {
    for code in 100..1000u16 {
        let status = reqwest::StatusCode::from_u16(code).unwrap();
        assert_eq!(is_success(code), status.is_success());
        if is_success(code) {
            assert_eq!(
                WebhookBackend.success(code).unwrap(),
                format!("webhook delivered (HTTP {status})")
            );
        }
    }
}
