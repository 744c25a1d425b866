//! Whole requests, JSON values and the schema.

use notify::arguments::parse_arguments;
use notify::backend::Service;
use notify::config::{Config, TelegramConfig};
use notify::json::{Json, JsonMap, Number};
use notify::method::{MessageType, NotifyMethod, RecipientIdType};
use notify::payload::ToolResult;
use notify::request::ChannelRequest;
use notify::tool::{NotifyTool, Step};
use serde_json::Value;
use std::path::PathBuf;
use std::sync::Arc;

/// The answers of the outside world.
struct World {
    allowed: bool,
    recorded: bool,
    sent: Result<(), String>,
    env: Result<String, (String, String)>,
    replied: Result<u16, String>,
    body: String,
}

fn good_world() -> World {
    World {
        allowed: true,
        recorded: true,
        sent: Ok(()),
        env: Ok("PUSHOVER_TOKEN=t\nPUSHOVER_USER_KEY=u".to_string()),
        replied: Ok(200),
        body: "{\"status\":1}".to_string(),
    }
}

fn tool() -> NotifyTool<()> {
    let mut config = Config::default();
    config.channels_config.telegram = Some(TelegramConfig {
        bot_token: "tg".to_string(),
        allowed_users: vec![],
        mention_only: false,
    });
    NotifyTool::new(Arc::new(config), Arc::new(()), PathBuf::from("/nonexistent"))
}

/// The names of the steps of a request, and its result.
fn run(args: Json, world: World) -> (Vec<&'static str>, ToolResult) {
    let tool = tool();
    let mut names = vec![];
    let mut step = tool.execute(args);
    loop {
        step = match step {
            Step::AskPolicy { args } => {
                names.push("ask");
                tool.after_policy(args, world.allowed)
            }
            Step::RecordAction { args } => {
                names.push("record");
                tool.after_record(args, world.recorded)
            }
            Step::Send { request: _, status } => {
                names.push("send");
                tool.after_send(status, world.sent.clone())
            }
            Step::ReadEnv { dir, file, payload } => {
                assert_eq!(dir.join(file), PathBuf::from("/nonexistent/.env"));
                names.push("env");
                tool.after_env(payload, world.env.clone())
            }
            Step::Post { service, request: _ } => {
                names.push(if service == Service::Pushover { "pushover" } else { "webhook" });
                tool.after_post(service, world.replied.clone())
            }
            Step::ReadBody { service, code } => {
                names.push("body");
                tool.after_body(service, code, world.body.clone())
            }
            Step::Finish(result) => return (names, result),
        }
    }
}

fn value_of(json: &Json) -> Value {
    match json {
        Json::Null => Value::Null,
        Json::Bool(b) => Value::Bool(*b),
        Json::Number(Number::Unsigned(n)) => Value::from(*n),
        Json::Number(Number::Signed(n)) => Value::from(*n),
        Json::Number(Number::Real(s)) => serde_json::from_str(s).unwrap(),
        Json::Text(s) => Value::String(s.clone()),
        Json::Array(items) => Value::Array(items.iter().map(value_of).collect()),
        Json::Object(map) => Value::Object(
            map.entries().iter().map(|(key, value)| (key.clone(), value_of(value))).collect(),
        ),
    }
}

fn json_of(value: &Value) -> Json {
    match value {
        Value::Null => Json::Null,
        Value::Bool(b) => Json::Bool(*b),
        Value::Number(n) => Json::Number(if let Some(n) = n.as_u64() {
            Number::Unsigned(n)
        } else if let Some(n) = n.as_i64() {
            Number::Signed(n)
        } else {
            Number::Real(n.to_string())
        }),
        Value::String(s) => Json::Text(s.clone()),
        Value::Array(items) => Json::Array(items.iter().map(json_of).collect()),
        Value::Object(map) => Json::Object(JsonMap::collect(
            map.iter().map(|(key, value)| (key.clone(), json_of(value))).collect(),
        )),
    }
}

fn args(text: &str) -> Json {
    json_of(&serde_json::from_str(text).unwrap())
}

const CHANNEL: &str = r#"{"method": "channel", "message": "hi", "recipient": "r"}"#;
const PUSHOVER: &str = r#"{"method": "pushover", "message": "hi"}"#;
const WEBHOOK: &str = r#"{"method": "webhook", "message": "hi", "recipient": "https://e.com"}"#;

fn ok(result: &ToolResult, status: &str) {
    assert!(result.success);
    assert_eq!(result.output, status);
    assert_eq!(result.error, None);
}

fn failed(result: &ToolResult, error: &str) {
    assert!(!result.success);
    assert_eq!(result.output, "");
    assert_eq!(result.error.as_deref(), Some(error));
}

// -- Courses --

#[test]
fn requests_that_go_well() {
    let (steps, result) = run(args(CHANNEL), good_world());
    assert_eq!(steps, ["ask", "record", "send"]);
    ok(&result, "sent via telegram");
    let (steps, result) = run(args(PUSHOVER), good_world());
    assert_eq!(steps, ["ask", "record", "env", "pushover", "body"]);
    ok(&result, "pushover notification sent");
    let (steps, result) = run(args(WEBHOOK), good_world());
    assert_eq!(steps, ["ask", "record", "webhook"]);
    ok(&result, "webhook delivered (HTTP 200 OK)");
}

#[test]
fn read_only_mode_records_nothing() {
    let world = World { allowed: false, ..good_world() };
    let (steps, result) = run(args(WEBHOOK), world);
    assert_eq!(steps, ["ask"]);
    failed(&result, "Security policy: read-only mode, cannot send notifications");
}

#[test]
fn the_rate_limit_comes_before_the_arguments() {
    let world = World { recorded: false, ..good_world() };
    let (steps, result) = run(Json::Null, world);
    assert_eq!(steps, ["ask", "record"]);
    failed(&result, "Rate limit exceeded");
}

#[test]
fn channel_failures_are_reported() {
    let world = World { sent: Err("timeout".to_string()), ..good_world() };
    let (steps, result) = run(args(CHANNEL), world);
    assert_eq!(steps, ["ask", "record", "send"]);
    failed(&result, "timeout");
}

#[test]
fn pushover_failures_are_reported() {
    let unreadable = Err(("/w/.env".to_string(), "No such file".to_string()));
    let (steps, result) = run(args(PUSHOVER), World { env: unreadable, ..good_world() });
    assert_eq!(steps, ["ask", "record", "env"]);
    failed(&result, "Failed to read /w/.env: No such file");
    let (steps, result) = run(args(PUSHOVER), World { env: Ok(String::new()), ..good_world() });
    assert_eq!(steps, ["ask", "record", "env"]);
    failed(&result, "PUSHOVER_TOKEN not found in .env");
    let refused = Err("connection refused".to_string());
    let (steps, result) = run(args(PUSHOVER), World { replied: refused, ..good_world() });
    assert_eq!(steps, ["ask", "record", "env", "pushover"]);
    failed(&result, "connection refused");
    let (steps, result) = run(args(PUSHOVER), World { replied: Ok(500), ..good_world() });
    assert_eq!(steps, ["ask", "record", "env", "pushover", "body"]);
    failed(
        &result,
        "Pushover API returned status 500 Internal Server Error: {\"status\":1}",
    );
    let (_, result) = run(args(PUSHOVER), World { body: "{}".to_string(), ..good_world() });
    failed(&result, "Pushover application error: {}");
}

#[test]
fn webhook_failures_are_reported() {
    let refused = Err("connection refused".to_string());
    let (steps, result) = run(args(WEBHOOK), World { replied: refused, ..good_world() });
    assert_eq!(steps, ["ask", "record", "webhook"]);
    failed(&result, "connection refused");
    let world = World { replied: Ok(503), body: "busy".to_string(), ..good_world() };
    let (steps, result) = run(args(WEBHOOK), world);
    assert_eq!(steps, ["ask", "record", "webhook", "body"]);
    failed(&result, "webhook returned HTTP 503 Service Unavailable: busy");
}

#[test]
fn a_bad_priority_is_refused_before_the_credentials_are_read() {
    let request = args(r#"{"method": "pushover", "message": "hi", "priority": 3}"#);
    let unreadable = Err(("/w/.env".to_string(), "No such file".to_string()));
    let (steps, result) = run(request, World { env: unreadable, ..good_world() });
    assert_eq!(steps, ["ask", "record"]);
    failed(&result, "priority must be in range -2..=2, got 3");
}

// -- Arguments --

#[test]
fn faults_are_reported_in_order() {
    let error = |text: &str| parse_arguments(&args(text)).unwrap_err().message();
    assert_eq!(
        error(r#"{"method": "sms", "message": "", "msg_type": "x", "receive_id_type": "y"}"#),
        "Unknown method 'sms'. Expected: channel, pushover, webhook"
    );
    assert_eq!(error("{}"), "Unknown method ''. Expected: channel, pushover, webhook");
    assert_eq!(error("[]"), "Unknown method ''. Expected: channel, pushover, webhook");
    assert_eq!(
        error(r#"{"method": "webhook", "message": " \t", "msg_type": "x"}"#),
        "Missing or empty 'message'"
    );
    assert_eq!(error(r#"{"method": "webhook", "message": 7}"#), "Missing or empty 'message'");
    assert_eq!(
        error(r#"{"method": "webhook", "message": "m", "msg_type": "x", "receive_id_type": "y"}"#),
        "Unknown msg_type 'x'. Expected: text, post, interactive, image, share_chat, \
         share_user, file, audio, media, sticker"
    );
    assert_eq!(
        error(r#"{"method": "webhook", "message": "m", "receive_id_type": "y"}"#),
        "Invalid receive_id_type"
    );
}

#[test]
fn arguments_become_a_payload() {
    let (method, payload) = parse_arguments(&args(
        r#"{"method": "CHANNEL", "message": " hi ", "msg_type": "Card", "title": "t",
            "recipient": "r", "receive_id_type": "EMAIL", "channel": "lark",
            "priority": [1, {"a": null}], "sound": "s", "uuid": "u", "other": 1}"#,
    ))
    .unwrap();
    assert_eq!(method, NotifyMethod::Channel);
    assert_eq!(payload.message, " hi ");
    assert_eq!(payload.msg_type, MessageType::Interactive);
    assert_eq!(payload.title.as_deref(), Some("t"));
    assert_eq!(payload.recipient.as_deref(), Some("r"));
    assert_eq!(payload.receive_id_type, RecipientIdType::Email);
    let expected: Value = serde_json::from_str(
        r#"{"channel": "lark", "priority": [1, {"a": null}], "sound": "s", "uuid": "u"}"#,
    )
    .unwrap();
    assert_eq!(value_of(&Json::object(payload.extra.clone())), expected);
    assert_eq!(payload.clone().extra.entries().len(), 4);
}

#[test]
fn the_idempotency_key_reaches_the_platform() {
    let mut config = Config::default();
    config.channels_config.lark = true;
    config.channels_config.lark_built_in = true;
    let tool = NotifyTool::new(Arc::new(config), Arc::new(()), PathBuf::from("/nonexistent"));
    let key_sent = |text: &str| match tool.after_record(args(text), true) {
        Step::Send { request: ChannelRequest::Lark { uuid, .. }, .. } => uuid,
        other => panic!("{other:?}"),
    };
    assert_eq!(
        key_sent(
            r#"{"method": "channel", "channel": "lark", "message": "m", "recipient": "r",
                "uuid": "key-1"}"#
        )
        .as_deref(),
        Some("key-1")
    );
    assert_eq!(
        key_sent(
            r#"{"method": "channel", "channel": "feishu", "message": "m", "recipient": "r",
                "uuid": 1}"#
        ),
        None
    );
}

#[test]
fn what_is_left_out_has_a_default() {
    let (_, payload) = parse_arguments(&args(
        r#"{"method": "webhook", "message": "m", "msg_type": 1, "title": 2, "channel": 3,
            "sound": null, "receive_id_type": false}"#,
    ))
    .unwrap();
    assert_eq!(payload.msg_type, MessageType::default());
    assert_eq!(payload.receive_id_type, RecipientIdType::default());
    assert_eq!(payload.title, None);
    assert_eq!(payload.recipient, None);
    assert!(payload.extra.entries().is_empty());
}

// -- JSON --

#[test]
fn json_members_are_set_and_read() {
    let mut map = JsonMap::new();
    map.insert("a", Json::Bool(true));
    map.insert("b", Json::text("x"));
    map.insert("a", Json::Null);
    assert_eq!(map.entries().len(), 2);
    assert!(matches!(map.get("a"), Some(Json::Null)));
    assert_eq!(map.get_str("b"), Some("x"));
    assert_eq!(map.get_str("a"), None);
    assert!(map.get("c").is_none());
    assert!(Json::text("a").get("a").is_none());
}

#[test]
fn the_last_of_equal_names_counts() {
    let map = JsonMap::collect(vec![
        ("a".to_string(), Json::text("first")),
        ("b".to_string(), Json::Null),
        ("a".to_string(), Json::text("last")),
    ]);
    assert_eq!(map.get_str("a"), Some("last"));
    let names: Vec<String> = map.clone().into_entries().into_iter().map(|(key, _)| key).collect();
    assert_eq!(names, ["a", "b"]);
    let read: Value = serde_json::from_str(r#"{"a": "first", "b": null, "a": "last"}"#).unwrap();
    assert_eq!(value_of(&Json::object(map)), read);
    assert!(JsonMap::collect(vec![]).entries().is_empty());
}

#[test]
fn json_integers_are_those_of_64_bits() {
    for text in ["0", "-1", "9223372036854775807", "-9223372036854775808", "9223372036854775808",
        "18446744073709551615", "1.0", "1e3", "1e400", "\"1\"", "true"]
    {
        if let Ok(value) = serde_json::from_str::<Value>(text) {
            assert_eq!(json_of(&value).as_i64(), value.as_i64(), "{text}");
            assert_eq!(json_of(&value).as_str(), value.as_str());
        }
    }
}

#[test]
fn json_copies_are_equal() {
    let text = r#"{"a": [1, -2, 3.5, null, true, "s", {"b": [[]]}], "c": {}}"#;
    let value: Value = serde_json::from_str(text).unwrap();
    let json = json_of(&value);
    assert_eq!(value_of(&json.clone()), value);
}

// -- Names --

#[test]
fn names_read_back() {
    for method in [NotifyMethod::Channel, NotifyMethod::Pushover, NotifyMethod::Webhook] {
        assert_eq!(NotifyMethod::parse(&method.to_string()), Some(method));
        assert_eq!(NotifyMethod::parse(&method.to_string().to_uppercase()), Some(method));
    }
    for t in [
        MessageType::Text,
        MessageType::Post,
        MessageType::Interactive,
        MessageType::Image,
        MessageType::ShareChat,
        MessageType::ShareUser,
        MessageType::File,
        MessageType::Audio,
        MessageType::Media,
        MessageType::Sticker,
    ] {
        assert_eq!(MessageType::parse(&t.to_string()), Some(t));
    }
    for (alias, t) in [
        ("Rich_Text", MessageType::Post),
        ("CARD", MessageType::Interactive),
        ("Video", MessageType::Media),
    ] {
        assert_eq!(MessageType::parse(alias), Some(t));
        assert_ne!(t.to_string(), alias.to_lowercase());
    }
    for no_name in ["", "texts", " text", "rich-text", "cards"] {
        assert_eq!(MessageType::parse(no_name), None);
    }
    for t in [
        RecipientIdType::ChatId,
        RecipientIdType::OpenId,
        RecipientIdType::UnionId,
        RecipientIdType::UserId,
        RecipientIdType::Email,
    ] {
        assert_eq!(RecipientIdType::parse(t.as_query_param()), Some(t));
    }
    assert_eq!(RecipientIdType::UnionId.as_query_param(), "union_id");
    assert_eq!(RecipientIdType::UserId.as_query_param(), "user_id");
}

// -- Presentation --

#[test]
fn the_schema_as_a_whole() {
    let expected: Value = serde_json::from_str(
        r#"{
            "type": "object",
            "properties": {
                "method": {
                    "type": "string",
                    "enum": ["channel", "pushover", "webhook"],
                    "description": "Delivery backend to use"
                },
                "message": {
                    "type": "string",
                    "description": "Notification body. For msg_type=text this is plain text; for other types this is the JSON content string as required by the platform (e.g. Lark post/interactive JSON)."
                },
                "msg_type": {
                    "type": "string",
                    "enum": ["text", "post", "interactive", "image", "share_chat", "share_user", "file", "audio", "media", "sticker"],
                    "description": "Message content type. Defaults to 'text'. Rich types are fully supported for Lark/Feishu; other channels fall back to text.",
                    "default": "text"
                },
                "title": {
                    "type": "string",
                    "description": "Optional title / subject"
                },
                "recipient": {
                    "type": "string",
                    "description": "Target identifier: chat_id, open_id, email, webhook URL, etc."
                },
                "receive_id_type": {
                    "type": "string",
                    "enum": ["chat_id", "open_id", "union_id", "user_id", "email"],
                    "description": "For Lark/Feishu: recipient ID type. Defaults to 'chat_id'.",
                    "default": "chat_id"
                },
                "channel": {
                    "type": "string",
                    "description": "For method=channel: which channel (telegram, discord, slack, lark, feishu, mattermost)"
                },
                "priority": {
                    "type": "integer",
                    "description": "For method=pushover: priority -2..=2"
                },
                "sound": {
                    "type": "string",
                    "description": "For method=pushover: notification sound"
                },
                "uuid": {
                    "type": "string",
                    "description": "For Lark/Feishu: idempotency key (max 50 chars). Requests with the same uuid within 1 hour are deduplicated."
                }
            },
            "required": ["method", "message"]
        }"#,
    )
    .unwrap();
    assert_eq!(value_of(&tool().parameters_schema()), expected);
}

#[test]
fn the_description_tells_how_to_schedule() {
    let tool = tool();
    let description = tool.description();
    assert!(description.starts_with(
        "Send a notification via a chosen method (channel, pushover, webhook) with rich message"
    ));
    assert!(description.contains("share_chat, and share_user.\n\nFor scheduled/delayed"));
    assert!(description.contains(
        "cron_add({\n\"job_type\": \"agent\",\n\"schedule\": {\"kind\": \"at\", \"at\": \"<RFC3339 timestamp 30s from now>\"},\n"
    ));
    assert!(description.contains(
        "{\\\"method\\\":\\\"channel\\\", \\\"channel\\\":\\\"lark\\\", \\\"message\\\":\\\"hello\\\", "
    ));
    assert!(description.ends_with("\"delete_after_run\": true\n})"));
}
