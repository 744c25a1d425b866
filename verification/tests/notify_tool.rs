//! The tool as its callers see it.

use notify::backend::NotifyBackend;
use notify::config::Config;
use notify::env::parse_env_value;
use notify::json::{Json, JsonMap, Number};
use notify::method::{MessageType, NotifyMethod, RecipientIdType};
use notify::payload::ToolResult;
use notify::tool::{NotifyTool, Step};
use std::cell::Cell;
use std::path::PathBuf;
use std::sync::Arc;

#[derive(Clone, Copy, PartialEq)]
enum AutonomyLevel {
    ReadOnly,
    Full,
}

struct SecurityPolicy {
    autonomy: AutonomyLevel,
    max_actions_per_hour: u32,
    recorded: Cell<u32>,
}

impl SecurityPolicy {
    fn can_act(&self) -> bool {
        self.autonomy != AutonomyLevel::ReadOnly
    }

    fn record_action(&self) -> bool {
        self.recorded.set(self.recorded.get() + 1);
        self.recorded.get() <= self.max_actions_per_hour
    }
}

fn test_security(level: AutonomyLevel, max_actions: u32) -> Arc<SecurityPolicy> {
    Arc::new(SecurityPolicy {
        autonomy: level,
        max_actions_per_hour: max_actions,
        recorded: Cell::new(0),
    })
}

fn test_tool(level: AutonomyLevel) -> NotifyTool<SecurityPolicy> {
    let config = Arc::new(Config::default());
    let security = test_security(level, 100);
    NotifyTool::new(config, security, PathBuf::from("/nonexistent"))
}

fn object(members: &[(&str, &str)]) -> Json {
    let mut map = JsonMap::new();
    for (key, value) in members {
        map.insert(key, Json::text(value));
    }
    Json::object(map)
}

/// Carries out a request in a world where nothing but the policy answers.
fn execute(tool: &NotifyTool<SecurityPolicy>, args: Json) -> ToolResult {
    let mut step = tool.execute(args);
    loop {
        step = match step {
            Step::AskPolicy { args } => tool.after_policy(args, tool.security.can_act()),
            Step::RecordAction { args } => tool.after_record(args, tool.security.record_action()),
            Step::ReadEnv { payload, .. } => tool.after_env(
                payload,
                Err(("/nonexistent/.env".to_string(), "No such file".to_string())),
            ),
            Step::Finish(result) => return result,
            other => panic!("the request reached {other:?}"),
        }
    }
}

// -- NotifyMethod --

#[test]
fn method_parse_known_values() {
    assert_eq!(NotifyMethod::parse("channel"), Some(NotifyMethod::Channel));
    assert_eq!(NotifyMethod::parse("PUSHOVER"), Some(NotifyMethod::Pushover));
    assert_eq!(NotifyMethod::parse("Webhook"), Some(NotifyMethod::Webhook));
    assert_eq!(NotifyMethod::parse("sms"), None);
}

#[test]
fn method_display() {
    assert_eq!(NotifyMethod::Channel.to_string(), "channel");
    assert_eq!(NotifyMethod::Pushover.to_string(), "pushover");
    assert_eq!(NotifyMethod::Webhook.to_string(), "webhook");
}

// -- MessageType --

#[test]
fn msg_type_parse_all_variants() {
    assert_eq!(MessageType::parse("text"), Some(MessageType::Text));
    assert_eq!(MessageType::parse("post"), Some(MessageType::Post));
    assert_eq!(MessageType::parse("rich_text"), Some(MessageType::Post));
    assert_eq!(MessageType::parse("interactive"), Some(MessageType::Interactive));
    assert_eq!(MessageType::parse("card"), Some(MessageType::Interactive));
    assert_eq!(MessageType::parse("image"), Some(MessageType::Image));
    assert_eq!(MessageType::parse("share_chat"), Some(MessageType::ShareChat));
    assert_eq!(MessageType::parse("share_user"), Some(MessageType::ShareUser));
    assert_eq!(MessageType::parse("file"), Some(MessageType::File));
    assert_eq!(MessageType::parse("audio"), Some(MessageType::Audio));
    assert_eq!(MessageType::parse("media"), Some(MessageType::Media));
    assert_eq!(MessageType::parse("video"), Some(MessageType::Media));
    assert_eq!(MessageType::parse("sticker"), Some(MessageType::Sticker));
    assert_eq!(MessageType::parse("unknown"), None);
}

#[test]
fn msg_type_lark_wire_names() {
    assert_eq!(MessageType::Text.lark_msg_type(), "text");
    assert_eq!(MessageType::Post.lark_msg_type(), "post");
    assert_eq!(MessageType::Interactive.lark_msg_type(), "interactive");
    assert_eq!(MessageType::Image.lark_msg_type(), "image");
    assert_eq!(MessageType::File.lark_msg_type(), "file");
    assert_eq!(MessageType::Audio.lark_msg_type(), "audio");
    assert_eq!(MessageType::Media.lark_msg_type(), "media");
    assert_eq!(MessageType::Sticker.lark_msg_type(), "sticker");
    assert_eq!(MessageType::ShareChat.lark_msg_type(), "share_chat");
    assert_eq!(MessageType::ShareUser.lark_msg_type(), "share_user");
}

#[test]
fn msg_type_default_is_text() {
    assert_eq!(MessageType::default(), MessageType::Text);
}

// -- RecipientIdType --

#[test]
fn recipient_id_type_parse() {
    assert_eq!(RecipientIdType::parse("chat_id"), Some(RecipientIdType::ChatId));
    assert_eq!(RecipientIdType::parse("open_id"), Some(RecipientIdType::OpenId));
    assert_eq!(RecipientIdType::parse("union_id"), Some(RecipientIdType::UnionId));
    assert_eq!(RecipientIdType::parse("user_id"), Some(RecipientIdType::UserId));
    assert_eq!(RecipientIdType::parse("email"), Some(RecipientIdType::Email));
    assert_eq!(RecipientIdType::parse("phone"), None);
}

#[test]
fn recipient_id_type_query_param() {
    assert_eq!(RecipientIdType::ChatId.as_query_param(), "chat_id");
    assert_eq!(RecipientIdType::OpenId.as_query_param(), "open_id");
    assert_eq!(RecipientIdType::Email.as_query_param(), "email");
}

#[test]
fn recipient_id_type_default_is_chat_id() {
    assert_eq!(RecipientIdType::default(), RecipientIdType::ChatId);
}

// -- Tool metadata --

#[test]
fn tool_name_and_schema() {
    let tool = test_tool(AutonomyLevel::Full);
    assert_eq!(tool.name(), "notify");
    let schema = tool.parameters_schema();
    assert_eq!(schema.get_str("type"), Some("object"));
    let properties = schema.get("properties").unwrap();
    assert!(properties.get("method").is_some());
    assert!(properties.get("message").is_some());
    assert!(properties.get("msg_type").is_some());
    assert!(properties.get("receive_id_type").is_some());
    // No schedule fields
    assert!(properties.get("action").is_none());
    assert!(properties.get("schedule").is_none());
}

// -- Security gates --

#[test]
fn blocks_readonly_mode() {
    let tool = test_tool(AutonomyLevel::ReadOnly);
    let result = execute(&tool, object(&[("method", "webhook"), ("message", "hello")]));
    assert!(!result.success);
    assert!(result.error.unwrap().contains("read-only"));
    assert_eq!(tool.security.recorded.get(), 0);
}

#[test]
fn blocks_rate_limit() {
    let config = Arc::new(Config::default());
    let security = test_security(AutonomyLevel::Full, 0);
    let tool = NotifyTool::new(config, security, PathBuf::from("/nonexistent"));
    let result = execute(&tool, object(&[("method", "webhook"), ("message", "hello")]));
    assert!(!result.success);
    assert!(result.error.unwrap().contains("Rate limit"));
}

// -- Input validation --

#[test]
fn rejects_unknown_method() {
    let tool = test_tool(AutonomyLevel::Full);
    let result = execute(&tool, object(&[("method", "carrier_pigeon"), ("message", "coo")]));
    assert!(!result.success);
    assert!(result.error.unwrap().contains("Unknown method"));
}

#[test]
fn rejects_empty_message() {
    let tool = test_tool(AutonomyLevel::Full);
    let result = execute(&tool, object(&[("method", "webhook"), ("message", "")]));
    assert!(!result.success);
    assert!(result.error.unwrap().contains("message"));
}

#[test]
fn rejects_unknown_msg_type() {
    let tool = test_tool(AutonomyLevel::Full);
    let result = execute(
        &tool,
        object(&[("method", "webhook"), ("message", "hi"), ("msg_type", "hologram")]),
    );
    assert!(!result.success);
    assert!(result.error.unwrap().contains("msg_type"));
}

#[test]
fn rejects_invalid_receive_id_type() {
    let tool = test_tool(AutonomyLevel::Full);
    let result = execute(
        &tool,
        object(&[("method", "channel"), ("message", "hi"), ("receive_id_type", "phone")]),
    );
    assert!(!result.success);
    assert!(result.error.unwrap().contains("receive_id_type"));
}

// -- Backend-specific validation --

#[test]
fn webhook_rejects_non_https() {
    let tool = test_tool(AutonomyLevel::Full);
    let result = execute(
        &tool,
        object(&[
            ("method", "webhook"),
            ("message", "hello"),
            ("recipient", "http://example.com/hook"),
        ]),
    );
    assert!(!result.success);
    assert!(result.error.unwrap().contains("HTTPS"));
}

#[test]
fn webhook_rejects_missing_recipient() {
    let tool = test_tool(AutonomyLevel::Full);
    let result = execute(&tool, object(&[("method", "webhook"), ("message", "hello")]));
    assert!(!result.success);
    assert!(result.error.unwrap().contains("recipient"));
}

#[test]
fn channel_rejects_missing_recipient() {
    let tool = test_tool(AutonomyLevel::Full);
    let result = execute(
        &tool,
        object(&[("method", "channel"), ("message", "hello"), ("channel", "telegram")]),
    );
    assert!(!result.success);
    assert!(result.error.unwrap().contains("recipient"));
}

#[test]
fn pushover_rejects_invalid_priority() {
    let tool = test_tool(AutonomyLevel::Full);
    let mut args = JsonMap::new();
    args.insert("method", Json::text("pushover"));
    args.insert("message", Json::text("hello"));
    args.insert("priority", Json::Number(Number::Unsigned(5)));
    let result = execute(&tool, Json::object(args));
    assert!(!result.success);
    assert!(result.error.unwrap().contains("priority"));
}

// -- Backend registry --

#[test]
fn build_backends_covers_all_methods() {
    let tool = test_tool(AutonomyLevel::Full);
    let backends = tool.build_backends();
    assert!(backends.contains_key(&NotifyMethod::Channel));
    assert!(backends.contains_key(&NotifyMethod::Pushover));
    assert!(backends.contains_key(&NotifyMethod::Webhook));
}

#[test]
fn backends_carry_the_names_of_their_methods() {
    let tool = test_tool(AutonomyLevel::Full);
    let backends = tool.build_backends();
    for method in [NotifyMethod::Channel, NotifyMethod::Pushover, NotifyMethod::Webhook] {
        assert_eq!(backends.get(&method).unwrap().name(), method.to_string());
    }
}

// -- Utility --

#[test]
fn parse_env_value_handles_quotes_and_comments() {
    assert_eq!(parse_env_value("\"hello\""), "hello");
    assert_eq!(parse_env_value("'world'"), "world");
    assert_eq!(parse_env_value("value # comment"), "value");
    assert_eq!(parse_env_value("  plain  "), "plain");
}
