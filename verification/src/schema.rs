//! How the tool presents itself to the model that calls it.

use crate::arguments::request_in;
use crate::json::{
    distinct_keys, entries_view, json_views, law_distinct_members_stay, lemma_array_view,
    lemma_lookup_push, lookup, member, Json, JsonMap, JsonView, Members,
};
use crate::method::{
    law_message_type_names, law_method_names, law_recipient_id_type_names, MessageType,
    NotifyMethod, RecipientIdType,
};
use crate::text::{is_blank, law_trim_removes_the_outer_whitespace, texts};
use crate::tool::NotifyTool;
use vstd::prelude::*;

verus! {

/// The name of the tool.
pub const TOOL_NAME: &'static str = "notify";

/// What the tool does.
pub const TOOL_DESCRIPTION: &'static str = "Send a notification via a chosen method (channel, pushover, webhook) \
     with rich message type support. For Lark/Feishu, supports text, post, \
     interactive cards, image, file, audio, media, sticker, share_chat, \
     and share_user.\n\n\
     For scheduled/delayed notifications, use cron_add with job_type=\"agent\" \
     and a prompt that calls this tool. Example — send a Lark message in 30s:\n\
     cron_add({\n\
       \"job_type\": \"agent\",\n\
       \"schedule\": {\"kind\": \"at\", \"at\": \"<RFC3339 timestamp 30s from now>\"},\n\
       \"prompt\": \"Call the notify tool: {\\\"method\\\":\\\"channel\\\", \
     \\\"channel\\\":\\\"lark\\\", \\\"message\\\":\\\"hello\\\", \
     \\\"recipient\\\":\\\"ou_xxx\\\", \\\"receive_id_type\\\":\\\"open_id\\\"}\",\n\
       \"delete_after_run\": true\n\
     })";

pub const METHOD_DESCRIPTION: &'static str = "Delivery backend to use";

pub const MESSAGE_DESCRIPTION: &'static str = "Notification body. For msg_type=text this is plain text; \
     for other types this is the JSON content string as required \
     by the platform (e.g. Lark post/interactive JSON).";

pub const MSG_TYPE_DESCRIPTION: &'static str = "Message content type. Defaults to 'text'. \
     Rich types are fully supported for Lark/Feishu; \
     other channels fall back to text.";

pub const TITLE_DESCRIPTION: &'static str = "Optional title / subject";

pub const RECIPIENT_DESCRIPTION: &'static str = "Target identifier: chat_id, open_id, email, webhook URL, etc.";

pub const RECEIVE_ID_TYPE_DESCRIPTION: &'static str = "For Lark/Feishu: recipient ID type. Defaults to 'chat_id'.";

pub const CHANNEL_DESCRIPTION: &'static str = "For method=channel: which channel \
     (telegram, discord, slack, lark, feishu, mattermost)";

pub const PRIORITY_DESCRIPTION: &'static str = "For method=pushover: priority -2..=2";

pub const SOUND_DESCRIPTION: &'static str = "For method=pushover: notification sound";

pub const UUID_DESCRIPTION: &'static str = "For Lark/Feishu: idempotency key (max 50 chars). \
     Requests with the same uuid within 1 hour are deduplicated.";

// ---------------------------------------------------------------------------
// The schema
// ---------------------------------------------------------------------------

/// A list of strings.
pub open spec fn text_list(items: Seq<Seq<char>>) -> JsonView {
    JsonView::Array(items.map_values(|s: Seq<char>| JsonView::Text(s)))
}

/// The schema of a property without restrictions.
pub open spec fn plain_property(kind: Seq<char>, description: Seq<char>) -> JsonView {
    JsonView::Object(
        Members::empty().push(("type"@, JsonView::Text(kind))).push(
            ("description"@, JsonView::Text(description)),
        ),
    )
}

/// The names of the methods.
pub open spec fn method_names() -> Seq<Seq<char>> {
    seq!["channel"@, "pushover"@, "webhook"@]
}

/// The names of the message types.
pub open spec fn message_type_names() -> Seq<Seq<char>> {
    seq![
        "text"@,
        "post"@,
        "interactive"@,
        "image"@,
        "share_chat"@,
        "share_user"@,
        "file"@,
        "audio"@,
        "media"@,
        "sticker"@,
    ]
}

/// The names of the recipient id types.
pub open spec fn id_type_names() -> Seq<Seq<char>> {
    seq!["chat_id"@, "open_id"@, "union_id"@, "user_id"@, "email"@]
}

/// The names of the properties that every request must have.
pub open spec fn required_names() -> Seq<Seq<char>> {
    seq!["method"@, "message"@]
}

/// The schema of the property `method`.
pub open spec fn method_property() -> JsonView {
    JsonView::Object(
        Members::empty().push(("type"@, JsonView::Text("string"@))).push(
            ("enum"@, text_list(method_names())),
        ).push(("description"@, JsonView::Text(METHOD_DESCRIPTION@))),
    )
}

/// The schema of a property that is one of some names, and has a default.
pub open spec fn name_property(
    names: Seq<Seq<char>>,
    description: Seq<char>,
    default_name: Seq<char>,
) -> JsonView {
    JsonView::Object(
        Members::empty().push(("type"@, JsonView::Text("string"@))).push(
            ("enum"@, text_list(names)),
        ).push(("description"@, JsonView::Text(description))).push(
            ("default"@, JsonView::Text(default_name)),
        ),
    )
}

/// The schemas of all properties.
pub open spec fn properties() -> Members {
    Members::empty().push(("method"@, method_property())).push(
        ("message"@, plain_property("string"@, MESSAGE_DESCRIPTION@)),
    ).push(
        ("msg_type"@, name_property(message_type_names(), MSG_TYPE_DESCRIPTION@, "text"@)),
    ).push(("title"@, plain_property("string"@, TITLE_DESCRIPTION@))).push(
        ("recipient"@, plain_property("string"@, RECIPIENT_DESCRIPTION@)),
    ).push(
        (
            "receive_id_type"@,
            name_property(id_type_names(), RECEIVE_ID_TYPE_DESCRIPTION@, "chat_id"@),
        ),
    ).push(("channel"@, plain_property("string"@, CHANNEL_DESCRIPTION@))).push(
        ("priority"@, plain_property("integer"@, PRIORITY_DESCRIPTION@)),
    ).push(("sound"@, plain_property("string"@, SOUND_DESCRIPTION@))).push(
        ("uuid"@, plain_property("string"@, UUID_DESCRIPTION@)),
    )
}

/// The schema of the arguments.
pub open spec fn schema() -> JsonView {
    JsonView::Object(
        Members::empty().push(("type"@, JsonView::Text("object"@))).push(
            ("properties"@, JsonView::Object(properties())),
        ).push(("required"@, text_list(required_names()))),
    )
}

/// A list of strings.
fn text_array(items: Vec<&'static str>) -> (r: Json)
    ensures
        r@ == text_list(texts(items@)),
{
    let mut list: Vec<Json> = Vec::new();
    let mut i: usize = 0;
    while i < items.len()
        invariant
            i <= items@.len(),
            list@.len() == i,
            forall|j: int| 0 <= j < i ==> (#[trigger] list@[j])@ == JsonView::Text(items@[j]@),
        decreases items@.len() - i,
    {
        list.push(Json::text(items[i]));
        i += 1;
    }
    proof {
        lemma_array_view(list);
        assert(json_views(list@) =~= text_list(texts(items@))->Array_0);
    }
    Json::Array(list)
}

/// No name occurs twice in the schema of a property.
proof fn lemma_property_names()
    ensures
        forall|kind: Seq<char>, description: Seq<char>|
            distinct_keys((#[trigger] plain_property(kind, description))->Object_0),
        distinct_keys(method_property()->Object_0),
        forall|names: Seq<Seq<char>>, description: Seq<char>, default_name: Seq<char>|
            distinct_keys((#[trigger] name_property(names, description, default_name))->Object_0),
{
    reveal_strlit("type");
    reveal_strlit("enum");
    reveal_strlit("description");
    reveal_strlit("default");
    assert("type"@.len() == 4 && "enum"@.len() == 4 && "description"@.len() == 11
        && "default"@.len() == 7);
    assert("type"@[0] != "enum"@[0]);
}

/// No name occurs twice among the properties, nor in the schema itself.
proof fn lemma_schema_names()
    ensures
        distinct_keys(properties()),
        distinct_keys(schema()->Object_0),
{
    reveal_strlit("method");
    reveal_strlit("message");
    reveal_strlit("msg_type");
    reveal_strlit("title");
    reveal_strlit("recipient");
    reveal_strlit("receive_id_type");
    reveal_strlit("channel");
    reveal_strlit("priority");
    reveal_strlit("sound");
    reveal_strlit("uuid");
    reveal_strlit("type");
    reveal_strlit("properties");
    reveal_strlit("required");
    assert("method"@.len() == 6 && "message"@.len() == 7 && "msg_type"@.len() == 8 && "title"@.len()
        == 5 && "recipient"@.len() == 9);
    assert("receive_id_type"@.len() == 15 && "channel"@.len() == 7 && "priority"@.len() == 8
        && "sound"@.len() == 5 && "uuid"@.len() == 4);
    assert("type"@.len() == 4 && "properties"@.len() == 10 && "required"@.len() == 8);
    assert("message"@[0] != "channel"@[0]);
    assert("msg_type"@[0] != "priority"@[0]);
    assert("title"@[0] != "sound"@[0]);
    let names = argument_names();
    assert forall|i: int, j: int| 0 <= i < j < names.len() implies (#[trigger] names[i]) != (
    #[trigger] names[j]) by {}
    let all = properties();
    assert forall|i: int, j: int| 0 <= i < j < all.len() implies (#[trigger] all[i]).0 != (
    #[trigger] all[j]).0 by {
        assert(all[i].0 == names[i] && all[j].0 == names[j]);
    }
}

/// The object with the given members, whose names are distinct.
fn object_of(entries: Vec<(String, Json)>) -> (r: Json)
    requires
        distinct_keys(entries_view(entries@)),
    ensures
        r@ == JsonView::Object(entries_view(entries@)),
{
    proof {
        law_distinct_members_stay(entries_view(entries@));
    }
    Json::object(JsonMap::collect(entries))
}

/// The schema of a property without restrictions.
fn plain(kind: &str, description: &str) -> (r: Json)
    ensures
        r@ == plain_property(kind@, description@),
{
    let entries = vec![
        member("type", Json::text(kind)),
        member("description", Json::text(description)),
    ];
    proof {
        lemma_property_names();
        assert(entries_view(entries@) =~= plain_property(kind@, description@)->Object_0);
    }
    object_of(entries)
}

/// The schema of a property that is one of some names, and has a default.
fn one_of(names: Vec<&'static str>, description: &str, default_name: &str) -> (r: Json)
    ensures
        r@ == name_property(texts(names@), description@, default_name@),
{
    let ghost listed = texts(names@);
    let entries = vec![
        member("type", Json::text("string")),
        member("enum", text_array(names)),
        member("description", Json::text(description)),
        member("default", Json::text(default_name)),
    ];
    proof {
        lemma_property_names();
        assert(entries_view(entries@) =~= name_property(
            listed,
            description@,
            default_name@,
        )->Object_0);
    }
    object_of(entries)
}

impl<P> NotifyTool<P> {
    /// The name of the tool.
    pub fn name(&self) -> (r: &'static str)
        ensures
            r@ == TOOL_NAME@,
    {
        TOOL_NAME
    }

    /// What the tool does.
    pub fn description(&self) -> (r: &'static str)
        ensures
            r@ == TOOL_DESCRIPTION@,
    {
        TOOL_DESCRIPTION
    }

    /// The schema of the arguments.
    pub fn parameters_schema(&self) -> (r: Json)
        ensures
            r@ == schema(),
    {
        let methods = vec!["channel", "pushover", "webhook"];
        let types = vec![
            "text",
            "post",
            "interactive",
            "image",
            "share_chat",
            "share_user",
            "file",
            "audio",
            "media",
            "sticker",
        ];
        let id_types = vec!["chat_id", "open_id", "union_id", "user_id", "email"];
        let required = vec!["method", "message"];
        assert(texts(methods@) =~= method_names());
        assert(texts(types@) =~= message_type_names());
        assert(texts(id_types@) =~= id_type_names());
        assert(texts(required@) =~= required_names());
        let method_entries = vec![
            member("type", Json::text("string")),
            member("enum", text_array(methods)),
            member("description", Json::text(METHOD_DESCRIPTION)),
        ];
        proof {
            lemma_property_names();
            lemma_schema_names();
            assert(entries_view(method_entries@) =~= method_property()->Object_0);
        }
        let property_entries = vec![
            member("method", object_of(method_entries)),
            member("message", plain("string", MESSAGE_DESCRIPTION)),
            member("msg_type", one_of(types, MSG_TYPE_DESCRIPTION, "text")),
            member("title", plain("string", TITLE_DESCRIPTION)),
            member("recipient", plain("string", RECIPIENT_DESCRIPTION)),
            member("receive_id_type", one_of(id_types, RECEIVE_ID_TYPE_DESCRIPTION, "chat_id")),
            member("channel", plain("string", CHANNEL_DESCRIPTION)),
            member("priority", plain("integer", PRIORITY_DESCRIPTION)),
            member("sound", plain("string", SOUND_DESCRIPTION)),
            member("uuid", plain("string", UUID_DESCRIPTION)),
        ];
        assert(entries_view(property_entries@) =~= properties());
        let entries = vec![
            member("type", Json::text("object")),
            member("properties", object_of(property_entries)),
            member("required", text_array(required)),
        ];
        assert(entries_view(entries@) =~= schema()->Object_0);
        object_of(entries)
    }
}

// ---------------------------------------------------------------------------
// Laws
// ---------------------------------------------------------------------------

/// The names that the schema lists are exactly the names of the methods, the
/// message types and the recipient id types, and a request may use each of them.
pub proof fn law_schema_lists_the_names()
    ensures
        forall|m: NotifyMethod| method_names().contains(#[trigger] m.name()),
        forall|t: MessageType| message_type_names().contains(#[trigger] t.wire_name()),
        forall|t: RecipientIdType| id_type_names().contains(#[trigger] t.query_param()),
        forall|i: int|
            0 <= i < method_names().len() ==> NotifyMethod::named(
                #[trigger] method_names()[i],
            ) is Some,
        forall|i: int|
            0 <= i < message_type_names().len() ==> MessageType::named(
                #[trigger] message_type_names()[i],
            ) is Some,
        forall|i: int|
            0 <= i < id_type_names().len() ==> RecipientIdType::named(
                #[trigger] id_type_names()[i],
            ) is Some,
{
    assert forall|m: NotifyMethod| method_names().contains(#[trigger] m.name()) by {
        let i: int = match m {
            NotifyMethod::Channel => 0,
            NotifyMethod::Pushover => 1,
            NotifyMethod::Webhook => 2,
        };
        assert(method_names()[i] == m.name());
    }
    assert forall|t: MessageType| message_type_names().contains(#[trigger] t.wire_name()) by {
        let i: int = match t {
            MessageType::Text => 0,
            MessageType::Post => 1,
            MessageType::Interactive => 2,
            MessageType::Image => 3,
            MessageType::ShareChat => 4,
            MessageType::ShareUser => 5,
            MessageType::File => 6,
            MessageType::Audio => 7,
            MessageType::Media => 8,
            MessageType::Sticker => 9,
        };
        assert(message_type_names()[i] == t.wire_name());
    }
    assert forall|t: RecipientIdType| id_type_names().contains(#[trigger] t.query_param()) by {
        let i: int = match t {
            RecipientIdType::ChatId => 0,
            RecipientIdType::OpenId => 1,
            RecipientIdType::UnionId => 2,
            RecipientIdType::UserId => 3,
            RecipientIdType::Email => 4,
        };
        assert(id_type_names()[i] == t.query_param());
    }
    law_method_names(NotifyMethod::Channel, Seq::empty());
    law_method_names(NotifyMethod::Pushover, Seq::empty());
    law_method_names(NotifyMethod::Webhook, Seq::empty());
    law_message_type_names(MessageType::Text, Seq::empty());
    law_message_type_names(MessageType::Post, Seq::empty());
    law_message_type_names(MessageType::Interactive, Seq::empty());
    law_message_type_names(MessageType::Image, Seq::empty());
    law_message_type_names(MessageType::ShareChat, Seq::empty());
    law_message_type_names(MessageType::ShareUser, Seq::empty());
    law_message_type_names(MessageType::File, Seq::empty());
    law_message_type_names(MessageType::Audio, Seq::empty());
    law_message_type_names(MessageType::Media, Seq::empty());
    law_message_type_names(MessageType::Sticker, Seq::empty());
    law_recipient_id_type_names(RecipientIdType::ChatId, Seq::empty());
    law_recipient_id_type_names(RecipientIdType::OpenId, Seq::empty());
    law_recipient_id_type_names(RecipientIdType::UnionId, Seq::empty());
    law_recipient_id_type_names(RecipientIdType::UserId, Seq::empty());
    law_recipient_id_type_names(RecipientIdType::Email, Seq::empty());
}

/// The names of the arguments.
pub open spec fn argument_names() -> Seq<Seq<char>> {
    seq![
        "method"@,
        "message"@,
        "msg_type"@,
        "title"@,
        "recipient"@,
        "receive_id_type"@,
        "channel"@,
        "priority"@,
        "sound"@,
        "uuid"@,
    ]
}

/// The schema describes the arguments and nothing else, each of them once.
pub proof fn law_schema_describes_the_arguments(key: Seq<char>)
    ensures
        schema().member("properties"@) == Some(JsonView::Object(properties())),
        lookup(properties(), key) is Some <==> argument_names().contains(key),
        distinct_keys(properties()),
{
    lemma_schema_names();
    reveal_strlit("type");
    reveal_strlit("properties");
    assert("type"@.len() == 4 && "properties"@.len() == 10);
    let top = Members::empty().push(("type"@, JsonView::Text("object"@)));
    let with_properties = top.push(("properties"@, JsonView::Object(properties())));
    assert(lookup(Members::empty(), "properties"@) is None);
    lemma_lookup_push(Members::empty(), "type"@, JsonView::Text("object"@), "properties"@);
    lemma_lookup_push(top, "properties"@, JsonView::Object(properties()), "properties"@);
    lemma_lookup_push(
        with_properties,
        "required"@,
        text_list(required_names()),
        "properties"@,
    );
    lemma_keys(properties(), key);
    let names = argument_names();
    let all = properties();
    assert(all.len() == names.len());
    assert forall|i: int| 0 <= i < names.len() implies (#[trigger] all[i]).0 == names[i] by {}
    if lookup(all, key) is Some {
        let i = choose|i: int| 0 <= i < all.len() && (#[trigger] all[i]).0 == key;
        assert(names[i] == key);
    }
    if names.contains(key) {
        let i = choose|i: int| 0 <= i < names.len() && names[i] == key;
        assert(all[i].0 == key);
    }
}

/// A name is found exactly when a member has it.
proof fn lemma_keys(members: Members, key: Seq<char>)
    ensures
        lookup(members, key) is Some <==> exists|i: int|
            0 <= i < members.len() && (#[trigger] members[i]).0 == key,
    decreases members.len(),
{
    if members.len() > 0 {
        let rest = members.drop_first();
        lemma_keys(rest, key);
        if members.first().0 == key {
            assert(members[0].0 == key);
        } else {
            if lookup(rest, key) is Some {
                let i = choose|i: int| 0 <= i < rest.len() && (#[trigger] rest[i]).0 == key;
                assert(members[i + 1].0 == key);
            }
            if exists|i: int| 0 <= i < members.len() && (#[trigger] members[i]).0 == key {
                let i = choose|i: int| 0 <= i < members.len() && (#[trigger] members[i]).0 == key;
                assert(rest[i - 1].0 == key);
            }
        }
    }
}

/// A request that keeps to the schema is accepted, unless its message is blank:
/// its method is listed, its message is a string, and its message type and
/// recipient id type are listed or left out.
pub proof fn law_requests_by_the_schema_are_accepted(args: JsonView)
    requires
        args.text_member("method"@) matches Some(m) && method_names().contains(m),
        args.text_member("message"@) matches Some(m) && !is_blank(m),
        args.text_member("msg_type"@) matches Some(t) ==> message_type_names().contains(t),
        args.text_member("receive_id_type"@) matches Some(t) ==> id_type_names().contains(t),
    ensures
        request_in(args) is Ok,
{
    law_schema_lists_the_names();
    law_trim_removes_the_outer_whitespace(args.text_member("message"@)->0);
    let method = args.text_member("method"@)->0;
    let i = choose|i: int| 0 <= i < method_names().len() && method_names()[i] == method;
    assert(NotifyMethod::named(method_names()[i]) is Some);
    if let Some(t) = args.text_member("msg_type"@) {
        let i = choose|i: int| 0 <= i < message_type_names().len() && message_type_names()[i] == t;
        assert(MessageType::named(message_type_names()[i]) is Some);
    }
    if let Some(t) = args.text_member("receive_id_type"@) {
        let i = choose|i: int| 0 <= i < id_type_names().len() && id_type_names()[i] == t;
        assert(RecipientIdType::named(id_type_names()[i]) is Some);
    }
}

} // verus!
