//! The arguments of a notification request.

use crate::error::{ErrorView, NotifyError};
use crate::json::{
    distinct_keys, inserted, law_insert_then_lookup, lookup, text_at, Json, JsonMap, JsonView,
    Members,
};
use crate::method::{law_methods_by_word, MessageType, NotifyMethod, RecipientIdType};
use crate::payload::{own_opt, NotifyPayload, PayloadView};
use crate::text::{is_blank, law_trim_removes_the_outer_whitespace, lower, trim, trimmed};
use vstd::prelude::*;

verus! {

// ---------------------------------------------------------------------------
// What a request means
// ---------------------------------------------------------------------------

/// The method that the arguments ask for.
pub open spec fn method_in(args: JsonView) -> Result<NotifyMethod, ErrorView> {
    let name = match args.text_member("method"@) {
        Some(name) => name,
        None => ""@,
    };
    match NotifyMethod::named(name) {
        Some(method) => Ok(method),
        None => Err(ErrorView::UnknownMethod(name)),
    }
}

/// The message: a string that is not blank.
pub open spec fn message_in(args: JsonView) -> Result<Seq<char>, ErrorView> {
    match args.text_member("message"@) {
        Some(message) => if trimmed(message).len() > 0 {
            Ok(message)
        } else {
            Err(ErrorView::EmptyMessage)
        },
        None => Err(ErrorView::EmptyMessage),
    }
}

/// The message type; plain text unless a string says otherwise.
pub open spec fn msg_type_in(args: JsonView) -> Result<MessageType, ErrorView> {
    match args.text_member("msg_type"@) {
        Some(name) => match MessageType::named(name) {
            Some(msg_type) => Ok(msg_type),
            None => Err(ErrorView::UnknownMessageType(name)),
        },
        None => Ok(MessageType::Text),
    }
}

/// The recipient id type; a chat id unless a string says otherwise.
pub open spec fn receive_id_type_in(args: JsonView) -> Result<RecipientIdType, ErrorView> {
    match args.text_member("receive_id_type"@) {
        Some(name) => match RecipientIdType::named(name) {
            Some(id_type) => Ok(id_type),
            None => Err(ErrorView::InvalidReceiveIdType),
        },
        None => Ok(RecipientIdType::ChatId),
    }
}

/// `extra` with the member `key` of the arguments, when that is a string.
pub open spec fn with_text(extra: Members, args: JsonView, key: Seq<char>) -> Members {
    match args.text_member(key) {
        Some(s) => inserted(extra, key, JsonView::Text(s)),
        None => extra,
    }
}

/// `extra` with the member `key` of the arguments, whatever its value is.
pub open spec fn with_any(extra: Members, args: JsonView, key: Seq<char>) -> Members {
    match args.member(key) {
        Some(value) => inserted(extra, key, value),
        None => extra,
    }
}

/// The extra fields: `channel`, `sound` and `uuid` when they are strings, and
/// `priority` whatever it is.
pub open spec fn extra_in(args: JsonView) -> Members {
    with_text(
        with_text(
            with_any(with_text(Members::empty(), args, "channel"@), args, "priority"@),
            args,
            "sound"@,
        ),
        args,
        "uuid"@,
    )
}

/// The method and the payload that the arguments ask for, or the first of their
/// faults: the method's, the message's, the message type's, the recipient id
/// type's.
pub open spec fn request_in(args: JsonView) -> Result<(NotifyMethod, PayloadView), ErrorView> {
    match (method_in(args), message_in(args), msg_type_in(args), receive_id_type_in(args)) {
        (Err(e), _, _, _) => Err(e),
        (_, Err(e), _, _) => Err(e),
        (_, _, Err(e), _) => Err(e),
        (_, _, _, Err(e)) => Err(e),
        (Ok(method), Ok(message), Ok(msg_type), Ok(receive_id_type)) => Ok(
            (
                method,
                PayloadView {
                    message,
                    msg_type,
                    title: args.text_member("title"@),
                    recipient: args.text_member("recipient"@),
                    receive_id_type,
                    extra: extra_in(args),
                },
            ),
        ),
    }
}

// ---------------------------------------------------------------------------
// Reading a request
// ---------------------------------------------------------------------------

/// Sets the member `key` of `extra` to that of the arguments, when that is a string.
fn copy_text(extra: &mut JsonMap, args: &Json, key: &str)
    ensures
        final(extra)@ == with_text(old(extra)@, args@, key@),
{
    match args.get_str(key) {
        Some(s) => extra.insert(key, Json::text(s)),
        None => {},
    }
}

/// Sets the member `key` of `extra` to that of the arguments.
fn copy_any(extra: &mut JsonMap, args: &Json, key: &str)
    ensures
        final(extra)@ == with_any(old(extra)@, args@, key@),
{
    match args.get(key) {
        Some(value) => extra.insert(key, value.clone()),
        None => {},
    }
}

/// The method and the payload that the arguments ask for.
pub fn parse_arguments(args: &Json) -> (r: Result<(NotifyMethod, NotifyPayload), NotifyError>)
    ensures
        match r {
            Ok((method, payload)) => request_in(args@) == Ok::<_, ErrorView>((method, payload@)),
            Err(e) => request_in(args@) == Err::<(NotifyMethod, PayloadView), _>(e@),
        },
{
    let method_str = match args.get_str("method") {
        Some(name) => name,
        None => "",
    };
    let method = match NotifyMethod::parse(method_str) {
        Some(method) => method,
        None => {
            return Err(NotifyError::UnknownMethod(method_str.to_owned()));
        },
    };
    let message = match args.get_str("message") {
        Some(message) => if !trim(message).is_empty() {
            message.to_owned()
        } else {
            return Err(NotifyError::EmptyMessage);
        },
        None => {
            return Err(NotifyError::EmptyMessage);
        },
    };
    let msg_type = match args.get_str("msg_type") {
        Some(name) => match MessageType::parse(name) {
            Some(msg_type) => msg_type,
            None => {
                return Err(NotifyError::UnknownMessageType(name.to_owned()));
            },
        },
        None => MessageType::Text,
    };
    let receive_id_type = match args.get_str("receive_id_type") {
        Some(name) => match RecipientIdType::parse(name) {
            Some(id_type) => id_type,
            None => {
                return Err(NotifyError::InvalidReceiveIdType);
            },
        },
        None => RecipientIdType::ChatId,
    };
    let title = own_opt(args.get_str("title"));
    let recipient = own_opt(args.get_str("recipient"));
    let mut extra = JsonMap::new();
    copy_text(&mut extra, args, "channel");
    copy_any(&mut extra, args, "priority");
    copy_text(&mut extra, args, "sound");
    copy_text(&mut extra, args, "uuid");
    Ok(
        (
            method,
            NotifyPayload { message, msg_type, title, recipient, receive_id_type, extra },
        ),
    )
}

// ---------------------------------------------------------------------------
// Laws
// ---------------------------------------------------------------------------

/// Whether `key` is one of the extra fields that only count as strings.
pub open spec fn is_text_field(key: Seq<char>) -> bool {
    key == "channel"@ || key == "sound"@ || key == "uuid"@
}

/// The extra fields of a request are those of its arguments and no others, each
/// once.
pub proof fn law_extra_fields(args: JsonView, key: Seq<char>)
    ensures
        distinct_keys(extra_in(args)),
        is_text_field(key) ==> lookup(extra_in(args), key) == (match args.text_member(key) {
            Some(s) => Some(JsonView::Text(s)),
            None => None,
        }),
        is_text_field(key) ==> text_at(extra_in(args), key) == args.text_member(key),
        key == "priority"@ ==> lookup(extra_in(args), key) == args.member(key),
        !is_text_field(key) && key != "priority"@ ==> lookup(extra_in(args), key) is None,
{
    reveal_strlit("channel");
    reveal_strlit("priority");
    reveal_strlit("sound");
    reveal_strlit("uuid");
    let e0 = Members::empty();
    let e1 = with_text(e0, args, "channel"@);
    let e2 = with_any(e1, args, "priority"@);
    let e3 = with_text(e2, args, "sound"@);
    assert("channel"@.len() == 7 && "priority"@.len() == 8 && "sound"@.len() == 5 && "uuid"@.len()
        == 4);
    assert(extra_in(args) == with_text(e3, args, "uuid"@));
    assert(distinct_keys(e0));
    assert(lookup(e0, key) is None);
    if let Some(s) = args.text_member("channel"@) {
        law_insert_then_lookup(e0, "channel"@, JsonView::Text(s), key);
    }
    if let Some(value) = args.member("priority"@) {
        law_insert_then_lookup(e1, "priority"@, value, key);
    }
    if let Some(s) = args.text_member("sound"@) {
        law_insert_then_lookup(e2, "sound"@, JsonView::Text(s), key);
    }
    if let Some(s) = args.text_member("uuid"@) {
        law_insert_then_lookup(e3, "uuid"@, JsonView::Text(s), key);
    }
}

/// A request that leaves out its type and its recipient's id type is one for
/// plain text and a chat id.
pub proof fn law_request_defaults(args: JsonView)
    requires
        args.text_member("msg_type"@) is None,
        args.text_member("receive_id_type"@) is None,
    ensures
        request_in(args) matches Ok((_, payload)) ==> payload.msg_type == MessageType::Text
            && payload.receive_id_type == RecipientIdType::ChatId,
{
}

/// No request with a blank message is accepted.
pub proof fn law_accepted_messages_are_not_blank(args: JsonView)
    ensures
        request_in(args) matches Ok((_, payload)) ==> !crate::text::is_blank(payload.message),
{
    if let Some(message) = args.text_member("message"@) {
        crate::text::law_trim_removes_the_outer_whitespace(message);
    }
}

/// A request is taken as it is: whenever it is accepted, its message, its title
/// and its recipient are exactly the string members of its arguments, and its
/// method and its types are the ones that the arguments name.
pub proof fn law_requests_are_taken_as_they_are(args: JsonView)
    ensures
        request_in(args) matches Ok((method, payload)) ==> {
            &&& args.text_member("message"@) == Some(payload.message)
            &&& args.text_member("title"@) == payload.title
            &&& args.text_member("recipient"@) == payload.recipient
            &&& args.text_member("method"@) matches Some(name) && lower(name) == method.name()
            &&& args.text_member("msg_type"@) matches Some(name) ==> MessageType::named(name)
                == Some(payload.msg_type)
            &&& args.text_member("msg_type"@) is None ==> payload.msg_type is Text
            &&& args.text_member("receive_id_type"@) matches Some(name) ==> RecipientIdType::named(
                name,
            ) == Some(payload.receive_id_type)
            &&& args.text_member("receive_id_type"@) is None ==> payload.receive_id_type is ChatId
        },
{
    lemma_no_name_is_empty();
    if let Some(name) = args.text_member("method"@) {
        law_methods_by_word(name);
    }
}

/// The extra fields of an accepted request are those of its arguments, each as it
/// is: `channel`, `sound` and `uuid` when they are strings, `priority` whatever it
/// is, and no others.
pub proof fn law_accepted_extra_fields(args: JsonView, key: Seq<char>)
    ensures
        request_in(args) matches Ok((_, payload)) ==> {
            &&& distinct_keys(payload.extra)
            &&& key == "channel"@ || key == "sound"@ || key == "uuid"@ ==> text_at(
                payload.extra,
                key,
            ) == args.text_member(key) && (lookup(payload.extra, key) is Some
                <==> args.text_member(key) is Some)
            &&& key == "priority"@ ==> lookup(payload.extra, key) == args.member(key)
            &&& key != "channel"@ && key != "sound"@ && key != "uuid"@ && key != "priority"@
                ==> lookup(payload.extra, key) is None
        },
{
    law_extra_fields(args, key);
}

/// A request is accepted exactly when it names a method, holds a message that is
/// more than whitespace, and names no unknown message type or recipient id type.
pub proof fn law_which_requests_are_accepted(args: JsonView)
    ensures
        request_in(args) is Ok <==> {
            &&& args.text_member("method"@) matches Some(name) && NotifyMethod::named(name) is Some
            &&& args.text_member("message"@) matches Some(message) && !is_blank(message)
            &&& args.text_member("msg_type"@) matches Some(name) ==> MessageType::named(name)
                is Some
            &&& args.text_member("receive_id_type"@) matches Some(name) ==> RecipientIdType::named(
                name,
            ) is Some
        },
{
    lemma_no_name_is_empty();
    if let Some(message) = args.text_member("message"@) {
        law_trim_removes_the_outer_whitespace(message);
    }
}

/// A request that is not accepted is told the first of its faults: an unknown or
/// missing method comes before a missing or blank message, that before an unknown
/// message type, and that before an unknown recipient id type. What it named is
/// told as it was written.
pub proof fn law_faults_are_told_in_order(args: JsonView, name: Seq<char>)
    ensures
        args.text_member("method"@) is None ==> request_in(args) == Err::<
            (NotifyMethod, PayloadView),
            _,
        >(ErrorView::UnknownMethod(Seq::empty())),
        args.text_member("method"@) == Some(name) && NotifyMethod::named(name) is None
            ==> request_in(args) == Err::<(NotifyMethod, PayloadView), _>(
            ErrorView::UnknownMethod(name),
        ),
        (args.text_member("method"@) matches Some(m) && NotifyMethod::named(m) is Some) ==> {
            &&& (args.text_member("message"@) matches Some(message) ==> is_blank(message))
                ==> request_in(args) == Err::<(NotifyMethod, PayloadView), _>(
                ErrorView::EmptyMessage,
            )
            &&& (args.text_member("message"@) matches Some(message) && !is_blank(message)) ==> {
                &&& args.text_member("msg_type"@) == Some(name) && MessageType::named(name) is None
                    ==> request_in(args) == Err::<(NotifyMethod, PayloadView), _>(
                    ErrorView::UnknownMessageType(name),
                )
                &&& (args.text_member("msg_type"@) matches Some(t) ==> MessageType::named(t)
                    is Some) && args.text_member("receive_id_type"@) == Some(name)
                    && RecipientIdType::named(name) is None ==> request_in(args) == Err::<
                    (NotifyMethod, PayloadView),
                    _,
                >(ErrorView::InvalidReceiveIdType)
            }
        },
{
    lemma_no_name_is_empty();
    if let Some(message) = args.text_member("message"@) {
        law_trim_removes_the_outer_whitespace(message);
    }
}

/// The empty text names no method.
proof fn lemma_no_name_is_empty()
    ensures
        ""@ == Seq::<char>::empty(),
        NotifyMethod::named(""@) is None,
{
    reveal_strlit("");
    reveal_strlit("channel");
    reveal_strlit("pushover");
    reveal_strlit("webhook");
    assert(""@ =~= Seq::<char>::empty());
    assert(lower(""@).len() == 0);
    assert("channel"@.len() == 7 && "pushover"@.len() == 8 && "webhook"@.len() == 7);
}

} // verus!
