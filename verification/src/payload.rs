//! The unified message envelope, and the result of the tool.

use crate::json::{JsonMap, Members};
use crate::method::{MessageType, RecipientIdType};
use crate::text::opt_text;
use vstd::prelude::*;

verus! {

/// Payload passed to every [`crate::backend::NotifyBackend`].
#[derive(Debug)]
pub struct NotifyPayload {
    /// Main message body. For `Text` this is the plain string; for other types
    /// this is the JSON-serialized content string as required by the platform.
    pub message: String,
    /// Message content type.
    pub msg_type: MessageType,
    /// Optional title / subject line.
    pub title: Option<String>,
    /// Recipient identifier (chat_id, open_id, webhook URL, ...).
    pub recipient: Option<String>,
    /// Recipient ID type (Lark-specific, ignored by other backends).
    pub receive_id_type: RecipientIdType,
    /// Free-form extra fields backends may inspect.
    pub extra: JsonMap,
}

/// A [`NotifyPayload`] as a mathematical value.
pub struct PayloadView {
    pub message: Seq<char>,
    pub msg_type: MessageType,
    pub title: Option<Seq<char>>,
    pub recipient: Option<Seq<char>>,
    pub receive_id_type: RecipientIdType,
    pub extra: Members,
}

impl View for NotifyPayload {
    type V = PayloadView;

    open spec fn view(&self) -> PayloadView {
        PayloadView {
            message: self.message@,
            msg_type: self.msg_type,
            title: opt_text(self.title),
            recipient: opt_text(self.recipient),
            receive_id_type: self.receive_id_type,
            extra: self.extra@,
        }
    }
}

/// A copy of an optional text.
pub fn copy_opt(s: &Option<String>) -> (r: Option<String>)
    ensures
        opt_text(r) == opt_text(*s),
{
    match s {
        Some(s) => Some(s.clone()),
        None => None,
    }
}

/// An owned copy of an optional string slice.
pub fn own_opt(s: Option<&str>) -> (r: Option<String>)
    ensures
        opt_text(r) == (match s {
            Some(s) => Some(s@),
            None => None,
        }),
{
    match s {
        Some(s) => Some(s.to_owned()),
        None => None,
    }
}

impl Clone for NotifyPayload {
    fn clone(&self) -> (r: NotifyPayload)
        ensures
            r@ == self@,
    {
        NotifyPayload {
            message: self.message.clone(),
            msg_type: self.msg_type,
            title: copy_opt(&self.title),
            recipient: copy_opt(&self.recipient),
            receive_id_type: self.receive_id_type,
            extra: self.extra.clone(),
        }
    }
}

/// What the tool answers.
#[derive(Debug)]
pub struct ToolResult {
    pub success: bool,
    pub output: String,
    pub error: Option<String>,
}

/// A [`ToolResult`] as a mathematical value.
pub struct ResultView {
    pub success: bool,
    pub output: Seq<char>,
    pub error: Option<Seq<char>>,
}

impl View for ToolResult {
    type V = ResultView;

    open spec fn view(&self) -> ResultView {
        ResultView { success: self.success, output: self.output@, error: opt_text(self.error) }
    }
}

impl ResultView {
    /// The answer after a delivery.
    pub open spec fn delivered(status: Seq<char>) -> ResultView {
        ResultView { success: true, output: status, error: None }
    }

    /// The answer when nothing was delivered.
    pub open spec fn failed(reason: Seq<char>) -> ResultView {
        ResultView { success: false, output: Seq::empty(), error: Some(reason) }
    }
}

impl ToolResult {
    /// The answer after a delivery.
    pub fn delivered(status: String) -> (r: ToolResult)
        ensures
            r@ == ResultView::delivered(status@),
    {
        ToolResult { success: true, output: status, error: None }
    }

    /// The answer when nothing was delivered.
    pub fn failed(reason: String) -> (r: ToolResult)
        ensures
            r@ == ResultView::failed(reason@),
    {
        ToolResult { success: false, output: String::new(), error: Some(reason) }
    }
}

// ---------------------------------------------------------------------------
// Laws
// ---------------------------------------------------------------------------

/// A payload stands for its fields, each as it is.
pub proof fn law_payload_fields(payload: NotifyPayload)
    ensures
        payload@.message == payload.message@,
        payload@.msg_type == payload.msg_type,
        payload@.receive_id_type == payload.receive_id_type,
        payload@.extra == payload.extra@,
        payload.title matches Some(title) ==> payload@.title == Some(title@),
        payload.title is None ==> payload@.title is None,
        payload.recipient matches Some(recipient) ==> payload@.recipient == Some(recipient@),
        payload.recipient is None ==> payload@.recipient is None,
{
}

/// A delivery is answered with its status and no error, a refusal with its reason
/// and no output.
pub proof fn law_answers(result: ToolResult, text: Seq<char>)
    ensures
        result@ == ResultView::delivered(text) <==> result.success && result.output@ == text
            && result.error is None,
        result@ == ResultView::failed(text) <==> !result.success && result.output@.len() == 0
            && (result.error matches Some(reason) && reason@ == text),
{
    if result.output@.len() == 0 {
        assert(result.output@ =~= Seq::empty());
    }
}

} // verus!
