//! Delivery via a generic HTTP webhook.

use crate::backend::{agrees, NotifyBackend, Opening, OpeningView, Service, CONNECT_TIMEOUT_SECS};
use crate::error::{ErrorView, NotifyError};
use crate::json::{
    distinct_keys, entries_view, law_distinct_members_stay, lookup, member, Json, JsonMap, JsonView,
    Members,
};
use crate::payload::{NotifyPayload, PayloadView};
use crate::reply::{is_status, is_success, status_line, status_text, success_code};
use crate::request::{BodyView, HttpBody, HttpRequest, HttpRequestView};
use crate::text::{opt_text, starts_with};
use vstd::prelude::*;
use vstd::string::StringExecFns;

verus! {

/// How long a request to a webhook may take, in seconds.
pub const WEBHOOK_TIMEOUT_SECS: u64 = 15;

/// Generic HTTP POST of JSON.
#[derive(Debug)]
pub struct WebhookBackend;

/// The document that a webhook is sent.
pub open spec fn webhook_body(payload: PayloadView) -> JsonView {
    JsonView::Object(
        Members::empty().push(
            ("msg_type"@, JsonView::Text(payload.msg_type.wire_name())),
        ).push(("message"@, JsonView::Text(payload.message))).push(
            (
                "title"@,
                match payload.title {
                    Some(title) => JsonView::Text(title),
                    None => JsonView::Null,
                },
            ),
        ).push(("extra"@, JsonView::Object(payload.extra))),
    )
}

/// The request that a webhook is sent.
pub open spec fn webhook_request(payload: PayloadView) -> Result<HttpRequestView, ErrorView> {
    match payload.recipient {
        None => Err(ErrorView::WebhookRecipientRequired),
        Some(url) => if !"https://"@.is_prefix_of(url) {
            Err(ErrorView::WebhookNotHttps)
        } else {
            Ok(
                HttpRequestView {
                    service: "tool.notify"@,
                    timeout_secs: WEBHOOK_TIMEOUT_SECS,
                    connect_timeout_secs: CONNECT_TIMEOUT_SECS,
                    url,
                    content_type: Some("application/json"@),
                    body: BodyView::Json(webhook_body(payload)),
                },
            )
        },
    }
}

/// What is reported of a webhook that answered with success, given how its
/// status is shown.
pub open spec fn webhook_status(shown: Seq<char>) -> Seq<char> {
    "webhook delivered (HTTP "@ + shown + ")"@
}

/// What is reported of a webhook that answered with success, given how its
/// status is shown.
pub fn describe_webhook_status(shown: &str) -> (r: String)
    ensures
        r@ == webhook_status(shown@),
{
    "webhook delivered (HTTP ".to_owned().concat(shown).concat(")")
}

impl WebhookBackend {
    /// The document that a webhook is sent.
    pub fn body(&self, payload: &NotifyPayload) -> (r: Json)
        ensures
            r@ == webhook_body(payload@),
    {
        let title = match &payload.title {
            Some(title) => Json::text(title.as_str()),
            None => Json::Null,
        };
        let entries = vec![
            member("msg_type", Json::text(payload.msg_type.lark_msg_type())),
            member("message", Json::text(payload.message.as_str())),
            member("title", title),
            member("extra", Json::object(payload.extra.clone())),
        ];
        proof {
            let members = webhook_body(payload@)->Object_0;
            assert(entries_view(entries@) =~= members);
            law_webhook_document(payload@);
            law_distinct_members_stay(members);
        }
        Json::object(JsonMap::collect(entries))
    }

    /// The request that a webhook is sent.
    pub fn request(&self, payload: &NotifyPayload) -> (r: Result<HttpRequest, NotifyError>)
        ensures
            agrees(r, webhook_request(payload@)),
    {
        let url = match &payload.recipient {
            Some(url) => url.clone(),
            None => {
                return Err(NotifyError::WebhookRecipientRequired);
            },
        };
        if !starts_with(url.as_str(), "https://") {
            return Err(NotifyError::WebhookNotHttps);
        }
        Ok(
            HttpRequest {
                service: "tool.notify",
                timeout_secs: WEBHOOK_TIMEOUT_SECS,
                connect_timeout_secs: CONNECT_TIMEOUT_SECS,
                url,
                content_type: Some("application/json"),
                body: HttpBody::Json(self.body(payload)),
            },
        )
    }

    /// What is reported of a webhook that answered with the status `code`;
    /// `None` when the status is no success.
    pub fn success(&self, code: u16) -> (r: Option<String>)
        requires
            is_status(code),
        ensures
            opt_text(r) == (if success_code(code) {
                Some(webhook_status(status_text(code)))
            } else {
                None
            }),
    {
        if is_success(code) {
            let shown = status_line(code);
            Some(describe_webhook_status(shown.as_str()))
        } else {
            None
        }
    }

    /// The error of a webhook that answered with the status `code`, which is no
    /// success, and the text `body`.
    pub fn failure(&self, code: u16, body: String) -> (r: NotifyError)
        requires
            is_status(code),
        ensures
            r@ == (ErrorView::WebhookStatus { status: status_text(code), body: body@ }),
    {
        NotifyError::WebhookStatus { status: status_line(code), body }
    }
}

impl<'a> NotifyBackend<'a> for WebhookBackend {
    open spec fn label(&self) -> Seq<char> {
        "webhook"@
    }

    open spec fn opening(&self, payload: PayloadView) -> Result<OpeningView, ErrorView> {
        match webhook_request(payload) {
            Ok(request) => Ok(OpeningView::Post { service: Service::Webhook, request }),
            Err(e) => Err(e),
        }
    }

    fn name(&self) -> (r: &str) {
        "webhook"
    }

    fn send(&self, payload: &NotifyPayload) -> (r: Result<Opening<'a>, NotifyError>) {
        match self.request(payload) {
            Ok(request) => Ok(Opening::Post { service: Service::Webhook, request }),
            Err(e) => Err(e),
        }
    }
}

// ---------------------------------------------------------------------------
// Laws
// ---------------------------------------------------------------------------

/// The document that a webhook is sent has four members: the message type, the
/// message, the title or null, and the extra fields. No name occurs twice in it.
pub proof fn law_webhook_document(payload: PayloadView)
    ensures
        webhook_body(payload).text_member("msg_type"@) == Some(payload.msg_type.wire_name()),
        webhook_body(payload).text_member("message"@) == Some(payload.message),
        webhook_body(payload).text_member("title"@) == payload.title,
        webhook_body(payload).member("title"@) is Some,
        webhook_body(payload).member("extra"@) == Some(JsonView::Object(payload.extra)),
        webhook_body(payload)->Object_0.len() == 4,
        distinct_keys(webhook_body(payload)->Object_0),
{
    reveal_strlit("msg_type");
    reveal_strlit("message");
    reveal_strlit("title");
    reveal_strlit("extra");
    assert("msg_type"@.len() == 8 && "message"@.len() == 7 && "title"@.len() == 5 && "extra"@.len()
        == 5);
    assert("title"@[0] != "extra"@[0]);
    reveal_with_fuel(lookup, 5);
}

/// A webhook is called whenever the recipient starts with `https://`, at exactly
/// that URL; without a recipient, or with any other, nothing is called.
pub proof fn law_webhooks_are_called_at_their_url(payload: PayloadView)
    ensures
        webhook_request(payload) matches Ok(request) ==> payload.recipient == Some(request.url),
        payload.recipient matches Some(url) ==> (webhook_request(payload) is Ok
            <==> "https://"@.is_prefix_of(url)),
        payload.recipient is None ==> webhook_request(payload) == Err::<HttpRequestView, _>(
            ErrorView::WebhookRecipientRequired,
        ),
        payload.recipient matches Some(url) ==> (!"https://"@.is_prefix_of(url) ==> webhook_request(
            payload,
        ) == Err::<HttpRequestView, _>(ErrorView::WebhookNotHttps)),
{
}

/// The request to a webhook is a JSON document of the message type, the message,
/// the title or null, and the extra fields, each as the payload has it.
pub proof fn law_webhooks_get_the_payload(payload: PayloadView)
    ensures
        webhook_request(payload) matches Ok(request) ==> {
            &&& request.body matches BodyView::Json(JsonView::Object(members)) && {
                &&& members.len() == 4
                &&& distinct_keys(members)
                &&& lookup(members, "msg_type"@) == Some(
                    JsonView::Text(payload.msg_type.wire_name()),
                )
                &&& lookup(members, "message"@) == Some(JsonView::Text(payload.message))
                &&& payload.title matches Some(title) ==> lookup(members, "title"@) == Some(
                    JsonView::Text(title),
                )
                &&& payload.title is None ==> lookup(members, "title"@) == Some(JsonView::Null)
                &&& lookup(members, "extra"@) == Some(JsonView::Object(payload.extra))
            }
            &&& request.service == "tool.notify"@
            &&& request.timeout_secs == 15
            &&& request.connect_timeout_secs == 10
            &&& request.content_type == Some("application/json"@)
        },
{
    reveal_strlit("msg_type");
    reveal_strlit("message");
    reveal_strlit("title");
    reveal_strlit("extra");
    assert("msg_type"@.len() == 8 && "message"@.len() == 7 && "title"@.len() == 5 && "extra"@.len()
        == 5);
    assert("title"@[0] != "extra"@[0]);
    reveal_with_fuel(lookup, 5);
    law_webhook_document(payload);
}

/// A webhook that answered is reported with its status as it is shown.
pub proof fn law_webhook_status_is_told(shown: Seq<char>)
    ensures
        webhook_status(shown) == "webhook delivered (HTTP "@ + shown + ")"@,
{
}

/// Webhook delivery starts with the request to the webhook, whose reply is judged
/// as a webhook's, or with the reason why there is none.
pub proof fn law_webhook_delivery_starts_with_the_request(payload: PayloadView)
    ensures
        webhook_request(payload) matches Ok(sent) ==> (WebhookBackend.opening(payload) matches Ok(
            OpeningView::Post { service, request },
        ) && service == Service::Webhook && request == sent),
        webhook_request(payload) matches Err(e) ==> WebhookBackend.opening(payload) == Err::<
            OpeningView,
            _,
        >(e),
        WebhookBackend.label() == "webhook"@,
{
}

} // verus!
