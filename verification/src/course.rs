//! The course of a request as a whole.
//!
//! What the outside world answers is not known in advance. A [`World`] is any
//! choice of answers; the laws below hold of a request in every world.

use crate::arguments::{law_extra_fields, law_requests_are_taken_as_they_are, request_in};
use crate::backend::channel::channel_delivery;
use crate::backend::pushover::{
    checked_priority, pushover_request, pushover_verdict, ENV_FILE, PUSHOVER_API_URL,
};
use crate::backend::webhook::{law_webhook_document, webhook_request, webhook_status};
use crate::backend::NotifyBackend;
use crate::env::credentials_in;
use crate::error::ErrorView;
use crate::json::{text_at, JsonView};
use crate::method::{
    law_message_type_names, law_method_names, law_recipient_id_type_names, MessageType,
    NotifyMethod, RecipientIdType,
};
use crate::payload::{PayloadView, ResultView};
use crate::reply::{integer_member_of, status_text, success_code};
use crate::request::{BodyView, ChannelRequestView, MessageView};
use crate::tool::{
    body_answered, env_answered, policy_answered, post_answered, record_answered, send_answered,
    EnvView, NotifyTool, Setup, StepView,
};
use vstd::prelude::*;

verus! {

/// The answers of the outside world to one request.
pub struct World {
    /// Whether the security policy allows actions.
    pub allowed: bool,
    /// Whether the security policy records the action.
    pub recorded: bool,
    /// Whether the channel takes the message, or why not.
    pub sent: Result<(), Seq<char>>,
    /// The text of the `.env` file, or its path and why it cannot be read.
    pub env: EnvView,
    /// The status code of the reply, or why there is none.
    pub replied: Result<u16, Seq<char>>,
    /// The text of the reply.
    pub body: Seq<char>,
}

/// The step that follows `step` in `world`.
pub open spec fn next(setup: Setup, world: World, step: StepView) -> StepView {
    match step {
        StepView::AskPolicy { args } => policy_answered(args, world.allowed),
        StepView::RecordAction { args } => record_answered(setup, args, world.recorded),
        StepView::Send { request: _, status } => send_answered(status, world.sent),
        StepView::ReadEnv { dir: _, file: _, payload } => env_answered(payload, world.env),
        StepView::Post { service, request: _ } => post_answered(service, world.replied),
        StepView::ReadBody { service, code } => body_answered(service, code, world.body),
        StepView::Finish(result) => StepView::Finish(result),
    }
}

/// The steps of a request from `step` on, up to the one that finishes it, and at
/// most `bound` of them.
pub open spec fn course(
    setup: Setup,
    world: World,
    step: StepView,
    bound: nat,
) -> Seq<StepView>
    decreases bound,
{
    if bound == 0 {
        Seq::empty()
    } else if step is Finish {
        seq![step]
    } else {
        seq![step] + course(setup, world, next(setup, world, step), (bound - 1) as nat)
    }
}

/// The steps of the request in `args`.
pub open spec fn steps(setup: Setup, args: JsonView, world: World) -> Seq<StepView> {
    course(setup, world, StepView::AskPolicy { args }, 6)
}

/// What becomes of `payload` when it is delivered by `method`: the status that
/// is reported, or why it was not delivered.
pub open spec fn delivered(
    setup: Setup,
    method: NotifyMethod,
    payload: PayloadView,
    world: World,
) -> Result<Seq<char>, ErrorView> {
    match method {
        NotifyMethod::Channel => match (channel_delivery(setup.channels, payload), world.sent) {
            (Err(e), _) => Err(e),
            (Ok(_), Err(cause)) => Err(ErrorView::Transport(cause)),
            (Ok((_, status)), Ok(_)) => Ok(status),
        },
        NotifyMethod::Pushover => match (checked_priority(payload.extra), world.env) {
            (Err(e), _) => Err(e),
            (Ok(_), Err((path, cause))) => Err(ErrorView::EnvUnreadable { path, cause }),
            (Ok(_), Ok(content)) => match (pushover_request(content, payload), world.replied) {
                (Err(e), _) => Err(e),
                (Ok(_), Err(cause)) => Err(ErrorView::Transport(cause)),
                (Ok(_), Ok(code)) => pushover_verdict(
                    code,
                    status_text(code),
                    integer_member_of(world.body, "status"@),
                    world.body,
                ),
            },
        },
        NotifyMethod::Webhook => match (webhook_request(payload), world.replied) {
            (Err(e), _) => Err(e),
            (Ok(_), Err(cause)) => Err(ErrorView::Transport(cause)),
            (Ok(_), Ok(code)) => if success_code(code) {
                Ok(webhook_status(status_text(code)))
            } else {
                Err(ErrorView::WebhookStatus { status: status_text(code), body: world.body })
            },
        },
    }
}

/// The answer to the request in `args`.
pub open spec fn answer(setup: Setup, args: JsonView, world: World) -> ResultView {
    if !world.allowed {
        ResultView::failed(ErrorView::ReadOnly.message())
    } else if !world.recorded {
        ResultView::failed(ErrorView::RateLimited.message())
    } else {
        match request_in(args) {
            Err(e) => ResultView::failed(e.message()),
            Ok((method, payload)) => match delivered(setup, method, payload, world) {
                Ok(status) => ResultView::delivered(status),
                Err(e) => ResultView::failed(e.message()),
            },
        }
    }
}

/// Whether `step` hands a message to somebody.
pub open spec fn hands_over(step: StepView) -> bool {
    step is Send || step is Post
}

/// How many of `steps` hand a message to somebody.
pub open spec fn handed_over(steps: Seq<StepView>) -> nat
    decreases steps.len(),
{
    if steps.len() == 0 {
        0
    } else {
        (if hands_over(steps.first()) {
            1nat
        } else {
            0nat
        }) + handed_over(steps.drop_first())
    }
}

// ---------------------------------------------------------------------------
// Laws
// ---------------------------------------------------------------------------

/// A request comes to its end after at most six steps, with the answer that its
/// arguments, the setup of the tool and the outside world call for.
pub proof fn law_every_request_is_answered(setup: Setup, args: JsonView, world: World)
    ensures
        0 < steps(setup, args, world).len() <= 6,
        steps(setup, args, world).last() == StepView::Finish(answer(setup, args, world)),
{
    reveal_with_fuel(course, 7);
}

/// A request is answered with success and a status, or with an error and no
/// output.
pub proof fn law_answers_are_one_or_the_other(
    setup: Setup,
    args: JsonView,
    world: World,
)
    ensures
        answer(setup, args, world).success == (answer(setup, args, world).error is None),
        answer(setup, args, world).error is Some ==> answer(setup, args, world).output.len() == 0,
{
}

/// Without the permission to act nothing is recorded, read or sent.
pub proof fn law_read_only_does_nothing(setup: Setup, args: JsonView, world: World)
    requires
        !world.allowed,
    ensures
        steps(setup, args, world) == seq![
            StepView::AskPolicy { args },
            StepView::Finish(ResultView::failed(ErrorView::ReadOnly.message())),
        ],
{
    reveal_with_fuel(course, 3);
    assert(steps(setup, args, world) =~= seq![
        StepView::AskPolicy { args },
        StepView::Finish(ResultView::failed(ErrorView::ReadOnly.message())),
    ]);
}

/// Over the rate limit, or with faulty arguments, nothing is read or sent.
pub proof fn law_refused_requests_do_nothing(setup: Setup, args: JsonView, world: World)
    requires
        world.allowed,
        !world.recorded || request_in(args) is Err,
    ensures
        steps(setup, args, world) == seq![
            StepView::AskPolicy { args },
            StepView::RecordAction { args },
            StepView::Finish(answer(setup, args, world)),
        ],
        answer(setup, args, world).error is Some,
{
    reveal_with_fuel(course, 4);
    assert(steps(setup, args, world) =~= seq![
        StepView::AskPolicy { args },
        StepView::RecordAction { args },
        StepView::Finish(answer(setup, args, world)),
    ]);
}

/// A request hands over at most one message, and succeeds only if it does.
pub proof fn law_at_most_one_message(setup: Setup, args: JsonView, world: World)
    ensures
        handed_over(steps(setup, args, world)) <= 1,
        answer(setup, args, world).success ==> handed_over(steps(setup, args, world)) == 1,
{
    let first = StepView::AskPolicy { args };
    lemma_handed_over(setup, world, first, 6);
    let second = next(setup, world, first);
    lemma_handed_over(setup, world, second, 5);
    let third = next(setup, world, second);
    lemma_handed_over(setup, world, third, 4);
    let fourth = next(setup, world, third);
    lemma_handed_over(setup, world, fourth, 3);
    let fifth = next(setup, world, fourth);
    lemma_handed_over(setup, world, fifth, 2);
    lemma_handed_over(setup, world, next(setup, world, fifth), 1);
}

/// Counting goes along the course of a request.
proof fn lemma_handed_over(setup: Setup, world: World, step: StepView, bound: nat)
    requires
        bound > 0,
    ensures
        handed_over(course(setup, world, step, bound)) == (if hands_over(step) {
            1nat
        } else {
            0nat
        }) + (if step is Finish {
            0nat
        } else {
            handed_over(course(setup, world, next(setup, world, step), (bound - 1) as nat))
        }),
{
    let all = course(setup, world, step, bound);
    assert(all.first() == step);
    if step is Finish {
        assert(handed_over(all.drop_first()) == 0);
    } else {
        assert(all.drop_first() =~= course(
            setup,
            world,
            next(setup, world, step),
            (bound - 1) as nat,
        ));
    }
}

/// Nothing is ever posted but over HTTPS.
pub proof fn law_only_https_is_posted(setup: Setup, world: World, step: StepView)
    ensures
        next(setup, world, step) matches StepView::Post { request, .. } ==> "https://"@.is_prefix_of(
            request.url,
        ),
{
    reveal_strlit("https://");
    reveal_strlit("https://api.pushover.net/1/messages.json");
    assert("https://"@ =~= PUSHOVER_API_URL@.subrange(0, 8));
}

/// No file is ever read but `.env` in the directory of the workspace.
pub proof fn law_only_the_env_file_is_read(setup: Setup, world: World, step: StepView)
    ensures
        next(setup, world, step) matches StepView::ReadEnv { dir, file, .. } ==> dir
            == setup.workspace_dir && file == ENV_FILE@ && file == ".env"@,
{
}

/// Every method has a backend of its own, which carries the name of the method.
pub proof fn law_every_method_has_its_backend<P>(
    tool: NotifyTool<P>,
    method: NotifyMethod,
    other: NotifyMethod,
)
    ensures
        tool.backends().contains_key(method),
        tool.backends()[method].label() == method.name(),
        tool.backends()[method].label() == tool.backends()[other].label() ==> method == other,
{
    law_method_names(method, method.name());
    law_method_names(other, other.name());
}

/// A message for Lark or Feishu carries the idempotency key of the request, and
/// none when the request has none.
pub proof fn law_the_idempotency_key_is_sent(setup: Setup, world: World, args: JsonView)
    ensures
        next(setup, world, StepView::RecordAction { args }) matches StepView::Send {
            request: ChannelRequestView::Lark { uuid, .. },
            ..
        } ==> uuid == args.text_member("uuid"@),
{
    law_extra_fields(args, "uuid"@);
}

/// What is handed over is what the request holds: the message and the recipient of
/// the arguments reach the channel or the webhook as they are, and so does the
/// title where there is a place for it.
pub proof fn law_messages_are_handed_over_as_they_are(setup: Setup, world: World, args: JsonView)
    ensures
        next(setup, world, StepView::RecordAction { args }) matches StepView::Send { request, .. }
            ==> match request {
            ChannelRequestView::Lark { recipient, content, .. } => args.text_member("message"@)
                == Some(content) && args.text_member("recipient"@) == Some(recipient),
            ChannelRequestView::Telegram { message, .. } => same_message(message, args),
            ChannelRequestView::Discord { message, .. } => same_message(message, args),
            ChannelRequestView::Slack { message, .. } => same_message(message, args),
            ChannelRequestView::Mattermost { message, .. } => same_message(message, args),
        },
        next(setup, world, StepView::RecordAction { args }) matches StepView::Post { request, .. }
            ==> args.text_member("recipient"@) == Some(request.url) && (request.body
            matches BodyView::Json(document) && document.text_member("message"@)
            == args.text_member("message"@) && document.text_member("title"@) == args.text_member(
            "title"@,
        )),
        next(setup, world, StepView::RecordAction { args }) matches StepView::ReadEnv { payload, .. }
            ==> args.text_member("message"@) == Some(payload.message) && args.text_member("title"@)
            == payload.title && text_at(payload.extra, "sound"@) == args.text_member("sound"@),
{
    law_requests_are_taken_as_they_are(args);
    law_extra_fields(args, "sound"@);
    if let Ok((_, payload)) = request_in(args) {
        law_webhook_document(payload);
    }
}

/// Whether `message` holds the message, the recipient and the title of `args`.
pub open spec fn same_message(message: MessageView, args: JsonView) -> bool {
    &&& args.text_member("message"@) == Some(message.content)
    &&& args.text_member("recipient"@) == Some(message.recipient)
    &&& args.text_member("title"@) == message.subject
}

/// The types of a request reach Lark and Feishu: the ones that its arguments name,
/// or plain text and a chat id where they name none.
pub proof fn law_types_reach_lark(setup: Setup, world: World, args: JsonView)
    ensures
        next(setup, world, StepView::RecordAction { args }) matches StepView::Send {
            request: ChannelRequestView::Lark { id_type, msg_type, .. },
            ..
        } ==> {
            &&& args.text_member("msg_type"@) matches Some(name) ==> MessageType::named(name)
                is Some && MessageType::named(name) == MessageType::named(msg_type)
            &&& args.text_member("msg_type"@) is None ==> msg_type == "text"@
            &&& args.text_member("receive_id_type"@) matches Some(name) ==> RecipientIdType::named(
                name,
            ) is Some && RecipientIdType::named(name) == RecipientIdType::named(id_type)
            &&& args.text_member("receive_id_type"@) is None ==> id_type == "chat_id"@
        },
{
    law_requests_are_taken_as_they_are(args);
    if let Ok((_, payload)) = request_in(args) {
        law_message_type_names(payload.msg_type, Seq::empty());
        law_recipient_id_type_names(payload.receive_id_type, Seq::empty());
    }
}

/// A request whose arguments are in order, and which the policy allows, is refused
/// only for the reasons that its method has: a webhook needs an HTTPS recipient.
/// It then succeeds exactly when the webhook answers with success.
pub proof fn law_webhook_requests_succeed(setup: Setup, args: JsonView, world: World)
    requires
        world.allowed,
        world.recorded,
        request_in(args) matches Ok((method, _)) && method is Webhook,
        args.text_member("recipient"@) matches Some(url) && "https://"@.is_prefix_of(url),
    ensures
        answer(setup, args, world).success <==> (world.replied matches Ok(code) && 200 <= code
            <= 299),
        answer(setup, args, world).success ==> (world.replied matches Ok(code) && answer(
            setup,
            args,
            world,
        ).output == "webhook delivered (HTTP "@ + status_text(code) + ")"@),
{
}

/// A Pushover request that the policy allows, with a priority that Pushover takes
/// or none, succeeds exactly when the `.env` file is read, holds the credentials,
/// and Pushover answers with success and reports the status 1.
pub proof fn law_pushover_requests_succeed(setup: Setup, args: JsonView, world: World)
    requires
        world.allowed,
        world.recorded,
        request_in(args) matches Ok((method, _)) && method is Pushover,
        args.member("priority"@) matches Some(JsonView::Integer(n)) ==> -2 <= n <= 2 || n > i64::MAX
            || n < i64::MIN,
    ensures
        answer(setup, args, world).success <==> (world.env matches Ok(content) && credentials_in(
            content,
        ) is Ok) && (world.replied matches Ok(code) && 200 <= code <= 299) && integer_member_of(
            world.body,
            "status"@,
        ) == Some(1i64),
{
    law_extra_fields(args, "priority"@);
}

/// A channel request that the policy allows and that can be delivered succeeds
/// exactly when the channel takes the message.
pub proof fn law_channel_requests_succeed(setup: Setup, args: JsonView, world: World)
    requires
        world.allowed,
        world.recorded,
        request_in(args) matches Ok((method, payload)) && method is Channel && channel_delivery(
            setup.channels,
            payload,
        ) is Ok,
    ensures
        answer(setup, args, world).success <==> world.sent is Ok,
        world.sent matches Err(cause) ==> answer(setup, args, world).error == Some(cause),
{
}

} // verus!
