//! The notification tool.
//!
//! The tool decides; its caller acts. [`NotifyTool::execute`] returns the first
//! [`Step`] of a request. The caller does what the step asks for, and hands the
//! answer to the method that the step names, which returns the next step, until
//! a step carries the result.

use crate::arguments::{parse_arguments, request_in};
use crate::backend::channel::{channel_delivery, ChannelBackend};
use crate::backend::pushover::{
    checked_priority, pushover_request, pushover_verdict, PushoverBackend, ENV_FILE,
};
use crate::backend::registry::{Backend, Backends};
use crate::backend::webhook::{webhook_request, webhook_status, WebhookBackend};
use crate::backend::{NotifyBackend, Opening, Service};
use crate::config::{ChannelsConfig, Config};
use crate::error::{ErrorView, NotifyError};
use crate::json::{integer_at, Json, JsonView};
use crate::method::NotifyMethod;
use crate::payload::{NotifyPayload, PayloadView, ResultView, ToolResult};
use crate::reply::{integer_member_of, is_status, status_text, success_code};
use crate::request::{ChannelRequest, ChannelRequestView, HttpRequest, HttpRequestView};
use std::path::PathBuf;
use std::sync::Arc;
use vstd::prelude::*;

verus! {

/// The notification tool, with the security policy of its caller.
pub struct NotifyTool<P> {
    pub config: Arc<Config>,
    pub security: Arc<P>,
    pub workspace_dir: PathBuf,
}

// ---------------------------------------------------------------------------
// Steps
// ---------------------------------------------------------------------------

/// What the tool needs next.
#[derive(Debug)]
#[allow(inconsistent_fields)]
pub enum Step<'a> {
    /// Ask the security policy whether actions are allowed; see
    /// [`NotifyTool::after_policy`].
    AskPolicy { args: Json },
    /// Have the security policy record an action; see
    /// [`NotifyTool::after_record`].
    RecordAction { args: Json },
    /// Hand a message to a channel; see [`NotifyTool::after_send`].
    Send { request: ChannelRequest<'a>, status: String },
    /// Read the file `file` in the directory `dir`; see
    /// [`NotifyTool::after_env`].
    ReadEnv { dir: &'a PathBuf, file: &'static str, payload: NotifyPayload },
    /// Send an HTTP request; see [`NotifyTool::after_post`].
    Post { service: Service, request: HttpRequest },
    /// Read the text of the reply with the status `code`; see
    /// [`NotifyTool::after_body`].
    ReadBody { service: Service, code: u16 },
    /// The request is answered.
    Finish(ToolResult),
}

/// A [`Step`] as a mathematical value.
#[allow(inconsistent_fields)]
pub enum StepView {
    AskPolicy { args: JsonView },
    RecordAction { args: JsonView },
    Send { request: ChannelRequestView, status: Seq<char> },
    ReadEnv { dir: PathBuf, file: Seq<char>, payload: PayloadView },
    Post { service: Service, request: HttpRequestView },
    ReadBody { service: Service, code: u16 },
    Finish(ResultView),
}

impl<'a> View for Step<'a> {
    type V = StepView;

    open spec fn view(&self) -> StepView {
        match *self {
            Step::AskPolicy { args } => StepView::AskPolicy { args: args@ },
            Step::RecordAction { args } => StepView::RecordAction { args: args@ },
            Step::Send { request, status } => StepView::Send { request: request@, status: status@ },
            Step::ReadEnv { dir, file, payload } => StepView::ReadEnv {
                dir: *dir,
                file: file@,
                payload: payload@,
            },
            Step::Post { service, request } => StepView::Post { service, request: request@ },
            Step::ReadBody { service, code } => StepView::ReadBody { service, code },
            Step::Finish(result) => StepView::Finish(result@),
        }
    }
}

/// The last step of a request that was delivered.
pub open spec fn success(status: Seq<char>) -> StepView {
    StepView::Finish(ResultView::delivered(status))
}

/// The last step of a request that was not delivered.
pub open spec fn failure(error: ErrorView) -> StepView {
    StepView::Finish(ResultView::failed(error.message()))
}

/// The step after the security policy said whether actions are allowed.
pub open spec fn policy_answered(args: JsonView, allowed: bool) -> StepView {
    if allowed {
        StepView::RecordAction { args }
    } else {
        failure(ErrorView::ReadOnly)
    }
}

/// What a tool is set up with: the settings of the channels, and the directory
/// of the workspace.
pub struct Setup {
    pub channels: ChannelsConfig,
    pub workspace_dir: PathBuf,
}

/// The first step of the delivery of `payload` by `method`.
pub open spec fn delivery(
    setup: Setup,
    method: NotifyMethod,
    payload: PayloadView,
) -> StepView {
    match method {
        NotifyMethod::Channel => match channel_delivery(setup.channels, payload) {
            Ok((request, status)) => StepView::Send { request, status },
            Err(e) => failure(e),
        },
        NotifyMethod::Pushover => match checked_priority(payload.extra) {
            Ok(_) => StepView::ReadEnv { dir: setup.workspace_dir, file: ENV_FILE@, payload },
            Err(e) => failure(e),
        },
        NotifyMethod::Webhook => match webhook_request(payload) {
            Ok(request) => StepView::Post { service: Service::Webhook, request },
            Err(e) => failure(e),
        },
    }
}

/// The step after the security policy recorded the action, or did not.
pub open spec fn record_answered(setup: Setup, args: JsonView, recorded: bool) -> StepView {
    if !recorded {
        failure(ErrorView::RateLimited)
    } else {
        match request_in(args) {
            Ok((method, payload)) => delivery(setup, method, payload),
            Err(e) => failure(e),
        }
    }
}

/// The step after a channel took the message, or did not.
pub open spec fn send_answered(status: Seq<char>, sent: Result<(), Seq<char>>) -> StepView {
    match sent {
        Ok(_) => success(status),
        Err(cause) => failure(ErrorView::Transport(cause)),
    }
}

/// The text of the `.env` file, or the path that could not be read and the cause.
pub type EnvView = Result<Seq<char>, (Seq<char>, Seq<char>)>;

/// The step after the `.env` file was read, or could not be read.
pub open spec fn env_answered(payload: PayloadView, env: EnvView) -> StepView {
    match env {
        Err((path, cause)) => failure(ErrorView::EnvUnreadable { path, cause }),
        Ok(content) => match pushover_request(content, payload) {
            Ok(request) => StepView::Post { service: Service::Pushover, request },
            Err(e) => failure(e),
        },
    }
}

/// The step after an HTTP request was answered with a status, or failed.
pub open spec fn post_answered(service: Service, replied: Result<u16, Seq<char>>) -> StepView {
    match replied {
        Err(cause) => failure(ErrorView::Transport(cause)),
        Ok(code) => if service == Service::Webhook && success_code(code) {
            success(webhook_status(status_text(code)))
        } else {
            StepView::ReadBody { service, code }
        },
    }
}

/// The step after the text of a reply was read.
pub open spec fn body_answered(service: Service, code: u16, body: Seq<char>) -> StepView {
    match service {
        Service::Pushover => match pushover_verdict(
            code,
            status_text(code),
            integer_member_of(body, "status"@),
            body,
        ) {
            Ok(status) => success(status),
            Err(e) => failure(e),
        },
        Service::Webhook => failure(
            ErrorView::WebhookStatus { status: status_text(code), body },
        ),
    }
}

// ---------------------------------------------------------------------------
// The tool
// ---------------------------------------------------------------------------

/// The last step of a request that was not delivered.
fn refuse<'a>(error: NotifyError) -> (r: Step<'a>)
    ensures
        r@ == failure(error@),
{
    Step::Finish(ToolResult::failed(error.message()))
}

impl<P> NotifyTool<P> {
    /// A tool with the given configuration, security policy and workspace.
    pub fn new(config: Arc<Config>, security: Arc<P>, workspace_dir: PathBuf) -> (r: NotifyTool<P>)
        ensures
            r.config == config,
            r.security == security,
            r.workspace_dir == workspace_dir,
    {
        NotifyTool { config, security, workspace_dir }
    }

    /// What the tool is set up with.
    pub open spec fn setup(&self) -> Setup {
        Setup { channels: self.config.channels_config, workspace_dir: self.workspace_dir }
    }

    /// The registry of this tool: one backend for each method.
    pub open spec fn backends(&self) -> Map<NotifyMethod, Backend<'_>> {
        Map::empty().insert(
            NotifyMethod::Channel,
            Backend::Channel(ChannelBackend { config: &self.config }),
        ).insert(
            NotifyMethod::Pushover,
            Backend::Pushover(PushoverBackend { workspace_dir: &self.workspace_dir }),
        ).insert(NotifyMethod::Webhook, Backend::Webhook(WebhookBackend))
    }

    /// Build the backend registry.
    pub fn build_backends(&self) -> (r: Backends<'_>)
        ensures
            r@ == self.backends(),
    {
        Backends::new().insert(
            NotifyMethod::Channel,
            Backend::Channel(ChannelBackend { config: &self.config }),
        ).insert(
            NotifyMethod::Pushover,
            Backend::Pushover(PushoverBackend { workspace_dir: &self.workspace_dir }),
        ).insert(NotifyMethod::Webhook, Backend::Webhook(WebhookBackend))
    }

    /// Starts to carry out the request in `args`.
    pub fn execute(&self, args: Json) -> (r: Step<'_>)
        ensures
            r@ == (StepView::AskPolicy { args: args@ }),
    {
        Step::AskPolicy { args }
    }

    /// Goes on after the security policy said whether actions are allowed.
    pub fn after_policy(&self, args: Json, allowed: bool) -> (r: Step<'_>)
        ensures
            r@ == policy_answered(args@, allowed),
    {
        if allowed {
            Step::RecordAction { args }
        } else {
            refuse(NotifyError::ReadOnly)
        }
    }

    /// Goes on after the security policy recorded the action, or refused to:
    /// reads the arguments and starts the delivery.
    pub fn after_record(&self, args: Json, recorded: bool) -> (r: Step<'_>)
        ensures
            r@ == record_answered(self.setup(), args@, recorded),
    {
        if !recorded {
            return refuse(NotifyError::RateLimited);
        }
        let (method, payload) = match parse_arguments(&args) {
            Ok(request) => request,
            Err(e) => {
                return refuse(e);
            },
        };
        let backends = self.build_backends();
        let backend = backends.get(&method).unwrap();
        match backend.send(&payload) {
            Ok(Opening::Channel { request, status }) => Step::Send { request, status },
            Ok(Opening::ReadEnv { dir, file }) => Step::ReadEnv { dir, file, payload },
            Ok(Opening::Post { service, request }) => Step::Post { service, request },
            Err(e) => refuse(e),
        }
    }

    /// Goes on after a channel took the message, or failed with the given cause.
    pub fn after_send(&self, status: String, sent: Result<(), String>) -> (r: Step<'_>)
        ensures
            r@ == send_answered(
                status@,
                match sent {
                    Ok(_) => Ok(()),
                    Err(cause) => Err(cause@),
                },
            ),
    {
        match sent {
            Ok(_) => Step::Finish(ToolResult::delivered(status)),
            Err(cause) => refuse(NotifyError::Transport(cause)),
        }
    }

    /// Goes on after the `.env` file was read, or could not be read: then `env`
    /// holds its path and the cause.
    pub fn after_env(&self, payload: NotifyPayload, env: Result<String, (String, String)>) -> (r:
        Step<'_>)
        ensures
            r@ == env_answered(
                payload@,
                match env {
                    Ok(content) => Ok(content@),
                    Err((path, cause)) => Err((path@, cause@)),
                },
            ),
    {
        let content = match env {
            Ok(content) => content,
            Err((path, cause)) => {
                return refuse(NotifyError::EnvUnreadable { path, cause });
            },
        };
        let backend = PushoverBackend { workspace_dir: &self.workspace_dir };
        match backend.request(content.as_str(), &payload) {
            Ok(request) => Step::Post { service: Service::Pushover, request },
            Err(e) => refuse(e),
        }
    }

    /// Goes on after a service answered with a status code, or the request
    /// failed with the given cause.
    pub fn after_post(&self, service: Service, replied: Result<u16, String>) -> (r: Step<'_>)
        requires
            replied matches Ok(code) ==> is_status(code),
        ensures
            r@ == post_answered(
                service,
                match replied {
                    Ok(code) => Ok(code),
                    Err(cause) => Err(cause@),
                },
            ),
    {
        let code = match replied {
            Ok(code) => code,
            Err(cause) => {
                return refuse(NotifyError::Transport(cause));
            },
        };
        match service {
            Service::Pushover => Step::ReadBody { service, code },
            Service::Webhook => match WebhookBackend.success(code) {
                Some(status) => Step::Finish(ToolResult::delivered(status)),
                None => Step::ReadBody { service, code },
            },
        }
    }

    /// Goes on after the text of the reply with the status `code` was read.
    pub fn after_body(&self, service: Service, code: u16, body: String) -> (r: Step<'_>)
        requires
            is_status(code),
        ensures
            r@ == body_answered(service, code, body@),
    {
        match service {
            Service::Pushover => {
                let backend = PushoverBackend { workspace_dir: &self.workspace_dir };
                match backend.outcome(code, body.as_str()) {
                    Ok(status) => Step::Finish(ToolResult::delivered(status)),
                    Err(e) => refuse(e),
                }
            },
            Service::Webhook => refuse(WebhookBackend.failure(code, body)),
        }
    }
}

// ---------------------------------------------------------------------------
// Laws
// ---------------------------------------------------------------------------

/// A step stands for its fields, each as it is.
pub proof fn law_step_fields<'a>(step: Step<'a>)
    ensures
        step matches Step::AskPolicy { args } ==> step@ == (StepView::AskPolicy { args: args@ }),
        step matches Step::RecordAction { args } ==> step@ == (StepView::RecordAction {
            args: args@,
        }),
        step matches Step::Send { request, status } ==> step@ == (StepView::Send {
            request: request@,
            status: status@,
        }),
        step matches Step::ReadEnv { dir, file, payload } ==> step@ == (StepView::ReadEnv {
            dir: *dir,
            file: file@,
            payload: payload@,
        }),
        step matches Step::Post { service, request } ==> step@ == (StepView::Post {
            service,
            request: request@,
        }),
        step matches Step::ReadBody { service, code } ==> step@ == (StepView::ReadBody {
            service,
            code,
        }),
        step matches Step::Finish(result) ==> step@ == StepView::Finish(result@),
{
}

/// The last step of a request answers with the status and no error, or with the
/// reason and no output.
pub proof fn law_last_steps(status: Seq<char>, error: ErrorView)
    ensures
        success(status) matches StepView::Finish(result) && result.success && result.output == status
            && result.error is None,
        failure(error) matches StepView::Finish(result) && !result.success && result.output.len()
            == 0 && result.error == Some(error.message()),
{
}

/// The security policy comes first: a request that is not allowed to act ends, and
/// one that is has its action recorded, with the same arguments.
pub proof fn law_policy_comes_first(args: JsonView, allowed: bool)
    ensures
        allowed ==> policy_answered(args, allowed) == (StepView::RecordAction { args }),
        !allowed ==> (policy_answered(args, allowed) matches StepView::Finish(result)
            && !result.success && result.output.len() == 0 && result.error == Some(
            "Security policy: read-only mode, cannot send notifications"@,
        )),
{
}

/// The rate limit comes before the arguments: an action that is not recorded ends
/// the request, whatever it asks for. One that is recorded is refused when its
/// arguments are faulty.
pub proof fn law_rate_limit_comes_before_the_arguments(
    setup: Setup,
    args: JsonView,
    recorded: bool,
)
    ensures
        !recorded ==> (record_answered(setup, args, recorded) matches StepView::Finish(result)
            && !result.success && result.output.len() == 0 && result.error == Some(
            "Rate limit exceeded"@,
        )),
        recorded ==> (request_in(args) matches Err(e) ==> (record_answered(setup, args, recorded)
            matches StepView::Finish(result) && !result.success && result.output.len() == 0
            && result.error == Some(e.message()))),
{
}

/// An accepted request is delivered by the method that it names: a channel is
/// handed the message, Pushover's credentials are read, a webhook is called.
pub proof fn law_requests_are_delivered_by_their_method(setup: Setup, args: JsonView)
    ensures
        request_in(args) matches Ok((method, payload)) ==> {
            let step = record_answered(setup, args, true);
            &&& method is Channel ==> match channel_delivery(setup.channels, payload) {
                Ok((r, s)) => step matches StepView::Send { request, status } && request == r && status
                    == s,
                Err(e) => step matches StepView::Finish(result) && !result.success && result.error
                    == Some(e.message()) && result.output.len() == 0,
            }
            &&& method is Pushover ==> match integer_at(payload.extra, "priority"@) {
                Some(n) => if n < -2 || n > 2 {
                    step matches StepView::Finish(result) && !result.success && result.error == Some(
                        ErrorView::PriorityOutOfRange(n).message(),
                    ) && result.output.len() == 0
                } else {
                    step == (StepView::ReadEnv {
                        dir: setup.workspace_dir,
                        file: ".env"@,
                        payload,
                    })
                },
                None => step == (StepView::ReadEnv {
                    dir: setup.workspace_dir,
                    file: ".env"@,
                    payload,
                }),
            }
            &&& method is Webhook ==> match webhook_request(payload) {
                Ok(r) => step matches StepView::Post { service, request } && service
                    == Service::Webhook && request == r,
                Err(e) => step matches StepView::Finish(result) && !result.success && result.error
                    == Some(e.message()) && result.output.len() == 0,
            }
        },
{
}

/// What the channel answers is told: its status when it takes the message, and
/// the cause, as it is, when it does not.
pub proof fn law_channels_answer(status: Seq<char>, cause: Seq<char>)
    ensures
        send_answered(status, Ok(())) matches StepView::Finish(result) && result.success
            && result.output == status && result.error is None,
        send_answered(status, Err(cause)) matches StepView::Finish(result) && !result.success
            && result.output.len() == 0 && result.error == Some(cause),
{
}

/// After the `.env` file was read, Pushover is sent the request that the file and
/// the payload make, or the reason why there is none is told.
pub proof fn law_env_file_answers(
    payload: PayloadView,
    content: Seq<char>,
    path: Seq<char>,
    cause: Seq<char>,
)
    ensures
        pushover_request(content, payload) matches Ok(r) ==> env_answered(payload, Ok(content)) == (
        StepView::Post { service: Service::Pushover, request: r }),
        pushover_request(content, payload) matches Err(e) ==> (env_answered(payload, Ok(content))
            matches StepView::Finish(result) && !result.success && result.output.len() == 0
            && result.error == Some(e.message())),
        env_answered(payload, Err((path, cause))) matches StepView::Finish(result)
            && !result.success && result.output.len() == 0 && result.error == Some(
            "Failed to read "@ + path + ": "@ + cause,
        ),
{
}

/// A webhook that answers with success is done; every other reply is read first.
/// A request that fails is told with its cause.
pub proof fn law_services_answer(service: Service, code: u16, cause: Seq<char>)
    ensures
        post_answered(service, Err(cause)) matches StepView::Finish(result) && !result.success
            && result.output.len() == 0 && result.error == Some(cause),
        service is Webhook && 200 <= code <= 299 ==> (post_answered(service, Ok(code))
            matches StepView::Finish(result) && result.success && result.error is None
            && result.output == "webhook delivered (HTTP "@ + status_text(code) + ")"@),
        service is Pushover || code < 200 || code > 299 ==> post_answered(service, Ok(code)) == (
        StepView::ReadBody { service, code }),
{
}

/// Once a reply is read, the request ends: with success exactly when the service
/// is Pushover, the status is one of success and the reply reports the status 1.
/// Otherwise the status and the text of the reply are told.
pub proof fn law_replies_end_requests(service: Service, code: u16, body: Seq<char>)
    ensures
        body_answered(service, code, body) matches StepView::Finish(result) && {
            let accepted = integer_member_of(body, "status"@) == Some(1i64);
            &&& result.success <==> service is Pushover && 200 <= code <= 299 && accepted
            &&& result.success ==> result.output == "pushover notification sent"@ && result.error
                is None
            &&& !result.success ==> result.output.len() == 0
            &&& service is Pushover && 200 <= code <= 299 && !accepted ==> result.error == Some(
                "Pushover application error: "@ + body,
            )
            &&& service is Pushover && (code < 200 || code > 299) ==> result.error == Some(
                "Pushover API returned status "@ + status_text(code) + ": "@ + body,
            )
            &&& service is Webhook ==> result.error == Some(
                "webhook returned HTTP "@ + status_text(code) + ": "@ + body,
            )
        },
{
}

/// A tool works with what it was made with: its backends read its configuration
/// and its workspace, and there is one for each method.
pub proof fn law_tool_works_with_what_it_has<P>(tool: NotifyTool<P>)
    ensures
        tool.setup().channels == tool.config.channels_config,
        tool.setup().workspace_dir == tool.workspace_dir,
        tool.backends().contains_key(NotifyMethod::Channel),
        tool.backends().contains_key(NotifyMethod::Pushover),
        tool.backends().contains_key(NotifyMethod::Webhook),
        tool.backends()[NotifyMethod::Channel] matches Backend::Channel(backend) && *backend.config
            == *tool.config,
        tool.backends()[NotifyMethod::Pushover] matches Backend::Pushover(backend)
            && *backend.workspace_dir == tool.workspace_dir,
        tool.backends()[NotifyMethod::Webhook] is Webhook,
{
}

} // verus!
