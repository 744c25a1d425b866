//! Delivery via the Pushover push notification service.

use crate::backend::{agrees, NotifyBackend, Opening, OpeningView, CONNECT_TIMEOUT_SECS};
use crate::env::{credentials_in, parse_credentials};
use crate::error::{ErrorView, NotifyError};
use crate::json::{integer_at, text_at, JsonMap, Members};
use crate::payload::{NotifyPayload, PayloadView};
use crate::reply::{
    integer_member, integer_member_of, is_status, is_success, status_line, status_text,
    success_code,
};
use crate::request::{fields_view, BodyView, HttpBody, HttpRequest, HttpRequestView};
use crate::text::{decimal, decimal_text};
use std::path::PathBuf;
use vstd::prelude::*;

verus! {

/// A path of the file system, which is only carried along.
#[verifier::external_type_specification]
#[verifier::external_body]
pub struct ExPathBuf(std::path::PathBuf);

/// Where Pushover takes messages.
pub const PUSHOVER_API_URL: &'static str = "https://api.pushover.net/1/messages.json";

/// How long a request to Pushover may take, in seconds.
pub const PUSHOVER_TIMEOUT_SECS: u64 = 15;

/// The file of the workspace that holds the Pushover credentials.
pub const ENV_FILE: &'static str = ".env";

/// Push notification via the Pushover API.
#[derive(Debug)]
pub struct PushoverBackend<'a> {
    pub workspace_dir: &'a PathBuf,
}

/// The Pushover priority that the extra fields ask for, if any.
pub open spec fn checked_priority(extra: Members) -> Result<Option<i64>, ErrorView> {
    match integer_at(extra, "priority"@) {
        Some(priority) => if -2 <= priority <= 2 {
            Ok(Some(priority))
        } else {
            Err(ErrorView::PriorityOutOfRange(priority))
        },
        None => Ok(None),
    }
}

/// A form field, or none.
pub open spec fn field(name: Seq<char>, value: Option<Seq<char>>) -> Seq<(Seq<char>, Seq<char>)> {
    match value {
        Some(value) => seq![(name, value)],
        None => Seq::empty(),
    }
}

/// The form that Pushover is sent.
pub open spec fn pushover_form(
    token: Seq<char>,
    user_key: Seq<char>,
    payload: PayloadView,
    priority: Option<i64>,
) -> Seq<(Seq<char>, Seq<char>)> {
    let number = match priority {
        Some(n) => Some(decimal(n as int)),
        None => None,
    };
    field("token"@, Some(token)) + field("user"@, Some(user_key)) + field(
        "message"@,
        Some(payload.message),
    ) + field("title"@, payload.title) + field("priority"@, number) + field(
        "sound"@,
        text_at(payload.extra, "sound"@),
    )
}

/// The request that Pushover is sent, given the text of the `.env` file.
pub open spec fn pushover_request(env: Seq<char>, payload: PayloadView) -> Result<
    HttpRequestView,
    ErrorView,
> {
    match (checked_priority(payload.extra), credentials_in(env)) {
        (Err(e), _) => Err(e),
        (Ok(_), Err(e)) => Err(e),
        (Ok(priority), Ok((token, user_key))) => Ok(
            HttpRequestView {
                service: "tool.pushover"@,
                timeout_secs: PUSHOVER_TIMEOUT_SECS,
                connect_timeout_secs: CONNECT_TIMEOUT_SECS,
                url: PUSHOVER_API_URL@,
                content_type: None,
                body: BodyView::Form(pushover_form(token, user_key, payload, priority)),
            },
        ),
    }
}

/// What a reply of Pushover means, given how its status is shown and the
/// `status` that its body reports.
pub open spec fn pushover_verdict(
    code: u16,
    shown: Seq<char>,
    reported: Option<i64>,
    body: Seq<char>,
) -> Result<Seq<char>, ErrorView> {
    if !success_code(code) {
        Err(ErrorView::PushoverStatus { status: shown, body })
    } else if reported == Some(1i64) {
        Ok("pushover notification sent"@)
    } else {
        Err(ErrorView::PushoverRefused { body })
    }
}

/// Appends a form field.
fn push_field(fields: &mut Vec<(&'static str, String)>, name: &'static str, value: &str)
    ensures
        fields_view(final(fields)@) == fields_view(old(fields)@) + field(name@, Some(value@)),
{
    fields.push((name, value.to_owned()));
    assert(fields_view(fields@) =~= fields_view(old(fields)@) + field(name@, Some(value@)));
}

/// What a reply of Pushover means, given how its status is shown and the
/// `status` that its body reports.
pub fn judge_pushover(code: u16, shown: &str, reported: Option<i64>, body: &str) -> (r: Result<
    String,
    NotifyError,
>)
    ensures
        agrees(r, pushover_verdict(code, shown@, reported, body@)),
{
    if !is_success(code) {
        return Err(
            NotifyError::PushoverStatus { status: shown.to_owned(), body: body.to_owned() },
        );
    }
    match reported {
        Some(1) => Ok("pushover notification sent".to_owned()),
        _ => Err(NotifyError::PushoverRefused { body: body.to_owned() }),
    }
}

impl<'a> PushoverBackend<'a> {
    /// The Pushover token and user key in the text of the `.env` file.
    pub fn get_credentials(&self, content: &str) -> (r: Result<(String, String), NotifyError>)
        ensures
            agrees(r, credentials_in(content@)),
    {
        parse_credentials(content)
    }

    /// The Pushover priority that the extra fields ask for, if any.
    pub fn priority(&self, extra: &JsonMap) -> (r: Result<Option<i64>, NotifyError>)
        ensures
            match r {
                Ok(priority) => checked_priority(extra@) == Ok::<_, ErrorView>(priority),
                Err(e) => checked_priority(extra@) == Err::<Option<i64>, _>(e@),
            },
    {
        match extra.get_i64("priority") {
            Some(priority) => if -2 <= priority && priority <= 2 {
                Ok(Some(priority))
            } else {
                Err(NotifyError::PriorityOutOfRange(priority))
            },
            None => Ok(None),
        }
    }

    /// The request that Pushover is sent, given the text of the `.env` file.
    pub fn request(&self, content: &str, payload: &NotifyPayload) -> (r: Result<
        HttpRequest,
        NotifyError,
    >)
        ensures
            agrees(r, pushover_request(content@, payload@)),
    {
        let priority = match self.priority(&payload.extra) {
            Ok(priority) => priority,
            Err(e) => {
                return Err(e);
            },
        };
        let (token, user_key) = match self.get_credentials(content) {
            Ok(credentials) => credentials,
            Err(e) => {
                return Err(e);
            },
        };
        let mut fields: Vec<(&'static str, String)> = Vec::new();
        assert(fields_view(fields@) =~= Seq::empty());
        push_field(&mut fields, "token", token.as_str());
        push_field(&mut fields, "user", user_key.as_str());
        push_field(&mut fields, "message", payload.message.as_str());
        match &payload.title {
            Some(title) => push_field(&mut fields, "title", title.as_str()),
            None => {},
        }
        match priority {
            Some(priority) => push_field(&mut fields, "priority", decimal_text(priority).as_str()),
            None => {},
        }
        match payload.extra.get_str("sound") {
            Some(sound) => push_field(&mut fields, "sound", sound),
            None => {},
        }
        assert(fields_view(fields@) =~= pushover_form(token@, user_key@, payload@, priority));
        Ok(
            HttpRequest {
                service: "tool.pushover",
                timeout_secs: PUSHOVER_TIMEOUT_SECS,
                connect_timeout_secs: CONNECT_TIMEOUT_SECS,
                url: PUSHOVER_API_URL.to_owned(),
                content_type: None,
                body: HttpBody::Form(fields),
            },
        )
    }

    /// What a reply of Pushover with the status `code` and the text `body` means.
    pub fn outcome(&self, code: u16, body: &str) -> (r: Result<String, NotifyError>)
        requires
            is_status(code),
        ensures
            agrees(
                r,
                pushover_verdict(
                    code,
                    status_text(code),
                    integer_member_of(body@, "status"@),
                    body@,
                ),
            ),
    {
        let shown = status_line(code);
        judge_pushover(code, shown.as_str(), integer_member(body, "status"), body)
    }
}

impl<'a> NotifyBackend<'a> for PushoverBackend<'a> {
    open spec fn label(&self) -> Seq<char> {
        "pushover"@
    }

    /// A bad priority is refused before the credentials are looked up.
    open spec fn opening(&self, payload: PayloadView) -> Result<OpeningView, ErrorView> {
        match checked_priority(payload.extra) {
            Ok(_) => Ok(OpeningView::ReadEnv { dir: *self.workspace_dir, file: ENV_FILE@ }),
            Err(e) => Err(e),
        }
    }

    fn name(&self) -> (r: &str) {
        "pushover"
    }

    fn send(&self, payload: &NotifyPayload) -> (r: Result<Opening<'a>, NotifyError>) {
        match self.priority(&payload.extra) {
            Ok(_) => Ok(Opening::ReadEnv { dir: self.workspace_dir, file: ENV_FILE }),
            Err(e) => Err(e),
        }
    }
}

// ---------------------------------------------------------------------------
// Laws
// ---------------------------------------------------------------------------

/// A priority that Pushover is sent is one of -2 to 2.
pub proof fn law_pushover_priority_is_in_range(env: Seq<char>, payload: PayloadView, i: int)
    ensures
        pushover_request(env, payload) matches Ok(request) ==> request.body matches BodyView::Form(
            fields,
        ) && (0 <= i < fields.len() && fields[i].0 == "priority"@ ==> exists|n: int|
            -2 <= n <= 2 && fields[i].1 == #[trigger] decimal(n)),
{
    reveal_strlit("token");
    reveal_strlit("user");
    reveal_strlit("message");
    reveal_strlit("title");
    reveal_strlit("priority");
    reveal_strlit("sound");
    assert("token"@.len() == 5 && "user"@.len() == 4 && "message"@.len() == 7 && "title"@.len() == 5
        && "priority"@.len() == 8 && "sound"@.len() == 5);
}

/// A priority from -2 to 2 is taken as it is, any other integer is refused, and
/// what is no integer counts as none.
pub proof fn law_priorities(extra: Members)
    ensures
        integer_at(extra, "priority"@) matches Some(n) ==> {
            &&& n == -2 || n == -1 || n == 0 || n == 1 || n == 2 ==> checked_priority(extra) == Ok::<
                _,
                ErrorView,
            >(Some(n))
            &&& n < -2 || n > 2 ==> checked_priority(extra) == Err::<Option<i64>, _>(
                ErrorView::PriorityOutOfRange(n),
            )
        },
        integer_at(extra, "priority"@) is None ==> checked_priority(extra) == Ok::<_, ErrorView>(
            None::<i64>,
        ),
{
}

/// The values of the form fields named `name`, in order.
pub open spec fn values_of(fields: Seq<(Seq<char>, Seq<char>)>, name: Seq<char>) -> Seq<Seq<char>>
    decreases fields.len(),
{
    if fields.len() == 0 {
        Seq::empty()
    } else if fields.last().0 == name {
        values_of(fields.drop_last(), name).push(fields.last().1)
    } else {
        values_of(fields.drop_last(), name)
    }
}

/// An optional value as a list of at most one.
pub open spec fn at_most_one(value: Option<Seq<char>>) -> Seq<Seq<char>> {
    match value {
        Some(value) => seq![value],
        None => Seq::empty(),
    }
}

/// The values of the fields of two forms are those of the one and then of the
/// other.
proof fn lemma_values_of_two(
    a: Seq<(Seq<char>, Seq<char>)>,
    b: Seq<(Seq<char>, Seq<char>)>,
    name: Seq<char>,
)
    ensures
        values_of(a + b, name) == values_of(a, name) + values_of(b, name),
    decreases b.len(),
{
    if b.len() == 0 {
        assert(a + b =~= a);
        assert(values_of(a, name) + values_of(b, name) =~= values_of(a, name));
    } else {
        lemma_values_of_two(a, b.drop_last(), name);
        assert((a + b).drop_last() =~= a + b.drop_last());
        assert((a + b).last() == b.last());
        assert(values_of(a + b, name) =~= values_of(a, name) + values_of(b, name));
    }
}

/// A form field, or none, has its value under its own name and no other.
proof fn lemma_values_of_field(key: Seq<char>, value: Option<Seq<char>>, name: Seq<char>)
    ensures
        values_of(field(key, value), name) == (if key == name {
            at_most_one(value)
        } else {
            Seq::empty()
        }),
{
    if let Some(v) = value {
        let f = field(key, value);
        assert(f.drop_last() =~= Seq::empty());
        assert(values_of(f.drop_last(), name) =~= Seq::empty());
        assert(values_of(f, name) =~= (if key == name {
            seq![v]
        } else {
            Seq::empty()
        }));
    }
}

/// The names of the form fields are distinct.
proof fn lemma_field_names()
    ensures
        "token"@ != "user"@ && "token"@ != "message"@ && "token"@ != "title"@ && "token"@
            != "priority"@ && "token"@ != "sound"@,
        "user"@ != "message"@ && "user"@ != "title"@ && "user"@ != "priority"@ && "user"@
            != "sound"@,
        "message"@ != "title"@ && "message"@ != "priority"@ && "message"@ != "sound"@,
        "title"@ != "priority"@ && "title"@ != "sound"@ && "priority"@ != "sound"@,
{
    reveal_strlit("token");
    reveal_strlit("user");
    reveal_strlit("message");
    reveal_strlit("title");
    reveal_strlit("priority");
    reveal_strlit("sound");
    assert("token"@.len() == 5 && "user"@.len() == 4 && "message"@.len() == 7 && "title"@.len() == 5
        && "priority"@.len() == 8 && "sound"@.len() == 5);
    assert("token"@[1] == 'o' && "title"@[1] == 'i' && "sound"@[0] == 's' && "token"@[0] == 't'
        && "title"@[0] == 't');
}

/// The values of each field of the form.
proof fn lemma_form_values(
    token: Seq<char>,
    user_key: Seq<char>,
    payload: PayloadView,
    priority: Option<i64>,
    name: Seq<char>,
)
    ensures
        values_of(pushover_form(token, user_key, payload, priority), name) == (if name == "token"@ {
            seq![token]
        } else if name == "user"@ {
            seq![user_key]
        } else if name == "message"@ {
            seq![payload.message]
        } else if name == "title"@ {
            at_most_one(payload.title)
        } else if name == "priority"@ {
            match priority {
                Some(n) => seq![decimal(n as int)],
                None => Seq::empty(),
            }
        } else if name == "sound"@ {
            at_most_one(text_at(payload.extra, "sound"@))
        } else {
            Seq::empty()
        }),
{
    lemma_field_names();
    let number = if priority is Some {
        Some(decimal(priority->0 as int))
    } else {
        None
    };
    let sound = text_at(payload.extra, "sound"@);
    let f1 = field("token"@, Some(token));
    let f2 = field("user"@, Some(user_key));
    let f3 = field("message"@, Some(payload.message));
    let f4 = field("title"@, payload.title);
    let f5 = field("priority"@, number);
    let f6 = field("sound"@, sound);
    lemma_values_of_field("token"@, Some(token), name);
    lemma_values_of_field("user"@, Some(user_key), name);
    lemma_values_of_field("message"@, Some(payload.message), name);
    lemma_values_of_field("title"@, payload.title, name);
    lemma_values_of_field("priority"@, number, name);
    lemma_values_of_field("sound"@, sound, name);
    lemma_values_of_two(f1, f2, name);
    lemma_values_of_two(f1 + f2, f3, name);
    lemma_values_of_two(f1 + f2 + f3, f4, name);
    lemma_values_of_two(f1 + f2 + f3 + f4, f5, name);
    lemma_values_of_two(f1 + f2 + f3 + f4 + f5, f6, name);
    let expected = if name == "token"@ {
        seq![token]
    } else if name == "user"@ {
        seq![user_key]
    } else if name == "message"@ {
        seq![payload.message]
    } else if name == "title"@ {
        at_most_one(payload.title)
    } else if name == "priority"@ {
        match priority {
            Some(n) => seq![decimal(n as int)],
            None => Seq::empty(),
        }
    } else if name == "sound"@ {
        at_most_one(sound)
    } else {
        Seq::empty()
    };
    assert(values_of(pushover_form(token, user_key, payload, priority), name) =~= expected);
}

/// The form that Pushover is sent has each field exactly once when there is a
/// value for it, with that value, and not at all when there is none: the
/// credentials of the `.env` file, the message, the title, the priority in decimal
/// notation and the sound. It has no other fields.
pub proof fn law_pushover_form(env: Seq<char>, payload: PayloadView, name: Seq<char>)
    ensures
        pushover_request(env, payload) matches Ok(request) ==> request.body matches BodyView::Form(
            fields,
        ) && {
            &&& credentials_in(env) == Ok::<_, ErrorView>(
                (values_of(fields, "token"@)[0], values_of(fields, "user"@)[0]),
            )
            &&& values_of(fields, "token"@).len() == 1
            &&& values_of(fields, "user"@).len() == 1
            &&& values_of(fields, "message"@) == seq![payload.message]
            &&& payload.title matches Some(title) ==> values_of(fields, "title"@) == seq![title]
            &&& payload.title is None ==> values_of(fields, "title"@).len() == 0
            &&& integer_at(payload.extra, "priority"@) matches Some(n) ==> -2 <= n <= 2
                && values_of(fields, "priority"@) == seq![decimal(n as int)]
            &&& integer_at(payload.extra, "priority"@) is None ==> values_of(
                fields,
                "priority"@,
            ).len() == 0
            &&& text_at(payload.extra, "sound"@) matches Some(sound) ==> values_of(fields, "sound"@)
                == seq![sound]
            &&& text_at(payload.extra, "sound"@) is None ==> values_of(fields, "sound"@).len() == 0
            &&& name != "token"@ && name != "user"@ && name != "message"@ && name != "title"@ && name
                != "priority"@ && name != "sound"@ ==> values_of(fields, name).len() == 0
        },
{
    if let Ok(request) = pushover_request(env, payload) {
        let (token, user_key) = credentials_in(env)->Ok_0;
        let priority = checked_priority(payload.extra)->Ok_0;
        lemma_field_names();
        lemma_form_values(token, user_key, payload, priority, "token"@);
        lemma_form_values(token, user_key, payload, priority, "user"@);
        lemma_form_values(token, user_key, payload, priority, "message"@);
        lemma_form_values(token, user_key, payload, priority, "title"@);
        lemma_form_values(token, user_key, payload, priority, "priority"@);
        lemma_form_values(token, user_key, payload, priority, "sound"@);
        lemma_form_values(token, user_key, payload, priority, name);
    }
}

/// A request to Pushover is made whenever the priority is one that Pushover takes,
/// or left out, and the `.env` file holds both credentials; otherwise the priority
/// is told before the credentials. It always goes to the message address of the
/// service, as a plain form.
pub proof fn law_pushover_requests(env: Seq<char>, payload: PayloadView)
    ensures
        (integer_at(payload.extra, "priority"@) matches Some(n) ==> -2 <= n <= 2) && credentials_in(
            env,
        ) is Ok ==> pushover_request(env, payload) is Ok,
        integer_at(payload.extra, "priority"@) matches Some(n) ==> (n < -2 || n > 2
            ==> pushover_request(env, payload) == Err::<HttpRequestView, _>(
            ErrorView::PriorityOutOfRange(n),
        )),
        (integer_at(payload.extra, "priority"@) matches Some(n) ==> -2 <= n <= 2) ==> (
        credentials_in(env) matches Err(e) ==> pushover_request(env, payload) == Err::<
            HttpRequestView,
            _,
        >(e)),
        pushover_request(env, payload) matches Ok(request) ==> {
            &&& request.url == "https://api.pushover.net/1/messages.json"@
            &&& request.service == "tool.pushover"@
            &&& request.timeout_secs == 15
            &&& request.connect_timeout_secs == 10
            &&& request.content_type is None
        },
{
}

/// A notification counts as sent exactly when Pushover answers with a status of
/// success and reports the status 1; otherwise the answer is told.
pub proof fn law_pushover_replies(
    code: u16,
    shown: Seq<char>,
    reported: Option<i64>,
    body: Seq<char>,
)
    ensures
        200 <= code <= 299 && reported == Some(1i64) ==> pushover_verdict(
            code,
            shown,
            reported,
            body,
        ) == Ok::<_, ErrorView>("pushover notification sent"@),
        200 <= code <= 299 && reported != Some(1i64) ==> pushover_verdict(
            code,
            shown,
            reported,
            body,
        ) == Err::<Seq<char>, _>(ErrorView::PushoverRefused { body }),
        code < 200 || code > 299 ==> pushover_verdict(code, shown, reported, body) == Err::<
            Seq<char>,
            _,
        >(ErrorView::PushoverStatus { status: shown, body }),
{
}

/// Pushover delivery starts with the `.env` file of the workspace, unless the
/// priority is refused.
pub proof fn law_pushover_starts_with_the_env_file<'a>(
    backend: PushoverBackend<'a>,
    payload: PayloadView,
)
    ensures
        (integer_at(payload.extra, "priority"@) matches Some(n) ==> -2 <= n <= 2) ==> (
        backend.opening(payload) matches Ok(OpeningView::ReadEnv { dir, file }) && dir
            == *backend.workspace_dir && file == ".env"@),
        integer_at(payload.extra, "priority"@) matches Some(n) ==> (n < -2 || n > 2
            ==> backend.opening(payload) == Err::<OpeningView, _>(
            ErrorView::PriorityOutOfRange(n),
        )),
        backend.label() == "pushover"@,
{
}

} // verus!
