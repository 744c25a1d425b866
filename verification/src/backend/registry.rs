//! The registry of the backends.

use crate::backend::channel::{generic_delivery, ChannelBackend};
use crate::backend::pushover::{pushover_request, PushoverBackend};
use crate::backend::webhook::{webhook_request, WebhookBackend};
use crate::backend::{NotifyBackend, Opening, OpeningView};
use crate::config::ChannelsConfig;
use crate::error::{ErrorView, NotifyError};
use crate::json::{integer_at, text_at};
use crate::method::NotifyMethod;
use crate::payload::{NotifyPayload, PayloadView};
use vstd::prelude::*;

verus! {

/// One of the backends.
#[derive(Debug)]
pub enum Backend<'a> {
    Channel(ChannelBackend<'a>),
    Pushover(PushoverBackend<'a>),
    Webhook(WebhookBackend),
}

impl<'a> NotifyBackend<'a> for Backend<'a> {
    open spec fn label(&self) -> Seq<char> {
        match self {
            Backend::Channel(backend) => backend.label(),
            Backend::Pushover(backend) => backend.label(),
            Backend::Webhook(backend) => backend.label(),
        }
    }

    open spec fn opening(&self, payload: PayloadView) -> Result<OpeningView, ErrorView> {
        match self {
            Backend::Channel(backend) => backend.opening(payload),
            Backend::Pushover(backend) => backend.opening(payload),
            Backend::Webhook(backend) => backend.opening(payload),
        }
    }

    fn name(&self) -> (r: &str) {
        match self {
            Backend::Channel(backend) => backend.name(),
            Backend::Pushover(backend) => backend.name(),
            Backend::Webhook(backend) => backend.name(),
        }
    }

    fn send(&self, payload: &NotifyPayload) -> (r: Result<Opening<'a>, NotifyError>) {
        match self {
            Backend::Channel(backend) => backend.send(payload),
            Backend::Pushover(backend) => backend.send(payload),
            Backend::Webhook(backend) => backend.send(payload),
        }
    }
}

/// The registered backends, at most one for each method.
#[derive(Debug)]
pub struct Backends<'a> {
    entries: Vec<(NotifyMethod, Backend<'a>)>,
}

impl<'a> View for Backends<'a> {
    type V = Map<NotifyMethod, Backend<'a>>;

    closed spec fn view(&self) -> Map<NotifyMethod, Backend<'a>> {
        Map::new(
            |m: NotifyMethod| exists|i: int| self.holds_at(m, i),
            |m: NotifyMethod| self.entries@[choose|i: int| self.holds_at(m, i)].1,
        )
    }
}

impl<'a> Backends<'a> {
    /// Whether the entry at position `i` is the one for `method`.
    spec fn holds_at(&self, method: NotifyMethod, i: int) -> bool {
        0 <= i < self.entries@.len() && self.entries@[i].0 == method
    }

    /// No method is registered twice.
    #[verifier::type_invariant]
    spec fn well_formed(&self) -> bool {
        forall|i: int, j: int|
            0 <= i < j < self.entries@.len() ==> (#[trigger] self.entries@[i]).0 != (
            #[trigger] self.entries@[j]).0
    }

    /// No backends.
    pub fn new() -> (r: Backends<'a>)
        ensures
            r@ == Map::<NotifyMethod, Backend<'a>>::empty(),
    {
        let r = Backends { entries: Vec::new() };
        assert(r@ =~= Map::<NotifyMethod, Backend<'a>>::empty());
        r
    }

    /// The position of the entry for `method`, or the number of entries.
    fn position(&self, method: NotifyMethod) -> (n: usize)
        ensures
            n <= self.entries@.len(),
            n < self.entries@.len() ==> self.holds_at(method, n as int),
            n == self.entries@.len() ==> forall|i: int| !self.holds_at(method, i),
    {
        let mut n: usize = 0;
        while n < self.entries.len()
            invariant
                n <= self.entries@.len(),
                forall|i: int| 0 <= i < n ==> !self.holds_at(method, i),
            decreases self.entries@.len() - n,
        {
            if self.entries[n].0 == method {
                return n;
            }
            n += 1;
        }
        n
    }

    /// The backend for `method`.
    pub fn get(&self, method: &NotifyMethod) -> (r: Option<&Backend<'a>>)
        ensures
            match r {
                Some(backend) => self@.contains_key(*method) && self@[*method] == *backend,
                None => !self@.contains_key(*method),
            },
    {
        proof {
            use_type_invariant(self);
        }
        let n: usize = self.position(*method);
        if n < self.entries.len() {
            Some(&self.entries[n].1)
        } else {
            None
        }
    }

    /// Whether there is a backend for `method`.
    pub fn contains_key(&self, method: &NotifyMethod) -> (b: bool)
        ensures
            b == self@.contains_key(*method),
    {
        self.get(method).is_some()
    }

    /// These backends, with `backend` for `method`.
    pub fn insert(self, method: NotifyMethod, backend: Backend<'a>) -> (r: Backends<'a>)
        ensures
            r@ == self@.insert(method, backend),
    {
        proof {
            use_type_invariant(&self);
        }
        let ghost before = self;
        let n: usize = self.position(method);
        let mut entries = self.entries;
        if n < entries.len() {
            entries[n] = (method, backend);
        } else {
            entries.push((method, backend));
        }
        proof {
            assert forall|i: int, j: int| 0 <= i < j < entries@.len() implies (
            #[trigger] entries@[i]).0 != (#[trigger] entries@[j]).0 by {
                if j < before.entries@.len() {
                    assert(before.entries@[i].0 != before.entries@[j].0);
                } else {
                    assert(!before.holds_at(method, i));
                }
            }
        }
        let r = Backends { entries };
        assert(r@ =~= before@.insert(method, backend)) by {
            assert(r.holds_at(method, n as int));
            assert forall|m: NotifyMethod, i: int| m != method implies r.holds_at(m, i)
                == before.holds_at(m, i) by {}
            assert forall|m: NotifyMethod| m != method && before@.contains_key(m) implies r@[m]
                == before@[m] by {
                let i = choose|i: int| before.holds_at(m, i);
                let j = choose|j: int| r.holds_at(m, j);
                assert(r.holds_at(m, i));
                assert(before.holds_at(m, j));
            }
        }
        r
    }
}

// ---------------------------------------------------------------------------
// Laws
// ---------------------------------------------------------------------------

/// A channel other than Lark and Feishu is given the message, the title and the
/// recipient; it takes any message type as plain text and leaves the recipient id
/// type and the extra fields alone.
pub proof fn law_plain_channels_ignore_types(
    config: ChannelsConfig,
    name: Seq<char>,
    a: PayloadView,
    b: PayloadView,
)
    requires
        a.message == b.message,
        a.title == b.title,
        a.recipient == b.recipient,
    ensures
        generic_delivery(config, name, a) == generic_delivery(config, name, b),
{
}

/// Pushover is given the message, the title, the priority and the sound; it takes
/// any message type as plain text and leaves the recipient, its id type and the
/// other extra fields alone.
pub proof fn law_pushover_ignores_types(env: Seq<char>, a: PayloadView, b: PayloadView)
    requires
        a.message == b.message,
        a.title == b.title,
        integer_at(a.extra, "priority"@) == integer_at(b.extra, "priority"@),
        text_at(a.extra, "sound"@) == text_at(b.extra, "sound"@),
    ensures
        pushover_request(env, a) == pushover_request(env, b),
{
}

/// A webhook leaves the recipient id type alone.
pub proof fn law_webhook_ignores_the_id_type(a: PayloadView, b: PayloadView)
    requires
        a.message == b.message,
        a.msg_type == b.msg_type,
        a.title == b.title,
        a.recipient == b.recipient,
        a.extra == b.extra,
    ensures
        webhook_request(a) == webhook_request(b),
{
}

/// A registered backend acts as what it is.
pub proof fn law_backends_act_as_themselves<'a>(
    channel: ChannelBackend<'a>,
    pushover: PushoverBackend<'a>,
    webhook: WebhookBackend,
    payload: PayloadView,
)
    ensures
        Backend::Channel(channel).opening(payload) == channel.opening(payload),
        Backend::Pushover(pushover).opening(payload) == pushover.opening(payload),
        Backend::<'a>::Webhook(webhook).opening(payload) == webhook.opening(payload),
        Backend::Channel(channel).label() == "channel"@,
        Backend::Pushover(pushover).label() == "pushover"@,
        Backend::<'a>::Webhook(webhook).label() == "webhook"@,
{
}

} // verus!
