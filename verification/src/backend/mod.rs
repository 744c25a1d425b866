//! The delivery backends.
//!
//! A backend decides what has to be done to deliver a payload, and what the
//! answers mean. Doing it is left to the caller.

pub mod channel;
pub mod pushover;
pub mod registry;
pub mod webhook;

use crate::error::{ErrorView, NotifyError};
use crate::payload::{NotifyPayload, PayloadView};
use crate::request::{ChannelRequest, ChannelRequestView, HttpRequest, HttpRequestView};
use std::path::PathBuf;
use vstd::prelude::*;

verus! {

/// How long connecting to a service may take, in seconds.
pub const CONNECT_TIMEOUT_SECS: u64 = 10;

/// A service that is reached by HTTP.
#[derive(Debug, Clone, Copy, PartialEq, Eq, Structural)]
pub enum Service {
    Pushover,
    Webhook,
}

/// What a backend needs first to deliver a payload.
#[derive(Debug)]
#[allow(inconsistent_fields)]
pub enum Opening<'a> {
    /// Hand a message to a messaging channel; `status` is reported when the
    /// channel takes it.
    Channel { request: ChannelRequest<'a>, status: String },
    /// Read the file `file` in the directory `dir`.
    ReadEnv { dir: &'a PathBuf, file: &'static str },
    /// Send an HTTP request; `service` tells how the reply is to be understood.
    Post { service: Service, request: HttpRequest },
}

/// An [`Opening`] as a mathematical value.
#[allow(inconsistent_fields)]
pub enum OpeningView {
    Channel { request: ChannelRequestView, status: Seq<char> },
    ReadEnv { dir: PathBuf, file: Seq<char> },
    Post { service: Service, request: HttpRequestView },
}

impl<'a> View for Opening<'a> {
    type V = OpeningView;

    open spec fn view(&self) -> OpeningView {
        match *self {
            Opening::Channel { request, status } => OpeningView::Channel {
                request: request@,
                status: status@,
            },
            Opening::ReadEnv { dir, file } => OpeningView::ReadEnv { dir: *dir, file: file@ },
            Opening::Post { service, request } => OpeningView::Post { service, request: request@ },
        }
    }
}

/// Whether `result` holds the value that `expected` tells, or its error.
pub open spec fn agrees<T: View>(
    result: Result<T, NotifyError>,
    expected: Result<T::V, ErrorView>,
) -> bool {
    match result {
        Ok(value) => expected == Ok::<T::V, ErrorView>(value@),
        Err(error) => expected == Err::<T::V, ErrorView>(error@),
    }
}

/// A pluggable notification delivery backend.
pub trait NotifyBackend<'a>: Send + Sync {
    /// The name of the backend.
    spec fn label(&self) -> Seq<char>;

    /// What the backend needs first to deliver `payload`, or why it refuses to.
    spec fn opening(&self, payload: PayloadView) -> Result<OpeningView, ErrorView>;

    /// Human-readable backend name.
    fn name(&self) -> (r: &str)
        ensures
            r@ == self.label(),
    ;

    /// Starts to deliver `payload`.
    fn send(&self, payload: &NotifyPayload) -> (r: Result<Opening<'a>, NotifyError>)
        ensures
            agrees(r, self.opening(payload@)),
    ;
}

// ---------------------------------------------------------------------------
// Laws
// ---------------------------------------------------------------------------

/// A result agrees with what is expected exactly when both hold the same value or
/// the same error.
pub proof fn law_agreement<T: View>(value: T, error: NotifyError, expected: Result<T::V, ErrorView>)
    ensures
        agrees(Ok(value), expected) <==> (expected matches Ok(v) && v == value@),
        agrees::<T>(Err(error), expected) <==> (expected matches Err(e) && e == error@),
{
}

/// An opening stands for its fields, each as it is.
pub proof fn law_opening_fields<'a>(opening: Opening<'a>)
    ensures
        opening matches Opening::Channel { request, status } ==> opening@
            matches OpeningView::Channel { request: r, status: s } && r == request@ && s
            == status@,
        opening matches Opening::ReadEnv { dir, file } ==> opening@ matches OpeningView::ReadEnv {
            dir: d,
            file: f,
        } && d == *dir && f == file@,
        opening matches Opening::Post { service, request } ==> opening@ matches OpeningView::Post {
            service: s,
            request: r,
        } && s == service && r == request@,
{
}

} // verus!
