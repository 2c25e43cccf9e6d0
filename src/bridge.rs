//! Turns what a worker produced into what the caller sees, and what the
//! caller sees into the reply sent over the wire.
use vstd::prelude::*;
use vstd::string::StringExecFns;

verus! {

/// The status sent with a successful reply.
pub const STATUS_OK: u16 = 200;

/// The status sent with every failure; the cause is never sent.
pub const STATUS_INTERNAL_ERROR: u16 = 500;

/// What a worker hands back for one envelope.
#[derive(PartialEq, Eq, Debug, Clone)]
pub enum Outcome<T> {
    /// The handler ran and produced a value.
    Done(T),
    /// The handler failed; the detail stays on the worker's side.
    Failed,
}

/// Why a worker's handler could not produce a value. The text is for the
/// worker's own diagnostics and never crosses the boundary.
#[derive(Debug, Clone)]
pub enum HandlerError {
    /// The query engine reported an error.
    Execution(String),
    /// The engine's answer could not be put into wire form.
    Serialization(String),
}

/// How a deferred handle resolves, as the caller sees it.
#[derive(PartialEq, Eq, Debug, Clone)]
pub enum Resolution<T> {
    /// The worker produced this value.
    Success(T),
    /// The worker reported a failure.
    Failure,
    /// The request never reached a worker: the pool refused it.
    TransportFailure,
}

/// A reply ready to be written to the wire.
#[derive(Debug, Clone)]
pub struct Reply {
    pub status: u16,
    pub content_type: Option<String>,
    pub body: String,
}

/// The mathematical form of a [`Reply`].
pub struct ReplyView {
    pub status: u16,
    pub content_type: Option<Seq<char>>,
    pub body: Seq<char>,
}

impl View for Reply {
    type V = ReplyView;

    open spec fn view(&self) -> ReplyView {
        ReplyView {
            status: self.status,
            content_type: match self.content_type {
                Some(c) => Some(c@),
                None => None,
            },
            body: self.body@,
        }
    }
}

/// The content type of a successful reply.
pub open spec fn json_content_type() -> Seq<char> {
    "application/json"@
}

/// The outcome a worker reports for what its handler returned: the value on
/// success, a bare failure on any error.
pub open spec fn outcome_spec<T>(handled: Result<T, HandlerError>) -> Outcome<T> {
    match handled {
        Ok(v) => Outcome::Done(v),
        Err(_) => Outcome::Failed,
    }
}

/// What the caller sees of a worker's outcome.
pub open spec fn resolution_spec<T>(outcome: Outcome<T>) -> Resolution<T> {
    match outcome {
        Outcome::Done(v) => Resolution::Success(v),
        Outcome::Failed => Resolution::Failure,
    }
}

/// The reply for a resolution: the payload with the success status, or an
/// empty failure reply that names no cause.
pub open spec fn reply_spec(resolution: Resolution<Seq<char>>) -> ReplyView {
    match resolution {
        Resolution::Success(text) => ReplyView {
            status: STATUS_OK,
            content_type: Some(json_content_type()),
            body: text,
        },
        _ => ReplyView { status: STATUS_INTERNAL_ERROR, content_type: None, body: Seq::empty() },
    }
}

/// The text of a resolution, as a sequence of characters.
pub open spec fn resolution_view(resolution: Resolution<String>) -> Resolution<Seq<char>> {
    match resolution {
        Resolution::Success(s) => Resolution::Success(s@),
        Resolution::Failure => Resolution::Failure,
        Resolution::TransportFailure => Resolution::TransportFailure,
    }
}

/// Captures what a handler returned as the worker's outcome. An error of
/// either kind becomes a bare failure, so the worker goes on serving.
pub fn outcome_of<T>(handled: Result<T, HandlerError>) -> (r: Outcome<T>)
    ensures
        r == outcome_spec(handled),
{
    match handled {
        Ok(v) => Outcome::Done(v),
        Err(_) => Outcome::Failed,
    }
}

/// Maps a worker's outcome to what the caller's handle resolves with.
pub fn resolution_of<T>(outcome: Outcome<T>) -> (r: Resolution<T>)
    ensures
        r == resolution_spec(outcome),
{
    match outcome {
        Outcome::Done(v) => Resolution::Success(v),
        Outcome::Failed => Resolution::Failure,
    }
}

/// Builds the wire reply for a resolved handle.
pub fn reply_for(resolution: Resolution<String>) -> (r: Reply)
    ensures
        r@ == reply_spec(resolution_view(resolution)),
{
    match resolution {
        Resolution::Success(text) => Reply {
            status: STATUS_OK,
            content_type: Some(String::from_str("application/json")),
            body: text,
        },
        _ => Reply { status: STATUS_INTERNAL_ERROR, content_type: None, body: String::new() },
    }
}

/// A handler that succeeds and whose answer was put into wire form yields a
/// success reply whose body is exactly that wire text.
pub proof fn lemma_success_reply(wire: String)
    ensures
        reply_spec(resolution_view(resolution_spec(outcome_spec::<String>(Ok(wire)))))
            == (ReplyView { status: STATUS_OK, content_type: Some(json_content_type()), body: wire@ }),
{
}

/// A handler that fails yields the failure status with no content type and an
/// empty body, whatever the error said: two different errors give the same
/// reply.
pub proof fn lemma_failure_leaks_nothing(e1: HandlerError, e2: HandlerError)
    ensures
        reply_spec(resolution_view(resolution_spec(outcome_spec::<String>(Err(e1)))))
            == (ReplyView { status: STATUS_INTERNAL_ERROR, content_type: None, body: Seq::empty() }),
        reply_spec(resolution_view(resolution_spec(outcome_spec::<String>(Err(e1)))))
            == reply_spec(resolution_view(resolution_spec(outcome_spec::<String>(Err(e2))))),
{
}

} // verus!
