//! The server's per-connection logic: decode one request, run a CPU-bound
//! counting job off the I/O loop, race it against the configured deadline,
//! and either answer with the elapsed milliseconds or close without a
//! response. The connection lifecycle is an explicit state machine; the
//! surrounding I/O loop feeds it events and carries out the actions.

use vstd::prelude::*;

verus! {

/// Lifecycle of one server connection: exactly one request is read and at
/// most one response is written, then the connection is exhausted.
#[derive(Clone, Copy, Debug, PartialEq, Eq, Structural)]
pub enum ServerState {
    /// Waiting for the single request frame.
    AwaitingRequest,
    /// The job for the decoded request is running; its result is owed.
    Working,
    /// The single exchange is over; nothing more is read or written.
    Closed,
}

/// What the I/O loop observed on the connection or from the worker pool.
#[derive(Clone, Copy, Debug, PartialEq, Eq, Structural)]
pub enum ServerEvent {
    /// The request frame decoded to this value.
    Request(u64),
    /// The job finished; this is its elapsed time in whole milliseconds.
    JobDone(u64),
    /// The per-job deadline elapsed first.
    TimedOut,
    /// I/O failure or decode failure.
    Failed,
}

/// What the I/O loop must do next.
#[derive(Clone, Copy, Debug, PartialEq, Eq, Structural)]
pub enum ServerAction {
    /// Submit the counting job for this request value to the worker pool.
    StartJob(u64),
    /// Encode and write this value as the response, then close.
    Respond(u64),
    /// Close the connection without writing a response.
    Close,
    /// Nothing to do; keep waiting.
    Idle,
}

/// One transition of the server connection state machine. The single request
/// starts the job; the job's completion is answered with its elapsed
/// milliseconds; a timeout or failure, and any out-of-order event, closes the
/// connection without a response; a closed connection reacts to nothing.
pub open spec fn server_next(s: ServerState, ev: ServerEvent) -> (ServerState, ServerAction) {
    match (s, ev) {
        (ServerState::AwaitingRequest, ServerEvent::Request(v)) => (
            ServerState::Working,
            ServerAction::StartJob(v),
        ),
        (ServerState::Working, ServerEvent::JobDone(ms)) => (
            ServerState::Closed,
            ServerAction::Respond(ms),
        ),
        (ServerState::Closed, _) => (ServerState::Closed, ServerAction::Idle),
        (_, _) => (ServerState::Closed, ServerAction::Close),
    }
}

/// Step the server connection state machine: the executable transition agrees
/// with `server_next` on every state and event.
pub fn server_step(s: ServerState, ev: ServerEvent) -> (r: (ServerState, ServerAction))
    ensures
        r == server_next(s, ev),
{
    match (s, ev) {
        (ServerState::AwaitingRequest, ServerEvent::Request(v)) => (
            ServerState::Working,
            ServerAction::StartJob(v),
        ),
        (ServerState::Working, ServerEvent::JobDone(ms)) => (
            ServerState::Closed,
            ServerAction::Respond(ms),
        ),
        (ServerState::Closed, _) => (ServerState::Closed, ServerAction::Idle),
        (_, _) => (ServerState::Closed, ServerAction::Close),
    }
}

/// The CPU-bound job body: count upward from 0 to `req`, doing work
/// proportional to the request value, and return how far it counted.
pub fn count_up(req: u64) -> (r: u64)
    ensures
        r == req,
{
    let mut i: u64 = 0;
    while i < req
        invariant
            i <= req,
        decreases req - i,
    {
        i = i + 1;
    }
    i
}

/// Relies on elapsed::measure_time running the closure once and returning its
/// result together with the wall-clock duration, and on ElapsedDuration::millis
/// for that duration in whole milliseconds. The duration itself depends on the
/// machine and the moment, so only the counted value is pinned down.
#[verifier::external_body]
fn timed_count(req: u64) -> (r: (u64, u64))
    ensures
        r.1 == req,
{
    let (t, counted) = elapsed::measure_time(|| count_up(req));
    (t.millis(), counted)
}

/// Run the counting job for `req` and return its elapsed time in whole
/// milliseconds: the response value the server owes when the job beats the
/// deadline. The elapsed time is wall-clock and varies from run to run; the
/// job itself provably counts all the way to `req`.
pub fn run_job(req: u64) -> (r: u64) {
    let (ms, _) = timed_count(req);
    ms
}

} // verus!
