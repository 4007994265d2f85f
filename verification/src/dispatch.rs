//! The client's per-request dispatch logic.
//!
//! Each workload entry is one request operation: open a fresh connection,
//! race the exchange against a deadline, and record either the decoded
//! response or the sentinel `0` on any failure. The connection lifecycle is an
//! explicit state machine; the surrounding I/O loop feeds it events and
//! carries out the actions it returns.

use vstd::prelude::*;

verus! {

/// The value recorded for a failed or timed-out request operation.
pub const SENTINEL: u64 = 0;

/// Why a request operation failed; every variant is recorded as the sentinel.
#[derive(Clone, Copy, Debug, PartialEq, Eq, Structural)]
pub enum ExchangeError {
    /// The connection could not be established.
    Connect,
    /// The deadline elapsed before the exchange finished.
    Timeout,
    /// The peer's bytes did not decode to a frame.
    Frame,
    /// Any other transport failure.
    Io,
}

/// Lifecycle of one client connection: it carries exactly one request and
/// at most one response, then it is exhausted.
#[derive(Clone, Copy, Debug, PartialEq, Eq, Structural)]
pub enum ClientState {
    /// The connection is being established.
    Connecting,
    /// The request frame has been sent; at most one response frame is owed.
    AwaitingResponse,
    /// The single exchange is over; nothing more is sent or read.
    Closed,
}

/// What the I/O loop observed on the connection.
#[derive(Clone, Copy, Debug, PartialEq, Eq, Structural)]
pub enum ClientEvent {
    /// The connection is established.
    Connected,
    /// A response frame decoded to this value.
    Response(u64),
    /// The per-request deadline elapsed.
    TimedOut,
    /// Connect refusal, I/O failure or decode failure.
    Failed(ExchangeError),
}

/// What the I/O loop must do next.
#[derive(Clone, Copy, Debug, PartialEq, Eq, Structural)]
pub enum ClientAction {
    /// Encode and write the request frame.
    SendRequest,
    /// The operation is resolved; record this outcome.
    Finish(u64),
    /// Nothing to do; keep waiting.
    Idle,
}

/// One transition of the client connection state machine. Any failure or
/// timeout, in any live state, closes the connection and records the
/// sentinel; a response in a live state closes it and records the value;
/// a closed connection reacts to nothing.
pub open spec fn client_next(s: ClientState, ev: ClientEvent) -> (ClientState, ClientAction) {
    match (s, ev) {
        (ClientState::Connecting, ClientEvent::Connected) => (
            ClientState::AwaitingResponse,
            ClientAction::SendRequest,
        ),
        (ClientState::Connecting, ClientEvent::Response(_)) => (
            ClientState::Closed,
            ClientAction::Finish(SENTINEL),
        ),
        (ClientState::AwaitingResponse, ClientEvent::Connected) => (
            ClientState::AwaitingResponse,
            ClientAction::Idle,
        ),
        (ClientState::AwaitingResponse, ClientEvent::Response(v)) => (
            ClientState::Closed,
            ClientAction::Finish(v),
        ),
        (ClientState::Closed, _) => (ClientState::Closed, ClientAction::Idle),
        (_, ClientEvent::TimedOut) => (ClientState::Closed, ClientAction::Finish(SENTINEL)),
        (_, ClientEvent::Failed(_)) => (ClientState::Closed, ClientAction::Finish(SENTINEL)),
    }
}

/// Step the client connection state machine: the executable transition agrees
/// with `client_next` on every state and event.
pub fn client_step(s: ClientState, ev: ClientEvent) -> (r: (ClientState, ClientAction))
    ensures
        r == client_next(s, ev),
{
    match (s, ev) {
        (ClientState::Connecting, ClientEvent::Connected) => (
            ClientState::AwaitingResponse,
            ClientAction::SendRequest,
        ),
        (ClientState::Connecting, ClientEvent::Response(_)) => (
            ClientState::Closed,
            ClientAction::Finish(SENTINEL),
        ),
        (ClientState::AwaitingResponse, ClientEvent::Connected) => (
            ClientState::AwaitingResponse,
            ClientAction::Idle,
        ),
        (ClientState::AwaitingResponse, ClientEvent::Response(v)) => (
            ClientState::Closed,
            ClientAction::Finish(v),
        ),
        (ClientState::Closed, _) => (ClientState::Closed, ClientAction::Idle),
        (_, ClientEvent::TimedOut) => (ClientState::Closed, ClientAction::Finish(SENTINEL)),
        (_, ClientEvent::Failed(_)) => (ClientState::Closed, ClientAction::Finish(SENTINEL)),
    }
}

/// The outcome recorded for one request operation: the response value when
/// the exchange succeeded, the sentinel otherwise.
pub open spec fn outcome_of(r: Result<u64, ExchangeError>) -> u64 {
    match r {
        Ok(v) => v,
        Err(_) => SENTINEL,
    }
}

/// The ordered outcome list of a whole run: one outcome per exchange result,
/// in the same order.
pub open spec fn outcomes_of(rs: Seq<Result<u64, ExchangeError>>) -> Seq<u64> {
    rs.map_values(|r| outcome_of(r))
}

/// Resolve every exchange result of a run to its recorded outcome, keeping
/// the workload order; failures never abort the run.
pub fn collect_outcomes(results: &Vec<Result<u64, ExchangeError>>) -> (out: Vec<u64>)
    ensures
        out@ == outcomes_of(results@),
{
    let mut out: Vec<u64> = Vec::new();
    let mut k: usize = 0;
    while k < results.len()
        invariant
            k <= results@.len(),
            out@.len() == k,
            forall|i: int| 0 <= i < k ==> out@[i] == outcome_of(#[trigger] results@[i]),
        decreases results@.len() - k,
    {
        let v = match &results[k] {
            Ok(v) => *v,
            Err(_) => SENTINEL,
        };
        out.push(v);
        k = k + 1;
    }
    assert(out@ =~= outcomes_of(results@));
    out
}

/// A run yields exactly one outcome per workload entry, in the original
/// order: with one exchange result per entry, the outcome list has the
/// workload's length and its `i`-th outcome resolves the `i`-th result.
pub proof fn lemma_run_cardinality(requests: Seq<u64>, results: Seq<Result<u64, ExchangeError>>)
    requires
        results.len() == requests.len(),
    ensures
        outcomes_of(results).len() == requests.len(),
        forall|i: int| 0 <= i < requests.len() ==> outcomes_of(results)[i] == outcome_of(
            #[trigger] results[i],
        ),
{
}

} // verus!
