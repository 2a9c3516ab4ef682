//! The fetch service's decision logic: the lifecycle of one outbound GET.
//!
//! A fetch is issued, receives response headers, and reads the whole body
//! into memory — or fails at a step. The network work itself happens outside
//! the library; the caller drives this state machine with what the transport
//! reported and reads the verdict off the final state. The body of any
//! completed HTTP exchange is returned as success, whatever its status code:
//! discriminating 4xx/5xx responses is a caller responsibility.

use crate::errors::ProxyError;
use crate::registry::Registry;
use vstd::prelude::*;

verus! {

/// Where one fetch stands in its lifecycle.
#[derive(Debug, PartialEq, Eq, Clone)]
pub enum FetchState {
    /// The GET request has been issued; nothing has come back yet.
    Issued,
    /// Response headers arrived with this status code; the body is being read.
    HeadersReceived(u16),
    /// The whole response body was read into memory.
    Complete(Vec<u8>),
    /// The transport failed at some step.
    Failed(ProxyError),
}

/// What the transport reported next for an in-flight fetch.
#[derive(Debug, PartialEq, Eq, Clone)]
pub enum FetchEvent {
    /// The request could not be sent or the connection failed; carries the
    /// transport's description.
    SendFailed(String),
    /// Response headers arrived with this status code.
    HeadersArrived(u16),
    /// The whole response body arrived.
    BodyArrived(Vec<u8>),
    /// The body could not be fully read; carries the transport's description.
    BodyFailed(String),
}

/// The state a fetch moves to when `event` is reported in `state`. An event
/// that does not belong to the state (including anything reported after the
/// fetch finished) changes nothing.
pub open spec fn next_state(state: FetchState, event: FetchEvent) -> FetchState {
    match (state, event) {
        (FetchState::Issued, FetchEvent::SendFailed(m)) => FetchState::Failed(
            ProxyError::FetchError(m),
        ),
        (FetchState::Issued, FetchEvent::HeadersArrived(s)) => FetchState::HeadersReceived(s),
        (FetchState::HeadersReceived(_), FetchEvent::BodyArrived(b)) => FetchState::Complete(b),
        (FetchState::HeadersReceived(_), FetchEvent::BodyFailed(m)) => FetchState::Failed(
            ProxyError::ReadError(m),
        ),
        (s, _) => s,
    }
}

/// Advances a fetch by one reported event.
pub fn fetch_step(state: FetchState, event: FetchEvent) -> (r: FetchState)
    ensures
        r == next_state(state, event),
{
    match (state, event) {
        (FetchState::Issued, FetchEvent::SendFailed(m)) => FetchState::Failed(
            ProxyError::FetchError(m),
        ),
        (FetchState::Issued, FetchEvent::HeadersArrived(s)) => FetchState::HeadersReceived(s),
        (FetchState::HeadersReceived(_), FetchEvent::BodyArrived(b)) => FetchState::Complete(b),
        (FetchState::HeadersReceived(_), FetchEvent::BodyFailed(m)) => FetchState::Failed(
            ProxyError::ReadError(m),
        ),
        (s, _) => s,
    }
}

/// Reads the verdict off a fetch: the full body bytes of a completed one, the
/// failure of a failed one, and nothing while the fetch is still in flight.
pub fn fetch_verdict(state: FetchState) -> (r: Option<Result<Vec<u8>, ProxyError>>)
    ensures
        state matches FetchState::Complete(b) ==> r == Some(Ok::<Vec<u8>, ProxyError>(b)),
        state matches FetchState::Failed(e) ==> r == Some(Err::<Vec<u8>, ProxyError>(e)),
        state is Issued || state is HeadersReceived ==> r is None,
{
    match state {
        FetchState::Complete(b) => Some(Ok(b)),
        FetchState::Failed(e) => Some(Err(e)),
        _ => None,
    }
}

/// The first half of fetching through a proxy path: resolve the path to the
/// URL that was registered for it and issue the fetch. A path that was never
/// registered fails with `NotFound` before any request is issued.
pub fn begin_proxy_fetch(registry: &Registry, proxy_path: &String) -> (r: Result<
    (String, FetchState),
    ProxyError,
>)
    ensures
        registry@.dom().contains(proxy_path@) <==> r is Ok,
        r is Ok ==> r->Ok_0.0@ == registry@[proxy_path@] && r->Ok_0.1 == FetchState::Issued,
        r is Err ==> r->Err_0 == ProxyError::NotFound,
{
    match registry.resolve(proxy_path) {
        Ok(url) => Ok((url, FetchState::Issued)),
        Err(e) => Err(e),
    }
}

/// Law: the response status never decides a fetch. A fetch that received its
/// headers with any status and then its whole body completes with exactly
/// those body bytes; two such fetches differing only in status end alike.
pub proof fn lemma_status_never_decides_fetch(status1: u16, status2: u16, body: Vec<u8>)
    ensures
        next_state(
            next_state(FetchState::Issued, FetchEvent::HeadersArrived(status1)),
            FetchEvent::BodyArrived(body),
        ) == FetchState::Complete(body),
        next_state(
            next_state(FetchState::Issued, FetchEvent::HeadersArrived(status1)),
            FetchEvent::BodyArrived(body),
        ) == next_state(
            next_state(FetchState::Issued, FetchEvent::HeadersArrived(status2)),
            FetchEvent::BodyArrived(body),
        ),
{
}

/// Law: a fetch whose request cannot be sent (unreachable host) fails with
/// the transport's own description as a `FetchError` — never a body-read or
/// missing-path failure, and never anything outside the failure taxonomy.
pub proof fn lemma_unreachable_host_is_fetch_error(msg: String)
    ensures
        next_state(FetchState::Issued, FetchEvent::SendFailed(msg)) == FetchState::Failed(
            ProxyError::FetchError(msg),
        ),
{
}

} // verus!
