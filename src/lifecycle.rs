//! The server's lifecycle: bind, serve, shut down gracefully on the first
//! termination signal.
use vstd::prelude::*;
use vstd::string::*;
use crate::errors::WebServerError;

verus! {

/// The failure reported when the serving loop ends without a shutdown signal.
pub const SERVE_ENDED_UNASKED: &'static str = "serving loop ended without a shutdown signal";

/// The two signals that ask the server to stop.
#[derive(Clone, Copy, PartialEq, Eq, Structural, Debug)]
pub enum ShutdownSignal {
    /// An interactive interrupt (Ctrl+C).
    Interrupt,
    /// A termination request.
    Terminate,
}

/// Where the server stands.
#[derive(Clone, Copy, PartialEq, Eq, Structural, Debug)]
pub enum Phase {
    Unbound,
    Listening,
    /// New connections are refused; requests in flight run to completion.
    ShuttingDown(ShutdownSignal),
    Stopped,
    Failed,
}

/// What the server learns from the outside.
pub enum ServerEvent {
    Bound,
    BindFailed(String),
    Signal(ShutdownSignal),
    /// The serving loop ended after draining its connections.
    ServeFinished,
    ServeFailed(String),
}

/// What the server does in response.
pub enum ServerAction {
    /// Start accepting connections.
    Serve,
    /// Stop accepting connections and let requests in flight finish.
    StopAccepting,
    /// Leave successfully.
    Exit,
    /// Leave with a fatal error.
    Fail(WebServerError),
    /// Nothing: the event has no bearing in this phase.
    Ignore,
}

/// The phase after `ev` in `p`.
pub open spec fn next_phase(p: Phase, ev: ServerEvent) -> Phase {
    match (p, ev) {
        (Phase::Unbound, ServerEvent::Bound) => Phase::Listening,
        (Phase::Unbound, ServerEvent::BindFailed(_)) => Phase::Failed,
        (Phase::Listening, ServerEvent::Signal(s)) => Phase::ShuttingDown(s),
        (Phase::Listening, ServerEvent::ServeFinished) => Phase::Failed,
        (Phase::ShuttingDown(_), ServerEvent::ServeFinished) => Phase::Stopped,
        (Phase::Listening, ServerEvent::ServeFailed(_)) => Phase::Failed,
        (Phase::ShuttingDown(_), ServerEvent::ServeFailed(_)) => Phase::Failed,
        _ => p,
    }
}

/// Whether `a` is the action taken on `ev` in `p`.
pub open spec fn action_for(p: Phase, ev: ServerEvent, a: ServerAction) -> bool {
    match (p, ev) {
        (Phase::Unbound, ServerEvent::Bound) => a is Serve,
        (Phase::Unbound, ServerEvent::BindFailed(m)) => a == ServerAction::Fail(
            WebServerError::Listener(m),
        ),
        (Phase::Listening, ServerEvent::Signal(_)) => a is StopAccepting,
        (Phase::Listening, ServerEvent::ServeFinished) => a is Fail && a->Fail_0 is Serve
            && a->Fail_0->Serve_0@ == SERVE_ENDED_UNASKED@,
        (Phase::ShuttingDown(_), ServerEvent::ServeFinished) => a is Exit,
        (Phase::Listening, ServerEvent::ServeFailed(m)) => a == ServerAction::Fail(
            WebServerError::Serve(m),
        ),
        (Phase::ShuttingDown(_), ServerEvent::ServeFailed(m)) => a == ServerAction::Fail(
            WebServerError::Serve(m),
        ),
        _ => a is Ignore,
    }
}

/// Whether the server accepts new connections in `p`.
pub open spec fn accepting(p: Phase) -> bool {
    p is Listening
}

/// Advances the lifecycle by one event.
pub fn step(p: Phase, ev: ServerEvent) -> (r: (Phase, ServerAction))
    ensures
        r.0 == next_phase(p, ev),
        action_for(p, ev, r.1),
{
    match (p, ev) {
        (Phase::Unbound, ServerEvent::Bound) => (Phase::Listening, ServerAction::Serve),
        (Phase::Unbound, ServerEvent::BindFailed(m)) => (
            Phase::Failed,
            ServerAction::Fail(WebServerError::Listener(m)),
        ),
        (Phase::Listening, ServerEvent::Signal(s)) => (
            Phase::ShuttingDown(s),
            ServerAction::StopAccepting,
        ),
        (Phase::Listening, ServerEvent::ServeFinished) => (
            Phase::Failed,
            ServerAction::Fail(WebServerError::Serve(String::from_str(SERVE_ENDED_UNASKED))),
        ),
        (Phase::ShuttingDown(_), ServerEvent::ServeFinished) => (
            Phase::Stopped,
            ServerAction::Exit,
        ),
        (Phase::Listening, ServerEvent::ServeFailed(m)) => (
            Phase::Failed,
            ServerAction::Fail(WebServerError::Serve(m)),
        ),
        (Phase::ShuttingDown(_), ServerEvent::ServeFailed(m)) => (
            Phase::Failed,
            ServerAction::Fail(WebServerError::Serve(m)),
        ),
        (p, _) => (p, ServerAction::Ignore),
    }
}

/// Once a shutdown signal has been taken, no event makes the server accept
/// connections again, and a later signal changes nothing: the first signal
/// wins.
pub proof fn lemma_shutdown_is_final(s: ShutdownSignal, ev: ServerEvent)
    ensures
        !accepting(next_phase(Phase::ShuttingDown(s), ev)),
        ev is Signal ==> next_phase(Phase::ShuttingDown(s), ev) == Phase::ShuttingDown(s)
            && action_for(Phase::ShuttingDown(s), ev, ServerAction::Ignore),
        ev is Signal ==> next_phase(Phase::Listening, ev) == Phase::ShuttingDown(ev->Signal_0),
{
}

/// The server stops successfully only from the shutting-down phase, that is
/// after a shutdown signal, and never accepts connections once stopped or failed.
pub proof fn lemma_stop_follows_serving(p: Phase, ev: ServerEvent)
    ensures
        next_phase(p, ev) == Phase::Stopped ==> p is ShuttingDown || p is Stopped,
        action_for(p, ev, ServerAction::Exit) ==> p is ShuttingDown && ev is ServeFinished,
        (p is Stopped || p is Failed) ==> next_phase(p, ev) == p,
        accepting(next_phase(p, ev)) ==> p is Unbound || p is Listening,
{
}

} // verus!
