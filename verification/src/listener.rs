//! The event subscription loop as a state machine. Every relevant event is a
//! plain trigger: its payload is never read, the report is derived afresh.

use vstd::prelude::*;

verus! {

/// Where the subscription loop stands.
#[derive(Clone, Copy, Debug, PartialEq, Eq, Structural)]
pub enum ListenerState {
    /// Constructed; no handler registered yet.
    Idle,
    /// Handlers registered; waiting on the event stream.
    Listening,
    /// The subscription broke. There is no way back.
    Stopped,
}

/// What can happen to the loop.
#[derive(Clone, Copy, Debug, PartialEq, Eq, Structural)]
pub enum Signal {
    /// The caller starts the loop.
    Start,
    /// Another window became the active one.
    ActiveWindowChanged,
    /// A window was closed.
    WindowClosed,
    /// Another workspace became the active one.
    WorkspaceChanged,
    /// A window moved to another workspace.
    WindowMoved,
    /// The event stream failed for good.
    TransportFailed,
}

/// What the caller does in response.
#[derive(Clone, Copy, Debug, PartialEq, Eq, Structural)]
pub enum Reaction {
    /// Register the handlers and wait on the event stream.
    Subscribe,
    /// Fetch the snapshots again and write one line.
    Emit,
    /// Give up and report the failure.
    Terminate,
    /// Nothing.
    Ignore,
}

/// Whether `signal` belongs to one of the four event classes that cause a
/// new report.
pub open spec fn is_trigger(signal: Signal) -> bool {
    signal == Signal::ActiveWindowChanged || signal == Signal::WindowClosed || signal
        == Signal::WorkspaceChanged || signal == Signal::WindowMoved
}

/// The response to `signal` in `state`.
pub open spec fn reaction(state: ListenerState, signal: Signal) -> Reaction {
    if state == ListenerState::Idle && signal == Signal::Start {
        Reaction::Subscribe
    } else if state == ListenerState::Listening && is_trigger(signal) {
        Reaction::Emit
    } else if state == ListenerState::Listening && signal == Signal::TransportFailed {
        Reaction::Terminate
    } else {
        Reaction::Ignore
    }
}

/// The state after `signal` in `state`.
pub open spec fn next_state(state: ListenerState, signal: Signal) -> ListenerState {
    match reaction(state, signal) {
        Reaction::Subscribe => ListenerState::Listening,
        Reaction::Terminate => ListenerState::Stopped,
        _ => state,
    }
}

/// Takes one signal: the state to go on with, and what to do now.
pub fn step(state: ListenerState, signal: Signal) -> (r: (ListenerState, Reaction))
    ensures
        r.0 == next_state(state, signal),
        r.1 == reaction(state, signal),
{
    match (state, signal) {
        (ListenerState::Idle, Signal::Start) => (ListenerState::Listening, Reaction::Subscribe),
        (ListenerState::Listening, Signal::TransportFailed) => (
            ListenerState::Stopped,
            Reaction::Terminate,
        ),
        (ListenerState::Listening, Signal::Start) => (state, Reaction::Ignore),
        (ListenerState::Listening, _) => (state, Reaction::Emit),
        _ => (state, Reaction::Ignore),
    }
}

} // verus!
