//! The lifecycle state machine and the per-actor context.
//!
//! An actor's life is a linear state machine: `Starting -> Started ->
//! Stopping -> Stopped`. Transitions are monotone (never backward), `Stopped`
//! is terminal, and `Stopping` may be revisited by the coordinator's loop
//! when the stopping hook vetoes termination — but the machine never returns
//! to `Started`.

use vstd::prelude::*;

verus! {

/// The lifecycle state of one actor, visited in declaration order.
#[derive(Clone, Copy, Debug, PartialEq, Eq, Structural)]
pub enum ActorState {
    /// The hosting task runs the start hook; no message has been processed.
    Starting,
    /// The processing loop is running.
    Started,
    /// Termination was requested; the stopping hook decides on each
    /// iteration whether the loop may exit.
    Stopping,
    /// The loop has exited and the stopped hook has run. Terminal.
    Stopped,
}

/// Position of a state on the lifecycle line.
pub open spec fn state_rank(s: ActorState) -> nat {
    match s {
        ActorState::Starting => 0,
        ActorState::Started => 1,
        ActorState::Stopping => 2,
        ActorState::Stopped => 3,
    }
}

/// `a` precedes or equals `b` on the lifecycle line.
pub open spec fn state_le(a: ActorState, b: ActorState) -> bool {
    state_rank(a) <= state_rank(b)
}

/// Where a stop request moves the machine: anywhere but `Stopped` it moves
/// to `Stopping`; `Stopped` is terminal, so a late request has no effect.
pub open spec fn stop_transition(s: ActorState) -> ActorState {
    if s is Stopped {
        s
    } else {
        ActorState::Stopping
    }
}

/// Where the coordinator moves the machine once the start hook has returned:
/// from `Starting` to `Started`. A stop requested during the start hook is
/// kept: the machine never falls back from `Stopping`.
pub open spec fn started_transition(s: ActorState) -> ActorState {
    if s is Starting {
        ActorState::Started
    } else {
        s
    }
}

/// Where the coordinator moves the machine once the stopped hook has
/// returned: `Stopped`, whatever came before.
pub open spec fn stopped_transition(s: ActorState) -> ActorState {
    ActorState::Stopped
}

/// Every lifecycle transition is monotone on the lifecycle line, and
/// `Stopped` is a fixed point of all of them: once stopped, always stopped.
pub proof fn lemma_transitions_monotone(s: ActorState)
    ensures
        state_le(s, stop_transition(s)),
        state_le(s, started_transition(s)),
        state_le(s, stopped_transition(s)),
        stop_transition(ActorState::Stopped) == ActorState::Stopped,
        started_transition(ActorState::Stopped) == ActorState::Stopped,
        stopped_transition(ActorState::Stopped) == ActorState::Stopped,
{
}

/// The per-actor context, created once when the actor starts and threaded by
/// exclusive mutable reference into every hook and handler call. It carries
/// the lifecycle state; the stop request is the `Stopping` state itself.
pub struct Context {
    state: ActorState,
}

impl Context {
    /// The current lifecycle state.
    pub closed spec fn state(&self) -> ActorState {
        self.state
    }

    /// A fresh context begins in `Starting`.
    pub fn new() -> (ctx: Context)
        ensures
            ctx.state() == ActorState::Starting,
    {
        Context { state: ActorState::Starting }
    }

    /// Reads the current lifecycle state.
    pub fn current_state(&self) -> (s: ActorState)
        ensures
            s == self.state(),
    {
        self.state
    }

    /// Requests graceful termination. Idempotent: requesting a stop while
    /// already `Stopping` or `Stopped` changes nothing further, and a
    /// stopped actor never leaves `Stopped`.
    pub fn stop(&mut self)
        ensures
            final(self).state() == stop_transition(old(self).state()),
    {
        if self.state != ActorState::Stopped {
            self.state = ActorState::Stopping;
        }
    }

    /// Records that the start hook has returned: `Starting` becomes
    /// `Started`; a stop requested inside the start hook is preserved.
    pub fn mark_started(&mut self)
        ensures
            final(self).state() == started_transition(old(self).state()),
    {
        if self.state == ActorState::Starting {
            self.state = ActorState::Started;
        }
    }

    /// Records that the stopped hook has returned, after the processing
    /// loop exited: the machine reaches its terminal state.
    pub fn mark_stopped(&mut self)
        ensures
            final(self).state() == stopped_transition(old(self).state()),
    {
        self.state = ActorState::Stopped;
    }
}

} // verus!
