//! The lifecycle coordinator's loop decisions.
//!
//! One hosting task runs one actor to completion: it invokes the start hook,
//! marks the context `Started`, then loops — consulting the stopping hook
//! while termination is requested, otherwise waiting on the queue pair and
//! dispatching what arrives — and on exit invokes the stopped hook and marks
//! the context `Stopped`. The asynchronous host performs the hooks and the
//! waits; every decision in between is a verified function here or on
//! [`crate::context::Context`] and [`crate::address::Mailbox`].
//!
//! The loop, one iteration at a time:
//! 1. While the state is `Stopping`, the stopping hook is consulted; the
//!    loop exits exactly when it permits.
//! 2. Otherwise one envelope is dequeued ([`crate::address::Mailbox::recv_next`],
//!    strict priority) and dispatched; a `Closed` outcome — abandonment —
//!    exits the loop without asking the stopping hook.

use vstd::prelude::*;

use crate::address::{spec_dequeue_outcome, Dequeued, MailboxModel};
use crate::context::{
    started_transition, stop_transition, stopped_transition, ActorState, Context,
};

verus! {

/// Whether this loop iteration must consult the stopping hook.
pub open spec fn spec_needs_consent(s: ActorState) -> bool {
    s is Stopping
}

/// Whether the loop exits through the stop protocol: termination was
/// requested and the stopping hook permitted it.
pub open spec fn spec_stop_exit(s: ActorState, consent: bool) -> bool {
    s is Stopping && consent
}

impl Context {
    /// Whether this loop iteration must consult the stopping hook: exactly
    /// when termination has been requested and not yet carried out.
    pub fn needs_stop_consent(&self) -> (r: bool)
        ensures
            r == spec_needs_consent(self.state()),
    {
        self.current_state() == ActorState::Stopping
    }

    /// Applies the stopping hook's answer: the loop exits exactly when the
    /// hook permitted. A veto changes nothing — the state stays `Stopping`,
    /// so the hook is consulted again on the next iteration.
    pub fn apply_stop_consent(&mut self, consent: bool) -> (exit: bool)
        requires
            old(self).state() is Stopping,
        ensures
            exit == spec_stop_exit(old(self).state(), consent),
            final(self).state() == old(self).state(),
    {
        consent
    }
}

/// Whether a dequeue outcome ends the processing loop: exactly on closure.
pub fn dequeue_ends_loop<M>(r: &Dequeued<M>) -> (exit: bool)
    ensures
        exit == (*r is Closed),
{
    match r {
        Dequeued::Closed => true,
        _ => false,
    }
}

/// An actor left idle and abandoned stops on its own: with no strong
/// address and both queues drained, the wait on the queue pair reports
/// closure, the loop exits without consulting the stopping hook, and the
/// exit path runs the stopped hook once and leaves the machine in its
/// terminal state — from which no transition departs, so the stopped hook
/// cannot be reached a second time.
pub proof fn lemma_abandoned_idle_actor_stops<M>(mb: MailboxModel<M>, s: ActorState)
    requires
        mb.strong == 0,
        mb.public.len() == 0,
        mb.priority.len() == 0,
    ensures
        spec_dequeue_outcome(mb) is Closed,
        stopped_transition(s) == ActorState::Stopped,
        stop_transition(ActorState::Stopped) == ActorState::Stopped,
        started_transition(ActorState::Stopped) == ActorState::Stopped,
        stopped_transition(ActorState::Stopped) == ActorState::Stopped,
{
}

/// A stopping hook that answers `false` never lets the loop exit through
/// the stop protocol: the state remains `Stopping`, so the hook is
/// consulted again on the very next iteration, and pending envelopes keep
/// being dequeued and dispatched in between.
pub proof fn lemma_stop_veto_keeps_processing<M>(s: ActorState, mb: MailboxModel<M>)
    requires
        s is Stopping,
    ensures
        spec_needs_consent(s),
        !spec_stop_exit(s, false),
        mb.priority.len() > 0 ==> spec_dequeue_outcome(mb) == Dequeued::Priority(mb.priority[0]),
        mb.priority.len() == 0 && mb.public.len() > 0 ==> spec_dequeue_outcome(mb)
            == Dequeued::Public(mb.public[0]),
{
}

} // verus!
