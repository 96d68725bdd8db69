//! Addresses, the dual-queue mailbox, and reference counting.
//!
//! Every actor owns two queues: a *public* queue (bounded, fed by strong
//! addresses) and a *priority* queue (unbounded, fed by the actor's own
//! private address and the actors it supervises). Strong addresses are
//! reference counted; the actor is eligible to stop by abandonment exactly
//! when no strong address remains and the public queue is drained. Weak and
//! priority addresses never count toward liveness.
//!
//! [`Mailbox`] is the verified state of one actor's queue pair together with
//! the strong-address count and the liveness of the receiving side. The
//! asynchronous host owns the real channels and keeps them in step with this
//! state; every observable outcome (delivery failure, dequeue choice,
//! upgrade success) is decided here.

use vstd::prelude::*;

verus! {

/// A message type declares the result type its handler returns.
pub trait Message where Self: Send {
    /// The result the actor responds with.
    type Result: Send;
}

/// Failure of a request/response send.
#[derive(Clone, Copy, Debug, PartialEq, Eq, Structural)]
pub enum ActorSendError {
    /// The target queue could not accept the message: the actor's receiving
    /// side is closed or unreachable.
    FailedToDeliver,
    /// The request was delivered but its response slot was dropped before
    /// being filled: the actor stopped, or the handling was abandoned.
    FailedToGetResponse,
}

impl ActorSendError {
    /// A human-readable description of the failure.
    pub fn message(&self) -> (r: &'static str)
        ensures
            self is FailedToDeliver ==> r@ == "Failed to deliver message to the actor"@,
            self is FailedToGetResponse ==> r@ == "Failed to get response from the actor"@,
    {
        match self {
            ActorSendError::FailedToDeliver => "Failed to deliver message to the actor",
            ActorSendError::FailedToGetResponse => "Failed to get response from the actor",
        }
    }
}

/// Failure of a fire-and-forget notification: the receiving side is gone.
#[derive(Clone, Copy, Debug, PartialEq, Eq, Structural)]
pub struct FailedToDeliver;

impl FailedToDeliver {
    /// A human-readable description of the failure.
    pub fn message(&self) -> (r: &'static str)
        ensures
            r@ == "Failed to deliver notification"@,
    {
        "Failed to deliver notification"
    }
}

/// Capacity of the bounded public queue.
pub const PUBLIC_QUEUE_CAPACITY: usize = 16;

/// The state of one actor's queue pair, as contracts speak of it.
pub struct MailboxModel<M> {
    /// Pending envelopes on the bounded public queue, oldest first.
    pub public: Seq<M>,
    /// Pending envelopes on the unbounded priority queue, oldest first.
    pub priority: Seq<M>,
    /// Live strong addresses on the public queue's producer side.
    pub strong: nat,
    /// Whether the hosting task still holds the receiving side.
    pub receiver_alive: bool,
}

/// The queue pair of one actor, with its strong-address count.
pub struct Mailbox<M> {
    public: Vec<M>,
    priority: Vec<M>,
    strong: u64,
    receiver_alive: bool,
}

impl<M> View for Mailbox<M> {
    type V = MailboxModel<M>;

    closed spec fn view(&self) -> MailboxModel<M> {
        MailboxModel {
            public: self.public@,
            priority: self.priority@,
            strong: self.strong as nat,
            receiver_alive: self.receiver_alive,
        }
    }
}

/// The public queue never holds more than its fixed capacity.
pub open spec fn mailbox_wf<M>(mb: MailboxModel<M>) -> bool {
    mb.public.len() <= PUBLIC_QUEUE_CAPACITY
}

/// What an accepted public enqueue does to the mailbox.
pub open spec fn spec_send<M>(mb: MailboxModel<M>, m: M) -> MailboxModel<M> {
    MailboxModel { public: mb.public.push(m), ..mb }
}

/// What an accepted priority enqueue does to the mailbox.
pub open spec fn spec_notify<M>(mb: MailboxModel<M>, m: M) -> MailboxModel<M> {
    MailboxModel { priority: mb.priority.push(m), ..mb }
}

/// Dropping one strong address.
pub open spec fn spec_drop_address<M>(mb: MailboxModel<M>) -> MailboxModel<M>
    recommends
        mb.strong >= 1,
{
    MailboxModel { strong: (mb.strong - 1) as nat, ..mb }
}

/// Cloning a strong address, or upgrading a weak one while permitted.
pub open spec fn spec_clone_address<M>(mb: MailboxModel<M>) -> MailboxModel<M> {
    MailboxModel { strong: mb.strong + 1, ..mb }
}

/// A weak address upgrades to a new strong address exactly while at least
/// one strong address is still alive.
pub open spec fn upgrade_permitted<M>(mb: MailboxModel<M>) -> bool {
    mb.strong >= 1
}

/// What one wait on the queue pair yields.
#[derive(Debug)]
pub enum Dequeued<M> {
    /// The oldest envelope of the priority queue; it is preferred strictly.
    Priority(M),
    /// The oldest envelope of the public queue, taken only when the
    /// priority queue is empty.
    Public(M),
    /// The public queue is closed and drained: no strong address remains
    /// and nothing is pending. The processing loop must exit.
    Closed,
    /// Nothing is pending but strong addresses remain: the hosting task
    /// suspends until an envelope arrives or the queue closes.
    Idle,
}

/// The dequeue decision: strict priority between the two queues, and
/// closure exactly on abandonment (no strong address, public queue drained).
pub open spec fn spec_dequeue_outcome<M>(mb: MailboxModel<M>) -> Dequeued<M> {
    if mb.priority.len() > 0 {
        Dequeued::Priority(mb.priority[0])
    } else if mb.public.len() > 0 {
        Dequeued::Public(mb.public[0])
    } else if mb.strong == 0 {
        Dequeued::Closed
    } else {
        Dequeued::Idle
    }
}

/// The mailbox after one dequeue decision.
pub open spec fn spec_dequeue<M>(mb: MailboxModel<M>) -> MailboxModel<M> {
    if mb.priority.len() > 0 {
        MailboxModel { priority: mb.priority.drop_first(), ..mb }
    } else if mb.public.len() > 0 {
        MailboxModel { public: mb.public.drop_first(), ..mb }
    } else {
        mb
    }
}

impl<M> Mailbox<M> {
    /// A freshly spawned actor's mailbox: both queues empty, the receiving
    /// side alive, and exactly one strong address — the one returned to the
    /// caller that spawned the actor.
    pub fn new() -> (mb: Mailbox<M>)
        ensures
            mb@.public == Seq::<M>::empty(),
            mb@.priority == Seq::<M>::empty(),
            mb@.strong == 1,
            mb@.receiver_alive,
            mailbox_wf(mb@),
    {
        Mailbox { public: Vec::new(), priority: Vec::new(), strong: 1, receiver_alive: true }
    }

    /// Enqueues a request or notification on the public queue, as a strong
    /// address does. Fails with `FailedToDeliver` exactly when the receiving
    /// side is gone; otherwise the envelope is appended in order. A full
    /// queue suspends the sender, so an accepted enqueue presumes space.
    pub fn send(&mut self, m: M) -> (r: Result<(), ActorSendError>)
        requires
            mailbox_wf(old(self)@),
            old(self)@.strong >= 1,
            old(self)@.receiver_alive ==> old(self)@.public.len() < PUBLIC_QUEUE_CAPACITY,
        ensures
            mailbox_wf(final(self)@),
            old(self)@.receiver_alive ==> r == Ok::<(), ActorSendError>(())
                && final(self)@ == spec_send(old(self)@, m),
            !old(self)@.receiver_alive ==> r == Err::<(), ActorSendError>(
                ActorSendError::FailedToDeliver,
            ) && final(self)@ == old(self)@,
    {
        if self.receiver_alive {
            self.public.push(m);
            Ok(())
        } else {
            Err(ActorSendError::FailedToDeliver)
        }
    }

    /// Enqueues a notification on the unbounded priority queue, as the
    /// private address does; never suspends. Fails exactly when the
    /// receiving side is gone.
    pub fn notify(&mut self, m: M) -> (r: Result<(), FailedToDeliver>)
        ensures
            old(self)@.receiver_alive ==> r == Ok::<(), FailedToDeliver>(())
                && final(self)@ == spec_notify(old(self)@, m),
            !old(self)@.receiver_alive ==> r == Err::<(), FailedToDeliver>(FailedToDeliver)
                && final(self)@ == old(self)@,
    {
        if self.receiver_alive {
            self.priority.push(m);
            Ok(())
        } else {
            Err(FailedToDeliver)
        }
    }

    /// One wait on the queue pair, as the hosting task performs it. The
    /// priority queue is drained strictly before the public queue; the
    /// outcome is `Closed` exactly on abandonment.
    pub fn recv_next(&mut self) -> (r: Dequeued<M>)
        ensures
            r == spec_dequeue_outcome(old(self)@),
            final(self)@ == spec_dequeue(old(self)@),
    {
        if self.priority.len() > 0 {
            let m = self.priority.remove(0);
            proof {
                assert(self.priority@ =~= old(self)@.priority.drop_first());
            }
            Dequeued::Priority(m)
        } else if self.public.len() > 0 {
            let m = self.public.remove(0);
            proof {
                assert(self.public@ =~= old(self)@.public.drop_first());
            }
            Dequeued::Public(m)
        } else if self.strong == 0 {
            Dequeued::Closed
        } else {
            Dequeued::Idle
        }
    }

    /// Records the clone of a strong address.
    pub fn clone_address(&mut self)
        requires
            old(self)@.strong >= 1,
            old(self)@.strong < u64::MAX,
        ensures
            final(self)@ == spec_clone_address(old(self)@),
    {
        self.strong = self.strong + 1;
    }

    /// Records the drop of a strong address.
    pub fn drop_address(&mut self)
        requires
            old(self)@.strong >= 1,
        ensures
            final(self)@ == spec_drop_address(old(self)@),
    {
        self.strong = self.strong - 1;
    }

    /// Attempts to upgrade a weak address: yields a new strong address
    /// (counted) exactly while at least one strong address is still alive.
    pub fn upgrade(&mut self) -> (r: bool)
        requires
            old(self)@.strong < u64::MAX,
        ensures
            r == upgrade_permitted(old(self)@),
            r ==> final(self)@ == spec_clone_address(old(self)@),
            !r ==> final(self)@ == old(self)@,
    {
        if self.strong >= 1 {
            self.strong = self.strong + 1;
            true
        } else {
            false
        }
    }

    /// Whether the actor no longer receives messages: the non-blocking
    /// liveness probe of a strong address.
    pub fn is_closed(&self) -> (r: bool)
        ensures
            r == !self@.receiver_alive,
    {
        !self.receiver_alive
    }

    /// Whether the actor still receives messages; the opposite of
    /// `is_closed`.
    pub fn is_connected(&self) -> (r: bool)
        ensures
            r == self@.receiver_alive,
    {
        self.receiver_alive
    }

    /// The hosting task ends: the receiving side is dropped and any
    /// envelopes still queued are dropped unprocessed. Strong addresses may
    /// outlive the actor; their sends fail from here on.
    pub fn shutdown(&mut self)
        ensures
            !final(self)@.receiver_alive,
            final(self)@.public == Seq::<M>::empty(),
            final(self)@.priority == Seq::<M>::empty(),
            final(self)@.strong == old(self)@.strong,
    {
        self.receiver_alive = false;
        self.public.clear();
        self.priority.clear();
    }
}

/// Once the last strong address is dropped, a weak address can no longer be
/// upgraded — and cannot become upgradable again, since only an existing
/// strong address can be cloned.
pub proof fn lemma_upgrade_fails_after_last_drop<M>(mb: MailboxModel<M>)
    requires
        mb.strong == 1,
    ensures
        !upgrade_permitted(spec_drop_address(mb)),
{
}

/// Abandonment, exactly: the wait on the queue pair reports closure iff no
/// strong address remains and both queues are drained. Neither weak
/// addresses nor priority addresses enter the condition — holding them
/// never keeps the actor alive, and never blocks its stop.
pub proof fn lemma_closed_iff_abandoned<M>(mb: MailboxModel<M>)
    ensures
        spec_dequeue_outcome(mb) is Closed <==> mb.strong == 0 && mb.public.len() == 0
            && mb.priority.len() == 0,
{
}

/// Requests sent through two clones of one address land on the same public
/// queue in arrival order, and the hosting task dequeues each exactly once,
/// one at a time — so every request is handled exactly once, and two
/// handlings of the same actor never interleave.
pub proof fn lemma_concurrent_sends_each_handled_once<M>(mb: MailboxModel<M>, m1: M, m2: M)
    requires
        mb.receiver_alive,
        mb.priority.len() == 0,
        mb.public.len() == 0,
    ensures
        ({
            let q = spec_send(spec_send(mb, m1), m2);
            &&& spec_dequeue_outcome(q) == Dequeued::Public(m1)
            &&& spec_dequeue_outcome(spec_dequeue(q)) == Dequeued::Public(m2)
            &&& spec_dequeue(spec_dequeue(q)).public.len() == 0
        }),
{
    let q = spec_send(spec_send(mb, m1), m2);
    assert(q.public =~= seq![m1, m2]);
    assert(spec_dequeue(q).public =~= seq![m2]);
    assert(spec_dequeue(spec_dequeue(q)).public =~= Seq::<M>::empty());
}

/// A repeating notification task sends one message per tick and stops at
/// the first delivery failure. Given the per-tick outcomes (`true` for a
/// delivered send), this counts the sends the task issues.
pub open spec fn interval_sends(outcomes: Seq<bool>) -> nat
    decreases outcomes.len(),
{
    if outcomes.len() == 0 {
        0
    } else if outcomes[0] {
        1 + interval_sends(outcomes.drop_first())
    } else {
        1
    }
}

/// With the first delivery failure at tick `j` (all earlier ticks
/// delivered), the repeating task issues exactly `j + 1` sends, however many
/// ticks `k` pass afterwards.
pub proof fn lemma_interval_send_count(outcomes: Seq<bool>, j: int, k: int)
    requires
        0 <= j < outcomes.len(),
        !outcomes[j],
        forall|i: int| 0 <= i < j ==> outcomes[i],
        j < k <= outcomes.len(),
    ensures
        interval_sends(outcomes.take(k)) == j + 1,
    decreases j,
{
    let s = outcomes.take(k);
    if j == 0 {
        assert(!s[0]);
    } else {
        assert(s[0]);
        let rest = outcomes.drop_first();
        assert(s.drop_first() =~= rest.take(k - 1));
        assert(!rest[j - 1]);
        assert forall|i: int| 0 <= i < j - 1 implies rest[i] by {
            assert(rest[i] == outcomes[i + 1]);
        }
        lemma_interval_send_count(rest, j - 1, k - 1);
        assert(interval_sends(s) == 1 + interval_sends(s.drop_first()));
    }
}

/// After the actor is gone, the repeating task issues no further sends: once
/// a tick fails to deliver, the send count at every later tick equals the
/// count just after the failing tick.
pub proof fn lemma_interval_converges_after_stop(outcomes: Seq<bool>, j: int, k: int)
    requires
        0 <= j < outcomes.len(),
        !outcomes[j],
        forall|i: int| 0 <= i < j ==> outcomes[i],
        j < k <= outcomes.len(),
    ensures
        interval_sends(outcomes.take(k)) == interval_sends(outcomes.take(j + 1)),
{
    lemma_interval_send_count(outcomes, j, k);
    lemma_interval_send_count(outcomes, j, j + 1);
}

/// The repeating task's per-tick decision: carry on exactly while the last
/// send was delivered.
pub fn interval_should_continue<R>(outcome: &Result<R, ActorSendError>) -> (r: bool)
    ensures
        r == outcome is Ok,
{
    match outcome {
        Ok(_) => true,
        Err(_) => false,
    }
}

} // verus!
