//! Envelopes, request/response slots, and result unpacking.
//!
//! An [`Envelope`] is one in-flight unit of work, of either shape: a
//! request carrying a single-use response slot, or a fire-and-forget
//! notification. The dispatch of a
//! request races "the requester lost interest" against "handling finished":
//! a result is delivered only in the latter case, and a slot is fulfilled at
//! most once — [`ResponseSlot::deliver`] moves `Pending` to `Filled` and is
//! never permitted on an already filled slot, while a delivery into an
//! abandoned slot is discarded silently.
//!
//! [`UnpackableResult`] mirrors the convenience of handlers that answer with
//! a deferred slot: the requester unpacks the slot (or a `Result` around
//! one) into the plain value, turning an unfilled slot into
//! `FailedToGetResponse`.

use vstd::prelude::*;

use crate::address::ActorSendError;

verus! {

/// One in-flight unit of work: a request expecting a response, or a
/// fire-and-forget notification. One queue carries both shapes.
#[derive(Debug)]
pub enum Envelope<M> {
    /// A message whose handler result is delivered into a response slot.
    Request(M),
    /// A message whose handler result is discarded.
    Notification(M),
}

/// What the dispatch of one dequeued envelope does with the handler.
#[derive(Clone, Copy, Debug, PartialEq, Eq, Structural)]
pub enum DispatchAction {
    /// Run the handler and deliver its result into the response slot.
    RunAndDeliver,
    /// Run the handler and discard its result.
    RunAndDiscard,
    /// Do not run the handler at all: the requester is gone, so the
    /// handling for this message is abandoned.
    Abandon,
}

impl<M> Envelope<M> {
    /// The dispatch decision, resolving the race of "the response
    /// destination became dead" against "handling may begin": a
    /// notification always runs with its result discarded; a request runs
    /// only while its requester still awaits.
    pub fn dispatch_action(&self, requester_alive: bool) -> (a: DispatchAction)
        ensures
            *self is Notification ==> a == DispatchAction::RunAndDiscard,
            *self is Request && requester_alive ==> a == DispatchAction::RunAndDeliver,
            *self is Request && !requester_alive ==> a == DispatchAction::Abandon,
    {
        match self {
            Envelope::Notification(_) => DispatchAction::RunAndDiscard,
            Envelope::Request(_) => {
                if requester_alive {
                    DispatchAction::RunAndDeliver
                } else {
                    DispatchAction::Abandon
                }
            },
        }
    }

    /// Unwraps the message for the handler, either shape.
    pub fn into_message(self) -> (m: M)
        ensures
            self matches Envelope::Request(v) ==> m == v,
            self matches Envelope::Notification(v) ==> m == v,
    {
        match self {
            Envelope::Request(m) => m,
            Envelope::Notification(m) => m,
        }
    }
}

/// The single-use response destination of one request envelope.
#[derive(Debug)]
pub enum ResponseSlot<R> {
    /// No response yet; the requester is still interested.
    Pending,
    /// The handler's result was delivered. A slot is filled at most once.
    Filled(R),
    /// The requester lost interest (its await was cancelled); a late
    /// delivery is discarded silently.
    Abandoned,
    /// The actor's side was dropped without a delivery: the actor stopped,
    /// or the handling was abandoned mid-way.
    Dropped,
}

/// What a delivery attempt leaves in the slot: a pending slot is filled,
/// an abandoned one swallows the result.
pub open spec fn spec_deliver<R>(slot: ResponseSlot<R>, result: R) -> ResponseSlot<R>
    recommends
        slot is Pending || slot is Abandoned,
{
    if slot is Pending {
        ResponseSlot::Filled(result)
    } else {
        slot
    }
}

impl<R> ResponseSlot<R> {
    /// A fresh slot, created when the request envelope is packed.
    pub fn new() -> (s: ResponseSlot<R>)
        ensures
            s is Pending,
    {
        ResponseSlot::Pending
    }

    /// The requester stops awaiting the response: the in-flight handling
    /// for this request observes it and abandons its own computation.
    pub fn abandon(&mut self)
        requires
            *old(self) is Pending,
        ensures
            *final(self) is Abandoned,
    {
        *self = ResponseSlot::Abandoned;
    }

    /// The actor's side goes away without delivering: the actor stopped
    /// before handling, or handling was cancelled after the requester's
    /// interest was last seen alive.
    pub fn drop_unfilled(&mut self)
        requires
            *old(self) is Pending,
        ensures
            *final(self) is Dropped,
    {
        *self = ResponseSlot::Dropped;
    }

    /// Delivers the handler's result. Only a pending slot is filled — at
    /// most once, since delivery into a filled slot is never permitted —
    /// and a delivery after abandonment is discarded silently.
    pub fn deliver(&mut self, result: R)
        requires
            *old(self) is Pending || *old(self) is Abandoned,
        ensures
            *final(self) == spec_deliver(*old(self), result),
    {
        match self {
            ResponseSlot::Pending => {
                *self = ResponseSlot::Filled(result);
            },
            _ => {},
        }
    }

    /// What the requester's await of a resolved slot yields: the delivered
    /// result, or `FailedToGetResponse` if the slot was dropped unfilled.
    pub fn await_response(self) -> (r: Result<R, ActorSendError>)
        requires
            self is Filled || self is Dropped,
        ensures
            self matches ResponseSlot::Filled(v) ==> r == Ok::<R, ActorSendError>(v),
            self is Dropped ==> r == Err::<R, ActorSendError>(ActorSendError::FailedToGetResponse),
    {
        match self {
            ResponseSlot::Filled(v) => Ok(v),
            ResponseSlot::Dropped => Err(ActorSendError::FailedToGetResponse),
            _ => vstd::pervasive::unreached(),
        }
    }
}

/// A slot is fulfilled at most once: a delivery fills the slot only from
/// `Pending`, and keeps an already chosen response untouched.
pub proof fn lemma_slot_fulfilled_at_most_once<R>(slot: ResponseSlot<R>, r1: R)
    requires
        slot is Pending || slot is Abandoned,
    ensures
        spec_deliver(slot, r1) is Filled ==> slot is Pending,
        slot is Abandoned ==> spec_deliver(slot, r1) == slot,
        spec_deliver(slot, r1) matches ResponseSlot::Filled(v) ==> v == r1,
{
}

/// A handler result the requester can unpack into a plain value: a deferred
/// response slot, or a `Result` around one.
pub trait UnpackableResult: Sized {
    /// The plain value the unpacking yields.
    type UnpackedResult;

    /// Whether the value is resolved enough to be unpacked: every slot in
    /// it has been filled or dropped.
    spec fn can_unpack(&self) -> bool;

    /// What the unpacking yields.
    spec fn unpack_spec(self) -> Result<Self::UnpackedResult, ActorSendError>;

    /// Unpacks the value.
    fn unpack_result(self) -> (r: Result<Self::UnpackedResult, ActorSendError>)
        requires
            self.can_unpack(),
        ensures
            r == self.unpack_spec(),
    ;
}

impl<R> UnpackableResult for ResponseSlot<R> {
    type UnpackedResult = R;

    open spec fn can_unpack(&self) -> bool {
        *self is Filled || *self is Dropped
    }

    open spec fn unpack_spec(self) -> Result<R, ActorSendError> {
        match self {
            ResponseSlot::Filled(v) => Ok(v),
            _ => Err(ActorSendError::FailedToGetResponse),
        }
    }

    fn unpack_result(self) -> (r: Result<R, ActorSendError>) {
        self.await_response()
    }
}

impl<T, E> UnpackableResult for Result<ResponseSlot<Result<T, E>>, E> {
    type UnpackedResult = Result<T, E>;

    open spec fn can_unpack(&self) -> bool {
        match self {
            Ok(slot) => *slot is Filled || *slot is Dropped,
            Err(_) => true,
        }
    }

    open spec fn unpack_spec(self) -> Result<Result<T, E>, ActorSendError> {
        match self {
            Ok(ResponseSlot::Filled(v)) => Ok(v),
            Ok(_) => Err(ActorSendError::FailedToGetResponse),
            Err(e) => Ok(Err(e)),
        }
    }

    fn unpack_result(self) -> (r: Result<Result<T, E>, ActorSendError>) {
        match self {
            Ok(slot) => slot.await_response(),
            Err(e) => Ok(Err(e)),
        }
    }
}

/// What a send-then-unpack yields: the unpacked response of a delivered
/// request, or the send's own failure unchanged.
pub open spec fn spec_unpack_send_result<V: UnpackableResult>(
    r: Result<V, ActorSendError>,
) -> Result<V::UnpackedResult, ActorSendError> {
    match r {
        Ok(v) => v.unpack_spec(),
        Err(e) => Err(e),
    }
}

/// Unpacks the outcome of a request/response send whose handler answered
/// with an unpackable value.
pub fn unpack_send_result<V: UnpackableResult>(r: Result<V, ActorSendError>) -> (out: Result<
    V::UnpackedResult,
    ActorSendError,
>)
    requires
        r matches Ok(v) ==> v.can_unpack(),
    ensures
        out == spec_unpack_send_result(r),
{
    match r {
        Ok(v) => v.unpack_result(),
        Err(e) => Err(e),
    }
}

} // verus!
