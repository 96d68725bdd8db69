use akt::actor::dequeue_ends_loop;
use akt::address::{interval_should_continue, ActorSendError, Dequeued, FailedToDeliver, Mailbox};
use akt::context::{ActorState, Context};
use akt::handler::{unpack_send_result, DispatchAction, Envelope, ResponseSlot, UnpackableResult};
use akt::pool::Pool;

#[test]
fn stops_on_no_addresses_left() {
    // An actor with default (no-op) hooks, started and immediately dropped:
    // the coordinator reaches Stopped and the stopped hook runs exactly once.
    let mut mailbox: Mailbox<u8> = Mailbox::new();
    let mut ctx = Context::new();
    let mut on_stopped_runs = 0;

    // on_start hook (default: no-op), then the loop begins.
    ctx.mark_started();
    assert_eq!(ctx.current_state(), ActorState::Started);

    // The only strong address is dropped before any message is sent.
    mailbox.drop_address();

    // The wait on the queue pair reports closure; the loop exits without
    // consulting the stopping hook, and the exit path runs on_stopped once.
    assert!(!ctx.needs_stop_consent());
    let outcome = mailbox.recv_next();
    assert!(matches!(outcome, Dequeued::Closed));
    if dequeue_ends_loop(&outcome) {
        on_stopped_runs += 1; // on_stopped hook (default: no-op)
        ctx.mark_stopped();
        mailbox.shutdown();
    }

    assert_eq!(ctx.current_state(), ActorState::Stopped);
    assert_eq!(on_stopped_runs, 1);
}

#[test]
fn counter_round_trip_yields_1_2_3() {
    // A counter actor that increments and returns its value: three requests
    // sent sequentially on one address answer 1, 2, 3 in that order.
    let mut mailbox: Mailbox<Envelope<&str>> = Mailbox::new();
    let mut counter: u32 = 0;
    let mut results: Vec<u32> = Vec::new();

    for _ in 0..3 {
        mailbox
            .send(Envelope::Request("increment"))
            .expect("actor is alive");
        let mut slot: ResponseSlot<u32> = ResponseSlot::new();
        match mailbox.recv_next() {
            Dequeued::Public(envelope) => {
                assert_eq!(
                    envelope.dispatch_action(true),
                    DispatchAction::RunAndDeliver
                );
                assert_eq!(envelope.into_message(), "increment");
                counter += 1; // the handler's work
                slot.deliver(counter);
            }
            _ => unreachable!(),
        }
        results.push(slot.await_response().expect("response was delivered"));
    }

    assert_eq!(results, vec![1, 2, 3]);
}

#[test]
fn upgrade_fails_once_last_strong_address_dropped() {
    let mut mailbox: Mailbox<u8> = Mailbox::new();
    mailbox.clone_address();

    // While strong addresses remain, a weak address upgrades (to a new
    // counted strong address).
    assert!(mailbox.upgrade());

    mailbox.drop_address();
    mailbox.drop_address();
    mailbox.drop_address();

    // The last strong address is gone and the public queue is observed
    // closed: the upgrade yields nothing.
    assert!(matches!(mailbox.recv_next(), Dequeued::Closed));
    assert!(!mailbox.upgrade());
}

#[test]
fn stop_veto_never_lets_the_loop_exit() {
    // Context.stop() with an on_stopping hook answering false: the loop
    // never exits through the stop protocol; the hook is consulted again on
    // each iteration while new messages keep being processed.
    let mut mailbox: Mailbox<&str> = Mailbox::new();
    let mut ctx = Context::new();
    ctx.mark_started();
    ctx.stop();

    for _ in 0..4 {
        assert!(ctx.needs_stop_consent());
        let exit = ctx.apply_stop_consent(false); // the hook's veto
        assert!(!exit);
        assert_eq!(ctx.current_state(), ActorState::Stopping);

        // New messages keep arriving and being dispatched meanwhile.
        mailbox.send("work").expect("actor is alive");
        assert!(matches!(mailbox.recv_next(), Dequeued::Public("work")));
    }

    assert_eq!(ctx.current_state(), ActorState::Stopping);
}

#[test]
fn pool_of_two_rotates_distinct_addresses() {
    let mut pool = Pool::with_instances(2);

    // Two checkouts with no release in between yield two distinct actors.
    let a = pool.take().expect("pool starts full");
    let b = pool.take().expect("second instance is still pooled");
    assert_ne!(a, b);

    // All instances are checked out: the next checkout would suspend.
    assert!(pool.take().is_none());

    // Releasing one and checking out again returns that same address.
    pool.release(a);
    assert_eq!(pool.take(), Some(a));
}

#[test]
fn clones_share_one_queue_and_each_request_is_handled_once() {
    // Two clones of one address feed the same public queue: every request
    // is dequeued exactly once, in order, one at a time.
    let mut mailbox: Mailbox<&str> = Mailbox::new();
    mailbox.clone_address();

    mailbox.send("from first clone").expect("alive");
    mailbox.send("from second clone").expect("alive");

    assert!(matches!(
        mailbox.recv_next(),
        Dequeued::Public("from first clone")
    ));
    assert!(matches!(
        mailbox.recv_next(),
        Dequeued::Public("from second clone")
    ));
    // Nothing is handled twice: the queue is empty now (and not closed,
    // since strong addresses remain).
    assert!(matches!(mailbox.recv_next(), Dequeued::Idle));
}

#[test]
fn interval_task_issues_no_sends_after_the_actor_stops() {
    // A repeating task sends one request per tick and ends the first time
    // delivery fails: the send count converges once the actor is gone.
    let mut mailbox: Mailbox<&str> = Mailbox::new();
    let mut sends_issued = 0;
    let mut running = true;

    for tick in 0..8 {
        if !running {
            continue; // the background task has already ended
        }
        if tick == 2 {
            // The actor stops between the second and third tick.
            mailbox.shutdown();
        }
        let outcome: Result<(), ActorSendError> = mailbox.send("tick");
        sends_issued += 1;
        running = interval_should_continue(&outcome);
    }

    // Two delivered sends, one failing send, and nothing afterwards.
    assert_eq!(sends_issued, 3);
}

#[test]
fn priority_queue_is_preferred_over_public() {
    let mut mailbox: Mailbox<&str> = Mailbox::new();
    mailbox.send("public first").expect("alive");
    mailbox.notify("priority later").expect("alive");

    // Strict priority: the priority envelope is dequeued first even though
    // the public one arrived earlier.
    assert!(matches!(
        mailbox.recv_next(),
        Dequeued::Priority("priority later")
    ));
    assert!(matches!(
        mailbox.recv_next(),
        Dequeued::Public("public first")
    ));
}

#[test]
fn sends_fail_with_typed_errors_after_shutdown() {
    let mut mailbox: Mailbox<u8> = Mailbox::new();
    assert!(mailbox.is_connected());
    assert!(!mailbox.is_closed());

    mailbox.shutdown();

    assert!(mailbox.is_closed());
    assert!(!mailbox.is_connected());
    assert_eq!(mailbox.send(1), Err(ActorSendError::FailedToDeliver));
    assert_eq!(mailbox.notify(2), Err(FailedToDeliver));
}

#[test]
fn error_values_describe_themselves() {
    assert_eq!(
        ActorSendError::FailedToDeliver.message(),
        "Failed to deliver message to the actor"
    );
    assert_eq!(
        ActorSendError::FailedToGetResponse.message(),
        "Failed to get response from the actor"
    );
    assert_eq!(FailedToDeliver.message(), "Failed to deliver notification");
    assert_ne!(
        ActorSendError::FailedToDeliver,
        ActorSendError::FailedToGetResponse
    );
}

#[test]
fn response_slot_is_fulfilled_at_most_once() {
    // Delivered result reaches the requester.
    let mut slot: ResponseSlot<u32> = ResponseSlot::new();
    slot.deliver(41);
    assert_eq!(slot.await_response(), Ok(41));

    // A requester that lost interest: the delivery is discarded silently.
    let mut abandoned: ResponseSlot<u32> = ResponseSlot::new();
    abandoned.abandon();
    abandoned.deliver(99);
    assert!(matches!(abandoned, ResponseSlot::Abandoned));

    // The actor stopped before answering: the await reports the failure.
    let mut dropped: ResponseSlot<u32> = ResponseSlot::new();
    dropped.drop_unfilled();
    assert_eq!(
        dropped.await_response(),
        Err(ActorSendError::FailedToGetResponse)
    );
}

#[test]
fn unpacking_flattens_slots_and_keeps_send_errors() {
    // A filled slot unpacks to its value.
    let mut slot: ResponseSlot<u32> = ResponseSlot::new();
    slot.deliver(7);
    assert_eq!(slot.unpack_result(), Ok(7));

    // A handler's early error unpacks to Ok(Err(..)).
    let early: Result<ResponseSlot<Result<u32, &str>>, &str> = Err("rejected");
    assert_eq!(early.unpack_result(), Ok(Err("rejected")));

    // A deferred slot dropped unfilled unpacks to the response failure.
    let mut deferred: ResponseSlot<Result<u32, &str>> = ResponseSlot::new();
    deferred.drop_unfilled();
    let nested: Result<ResponseSlot<Result<u32, &str>>, &str> = Ok(deferred);
    assert_eq!(
        nested.unpack_result(),
        Err(ActorSendError::FailedToGetResponse)
    );

    // A failed send is passed through unchanged by send-then-unpack.
    let failed: Result<ResponseSlot<u32>, ActorSendError> =
        Err(ActorSendError::FailedToDeliver);
    assert_eq!(
        unpack_send_result(failed),
        Err(ActorSendError::FailedToDeliver)
    );
    let mut answered: ResponseSlot<u32> = ResponseSlot::new();
    answered.deliver(5);
    assert_eq!(unpack_send_result(Ok(answered)), Ok(5));
}

#[test]
fn stop_is_idempotent_and_stopped_is_terminal() {
    let mut ctx = Context::new();
    ctx.mark_started();
    ctx.stop();
    ctx.stop();
    assert_eq!(ctx.current_state(), ActorState::Stopping);

    ctx.mark_stopped();
    assert_eq!(ctx.current_state(), ActorState::Stopped);

    // A late stop request has no effect on a stopped actor.
    ctx.stop();
    assert_eq!(ctx.current_state(), ActorState::Stopped);
    ctx.mark_started();
    assert_eq!(ctx.current_state(), ActorState::Stopped);
}

#[test]
fn stop_requested_during_start_hook_is_kept() {
    let mut ctx = Context::new();
    assert_eq!(ctx.current_state(), ActorState::Starting);
    // The start hook requests termination; marking the actor started must
    // not fall back from Stopping.
    ctx.stop();
    ctx.mark_started();
    assert_eq!(ctx.current_state(), ActorState::Stopping);
}

#[test]
fn empty_pool_checkout_waits_instead_of_inventing_addresses() {
    let mut pool = Pool::with_instances(0);
    assert!(pool.take().is_none());

    let mut single = Pool::with_instances(1);
    let only = single.take().expect("one instance pooled");
    assert!(single.take().is_none());
    single.release(only);
    assert_eq!(single.take(), Some(only));
}

#[test]
fn dispatch_abandons_requests_whose_requester_is_gone() {
    // A dead response destination wins the race: the handling for that
    // message never runs; a notification always runs, result discarded.
    let request: Envelope<&str> = Envelope::Request("slow work");
    assert_eq!(request.dispatch_action(false), DispatchAction::Abandon);
    assert_eq!(request.dispatch_action(true), DispatchAction::RunAndDeliver);

    let note: Envelope<&str> = Envelope::Notification("tick");
    assert_eq!(note.dispatch_action(false), DispatchAction::RunAndDiscard);
    assert_eq!(note.into_message(), "tick");
}
