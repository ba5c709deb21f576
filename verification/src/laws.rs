//! The laws of the transport, proved of every state and every history.

use vstd::prelude::*;
use crate::fault::{FaultClass, TransportError};
use crate::state::{InboundState, OutboundState, State};
use crate::step::{Poll, SinkOutcome, SinkPolled, Step, StreamOutcome, StreamPolled};
use crate::trace::{
    delivered, forwarded, is_subsequence, lemma_run_in_parts, offered, run, yielded, Call,
};

verus! {

/// The calls that send one message the way the protocol asks: a ready-check
/// that succeeds, then the enqueue, which the codec accepts.
pub open spec fn sending_one<U, V>(item: U) -> Seq<Call<U, V>> {
    seq![Call::OnReady(Poll::Ready(Ok(()))), Call::StartSend(item), Call::OnSent(Ok(()))]
}

/// The calls that send a sequence of messages, one after the other.
pub open spec fn sending<U, V>(items: Seq<U>) -> Seq<Call<U, V>>
    decreases items.len(),
{
    if items.len() == 0 {
        Seq::empty()
    } else {
        sending_one(items.first()) + sending(items.drop_first())
    }
}

/// The call of a flush that the combinator completes.
pub open spec fn flushing<U, V>() -> Seq<Call<U, V>> {
    seq![Call::OnFlushed(Poll::Ready(Ok(())))]
}

/// The calls that receive a sequence of messages: for each, a poll that the
/// combinator answers with the message.
pub open spec fn receiving<U, V>(messages: Seq<V>) -> Seq<Call<U, V>>
    decreases messages.len(),
{
    if messages.len() == 0 {
        Seq::empty()
    } else {
        seq![Call::OnNext(Poll::Ready(Some(Ok(messages.first()))))] + receiving(
            messages.drop_first(),
        )
    }
}

/// An outcome of a poll for the next message after which the stream has
/// ended: the clean end, or a fault that is fatal to the inbound direction.
pub open spec fn ends_stream<V>(outcome: StreamOutcome<V>) -> bool {
    match outcome {
        Poll::Ready(None) => true,
        Poll::Ready(Some(Err(TransportError::Fault(class)))) => class.fatal_to_inbound(),
        _ => false,
    }
}

/// Well-formedness is an invariant: no call breaks it.
pub proof fn law_well_formed_forever<U, V>(state: State, calls: Seq<Call<U, V>>)
    requires
        state.wf(),
    ensures
        run(state, calls).wf(),
    decreases calls.len(),
{
    if calls.len() > 0 {
        law_well_formed_forever(calls.first().apply(state), calls.drop_first());
    }
}

/// A direction that is alive never answers for the combinator: a ready-check,
/// a flush and a close of a live sink, and a poll of a live stream, are
/// forwarded. A direction that has ended never forwards.
pub proof fn law_alive_asks_and_ended_answers<V>(state: State)
    ensures
        !state.outbound.terminal() <==> state.poll_ready() is Forward,
        !state.outbound.terminal() <==> state.poll_flush() is Forward,
        !state.outbound.terminal() <==> state.poll_close() is Forward,
        !state.inbound.terminal() <==> state.poll_next::<V>() is Forward,
{
}

/// Ordering, outbound. Messages that are enqueued, each after a successful
/// ready-check, and then flushed are handed to the combinator all, once each
/// and in the order in which they were enqueued. The sink is idle afterwards
/// and the inbound direction has not moved.
pub proof fn law_messages_leave_in_order<U, V>(state: State, items: Seq<U>)
    requires
        !state.outbound.terminal(),
    ensures
        forwarded(state, sending::<U, V>(items) + flushing()) == items,
        run(state, sending::<U, V>(items) + flushing()) == (State {
            outbound: OutboundState::Idle,
            inbound: state.inbound,
        }),
{
    lemma_sending::<U, V>(state, items);
    lemma_run_in_parts(state, sending::<U, V>(items), flushing());
    let sent = run(state, sending::<U, V>(items));
    reveal_with_fuel(run, 2);
    reveal_with_fuel(forwarded, 2);
    assert(forwarded(sent, flushing::<U, V>()) =~= Seq::<U>::empty());
    assert(forwarded(state, sending::<U, V>(items)) + Seq::<U>::empty() =~= items);
}

proof fn lemma_sending<U, V>(state: State, items: Seq<U>)
    requires
        !state.outbound.terminal(),
    ensures
        forwarded(state, sending::<U, V>(items)) == items,
        !run(state, sending::<U, V>(items)).outbound.terminal(),
        run(state, sending::<U, V>(items)).inbound == state.inbound,
    decreases items.len(),
{
    if items.len() == 0 {
        assert(forwarded(state, sending::<U, V>(items)) =~= items);
    } else {
        let one = sending_one::<U, V>(items.first());
        let after_one = State { outbound: OutboundState::Idle, inbound: state.inbound };
        assert(run(state, one) == after_one && forwarded(state, one) =~= seq![items.first()]) by {
            reveal_with_fuel(run, 4);
            reveal_with_fuel(forwarded, 4);
            assert(one.drop_first().first() == one[1]);
            assert(one.drop_first().drop_first().first() == one[2]);
            assert(one.drop_first().drop_first().drop_first().len() == 0);
        }
        lemma_sending::<U, V>(after_one, items.drop_first());
        lemma_run_in_parts(state, one, sending::<U, V>(items.drop_first()));
        assert(seq![items.first()] + items.drop_first() =~= items);
    }
}

/// Ordering, inbound. Messages that the combinator yields are handed to the
/// caller all, once each and in the order in which they were yielded. The
/// outbound direction has not moved.
pub proof fn law_messages_arrive_in_order<U, V>(state: State, messages: Seq<V>)
    requires
        !state.inbound.terminal(),
    ensures
        delivered(state, receiving::<U, V>(messages)) == messages,
        !run(state, receiving::<U, V>(messages)).inbound.terminal(),
        run(state, receiving::<U, V>(messages)).outbound == state.outbound,
    decreases messages.len(),
{
    if messages.len() == 0 {
        assert(delivered(state, receiving::<U, V>(messages)) =~= messages);
    } else {
        let one: Seq<Call<U, V>> = seq![Call::OnNext(Poll::Ready(Some(Ok(messages.first()))))];
        let after_one = State { outbound: state.outbound, inbound: InboundState::AwaitingBytes };
        assert(run(state, one) == after_one && delivered(state, one) =~= seq![messages.first()])
            by {
            reveal_with_fuel(run, 2);
            reveal_with_fuel(delivered, 2);
            assert(one.drop_first().len() == 0);
        }
        law_messages_arrive_in_order::<U, V>(after_one, messages.drop_first());
        lemma_run_in_parts(state, one, receiving::<U, V>(messages.drop_first()));
        assert(seq![messages.first()] + messages.drop_first() =~= messages);
    }
}

/// Nothing is reordered, doubled or made up on the way out. Whatever is
/// called, in whatever order, the messages handed on to the combinator are
/// messages that were offered, in the order in which they were offered,
/// each at most once.
pub proof fn law_forwarded_follows_offered<U, V>(state: State, calls: Seq<Call<U, V>>)
    ensures
        is_subsequence(forwarded(state, calls), offered(calls)),
    decreases calls.len(),
{
    if calls.len() > 0 {
        let rest = calls.drop_first();
        law_forwarded_follows_offered(calls.first().apply(state), rest);
        match calls.first().offers() {
            Some(message) => {
                let whole = offered(calls);
                assert(whole.first() == message);
                assert(whole.drop_first() =~= offered(rest));
                let part = forwarded(state, calls);
                if calls.first().forwards(state) is Some {
                    assert(part.first() == message);
                    assert(part.drop_first() =~= forwarded(calls.first().apply(state), rest));
                }
            },
            None => {},
        }
    }
}

/// Nothing is reordered, doubled or made up on the way in. Whatever is
/// called, in whatever order, the messages handed to the caller are
/// messages that the combinator yielded, in the order in which it yielded
/// them, each at most once.
pub proof fn law_delivered_follows_yielded<U, V>(state: State, calls: Seq<Call<U, V>>)
    ensures
        is_subsequence(delivered(state, calls), yielded(calls)),
    decreases calls.len(),
{
    if calls.len() > 0 {
        let rest = calls.drop_first();
        law_delivered_follows_yielded(calls.first().apply(state), rest);
        match calls.first().yields() {
            Some(message) => {
                let whole = yielded(calls);
                assert(whole.first() == message);
                assert(whole.drop_first() =~= yielded(rest));
                let part = delivered(state, calls);
                if calls.first().delivers(state) is Some {
                    assert(part.first() == message);
                    assert(part.drop_first() =~= delivered(calls.first().apply(state), rest));
                }
            },
            None => {},
        }
    }
}

/// Backpressure. After a ready-check that did not report success, and as
/// long as no later ready-check does, no message is handed on to the
/// combinator: every enqueue is refused, with `NotReady` while the sink is
/// alive, and leaves the state as it was.
pub proof fn law_no_enqueue_without_grant<U, V>(
    state: State,
    polled: SinkPolled,
    calls: Seq<Call<U, V>>,
    item: U,
)
    requires
        !(polled matches Poll::Ready(Ok(_))),
        forall|i: int| 0 <= i < calls.len() ==> !(#[trigger] calls[i]).grants(),
    ensures
        forwarded(state.on_ready(polled).0, calls) == Seq::<U>::empty(),
        ({
            let later = run(state.on_ready(polled).0, calls);
            let error = match later.outbound.refusal() {
                Some(error) => error,
                None => TransportError::NotReady,
            };
            let refused: Step<U, Result<(), TransportError>> = Step::Done(Err(error));
            later.start_send(item) == (later, refused)
        }),
{
    lemma_no_grant_no_permit(state.on_ready(polled).0, calls);
}

proof fn lemma_no_grant_no_permit<U, V>(state: State, calls: Seq<Call<U, V>>)
    requires
        !(state.outbound is AcceptingOne),
        forall|i: int| 0 <= i < calls.len() ==> !(#[trigger] calls[i]).grants(),
    ensures
        !(run(state, calls).outbound is AcceptingOne),
        forwarded(state, calls) == Seq::<U>::empty(),
    decreases calls.len(),
{
    if calls.len() > 0 {
        assert(!calls[0].grants());
        let rest = calls.drop_first();
        assert forall|i: int| 0 <= i < rest.len() implies !(#[trigger] rest[i]).grants() by {
            assert(rest[i] == calls[i + 1]);
        }
        lemma_no_grant_no_permit(calls.first().apply(state), rest);
    }
}

/// The end of the stream is final. A stream that has ended, cleanly or by a
/// fault, stays as it is whatever is called afterwards; it hands over no
/// further message, and every later poll is answered with the same outcome
/// without the combinator being asked.
pub proof fn law_ended_stream_repeats<U, V>(state: State, calls: Seq<Call<U, V>>)
    requires
        state.inbound.terminal(),
    ensures
        run(state, calls).inbound == state.inbound,
        delivered(state, calls) == Seq::<V>::empty(),
        ({
            let repeated: Step<(), StreamOutcome<V>> = Step::Done(
                Poll::Ready(state.inbound.last_outcome::<V>().unwrap()),
            );
            run(state, calls).poll_next::<V>() == repeated
        }),
    decreases calls.len(),
{
    if calls.len() > 0 {
        law_ended_stream_repeats(calls.first().apply(state), calls.drop_first());
    }
}

/// Termination. Once a poll for the next message has yielded the end of the
/// stream or a fault that is fatal to the inbound direction, every later
/// poll yields the identical outcome, whatever was called in between, and
/// the combinator is not asked again.
pub proof fn law_stream_end_is_final<U, V>(
    state: State,
    polled: StreamPolled<V>,
    calls: Seq<Call<U, V>>,
)
    requires
        ends_stream(state.on_next(polled).1),
    ensures
        ({
            let ended = state.on_next(polled).0;
            let later = run(ended, calls);
            let repeated: Step<(), StreamOutcome<V>> = Step::Done(state.on_next(polled).1);
            &&& later.inbound == ended.inbound
            &&& later.poll_next::<V>() == repeated
            &&& forall|late: StreamPolled<V>| #[trigger]
                later.on_next(late) == (later, state.on_next(polled).1)
        }),
{
    law_ended_stream_repeats(state.on_next(polled).0, calls);
}

/// The end of the sink is final. A sink that has ended, by a close or by a
/// fault, stays as it is whatever is called afterwards; it hands on no
/// further message, and it answers every operation at once: a ready-check
/// and an enqueue with the refusal, a flush and a close with the settled
/// result.
pub proof fn law_sink_end_is_final<U, V>(state: State, calls: Seq<Call<U, V>>)
    requires
        state.outbound.terminal(),
    ensures
        run(state, calls).outbound == state.outbound,
        forwarded(state, calls) == Seq::<U>::empty(),
        ({
            let later = run(state, calls);
            let refused: Result<(), TransportError> = Err(state.outbound.refusal().unwrap());
            let settled: Result<(), TransportError> = state.outbound.settled().unwrap();
            let refusing: Step<(), SinkOutcome> = Step::Done(Poll::Ready(refused));
            let settling: Step<(), SinkOutcome> = Step::Done(Poll::Ready(settled));
            let dropping: Step<U, Result<(), TransportError>> = Step::Done(refused);
            &&& later.poll_ready() == refusing
            &&& forall|item: U| #[trigger] later.start_send(item) == (later, dropping)
            &&& later.poll_flush() == settling
            &&& later.poll_close() == settling
        }),
    decreases calls.len(),
{
    if calls.len() > 0 {
        law_sink_end_is_final(calls.first().apply(state), calls.drop_first());
    }
}

/// Close is idempotent. The close of a live sink that the combinator
/// completes succeeds, and every close after it succeeds at once, without
/// the combinator being asked again, whatever was called in between.
pub proof fn law_close_is_idempotent<U, V>(state: State, calls: Seq<Call<U, V>>)
    requires
        !state.outbound.terminal(),
    ensures
        ({
            let asked: Step<(), SinkOutcome> = Step::Forward(());
            let success: SinkOutcome = Poll::Ready(Ok(()));
            let at_once: Step<(), SinkOutcome> = Step::Done(success);
            let first = state.on_closed(Poll::Ready(Ok(())));
            let later = run(first.0, calls);
            &&& state.poll_close() == asked
            &&& first.1 == success
            &&& later.poll_close() == at_once
            &&& later.outbound == (OutboundState::Closed { cause: None })
            &&& forall|late: SinkPolled| #[trigger] later.on_closed(late) == (later, success)
        }),
{
    law_sink_end_is_final::<U, V>(state.on_closed(Poll::Ready(Ok(()))).0, calls);
}

/// Cancellation safety, inbound. A poll for the next message that is
/// pending and then abandoned leaves no trace: a fresh poll is forwarded to
/// the combinator as if none had been started, and whatever the combinator
/// answers, the outcome and the state are those of a transport on which no
/// poll was ever abandoned. In particular a message that arrives is handed
/// over whole.
pub proof fn law_abandoned_poll_is_harmless<V>(state: State, polled: StreamPolled<V>)
    requires
        !state.inbound.terminal(),
    ensures
        ({
            let abandoned = state.on_next::<V>(Poll::Pending).0;
            let untouched = State { outbound: state.outbound, inbound: InboundState::AwaitingBytes };
            let asked: Step<(), StreamOutcome<V>> = Step::Forward(());
            &&& abandoned.outbound == state.outbound
            &&& abandoned.poll_next::<V>() == asked
            &&& abandoned.on_next(polled) == untouched.on_next(polled)
            &&& polled matches Poll::Ready(Some(Ok(message))) ==> {
                let whole: StreamOutcome<V> = Poll::Ready(Some(Ok(message)));
                abandoned.on_next(polled).1 == whole
            }
        }),
{
}

/// Cancellation safety, outbound. An abandoned ready-check, flush or close
/// leaves the sink usable. Whatever was pending when the caller gave up, a
/// fresh ready-check is forwarded to the combinator and, once that succeeds,
/// the next message is taken; a fresh flush is forwarded too. No message is
/// half-enqueued: an abandoned operation has handed on none.
pub proof fn law_abandoned_sink_poll_is_harmless<U>(state: State, item: U)
    requires
        !state.outbound.terminal(),
    ensures
        ({
            let asked: Step<(), SinkOutcome> = Step::Forward(());
            let taken: Step<U, Result<(), TransportError>> = Step::Forward(item);
            let half_ready = state.on_ready(Poll::Pending).0;
            let half_flushed = state.on_flushed(Poll::Pending).0;
            let half_closed = state.on_closed(Poll::Pending).0;
            &&& half_ready.poll_ready() == asked
            &&& half_flushed.poll_ready() == asked
            &&& half_closed.poll_ready() == asked
            &&& half_ready.poll_flush() == asked
            &&& half_flushed.poll_flush() == asked
            &&& half_closed.poll_flush() == asked
            &&& half_ready.on_ready(Poll::Ready(Ok(()))).0.start_send(item).1 == taken
            &&& half_flushed.on_ready(Poll::Ready(Ok(()))).0.start_send(item).1 == taken
            &&& half_closed.on_ready(Poll::Ready(Ok(()))).0.start_send(item).1 == taken
        }),
{
}

/// The consequences of a fault follow from its class alone. When a call
/// reports a fault on a direction that is alive, every direction to which
/// the class is fatal has ended afterwards, and a direction to which it is
/// not fatal has ended afterwards only if it had ended before.
pub proof fn law_fault_ends_what_its_class_says<U, V>(
    state: State,
    call: Call<U, V>,
    class: FaultClass,
)
    requires
        call.reports() == Some(class),
        call.outbound() ==> !state.outbound.terminal(),
        !call.outbound() ==> !state.inbound.terminal(),
    ensures
        class.fatal_to_outbound() ==> call.apply(state).outbound.terminal(),
        class.fatal_to_inbound() ==> call.apply(state).inbound.terminal(),
        !class.fatal_to_outbound() ==> call.apply(state).outbound.terminal()
            == state.outbound.terminal(),
        !class.fatal_to_inbound() ==> call.apply(state).inbound.terminal()
            == state.inbound.terminal(),
{
}

/// A fault surfaces at the operation that detected it. On a direction that
/// is alive, the answer to an operation on which the combinator reported a
/// fault is that fault, whatever its class.
pub proof fn law_fault_surfaces_at_once<V>(state: State, class: FaultClass)
    ensures
        ({
            let fault = TransportError::Fault(class);
            let failed: SinkOutcome = Poll::Ready(Err(fault));
            let refused: Result<(), TransportError> = Err(fault);
            let broken: StreamOutcome<V> = Poll::Ready(Some(Err(fault)));
            &&& !state.outbound.terminal() ==> {
                &&& state.on_ready(Poll::Ready(Err(class))).1 == failed
                &&& state.on_sent(Err(class)).1 == refused
                &&& state.on_flushed(Poll::Ready(Err(class))).1 == failed
                &&& state.on_closed(Poll::Ready(Err(class))).1 == failed
            }
            &&& !state.inbound.terminal() ==> state.on_next::<V>(Poll::Ready(Some(Err(class)))).1
                == broken
        }),
{
}

/// The directions share the channel and nothing else. A call on one
/// direction moves the other only by reporting a fault, and then only if
/// the fault is fatal to the other direction.
pub proof fn law_directions_share_only_faults<U, V>(state: State, call: Call<U, V>)
    ensures
        call.outbound() && !(call.reports() matches Some(class) && class.fatal_to_inbound())
            ==> call.apply(state).inbound == state.inbound,
        !call.outbound() && !(call.reports() matches Some(class) && class.fatal_to_outbound())
            ==> call.apply(state).outbound == state.outbound,
{
}

} // verus!
