//! Histories of a transport: what a sequence of calls does to it.
//!
//! A [`Call`] is one thing that changes a transport: an enqueue, or the
//! report of what the combinator answered to an operation. The laws of the
//! transport speak of every sequence of calls, in any order, well-behaved or
//! not.

use vstd::prelude::*;
use crate::fault::FaultClass;
use crate::state::State;
use crate::step::{Poll, SinkPolled, Step, StreamPolled};

verus! {

/// One call on a transport that sends `U` and receives `V`.
pub enum Call<U, V> {
    OnReady(SinkPolled),
    StartSend(U),
    OnSent(Result<(), FaultClass>),
    OnFlushed(SinkPolled),
    OnClosed(SinkPolled),
    OnNext(StreamPolled<V>),
}

impl<U, V> Call<U, V> {
    /// The state after the call.
    pub open spec fn apply(self, state: State) -> State {
        match self {
            Call::OnReady(polled) => state.on_ready(polled).0,
            Call::StartSend(item) => state.start_send(item).0,
            Call::OnSent(encoded) => state.on_sent(encoded).0,
            Call::OnFlushed(polled) => state.on_flushed(polled).0,
            Call::OnClosed(polled) => state.on_closed(polled).0,
            Call::OnNext(polled) => state.on_next(polled).0,
        }
    }

    /// The message that the call hands on to the combinator, if it does.
    pub open spec fn forwards(self, state: State) -> Option<U> {
        match self {
            Call::StartSend(item) => match state.start_send(item).1 {
                Step::Forward(message) => Some(message),
                Step::Done(_) => None,
            },
            _ => None,
        }
    }

    /// The message that the call hands to the caller, if it does.
    pub open spec fn delivers(self, state: State) -> Option<V> {
        match self {
            Call::OnNext(polled) => match state.on_next(polled).1 {
                Poll::Ready(Some(Ok(message))) => Some(message),
                _ => None,
            },
            _ => None,
        }
    }

    /// The message that the call offers to the sink, if it offers one.
    pub open spec fn offers(self) -> Option<U> {
        match self {
            Call::StartSend(item) => Some(item),
            _ => None,
        }
    }

    /// The message that the combinator yields with the call, if it yields
    /// one.
    pub open spec fn yields(self) -> Option<V> {
        match self {
            Call::OnNext(Poll::Ready(Some(Ok(message)))) => Some(message),
            _ => None,
        }
    }

    /// The call belongs to the outbound direction.
    pub open spec fn outbound(self) -> bool {
        !(self is OnNext)
    }

    /// The class of the fault that the call reports, if it reports one.
    pub open spec fn reports(self) -> Option<FaultClass> {
        match self {
            Call::OnReady(Poll::Ready(Err(class))) => Some(class),
            Call::OnSent(Err(class)) => Some(class),
            Call::OnFlushed(Poll::Ready(Err(class))) => Some(class),
            Call::OnClosed(Poll::Ready(Err(class))) => Some(class),
            Call::OnNext(Poll::Ready(Some(Err(class)))) => Some(class),
            _ => None,
        }
    }

    /// The call is a ready-check that the combinator answered with success.
    pub open spec fn grants(self) -> bool {
        self matches Call::OnReady(Poll::Ready(Ok(_)))
    }
}

/// The state after a sequence of calls.
pub open spec fn run<U, V>(state: State, calls: Seq<Call<U, V>>) -> State
    decreases calls.len(),
{
    if calls.len() == 0 {
        state
    } else {
        run(calls.first().apply(state), calls.drop_first())
    }
}

/// The messages that a sequence of calls hands on to the combinator, in the
/// order in which it does.
pub open spec fn forwarded<U, V>(state: State, calls: Seq<Call<U, V>>) -> Seq<U>
    decreases calls.len(),
{
    if calls.len() == 0 {
        Seq::empty()
    } else {
        let rest = forwarded(calls.first().apply(state), calls.drop_first());
        match calls.first().forwards(state) {
            Some(message) => seq![message] + rest,
            None => rest,
        }
    }
}

/// The messages that a sequence of calls hands to the caller, in the order
/// in which it does.
pub open spec fn delivered<U, V>(state: State, calls: Seq<Call<U, V>>) -> Seq<V>
    decreases calls.len(),
{
    if calls.len() == 0 {
        Seq::empty()
    } else {
        let rest = delivered(calls.first().apply(state), calls.drop_first());
        match calls.first().delivers(state) {
            Some(message) => seq![message] + rest,
            None => rest,
        }
    }
}

/// The messages that a sequence of calls offers to the sink, in the order in
/// which it does.
pub open spec fn offered<U, V>(calls: Seq<Call<U, V>>) -> Seq<U>
    decreases calls.len(),
{
    if calls.len() == 0 {
        Seq::empty()
    } else {
        match calls.first().offers() {
            Some(message) => seq![message] + offered(calls.drop_first()),
            None => offered(calls.drop_first()),
        }
    }
}

/// The messages that the combinator yields in a sequence of calls, in the
/// order in which it does.
pub open spec fn yielded<U, V>(calls: Seq<Call<U, V>>) -> Seq<V>
    decreases calls.len(),
{
    if calls.len() == 0 {
        Seq::empty()
    } else {
        match calls.first().yields() {
            Some(message) => seq![message] + yielded(calls.drop_first()),
            None => yielded(calls.drop_first()),
        }
    }
}

/// `part` is what is left of `whole` after some of its elements are struck
/// out: the same elements, in the same order, none of them twice.
pub open spec fn is_subsequence<T>(part: Seq<T>, whole: Seq<T>) -> bool
    decreases whole.len(),
{
    if part.len() == 0 {
        true
    } else if whole.len() == 0 {
        false
    } else {
        ||| part.first() == whole.first() && is_subsequence(part.drop_first(), whole.drop_first())
        ||| is_subsequence(part, whole.drop_first())
    }
}

/// A history in two parts ends where the second part ends, started where the
/// first ended; what it forwards and delivers is what the parts do, joined.
pub proof fn lemma_run_in_parts<U, V>(
    state: State,
    first: Seq<Call<U, V>>,
    second: Seq<Call<U, V>>,
)
    ensures
        run(state, first + second) == run(run(state, first), second),
        forwarded(state, first + second) == forwarded(state, first) + forwarded(
            run(state, first),
            second,
        ),
        delivered(state, first + second) == delivered(state, first) + delivered(
            run(state, first),
            second,
        ),
    decreases first.len(),
{
    if first.len() == 0 {
        assert(first + second =~= second);
        assert(forwarded(state, first) + forwarded(run(state, first), second) =~= forwarded(
            state,
            second,
        ));
        assert(delivered(state, first) + delivered(run(state, first), second) =~= delivered(
            state,
            second,
        ));
    } else {
        let whole = first + second;
        let next = first.first().apply(state);
        assert(whole.first() == first.first());
        assert(whole.drop_first() =~= first.drop_first() + second);
        lemma_run_in_parts(next, first.drop_first(), second);
        assert(forwarded(state, whole) =~= forwarded(state, first) + forwarded(
            run(state, first),
            second,
        ));
        assert(delivered(state, whole) =~= delivered(state, first) + delivered(
            run(state, first),
            second,
        ));
    }
}

} // verus!
