//! The transport as a state machine.
//!
//! Each operation of the transport has a question and a transition. The
//! question (`poll_ready`, `poll_flush`, `poll_close`, `poll_next`) is asked
//! of the state when the caller starts the operation: the state answers at
//! once, or says that the combinator has to be polled. The transition
//! (`on_ready`, `on_flushed`, `on_closed`, `on_next`) takes what the
//! combinator answered and gives the next state and what the caller is told.
//! An enqueue is a transition on both sides of the combinator: `start_send`
//! uses up the grant, `on_sent` takes the codec's result.
//!
//! The executable transport is specified by these functions, and the laws of
//! the transport are proved about them.

use vstd::prelude::*;
use crate::fault::{FaultClass, TransportError};
use crate::state::{InboundState, OutboundState, State};
use crate::step::{Poll, SinkOutcome, SinkPolled, Step, StreamOutcome, StreamPolled};

verus! {

impl State {
    /// A ready-check is asked. An ended sink refuses it; otherwise the
    /// combinator decides.
    pub open spec fn poll_ready(self) -> Step<(), SinkOutcome> {
        match self.outbound.refusal() {
            Some(error) => Step::Done(Poll::Ready(Err(error))),
            None => Step::Forward(()),
        }
    }

    /// The combinator answered a ready-check. Success grants one message.
    /// Anything else withdraws a grant that was still open.
    pub open spec fn on_ready(self, polled: SinkPolled) -> (State, SinkOutcome) {
        match self.outbound.refusal() {
            Some(error) => (self, Poll::Ready(Err(error))),
            None => match polled {
                Poll::Ready(Ok(())) => (
                    State { outbound: OutboundState::AcceptingOne, inbound: self.inbound },
                    Poll::Ready(Ok(())),
                ),
                Poll::Pending => (
                    State { outbound: self.outbound.without_permit(), inbound: self.inbound },
                    Poll::Pending,
                ),
                Poll::Ready(Err(class)) => (
                    self.struck(class, self.outbound.without_permit(), self.inbound),
                    Poll::Ready(Err(TransportError::Fault(class))),
                ),
            },
        }
    }

    /// A message is offered. It is handed on to the combinator, unchanged, if
    /// and only if a grant is open, and the grant is used up. Otherwise the
    /// message is refused and the state does not change.
    pub open spec fn start_send<U>(self, item: U) -> (State, Step<U, Result<(), TransportError>>) {
        match self.outbound {
            OutboundState::AcceptingOne => (
                State { outbound: OutboundState::Idle, inbound: self.inbound },
                Step::Forward(item),
            ),
            OutboundState::Closed { .. } => (self, Step::Done(Err(self.outbound.refusal().unwrap()))),
            _ => (self, Step::Done(Err(TransportError::NotReady))),
        }
    }

    /// The combinator answered an enqueue. A fault that the sink survives
    /// leaves it as it was.
    pub open spec fn on_sent(self, encoded: Result<(), FaultClass>) -> (State, Result<
        (),
        TransportError,
    >) {
        match self.outbound.refusal() {
            Some(error) => (self, Err(error)),
            None => match encoded {
                Ok(()) => (self, Ok(())),
                Err(class) => (
                    self.struck(class, self.outbound, self.inbound),
                    Err(TransportError::Fault(class)),
                ),
            },
        }
    }

    /// A flush is asked. An ended sink answers at once; otherwise the
    /// combinator decides.
    pub open spec fn poll_flush(self) -> Step<(), SinkOutcome> {
        match self.outbound.settled() {
            Some(result) => Step::Done(Poll::Ready(result)),
            None => Step::Forward(()),
        }
    }

    /// The combinator answered a flush. While the flush is pending the sink
    /// is flushing; it is idle once the flush has finished, with or without
    /// success. An open grant does not outlast a flush.
    pub open spec fn on_flushed(self, polled: SinkPolled) -> (State, SinkOutcome) {
        match self.outbound.settled() {
            Some(result) => (self, Poll::Ready(result)),
            None => match polled {
                Poll::Ready(Ok(())) => (
                    State { outbound: OutboundState::Idle, inbound: self.inbound },
                    Poll::Ready(Ok(())),
                ),
                Poll::Pending => (
                    State { outbound: OutboundState::Flushing, inbound: self.inbound },
                    Poll::Pending,
                ),
                Poll::Ready(Err(class)) => (
                    self.struck(class, OutboundState::Idle, self.inbound),
                    Poll::Ready(Err(TransportError::Fault(class))),
                ),
            },
        }
    }

    /// A close is asked. A close flushes first: what is asked of the state is
    /// what a flush asks.
    pub open spec fn poll_close(self) -> Step<(), SinkOutcome> {
        self.poll_flush()
    }

    /// The combinator answered a close. Success closes the sink for good;
    /// any other answer is taken as the answer to a flush.
    pub open spec fn on_closed(self, polled: SinkPolled) -> (State, SinkOutcome) {
        match polled {
            Poll::Ready(Ok(())) if !self.outbound.terminal() => (
                State { outbound: OutboundState::Closed { cause: None }, inbound: self.inbound },
                Poll::Ready(Ok(())),
            ),
            _ => self.on_flushed(polled),
        }
    }

    /// The next inbound message is asked for. An ended stream repeats its
    /// last outcome; otherwise the combinator decides.
    pub open spec fn poll_next<V>(self) -> Step<(), StreamOutcome<V>> {
        match self.inbound.last_outcome::<V>() {
            Some(outcome) => Step::Done(Poll::Ready(outcome)),
            None => Step::Forward(()),
        }
    }

    /// The combinator answered a poll for the next message. A message is
    /// handed to the caller unchanged, and the stream awaits bytes again.
    /// While the poll is pending a decode is under way. A fault hands over
    /// no message.
    pub open spec fn on_next<V>(self, polled: StreamPolled<V>) -> (State, StreamOutcome<V>) {
        match self.inbound.last_outcome::<V>() {
            Some(outcome) => (self, Poll::Ready(outcome)),
            None => match polled {
                Poll::Ready(Some(Ok(message))) => (
                    State { outbound: self.outbound, inbound: InboundState::AwaitingBytes },
                    Poll::Ready(Some(Ok(message))),
                ),
                Poll::Ready(None) => (
                    State { outbound: self.outbound, inbound: InboundState::Ended },
                    Poll::Ready(None),
                ),
                Poll::Pending => (
                    State { outbound: self.outbound, inbound: InboundState::Decoding },
                    Poll::Pending,
                ),
                Poll::Ready(Some(Err(class))) => (
                    self.struck(class, self.outbound, InboundState::AwaitingBytes),
                    Poll::Ready(Some(Err(TransportError::Fault(class)))),
                ),
            },
        }
    }
}

} // verus!
