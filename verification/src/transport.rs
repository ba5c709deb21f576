//! The transport: a framed combinator under the guard of the protocol state.

use vstd::prelude::*;
use core::marker::PhantomData;
use tokio_util::codec::Framed;
use crate::fault::{FaultClass, TransportError};
use crate::state::{InboundState, OutboundState, State};
use crate::step::{Poll, SinkOutcome, SinkPolled, Step, StreamOutcome, StreamPolled};

verus! {

/// A bidirectional message transport over a secure channel `S` with a codec
/// `C`. It sends messages of type `U` and receives messages of type `V`; the
/// two types need not be related.
///
/// The transport owns its framed combinator. It performs no I/O itself: the
/// driver asks each operation of the transport first, polls the combinator
/// (reached through [`NoiseTransport::framed_mut`]) only when the answer is
/// [`Step::Forward`], and reports what the combinator said to the matching
/// `on_` function.
#[verifier::reject_recursive_types(S)]
#[verifier::reject_recursive_types(C)]
pub struct NoiseTransport<S, C, U, V> {
    framed: Framed<S, C>,
    guard: Guard,
    messages: PhantomData<(U, V)>,
}

/// The protocol state, kept well-formed.
struct Guard {
    state: State,
}

impl Guard {
    #[verifier::type_invariant]
    spec fn inv(self) -> bool {
        self.state.wf()
    }
}

/// The state after a fault, computed.
fn strike(
    state: State,
    class: FaultClass,
    outbound_else: OutboundState,
    inbound_else: InboundState,
) -> (next: State)
    ensures
        next == state.struck(class, outbound_else, inbound_else),
{
    let outbound = match state.outbound {
        OutboundState::Closed { cause } => OutboundState::Closed { cause },
        _ => if class.is_fatal_to_outbound() {
            OutboundState::Closed { cause: Some(class) }
        } else {
            outbound_else
        },
    };
    let inbound = match state.inbound {
        InboundState::Ended => InboundState::Ended,
        InboundState::Faulted { class: first } => InboundState::Faulted { class: first },
        _ => if class.is_fatal_to_inbound() {
            InboundState::Faulted { class }
        } else {
            inbound_else
        },
    };
    State { outbound, inbound }
}

impl<S, C, U, V> NoiseTransport<S, C, U, V> {
    /// The protocol state.
    pub closed spec fn state(&self) -> State {
        self.guard.state
    }

    /// The framed combinator that the transport owns.
    pub closed spec fn combinator(&self) -> Framed<S, C> {
        self.framed
    }

    /// Builds a transport over a secure channel whose handshake is complete,
    /// with a fresh codec. Both directions start at rest.
    pub fn new(socket: S) -> (transport: Self) where C: Default
        ensures
            transport.state() == State::initial(),
            transport.state().wf(),
    {
        NoiseTransport {
            framed: Framed::new(socket, C::default()),
            guard: Guard {
                state: State { outbound: OutboundState::Idle, inbound: InboundState::AwaitingBytes },
            },
            messages: PhantomData,
        }
    }

    /// The codec, for a look at its configuration.
    pub fn codec(&self) -> (codec: &C) {
        self.framed.codec()
    }

    /// The codec, for a change of its configuration. The protocol state is
    /// out of its reach.
    pub fn codec_mut(&mut self) -> (codec: &mut C)
        ensures
            final(self).state() == old(self).state(),
    {
        self.framed.codec_mut()
    }

    /// The secure channel, for a look at what the handshake established.
    pub fn get_ref(&self) -> (socket: &S) {
        self.framed.get_ref()
    }

    /// The secure channel, mutably. The protocol state is out of its reach.
    pub fn get_mut(&mut self) -> (socket: &mut S)
        ensures
            final(self).state() == old(self).state(),
    {
        self.framed.get_mut()
    }

    /// The framed combinator, for the driver to poll after a
    /// [`Step::Forward`]. The protocol state is out of its reach.
    pub fn framed_mut(&mut self) -> (framed: &mut Framed<S, C>)
        ensures
            *framed == old(self).combinator(),
            final(self).combinator() == *final(framed),
            final(self).state() == old(self).state(),
    {
        &mut self.framed
    }

    /// Where the outbound direction stands.
    pub fn outbound_state(&self) -> (outbound: OutboundState)
        ensures
            outbound == self.state().outbound,
    {
        self.guard.state.outbound
    }

    /// Where the inbound direction stands.
    pub fn inbound_state(&self) -> (inbound: InboundState)
        ensures
            inbound == self.state().inbound,
    {
        self.guard.state.inbound
    }
}

/// The outbound capability: ready-check, enqueue, flush, close.
impl<S, C, U, V> NoiseTransport<S, C, U, V> {
    /// Asks whether the sink can take a message. An ended sink refuses with
    /// the error that ended it; otherwise the combinator has to be asked, and
    /// its answer goes to [`NoiseTransport::on_ready`].
    pub fn poll_ready(&self) -> (step: Step<(), SinkOutcome>)
        ensures
            step == self.state().poll_ready(),
    {
        match self.guard.state.outbound {
            OutboundState::Closed { cause: None } => Step::Done(
                Poll::Ready(Err(TransportError::AlreadyClosed)),
            ),
            OutboundState::Closed { cause: Some(class) } => Step::Done(
                Poll::Ready(Err(TransportError::Fault(class))),
            ),
            _ => Step::Forward(()),
        }
    }

    /// Takes the combinator's answer to a ready-check.
    pub fn on_ready(&mut self, polled: SinkPolled) -> (outcome: SinkOutcome)
        ensures
            final(self).state() == old(self).state().on_ready(polled).0,
            outcome == old(self).state().on_ready(polled).1,
            final(self).state().wf(),
            final(self).combinator() == old(self).combinator(),
    {
        proof {
            use_type_invariant(&self.guard);
        }
        let state = self.guard.state;
        let lapsed = match state.outbound {
            OutboundState::AcceptingOne => OutboundState::Idle,
            other => other,
        };
        match state.outbound {
            OutboundState::Closed { cause: None } => Poll::Ready(Err(TransportError::AlreadyClosed)),
            OutboundState::Closed { cause: Some(class) } => Poll::Ready(
                Err(TransportError::Fault(class)),
            ),
            _ => match polled {
                Poll::Ready(Ok(())) => {
                    self.guard = Guard {
                        state: State {
                            outbound: OutboundState::AcceptingOne,
                            inbound: state.inbound,
                        },
                    };
                    Poll::Ready(Ok(()))
                },
                Poll::Pending => {
                    self.guard = Guard { state: State { outbound: lapsed, inbound: state.inbound } };
                    Poll::Pending
                },
                Poll::Ready(Err(class)) => {
                    self.guard = Guard { state: strike(state, class, lapsed, state.inbound) };
                    Poll::Ready(Err(TransportError::Fault(class)))
                },
            },
        }
    }

    /// Offers a message. With a grant open the message comes back inside
    /// [`Step::Forward`], to be given to the combinator's `start_send`, whose
    /// result goes to [`NoiseTransport::on_sent`]. Without one the message is
    /// refused and dropped.
    pub fn start_send(&mut self, item: U) -> (step: Step<U, Result<(), TransportError>>)
        ensures
            final(self).state() == old(self).state().start_send(item).0,
            step == old(self).state().start_send(item).1,
            final(self).state().wf(),
            final(self).combinator() == old(self).combinator(),
    {
        proof {
            use_type_invariant(&self.guard);
        }
        let state = self.guard.state;
        match state.outbound {
            OutboundState::AcceptingOne => {
                self.guard = Guard {
                    state: State { outbound: OutboundState::Idle, inbound: state.inbound },
                };
                Step::Forward(item)
            },
            OutboundState::Closed { cause: None } => Step::Done(Err(TransportError::AlreadyClosed)),
            OutboundState::Closed { cause: Some(class) } => Step::Done(
                Err(TransportError::Fault(class)),
            ),
            _ => Step::Done(Err(TransportError::NotReady)),
        }
    }

    /// Takes the combinator's answer to an enqueue.
    pub fn on_sent(&mut self, encoded: Result<(), FaultClass>) -> (outcome: Result<
        (),
        TransportError,
    >)
        ensures
            final(self).state() == old(self).state().on_sent(encoded).0,
            outcome == old(self).state().on_sent(encoded).1,
            final(self).state().wf(),
            final(self).combinator() == old(self).combinator(),
    {
        proof {
            use_type_invariant(&self.guard);
        }
        let state = self.guard.state;
        match state.outbound {
            OutboundState::Closed { cause: None } => Err(TransportError::AlreadyClosed),
            OutboundState::Closed { cause: Some(class) } => Err(TransportError::Fault(class)),
            _ => match encoded {
                Ok(()) => Ok(()),
                Err(class) => {
                    self.guard = Guard { state: strike(state, class, state.outbound, state.inbound) };
                    Err(TransportError::Fault(class))
                },
            },
        }
    }

    /// Asks for a flush. An ended sink answers at once: with success after a
    /// close, with the fault after a fault. Otherwise the combinator has to
    /// be asked, and its answer goes to [`NoiseTransport::on_flushed`].
    pub fn poll_flush(&self) -> (step: Step<(), SinkOutcome>)
        ensures
            step == self.state().poll_flush(),
    {
        match self.guard.state.outbound {
            OutboundState::Closed { cause: None } => Step::Done(Poll::Ready(Ok(()))),
            OutboundState::Closed { cause: Some(class) } => Step::Done(
                Poll::Ready(Err(TransportError::Fault(class))),
            ),
            _ => Step::Forward(()),
        }
    }

    /// Takes the combinator's answer to a flush.
    pub fn on_flushed(&mut self, polled: SinkPolled) -> (outcome: SinkOutcome)
        ensures
            final(self).state() == old(self).state().on_flushed(polled).0,
            outcome == old(self).state().on_flushed(polled).1,
            final(self).state().wf(),
            final(self).combinator() == old(self).combinator(),
    {
        self.settle(polled, OutboundState::Idle)
    }

    /// Asks for a close. An ended sink answers at once, as for a flush.
    /// Otherwise the combinator has to be asked, and its answer goes to
    /// [`NoiseTransport::on_closed`].
    pub fn poll_close(&self) -> (step: Step<(), SinkOutcome>)
        ensures
            step == self.state().poll_close(),
    {
        self.poll_flush()
    }

    /// Takes the combinator's answer to a close.
    pub fn on_closed(&mut self, polled: SinkPolled) -> (outcome: SinkOutcome)
        ensures
            final(self).state() == old(self).state().on_closed(polled).0,
            outcome == old(self).state().on_closed(polled).1,
            final(self).state().wf(),
            final(self).combinator() == old(self).combinator(),
    {
        self.settle(polled, OutboundState::Closed { cause: None })
    }

    /// Takes the answer to a flush or a close; `finished` is where a live
    /// sink stands once the operation has succeeded.
    fn settle(&mut self, polled: SinkPolled, finished: OutboundState) -> (outcome: SinkOutcome)
        requires
            finished == OutboundState::Idle || finished == (OutboundState::Closed { cause: None }),
        ensures
            finished == OutboundState::Idle ==> {
                &&& final(self).state() == old(self).state().on_flushed(polled).0
                &&& outcome == old(self).state().on_flushed(polled).1
            },
            finished != OutboundState::Idle ==> {
                &&& final(self).state() == old(self).state().on_closed(polled).0
                &&& outcome == old(self).state().on_closed(polled).1
            },
            final(self).state().wf(),
            final(self).combinator() == old(self).combinator(),
    {
        proof {
            use_type_invariant(&self.guard);
        }
        let state = self.guard.state;
        match state.outbound {
            OutboundState::Closed { cause: None } => Poll::Ready(Ok(())),
            OutboundState::Closed { cause: Some(class) } => Poll::Ready(
                Err(TransportError::Fault(class)),
            ),
            _ => match polled {
                Poll::Ready(Ok(())) => {
                    self.guard = Guard { state: State { outbound: finished, inbound: state.inbound } };
                    Poll::Ready(Ok(()))
                },
                Poll::Pending => {
                    self.guard = Guard {
                        state: State { outbound: OutboundState::Flushing, inbound: state.inbound },
                    };
                    Poll::Pending
                },
                Poll::Ready(Err(class)) => {
                    self.guard = Guard {
                        state: strike(state, class, OutboundState::Idle, state.inbound),
                    };
                    Poll::Ready(Err(TransportError::Fault(class)))
                },
            },
        }
    }
}

/// The inbound capability: the next message.
impl<S, C, U, V> NoiseTransport<S, C, U, V> {
    /// Asks for the next inbound message. An ended stream repeats its last
    /// outcome, no message after a clean end, the fault after a fault.
    /// Otherwise the combinator has to be asked, and its answer goes to
    /// [`NoiseTransport::on_next`].
    pub fn poll_next(&self) -> (step: Step<(), StreamOutcome<V>>)
        ensures
            step == self.state().poll_next::<V>(),
    {
        match self.guard.state.inbound {
            InboundState::Ended => Step::Done(Poll::Ready(None)),
            InboundState::Faulted { class } => Step::Done(
                Poll::Ready(Some(Err(TransportError::Fault(class)))),
            ),
            _ => Step::Forward(()),
        }
    }

    /// Takes the combinator's answer to a poll for the next message.
    pub fn on_next(&mut self, polled: StreamPolled<V>) -> (outcome: StreamOutcome<V>)
        ensures
            final(self).state() == old(self).state().on_next(polled).0,
            outcome == old(self).state().on_next(polled).1,
            final(self).state().wf(),
            final(self).combinator() == old(self).combinator(),
    {
        proof {
            use_type_invariant(&self.guard);
        }
        let state = self.guard.state;
        match state.inbound {
            InboundState::Ended => Poll::Ready(None),
            InboundState::Faulted { class } => Poll::Ready(Some(Err(TransportError::Fault(class)))),
            _ => match polled {
                Poll::Ready(Some(Ok(message))) => {
                    self.guard = Guard {
                        state: State {
                            outbound: state.outbound,
                            inbound: InboundState::AwaitingBytes,
                        },
                    };
                    Poll::Ready(Some(Ok(message)))
                },
                Poll::Ready(None) => {
                    self.guard = Guard {
                        state: State { outbound: state.outbound, inbound: InboundState::Ended },
                    };
                    Poll::Ready(None)
                },
                Poll::Pending => {
                    self.guard = Guard {
                        state: State { outbound: state.outbound, inbound: InboundState::Decoding },
                    };
                    Poll::Pending
                },
                Poll::Ready(Some(Err(class))) => {
                    self.guard = Guard {
                        state: strike(state, class, state.outbound, InboundState::AwaitingBytes),
                    };
                    Poll::Ready(Some(Err(TransportError::Fault(class))))
                },
            },
        }
    }
}

} // verus!
