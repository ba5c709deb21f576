//! The protocol state of a transport: one state per direction.

use vstd::prelude::*;
use crate::fault::{FaultClass, TransportError};

verus! {

/// Where the outbound direction stands.
#[derive(Clone, Copy, Debug, PartialEq, Eq)]
pub enum OutboundState {
    /// No message may be enqueued before the next successful ready-check.
    Idle,
    /// The last ready-check succeeded: exactly one message may be enqueued.
    AcceptingOne,
    /// A flush or a close is pending: the combinator has been asked and has
    /// not finished it.
    Flushing,
    /// The direction has ended, by a close (`cause` is `None`) or by a fault
    /// that is fatal to it.
    Closed { cause: Option<FaultClass> },
}

/// Where the inbound direction stands.
#[derive(Clone, Copy, Debug, PartialEq, Eq)]
pub enum InboundState {
    /// No poll for the next message is pending.
    AwaitingBytes,
    /// A poll for the next message is pending: the combinator has been asked
    /// and may hold a part of a frame.
    Decoding,
    /// The peer closed the connection cleanly; no message will ever arrive.
    Ended,
    /// A fault that is fatal to the direction was reported.
    Faulted { class: FaultClass },
}

impl OutboundState {
    /// The direction has ended.
    pub open spec fn terminal(self) -> bool {
        self is Closed
    }

    /// The error with which an ended sink refuses a ready-check or a message;
    /// `None` while the direction is alive.
    pub open spec fn refusal(self) -> Option<TransportError> {
        match self {
            OutboundState::Closed { cause: None } => Some(TransportError::AlreadyClosed),
            OutboundState::Closed { cause: Some(class) } => Some(TransportError::Fault(class)),
            _ => None,
        }
    }

    /// The result with which an ended sink answers a flush or a close: after
    /// a close nothing is left to send, after a fault the fault stands.
    /// `None` while the direction is alive.
    pub open spec fn settled(self) -> Option<Result<(), TransportError>> {
        match self {
            OutboundState::Closed { cause: None } => Some(Ok(())),
            OutboundState::Closed { cause: Some(class) } => Some(Err(TransportError::Fault(class))),
            _ => None,
        }
    }

    /// The state after a ready-check that did not succeed: the permission to
    /// enqueue, if there was one, is gone.
    pub open spec fn without_permit(self) -> OutboundState {
        match self {
            OutboundState::AcceptingOne => OutboundState::Idle,
            other => other,
        }
    }
}

impl InboundState {
    /// The direction has ended.
    pub open spec fn terminal(self) -> bool {
        self is Ended || self is Faulted
    }

    /// The outcome that an ended stream repeats on every poll; `None` while
    /// the direction is alive.
    pub open spec fn last_outcome<V>(self) -> Option<Option<Result<V, TransportError>>> {
        match self {
            InboundState::Ended => Some(None),
            InboundState::Faulted { class } => Some(Some(Err(TransportError::Fault(class)))),
            _ => None,
        }
    }
}

/// The protocol state of a transport. The two directions share the channel,
/// not their queues: each has a state of its own.
#[derive(Clone, Copy, Debug, PartialEq, Eq)]
pub struct State {
    pub outbound: OutboundState,
    pub inbound: InboundState,
}

impl State {
    /// The state of a transport that has just been built.
    pub open spec fn initial() -> State {
        State { outbound: OutboundState::Idle, inbound: InboundState::AwaitingBytes }
    }

    /// The two directions agree about the faults they have seen:
    /// - the sink is closed by a fault only if the fault is fatal to it, and
    ///   then the stream has ended too;
    /// - the stream is faulted only by a fault that is fatal to it, and if the
    ///   fault is fatal to the sink as well, the sink is closed.
    pub open spec fn wf(self) -> bool {
        &&& self.outbound matches OutboundState::Closed { cause: Some(class) } ==> {
            &&& class.fatal_to_outbound()
            &&& self.inbound.terminal()
        }
        &&& self.inbound matches InboundState::Faulted { class } ==> {
            &&& class.fatal_to_inbound()
            &&& class.fatal_to_outbound() ==> self.outbound.terminal()
        }
    }

    /// The state after a fault of `class` was reported. A direction that has
    /// ended stays as it is. A direction to which the fault is fatal ends
    /// with it. A direction that survives goes to the state given for it.
    pub open spec fn struck(
        self,
        class: FaultClass,
        outbound_else: OutboundState,
        inbound_else: InboundState,
    ) -> State {
        State {
            outbound: if self.outbound.terminal() {
                self.outbound
            } else if class.fatal_to_outbound() {
                OutboundState::Closed { cause: Some(class) }
            } else {
                outbound_else
            },
            inbound: if self.inbound.terminal() {
                self.inbound
            } else if class.fatal_to_inbound() {
                InboundState::Faulted { class }
            } else {
                inbound_else
            },
        }
    }
}

} // verus!
