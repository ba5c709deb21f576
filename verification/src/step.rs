//! The values that pass between the transport and the code that drives it.
//!
//! The transport never performs I/O. Each operation is asked of it first; it
//! either answers at once or says that the operation has to be forwarded to
//! the framed combinator. In the second case the driver performs the
//! operation on the combinator and reports what the combinator answered,
//! with every error reduced to its fault class.

use vstd::prelude::*;
use crate::fault::{FaultClass, TransportError};

verus! {

/// The answer to an operation that may have to wait.
#[derive(Debug, PartialEq, Eq)]
pub enum Poll<T> {
    /// The operation finished with this result.
    Ready(T),
    /// The operation has not finished. The combinator has registered the
    /// caller for a wake-up; the operation is to be asked again then.
    Pending,
}

/// What the transport decides when an operation is asked of it.
#[derive(Debug, PartialEq, Eq)]
pub enum Step<A, R> {
    /// Perform the operation on the framed combinator, with this argument, and
    /// report its answer.
    Forward(A),
    /// The operation is answered without touching the combinator.
    Done(R),
}

/// The combinator's answer to a ready-check, a flush or a close.
pub type SinkPolled = Poll<Result<(), FaultClass>>;

/// The transport's answer to a ready-check, a flush or a close.
pub type SinkOutcome = Poll<Result<(), TransportError>>;

/// The combinator's answer to a poll for the next inbound message.
pub type StreamPolled<V> = Poll<Option<Result<V, FaultClass>>>;

/// The transport's answer to a poll for the next inbound message.
pub type StreamOutcome<V> = Poll<Option<Result<V, TransportError>>>;

} // verus!
