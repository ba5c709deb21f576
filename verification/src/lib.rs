//! A typed, bidirectional message transport over a secure byte channel.
//!
//! A [`NoiseTransport`] owns one framed combinator of a secure channel and a
//! codec, and guards it with the protocol of a message sink and a message
//! stream: readiness before every enqueue, flush and close, one terminal
//! outcome per direction, and the consequences of each class of fault.
//!
//! The transport decides; it performs no I/O. Every operation comes in two
//! halves: the first says whether the combinator has to be polled, the second
//! takes what the combinator answered. The decisions are stated over a small
//! mathematical model ([`State`]) and the laws of that model are proved in
//! [`laws`].

pub mod fault;
pub mod framed;
pub mod laws;
pub mod model;
pub mod state;
pub mod step;
pub mod trace;
pub mod transport;

pub use fault::{FaultClass, TransportError};
pub use state::{InboundState, OutboundState, State};
pub use step::{Poll, SinkOutcome, SinkPolled, Step, StreamOutcome, StreamPolled};
pub use transport::NoiseTransport;
