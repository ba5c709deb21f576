//! The fault taxonomy of the transport.
//!
//! Every failure that the collaborators of a transport can report belongs to
//! one of four classes. The class alone decides which directions of the
//! transport survive the failure.

use vstd::prelude::*;

verus! {

/// The class of a failure reported by the codec or by the secure channel.
#[derive(Clone, Copy, Debug, PartialEq, Eq)]
pub enum FaultClass {
    /// An outbound value could not be encoded. Nothing was queued and no
    /// direction ends; the caller may try again with another value.
    Serialization,
    /// The byte transport under the secure channel failed. Both directions
    /// end.
    ChannelIo,
    /// The secure channel found inbound bytes that fail its cryptographic
    /// validation. Both directions end. The class is kept apart from
    /// `ChannelIo` so that a caller can treat it as a possible attack.
    Integrity,
    /// The codec could not find a valid message boundary in otherwise healthy
    /// bytes. The inbound direction ends; the outbound direction goes on.
    Frame,
}

impl FaultClass {
    /// A fault of this class ends the outbound direction.
    pub open spec fn fatal_to_outbound(self) -> bool {
        self is ChannelIo || self is Integrity
    }

    /// A fault of this class ends the inbound direction.
    pub open spec fn fatal_to_inbound(self) -> bool {
        !(self is Serialization)
    }

    /// Whether a fault of this class ends the outbound direction.
    pub fn is_fatal_to_outbound(self) -> (fatal: bool)
        ensures
            fatal == self.fatal_to_outbound(),
    {
        match self {
            FaultClass::ChannelIo => true,
            FaultClass::Integrity => true,
            FaultClass::Serialization => false,
            FaultClass::Frame => false,
        }
    }

    /// Whether a fault of this class ends the inbound direction.
    pub fn is_fatal_to_inbound(self) -> (fatal: bool)
        ensures
            fatal == self.fatal_to_inbound(),
    {
        match self {
            FaultClass::Serialization => false,
            _ => true,
        }
    }
}

/// An error that the transport hands to its caller.
#[derive(Clone, Copy, Debug, PartialEq, Eq)]
pub enum TransportError {
    /// A collaborator reported a fault of this class, now or, for a direction
    /// that a fatal fault has ended, at some earlier operation.
    Fault(FaultClass),
    /// A message was offered without a successful ready-check directly before
    /// it.
    NotReady,
    /// The sink was closed by the caller; it takes no more messages.
    AlreadyClosed,
}

} // verus!
