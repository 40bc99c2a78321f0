//! Identifiers and directions assigned to replicated types.

use vstd::prelude::*;

verus! {

/// Unique identifier of a registered type: dense, assigned in registration order.
#[derive(Debug, Clone, Copy, PartialEq, Eq, Structural, PartialOrd, Ord, Hash)]
pub struct RegistrationId(pub usize);

impl View for RegistrationId {
    type V = nat;

    open spec fn view(&self) -> nat {
        self.0 as nat
    }
}

impl RegistrationId {
    /// The numeric value of the identifier.
    pub fn inner(&self) -> (value: usize)
        ensures
            value == self.0,
            value == self@,
    {
        self.0
    }

    /// The identifier with the given numeric value.
    pub fn new_with(id: usize) -> (reg_id: Self)
        ensures
            reg_id.0 == id,
            reg_id@ == id,
    {
        RegistrationId(id)
    }
}

/// Who may send and who may receive a registered type.
#[derive(Debug, Clone, Copy, PartialEq, Eq, Structural, Hash)]
pub enum ReplicateDirection {
    /// The type is received from the peer and applied locally.
    Incoming,
    /// The type is sent to the peer.
    Outgoing,
    /// The type is both sent and received.
    Bidirectional,
}

impl ReplicateDirection {
    /// Whether a type registered with this direction may be received.
    pub open spec fn permits_incoming(self) -> bool {
        self != ReplicateDirection::Outgoing
    }

    /// Whether a type registered with this direction may be sent.
    pub open spec fn permits_outgoing(self) -> bool {
        self != ReplicateDirection::Incoming
    }

    /// Whether a type registered with this direction may be received.
    pub fn is_incoming(&self) -> (incoming: bool)
        ensures
            incoming == self.permits_incoming(),
    {
        match self {
            ReplicateDirection::Incoming => true,
            ReplicateDirection::Outgoing => false,
            ReplicateDirection::Bidirectional => true,
        }
    }

    /// Whether a type registered with this direction may be sent.
    pub fn is_outgoing(&self) -> (outgoing: bool)
        ensures
            outgoing == self.permits_outgoing(),
    {
        match self {
            ReplicateDirection::Incoming => false,
            ReplicateDirection::Outgoing => true,
            ReplicateDirection::Bidirectional => true,
        }
    }
}

} // verus!
