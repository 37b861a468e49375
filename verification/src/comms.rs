//! Endpoint identifiers of the services that exchange messages.

use vstd::prelude::*;

verus! {

/// Services inside the embedded controller.
#[derive(Debug, Clone, Copy, PartialEq, Eq, Structural)]
pub enum Internal {
    Thermal,
    Power,
}

/// Parties outside the embedded controller.
#[derive(Debug, Clone, Copy, PartialEq, Eq, Structural)]
pub enum External {
    Host,
}

/// Address of a message endpoint.
#[derive(Debug, Clone, Copy, PartialEq, Eq, Structural)]
pub enum EndpointID {
    Internal(Internal),
    External(External),
}

} // verus!
