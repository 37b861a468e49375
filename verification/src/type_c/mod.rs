//! USB Type-C port controllers: port events and port status.

pub mod tps6699x;

use vstd::prelude::*;

verus! {

/// Errors of the USB-PD layer.
#[derive(Debug, Clone, Copy, PartialEq, Eq, Structural)]
pub enum PdError {
    /// The port does not exist.
    InvalidPort,
    /// The parameters are invalid.
    InvalidParams,
}

/// Kinds of events pending on a port.
#[derive(Debug, Clone, Copy, PartialEq, Eq, Structural)]
pub struct PortEventKind {
    /// A plug was inserted or removed.
    pub plug_inserted_or_removed: bool,
    /// A new power contract as provider.
    pub new_power_contract_as_provider: bool,
    /// A new power contract as consumer.
    pub new_power_contract_as_consumer: bool,
}

/// Every kind pending on either `a` or `b`.
pub open spec fn event_union(a: PortEventKind, b: PortEventKind) -> PortEventKind {
    PortEventKind {
        plug_inserted_or_removed: a.plug_inserted_or_removed || b.plug_inserted_or_removed,
        new_power_contract_as_provider: a.new_power_contract_as_provider
            || b.new_power_contract_as_provider,
        new_power_contract_as_consumer: a.new_power_contract_as_consumer
            || b.new_power_contract_as_consumer,
    }
}

/// No event pending.
pub open spec fn no_event() -> PortEventKind {
    PortEventKind {
        plug_inserted_or_removed: false,
        new_power_contract_as_provider: false,
        new_power_contract_as_consumer: false,
    }
}

impl PortEventKind {
    /// No event.
    pub fn none() -> (r: Self)
        ensures
            r == no_event(),
    {
        PortEventKind {
            plug_inserted_or_removed: false,
            new_power_contract_as_provider: false,
            new_power_contract_as_consumer: false,
        }
    }

    /// Every kind pending on either event.
    pub fn union(self, other: Self) -> (r: Self)
        ensures
            r == event_union(self, other),
    {
        PortEventKind {
            plug_inserted_or_removed: self.plug_inserted_or_removed || other.plug_inserted_or_removed,
            new_power_contract_as_provider: self.new_power_contract_as_provider
                || other.new_power_contract_as_provider,
            new_power_contract_as_consumer: self.new_power_contract_as_consumer
                || other.new_power_contract_as_consumer,
        }
    }
}

/// Power a port can source or sink.
#[derive(Debug, Clone, Copy, PartialEq, Eq, Structural)]
pub struct PowerCapability {
    /// Voltage, in mV
    pub voltage_mv: u16,
    /// Current, in mA
    pub current_ma: u16,
}

/// Status of a port.
#[derive(Debug, Clone, Copy, PartialEq, Eq, Structural)]
pub struct PortStatus {
    /// A valid connection is present
    pub connection_present: bool,
    /// The connection is a debug accessory
    pub debug_connection: bool,
    /// Power the port can source, under the current contract
    pub available_source_contract: Option<PowerCapability>,
    /// Power the port can sink, under the current contract
    pub available_sink_contract: Option<PowerCapability>,
    /// The partner is dual-role power
    pub dual_power: bool,
}

/// The status of a port with nothing connected.
pub open spec fn default_status() -> PortStatus {
    PortStatus {
        connection_present: false,
        debug_connection: false,
        available_source_contract: None,
        available_sink_contract: None,
        dual_power: false,
    }
}

impl PortStatus {
    /// The status of a port with nothing connected.
    pub fn new() -> (r: Self)
        ensures
            r == default_status(),
    {
        PortStatus {
            connection_present: false,
            debug_connection: false,
            available_source_contract: None,
            available_sink_contract: None,
            dual_power: false,
        }
    }
}

/// Law: a port with nothing connected has no connection, no contract and
/// no dual-role partner; no pending event means no kind of event, and adding
/// it to pending events changes nothing.
pub proof fn lemma_idle_port(pending: PortEventKind)
    ensures
        !default_status().connection_present,
        !default_status().debug_connection,
        default_status().available_source_contract is None,
        default_status().available_sink_contract is None,
        !default_status().dual_power,
        !no_event().plug_inserted_or_removed,
        !no_event().new_power_contract_as_provider,
        !no_event().new_power_contract_as_consumer,
        event_union(pending, no_event()) == pending,
        event_union(pending, pending) == pending,
        event_union(pending, no_event()) == event_union(no_event(), pending),
{
}

/// Whether two contracts are the same: both absent, or both present with
/// the same voltage and current.
pub(crate) fn same_contract(a: Option<PowerCapability>, b: Option<PowerCapability>) -> (r: bool)
    ensures
        r == (a == b),
{
    match (a, b) {
        (None, None) => true,
        (Some(x), Some(y)) => x.voltage_mv == y.voltage_mv && x.current_ma == y.current_ma,
        _ => false,
    }
}

} // verus!
