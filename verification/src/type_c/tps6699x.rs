//! Port bookkeeping and port-status decisions of a TPS6699x USB-PD
//! controller driver.
//!
//! The driver keeps, per port, the pending events and the last status read.
//! Register reads and the decoding of PDOs and Type-C currents into power
//! capabilities are done by the caller; the functions here decide
//! which information is needed and what status and events follow from it.

use crate::type_c::{
    default_status, event_union, no_event, same_contract, PdError, PortEventKind, PortStatus,
    PowerCapability,
};
use vstd::prelude::*;

verus! {

/// How a plug is attached, as the controller reports it.
#[derive(Debug, Clone, Copy, PartialEq, Eq, Structural)]
pub enum ConnectionState {
    /// No valid connection (not connected, disabled or any other state).
    NotConnected,
    /// Audio accessory.
    Audio,
    /// Debug accessory.
    Debug,
    /// Connected, no Ra.
    ConnectedNoRa,
    /// Connected.
    Connected,
}

/// Whether the plug state is a valid connection.
pub open spec fn valid_connection(mode: ConnectionState) -> bool {
    mode is Audio || mode is Debug || mode is ConnectedNoRa || mode is Connected
}

/// Whether a connection is present: a plug is present and its state is a
/// valid connection.
pub open spec fn spec_connection_present(plug_present: bool, mode: ConnectionState) -> bool {
    plug_present && valid_connection(mode)
}

/// Whether a connection is present; the contract registers are read only
/// then.
pub fn connection_present(plug_present: bool, mode: ConnectionState) -> (r: bool)
    ensures
        r == spec_connection_present(plug_present, mode),
{
    let valid = match mode {
        ConnectionState::Audio | ConnectionState::Debug | ConnectionState::ConnectedNoRa
        | ConnectionState::Connected => true,
        ConnectionState::NotConnected => false,
    };
    plug_present && valid
}

/// The kind of power contract of a connected port, which tells what has to
/// be decoded to describe it.
#[derive(Debug, Clone, Copy, PartialEq, Eq, Structural)]
pub enum ContractKind {
    /// Explicit contract, port is source: decode the active PDO as a source PDO.
    ExplicitSource,
    /// Explicit contract, port is sink: decode the active PDO as a sink PDO.
    ExplicitSink,
    /// Implicit contract as source: decode the Type-C current the port advertises.
    ImplicitSource,
    /// Implicit contract as sink, no pull-up: no contract.
    ImplicitSinkNoPull,
    /// Implicit contract as sink: decode the Type-C current of the pull-up.
    ImplicitSink,
}

/// The contract kind, from the raw active PDO and RDO, the PD role and
/// whether the partner presents a CC pull-up.
pub open spec fn spec_contract_kind(pdo_raw: u32, rdo_raw: u32, is_source: bool, pull_up: bool) -> ContractKind {
    if pdo_raw != 0 && rdo_raw != 0 {
        if is_source {
            ContractKind::ExplicitSource
        } else {
            ContractKind::ExplicitSink
        }
    } else if is_source {
        ContractKind::ImplicitSource
    } else if !pull_up {
        ContractKind::ImplicitSinkNoPull
    } else {
        ContractKind::ImplicitSink
    }
}

/// The contract kind of a connected port.
pub fn contract_kind(pdo_raw: u32, rdo_raw: u32, is_source: bool, pull_up: bool) -> (r: ContractKind)
    ensures
        r == spec_contract_kind(pdo_raw, rdo_raw, is_source, pull_up),
{
    if pdo_raw != 0 && rdo_raw != 0 {
        if is_source {
            ContractKind::ExplicitSource
        } else {
            ContractKind::ExplicitSink
        }
    } else if is_source {
        ContractKind::ImplicitSource
    } else if !pull_up {
        ContractKind::ImplicitSinkNoPull
    } else {
        ContractKind::ImplicitSink
    }
}

/// What decoding the contract gave: a power capability (with, for PDOs,
/// whether the partner is dual-role), or the decoding error `E`.
pub enum Contract<E> {
    ExplicitSource(Result<(PowerCapability, bool), E>),
    ExplicitSink(Result<(PowerCapability, bool), E>),
    ImplicitSource(Result<PowerCapability, E>),
    ImplicitSinkNoPull,
    ImplicitSink(Result<PowerCapability, E>),
}

/// The kind a decoded contract is of.
pub open spec fn kind_of<E>(c: Contract<E>) -> ContractKind {
    match c {
        Contract::ExplicitSource(_) => ContractKind::ExplicitSource,
        Contract::ExplicitSink(_) => ContractKind::ExplicitSink,
        Contract::ImplicitSource(_) => ContractKind::ImplicitSource,
        Contract::ImplicitSinkNoPull => ContractKind::ImplicitSinkNoPull,
        Contract::ImplicitSink(_) => ContractKind::ImplicitSink,
    }
}

/// The status of a port and the events detected, or the decoding error,
/// given the status recorded for the port by the previous reading
/// (`cached`). With no connection the status is the default one. The
/// controller raises no interrupt for an implicit contract, so an implicit
/// contract that differs from the one recorded for the port's role is
/// reported as a new contract; a sink without pull-up has no contract and
/// reports none.
pub open spec fn spec_port_status<E>(
    plug_present: bool,
    mode: ConnectionState,
    contract: Option<Contract<E>>,
    cached: PortStatus,
) -> Result<(PortStatus, PortEventKind), E> {
    if !spec_connection_present(plug_present, mode) {
        Ok((default_status(), no_event()))
    } else {
        let base = PortStatus {
            connection_present: true,
            debug_connection: mode is Debug,
            ..default_status()
        };
        match contract {
            Some(Contract::ExplicitSource(Ok((cap, dual)))) => Ok(
                (PortStatus { available_source_contract: Some(cap), dual_power: dual, ..base }, no_event()),
            ),
            Some(Contract::ExplicitSink(Ok((cap, dual)))) => Ok(
                (PortStatus { available_sink_contract: Some(cap), dual_power: dual, ..base }, no_event()),
            ),
            Some(Contract::ImplicitSource(Ok(cap))) => Ok(
                (
                    PortStatus { available_source_contract: Some(cap), ..base },
                    PortEventKind {
                        new_power_contract_as_provider: Some(cap) != cached.available_source_contract,
                        ..no_event()
                    },
                ),
            ),
            Some(Contract::ImplicitSink(Ok(cap))) => Ok(
                (
                    PortStatus { available_sink_contract: Some(cap), ..base },
                    PortEventKind {
                        new_power_contract_as_consumer: Some(cap) != cached.available_sink_contract,
                        ..no_event()
                    },
                ),
            ),
            Some(Contract::ExplicitSource(Err(e))) => Err(e),
            Some(Contract::ExplicitSink(Err(e))) => Err(e),
            Some(Contract::ImplicitSource(Err(e))) => Err(e),
            Some(Contract::ImplicitSink(Err(e))) => Err(e),
            _ => Ok((base, no_event())),
        }
    }
}

/// The status of a port and the events detected, from whether a plug is
/// present, the plug state, for a connected port the decoded contract, and
/// the status recorded for the port by the previous reading.
pub fn port_status<E>(
    plug_present: bool,
    mode: ConnectionState,
    contract: Option<Contract<E>>,
    cached: &PortStatus,
) -> (r: Result<(PortStatus, PortEventKind), E>)
    requires
        contract is Some <==> spec_connection_present(plug_present, mode),
    ensures
        r == spec_port_status(plug_present, mode, contract, *cached),
{
    let mut events = PortEventKind::none();
    let mut status: PortStatus = PortStatus::new();
    status.connection_present = connection_present(plug_present, mode);
    if !status.connection_present {
        return Ok((status, events));
    }
    status.debug_connection = match mode {
        ConnectionState::Debug => true,
        _ => false,
    };
    match contract {
        Some(Contract::ExplicitSource(decoded)) => match decoded {
            Ok((cap, dual)) => {
                status.available_source_contract = Some(cap);
                status.dual_power = dual;
            },
            Err(e) => return Err(e),
        },
        Some(Contract::ExplicitSink(decoded)) => match decoded {
            Ok((cap, dual)) => {
                status.available_sink_contract = Some(cap);
                status.dual_power = dual;
            },
            Err(e) => return Err(e),
        },
        Some(Contract::ImplicitSource(decoded)) => match decoded {
            Ok(cap) => {
                let new_contract = Some(cap);
                if !same_contract(new_contract, cached.available_source_contract) {
                    events.new_power_contract_as_provider = true;
                }
                status.available_source_contract = new_contract;
            },
            Err(e) => return Err(e),
        },
        Some(Contract::ImplicitSink(decoded)) => match decoded {
            Ok(cap) => {
                let new_contract = Some(cap);
                if !same_contract(new_contract, cached.available_sink_contract) {
                    events.new_power_contract_as_consumer = true;
                }
                status.available_sink_contract = new_contract;
            },
            Err(e) => return Err(e),
        },
        _ => {},
    }
    Ok((status, events))
}

/// Interrupt flags the controller raised for one port.
#[derive(Debug, Clone, Copy, PartialEq, Eq, Structural)]
pub struct PortInterrupt {
    /// A plug was inserted or removed.
    pub plug_event: bool,
    /// A new contract as consumer was negotiated.
    pub new_consumer_contract: bool,
    /// A new contract as provider was negotiated.
    pub new_provider_contract: bool,
}

/// The port events an interrupt raises.
pub open spec fn interrupt_events(i: PortInterrupt) -> PortEventKind {
    PortEventKind {
        plug_inserted_or_removed: i.plug_event,
        new_power_contract_as_consumer: i.new_consumer_contract,
        new_power_contract_as_provider: i.new_provider_contract,
    }
}

/// The event a change of the advertised source current signals.
pub open spec fn source_current_event() -> PortEventKind {
    PortEventKind { new_power_contract_as_consumer: true, ..no_event() }
}

/// The event a change of the advertised source current signals on its port.
pub fn source_current_changed() -> (r: PortEventKind)
    ensures
        r == source_current_event(),
{
    let mut event = PortEventKind::none();
    event.new_power_contract_as_consumer = true;
    event
}

/// The index of the first failed port reading, or the number of readings
/// when none failed.
pub open spec fn first_error<E>(results: Seq<Result<(PortStatus, PortEventKind), E>>) -> int
    decreases results.len(),
{
    if results.len() == 0 {
        0
    } else if results[0] is Err {
        0
    } else {
        1 + first_error(results.drop_first())
    }
}

/// `first_error` is the first failed reading: every reading before it
/// succeeded.
pub proof fn lemma_first_error<E>(results: Seq<Result<(PortStatus, PortEventKind), E>>, i: int)
    requires
        0 <= i <= results.len(),
        forall|j: int| 0 <= j < i ==> (#[trigger] results[j]) is Ok,
    ensures
        i < results.len() && results[i] is Err ==> first_error(results) == i,
        i == results.len() ==> first_error(results) == i,
        i <= first_error(results) <= results.len(),
    decreases i,
{
    if i > 0 {
        let rest = results.drop_first();
        assert forall|j: int| 0 <= j < i - 1 implies (#[trigger] rest[j]) is Ok by {
            assert(rest[j] == results[j + 1]);
        }
        assert(results[0] is Ok);
        lemma_first_error(rest, i - 1);
    } else {
        lemma_first_error_bounds(results);
    }
}

/// `first_error` lies within the readings.
proof fn lemma_first_error_bounds<E>(results: Seq<Result<(PortStatus, PortEventKind), E>>)
    ensures
        0 <= first_error(results) <= results.len(),
    decreases results.len(),
{
    if results.len() > 0 && results[0] is Ok {
        lemma_first_error_bounds(results.drop_first());
    }
}

/// Abstract per-port state: pending events and last status, by port.
pub struct PortsView {
    pub events: Seq<PortEventKind>,
    pub status: Seq<PortStatus>,
}

/// Pending events and last status of each port of a controller.
pub struct Ports {
    port_events: Vec<PortEventKind>,
    port_status: Vec<PortStatus>,
}

impl Ports {
    /// One event slot and one status per port.
    #[verifier::type_invariant]
    spec fn slot_per_port(self) -> bool {
        self.port_events@.len() == self.port_status@.len()
    }
}

impl Ports {
    pub closed spec fn view(&self) -> PortsView {
        PortsView { events: self.port_events@, status: self.port_status@ }
    }


    /// The number of ports.
    pub open spec fn num_ports(&self) -> nat {
        self.view().events.len()
    }

    /// A controller with `n` ports, no event pending and nothing connected.
    pub fn new(n: usize) -> (r: Self)
        ensures
            r.num_ports() == n,
            r.view().status.len() == n,
            forall|i: int| 0 <= i < n ==> #[trigger] r.view().events[i] == no_event(),
            forall|i: int| 0 <= i < n ==> #[trigger] r.view().status[i] == default_status(),
    {
        let mut port_events: Vec<PortEventKind> = Vec::new();
        let mut port_status: Vec<PortStatus> = Vec::new();
        let mut i: usize = 0;
        while i < n
            invariant
                i <= n,
                port_events@.len() == i,
                port_status@.len() == i,
                forall|j: int| 0 <= j < i ==> #[trigger] port_events@[j] == no_event(),
                forall|j: int| 0 <= j < i ==> #[trigger] port_status@[j] == default_status(),
            decreases n - i,
        {
            port_events.push(PortEventKind::none());
            port_status.push(PortStatus::new());
            i = i + 1;
        }
        Ports { port_events, port_status }
    }

    /// The number of ports.
    pub fn len(&self) -> (r: usize)
        ensures
            r == self.num_ports(),
            r == self.view().status.len(),
    {
        proof {
            use_type_invariant(self);
        }
        self.port_events.len()
    }

    /// Adds the events of the interrupts raised to the pending events, the
    /// `i`-th interrupt to port `i` (interrupts beyond the last port are
    /// ignored).
    pub fn record_interrupts(&mut self, interrupts: &Vec<PortInterrupt>)
        ensures
            final(self).view().status == old(self).view().status,
            final(self).num_ports() == old(self).num_ports(),
            forall|i: int|
                0 <= i < old(self).num_ports() ==> #[trigger] final(self).view().events[i] == if i
                    < interrupts@.len() {
                    event_union(old(self).view().events[i], interrupt_events(interrupts@[i]))
                } else {
                    old(self).view().events[i]
                },
            forall|i: int|
                0 <= i < old(self).num_ports() && i < interrupts@.len() ==> {
                    let e = #[trigger] final(self).view().events[i];
                    let o = old(self).view().events[i];
                    &&& e.plug_inserted_or_removed == (o.plug_inserted_or_removed
                        || interrupts@[i].plug_event)
                    &&& e.new_power_contract_as_consumer == (o.new_power_contract_as_consumer
                        || interrupts@[i].new_consumer_contract)
                    &&& e.new_power_contract_as_provider == (o.new_power_contract_as_provider
                        || interrupts@[i].new_provider_contract)
                },
    {
        let n = if interrupts.len() < self.port_events.len() {
            interrupts.len()
        } else {
            self.port_events.len()
        };
        proof {
            use_type_invariant(&*self);
        }
        let mut i: usize = 0;
        while i < n
            invariant
                old(self).port_events@.len() == old(self).port_status@.len(),
                n <= interrupts@.len(),
                n <= old(self).port_events@.len(),
                i <= n,
                self.port_status@ == old(self).port_status@,
                self.port_events@.len() == old(self).port_events@.len(),
                forall|j: int|
                    0 <= j < self.port_events@.len() ==> #[trigger] self.port_events@[j] == if j < i {
                        event_union(old(self).port_events@[j], interrupt_events(interrupts@[j]))
                    } else {
                        old(self).port_events@[j]
                    },
            decreases n - i,
        {
            let interrupt = interrupts[i];
            let mut event = self.port_events[i];
            if interrupt.plug_event {
                event.plug_inserted_or_removed = true;
            }
            if interrupt.new_consumer_contract {
                event.new_power_contract_as_consumer = true;
            }
            if interrupt.new_provider_contract {
                event.new_power_contract_as_provider = true;
            }
            self.port_events[i] = event;
            i = i + 1;
        }
    }

    /// Adds `event` to the events pending on `port`; returns whether the
    /// port exists (an event on a missing port is dropped).
    pub fn signal_event(&mut self, port: u8, event: PortEventKind) -> (r: bool)
        ensures
            r == (port < old(self).num_ports()),
            final(self).view().status == old(self).view().status,
            r ==> final(self).view().events == old(self).view().events.update(
                port as int,
                event_union(old(self).view().events[port as int], event),
            ),
            !r ==> final(self).view().events == old(self).view().events,
    {
        if port as usize >= self.port_events.len() {
            return false;
        }
        proof {
            use_type_invariant(&*self);
        }
        let current = self.port_events[port as usize];
        self.port_events[port as usize] = current.union(event);
        true
    }

    /// Returns and clears the events pending on `port`.
    pub fn clear_port_events(&mut self, port: u8) -> (r: Result<PortEventKind, PdError>)
        ensures
            final(self).view().status == old(self).view().status,
            port < old(self).num_ports() ==> r == Ok::<PortEventKind, PdError>(
                old(self).view().events[port as int],
            ) && final(self).view().events == old(self).view().events.update(port as int, no_event()),
            port >= old(self).num_ports() ==> r == Err::<PortEventKind, PdError>(PdError::InvalidPort)
                && final(self).view().events == old(self).view().events,
    {
        if port as usize >= self.port_events.len() {
            return Err(PdError::InvalidPort);
        }
        proof {
            use_type_invariant(&*self);
        }
        let current = self.port_events[port as usize];
        self.port_events[port as usize] = PortEventKind::none();
        Ok(current)
    }

    /// The last status read of `port`.
    pub fn get_port_status(&self, port: u8) -> (r: Result<PortStatus, PdError>)
        ensures
            port < self.num_ports() ==> r == Ok::<PortStatus, PdError>(
                self.view().status[port as int],
            ),
            port >= self.num_ports() ==> r == Err::<PortStatus, PdError>(PdError::InvalidPort),
    {
        proof {
            use_type_invariant(self);
        }
        if port as usize >= self.port_status.len() {
            return Err(PdError::InvalidPort);
        }
        Ok(self.port_status[port as usize])
    }

    /// Records one polling round over the ports, given the result of reading
    /// each port in turn (`results[i]` for port `i`): ports are recorded in
    /// order until the first failed reading, whose error is returned; the
    /// ports from there on keep their status and events.
    pub fn record_updates<E: Copy>(&mut self, results: &Vec<Result<(PortStatus, PortEventKind), E>>) -> (r:
        Result<(), E>)
        requires
            results@.len() <= old(self).num_ports(),
        ensures
            final(self).num_ports() == old(self).num_ports(),
            final(self).view().status.len() == old(self).view().status.len(),
            first_error(results@) < results@.len() ==> r == Err::<(), E>(
                results@[first_error(results@)]->Err_0,
            ),
            first_error(results@) == results@.len() ==> r == Ok::<(), E>(()),
            forall|p: int|
                0 <= p < old(self).num_ports() ==> #[trigger] final(self).view().status[p] == if p
                    < first_error(results@) {
                    results@[p]->Ok_0.0
                } else {
                    old(self).view().status[p]
                },
            forall|p: int|
                0 <= p < old(self).num_ports() ==> #[trigger] final(self).view().events[p] == if p
                    < first_error(results@) {
                    event_union(old(self).view().events[p], results@[p]->Ok_0.1)
                } else {
                    old(self).view().events[p]
                },
    {
        proof {
            use_type_invariant(&*self);
            lemma_first_error(results@, 0);
        }
        let mut i: usize = 0;
        while i < results.len()
            invariant
                i <= results@.len(),
                results@.len() <= old(self).num_ports(),
                old(self).view().status.len() == old(self).num_ports(),
                self.num_ports() == old(self).num_ports(),
                self.view().status.len() == old(self).num_ports(),
                forall|j: int| 0 <= j < i ==> (#[trigger] results@[j]) is Ok,
                forall|p: int|
                    0 <= p < old(self).num_ports() ==> #[trigger] self.view().status[p] == if p < i {
                        results@[p]->Ok_0.0
                    } else {
                        old(self).view().status[p]
                    },
                forall|p: int|
                    0 <= p < old(self).num_ports() ==> #[trigger] self.view().events[p] == if p < i {
                        event_union(old(self).view().events[p], results@[p]->Ok_0.1)
                    } else {
                        old(self).view().events[p]
                    },
            decreases results@.len() - i,
        {
            match results[i] {
                Ok((status, events)) => {
                    self.record_update(i, status, events);
                },
                Err(e) => {
                    proof {
                        lemma_first_error(results@, i as int);
                    }
                    return Err(e);
                },
            }
            i = i + 1;
        }
        proof {
            lemma_first_error(results@, i as int);
        }
        Ok(())
    }

    /// Records the status just read of `port` and adds the events its
    /// reading detected to the events pending on it.
    pub fn record_update(&mut self, port: usize, status: PortStatus, events: PortEventKind)
        requires
            port < old(self).num_ports(),
        ensures
            final(self).view().status == old(self).view().status.update(port as int, status),
            final(self).view().events == old(self).view().events.update(
                port as int,
                event_union(old(self).view().events[port as int], events),
            ),
    {
        proof {
            use_type_invariant(&*self);
        }
        self.port_status[port] = status;
        let current = self.port_events[port];
        self.port_events[port] = current.union(events);
    }
}

/// Checks that a controller wrapper is given one port id per port.
pub fn check_port_ids(num_port_ids: usize, num_ports: usize) -> (r: Result<(), PdError>)
    ensures
        r == if num_port_ids == num_ports {
            Ok::<(), PdError>(())
        } else {
            Err::<(), PdError>(PdError::InvalidParams)
        },
{
    if num_port_ids != num_ports {
        return Err(PdError::InvalidParams);
    }
    Ok(())
}

/// Law: the events cleared from a port are exactly those signalled on it
/// since it was last cleared, and clearing leaves nothing pending.
pub proof fn lemma_signal_then_clear(events: Seq<PortEventKind>, port: int, a: PortEventKind, b: PortEventKind)
    requires
        0 <= port < events.len(),
        events[port] == no_event(),
    ensures
        ({
            let after = events.update(port, event_union(events[port], a));
            let after2 = after.update(port, event_union(after[port], b));
            &&& after2[port] == event_union(a, b)
            &&& after2.update(port, no_event())[port] == no_event()
            &&& forall|i: int| 0 <= i < events.len() && i != port ==> #[trigger] after2[i] == events[i]
        }),
{
}

/// Law: signalling the same event twice leaves what a single signal leaves
/// (pending events form a set).
pub proof fn lemma_signal_idempotent(current: PortEventKind, e: PortEventKind)
    ensures
        event_union(event_union(current, e), e) == event_union(current, e),
        event_union(current, no_event()) == current,
{
}

/// Law: without a connection a port reports the default status and no
/// event; with one, an explicit contract (which the controller interrupts
/// for) reports no event, and an implicit contract reports a new contract
/// event for the port's role exactly when it differs from the contract
/// recorded for that role.
pub proof fn lemma_contract_events<E>(
    plug_present: bool,
    mode: ConnectionState,
    contract: Contract<E>,
    cached: PortStatus,
)
    ensures
        !spec_connection_present(plug_present, mode) ==> spec_port_status::<E>(
            plug_present,
            mode,
            None,
            cached,
        ) == Ok::<(PortStatus, PortEventKind), E>((default_status(), no_event())),
        spec_connection_present(plug_present, mode) ==> match spec_port_status(
            plug_present,
            mode,
            Some(contract),
            cached,
        ) {
            Ok((status, events)) => {
                &&& status.connection_present
                &&& events.new_power_contract_as_provider == (contract is ImplicitSource
                    && status.available_source_contract != cached.available_source_contract)
                &&& events.new_power_contract_as_consumer == (contract is ImplicitSink
                    && status.available_sink_contract != cached.available_sink_contract)
                &&& !events.plug_inserted_or_removed
            },
            Err(_) => true,
        },
{
}

/// Law: a connected port's status records a decoded contract under the
/// role it was decoded for, and nothing under the other role: a source
/// contract only as the power the port can source, a sink contract only as
/// the power it can sink, with the dual-role flag of an explicit contract;
/// a sink without pull-up has neither. The debug flag is set exactly for a
/// debug accessory, and the reading fails exactly when decoding failed.
pub proof fn lemma_contract_recorded_under_its_role<E>(
    plug_present: bool,
    mode: ConnectionState,
    contract: Contract<E>,
    cached: PortStatus,
)
    requires
        spec_connection_present(plug_present, mode),
    ensures
        ({
            let r = spec_port_status(plug_present, mode, Some(contract), cached);
            let st = r->Ok_0.0;
            &&& r is Err <==> (contract matches Contract::ExplicitSource(Err(_)) || contract matches Contract::ExplicitSink(Err(_))
                || contract matches Contract::ImplicitSource(Err(_)) || contract matches Contract::ImplicitSink(Err(_)))
            &&& r is Ok ==> st.connection_present && st.debug_connection == (mode is Debug)
            &&& contract matches Contract::ExplicitSource(Ok((cap, dual))) ==> r is Ok
                && st.available_source_contract == Some(cap) && st.available_sink_contract is None
                && st.dual_power == dual
            &&& contract matches Contract::ExplicitSink(Ok((cap, dual))) ==> r is Ok
                && st.available_sink_contract == Some(cap) && st.available_source_contract is None
                && st.dual_power == dual
            &&& contract matches Contract::ImplicitSource(Ok(cap)) ==> r is Ok
                && st.available_source_contract == Some(cap) && st.available_sink_contract is None
                && !st.dual_power
            &&& contract matches Contract::ImplicitSink(Ok(cap)) ==> r is Ok
                && st.available_sink_contract == Some(cap) && st.available_source_contract is None
                && !st.dual_power
            &&& contract is ImplicitSinkNoPull ==> r is Ok && st.available_sink_contract is None
                && st.available_source_contract is None && !st.dual_power
        }),
{
}

/// Law: a port is connected only with a plug present, never in the
/// not-connected state, and in every other plug state once a plug is
/// present.
pub proof fn lemma_connection(plug_present: bool, mode: ConnectionState)
    ensures
        spec_connection_present(plug_present, mode) ==> plug_present,
        mode is NotConnected ==> !spec_connection_present(plug_present, mode),
        plug_present && !(mode is NotConnected) ==> spec_connection_present(plug_present, mode),
{
}

/// Law: a contract is explicit exactly when both the active PDO and RDO
/// are set; its role is the port's PD role (source or sink); and a sink
/// has no contract exactly when its implicit contract comes without a
/// pull-up.
pub proof fn lemma_contract_kind(pdo_raw: u32, rdo_raw: u32, is_source: bool, pull_up: bool)
    ensures
        ({
            let k = spec_contract_kind(pdo_raw, rdo_raw, is_source, pull_up);
            &&& (k is ExplicitSource || k is ExplicitSink) <==> (pdo_raw != 0 && rdo_raw != 0)
            &&& (k is ExplicitSource || k is ImplicitSource) <==> is_source
            &&& k is ImplicitSinkNoPull <==> (!(pdo_raw != 0 && rdo_raw != 0) && !is_source
                && !pull_up)
        }),
{
}

/// Law: a change of the advertised source current signals a new consumer
/// contract and nothing else.
pub proof fn lemma_source_current_event()
    ensures
        source_current_event().new_power_contract_as_consumer,
        !source_current_event().new_power_contract_as_provider,
        !source_current_event().plug_inserted_or_removed,
{
}

/// Law: each interrupt flag raises exactly its own event kind on top of
/// the events already pending, and pending events only accumulate.
pub proof fn lemma_interrupt_raises_its_own_kind(pending: PortEventKind, i: PortInterrupt)
    ensures
        event_union(pending, interrupt_events(i)).plug_inserted_or_removed == (
        pending.plug_inserted_or_removed || i.plug_event),
        event_union(pending, interrupt_events(i)).new_power_contract_as_consumer == (
        pending.new_power_contract_as_consumer || i.new_consumer_contract),
        event_union(pending, interrupt_events(i)).new_power_contract_as_provider == (
        pending.new_power_contract_as_provider || i.new_provider_contract),
{
}

/// Law: signalling events keeps every kind that was pending and adds
/// exactly the kinds signalled, each under its own name.
pub proof fn lemma_signal_adds_its_own_kinds(pending: PortEventKind, e: PortEventKind)
    ensures
        event_union(pending, e).plug_inserted_or_removed == (pending.plug_inserted_or_removed
            || e.plug_inserted_or_removed),
        event_union(pending, e).new_power_contract_as_consumer == (
        pending.new_power_contract_as_consumer || e.new_power_contract_as_consumer),
        event_union(pending, e).new_power_contract_as_provider == (
        pending.new_power_contract_as_provider || e.new_power_contract_as_provider),
{
}

/// Law: reading a port again, with the same contract, after its status was
/// recorded gives the same status and no new event: an unchanged contract
/// is never reported twice.
pub proof fn lemma_unchanged_contract_is_quiet<E>(
    plug_present: bool,
    mode: ConnectionState,
    contract: Option<Contract<E>>,
    cached: PortStatus,
)
    requires
        spec_port_status(plug_present, mode, contract, cached) is Ok,
    ensures
        ({
            let status = spec_port_status(plug_present, mode, contract, cached)->Ok_0.0;
            spec_port_status(plug_present, mode, contract, status) == Ok::<
                (PortStatus, PortEventKind),
                E,
            >((status, no_event()))
        }),
{
}

} // verus!
