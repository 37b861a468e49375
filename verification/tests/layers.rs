use embedded_services::ecs::{Component, Entity, EntityRef, Layer, List};
use embedded_services::thermal;
use embedded_services::thermal::fan::{driver_call, response, DriverCall, Request, Response};
use embedded_services::type_c::tps6699x::{
    check_port_ids, connection_present, contract_kind, port_status, source_current_changed, ConnectionState,
    Contract, ContractKind, PortInterrupt, Ports,
};
use embedded_services::type_c::{PdError, PortEventKind, PortStatus, PowerCapability};

struct Counter {
    value: i32,
}

/// Adds its pending amount to the counter.
struct Adder {
    pending: Option<i32>,
}

impl Component<Counter> for Adder {
    type Event = i32;

    fn wait_event(&self, _entity: &Counter) -> Option<i32> {
        self.pending
    }

    fn process(&self, entity: &mut Counter, event: i32) {
        entity.value += event;
    }
}

/// Doubles the counter when armed.
struct Doubler {
    armed: bool,
}

impl Component<Counter> for Doubler {
    type Event = ();

    fn wait_event(&self, _entity: &Counter) -> Option<()> {
        if self.armed {
            Some(())
        } else {
            None
        }
    }

    fn process(&self, entity: &mut Counter, _event: ()) {
        entity.value *= 2;
    }
}

#[test]
fn ecs_outer_component_is_served_first() {
    let mut stack = EntityRef::new(Counter { value: 5 })
        .add_component(Adder { pending: Some(3) })
        .add_component(Doubler { armed: true });
    let ev = stack.wait_event(stack.get_entity());
    assert!(matches!(ev, Some(List::Head(()))));
    stack.process_all();
    assert_eq!(stack.get_entity().value, 10);
}

#[test]
fn ecs_inner_component_when_outer_quiet() {
    let mut stack = EntityRef::new(Counter { value: 5 })
        .add_component(Adder { pending: Some(3) })
        .add_component(Doubler { armed: false });
    let ev = stack.wait_event(stack.get_entity());
    assert!(matches!(ev, Some(List::Rest(List::Head(3)))));
    stack.process_all();
    assert_eq!(stack.get_entity().value, 8);
    stack.get_entity_mut().value = 1;
    stack.process_event(List::Rest(List::Head(4)));
    assert_eq!(stack.get_entity().value, 5);
}

#[test]
fn ecs_quiet_stack_does_nothing() {
    let mut stack = EntityRef::new(Counter { value: 5 }).add_component(Adder { pending: None });
    assert!(stack.wait_event(stack.get_entity()).is_none());
    stack.process_all();
    assert_eq!(stack.get_entity().value, 5);
    let mut bare = EntityRef::new(Counter { value: 1 });
    bare.process_all();
    assert_eq!(bare.get_entity().value, 1);
}

#[test]
fn legacy_thermal_context() {
    let mut ctx: thermal::Context<&'static str, &'static str> = thermal::Context::new();
    assert!(ctx.register_sensor(thermal::DeviceId(1), "s1").is_ok());
    assert!(ctx.register_sensor(thermal::DeviceId(1), "s2").is_err());
    assert!(ctx.register_fan(thermal::DeviceId(1), "f1").is_ok());
    assert_eq!(ctx.get_sensor(thermal::DeviceId(1)), Ok(&"s1"));
    assert_eq!(ctx.get_sensor(thermal::DeviceId(2)), Err(thermal::Error::InvalidDevice));
    assert_eq!(ctx.get_fan(thermal::DeviceId(1)), Ok(&"f1"));
    assert_eq!(ctx.get_fan(thermal::DeviceId(0)), Err(thermal::Error::InvalidDevice));
    assert_eq!(ctx.sensors(), vec![&"s1"]);
    assert_eq!(ctx.fans(), vec![&"f1"]);
    let mut cell = None;
    thermal::init::<u8, u8>(&mut cell);
    assert!(cell.is_some());
    let mut created = false;
    assert!(thermal::ContextToken::create(&mut created).is_some());
    assert!(thermal::ContextToken::create(&mut created).is_none());
}

#[test]
fn legacy_fan_requests() {
    assert_eq!(driver_call(Request::CurRpm), DriverCall::ReadRpm);
    assert_eq!(driver_call(Request::SetRpm(1234)), DriverCall::SetSpeedRpm(1234));
    assert_eq!(driver_call(Request::SetRpm(0x1_0005)), DriverCall::SetSpeedRpm(5));
    assert_eq!(response(Request::CurRpm, 777), Response::Ack(777));
    assert_eq!(response(Request::SetRpm(0x1_0005), 0), Response::Ack(0x1_0005));
}

fn ev(plug: bool, provider: bool, consumer: bool) -> PortEventKind {
    PortEventKind {
        plug_inserted_or_removed: plug,
        new_power_contract_as_provider: provider,
        new_power_contract_as_consumer: consumer,
    }
}

#[test]
fn ports_signal_and_clear() {
    let mut ports: Ports = Ports::new(2);
    assert_eq!(ports.len(), 2);
    assert!(ports.signal_event(1, ev(true, false, false)));
    assert!(ports.signal_event(1, source_current_changed()));
    assert!(!ports.signal_event(2, ev(true, true, true)));
    assert_eq!(ports.clear_port_events(1), Ok(ev(true, false, true)));
    assert_eq!(ports.clear_port_events(1), Ok(PortEventKind::none()));
    assert_eq!(ports.clear_port_events(0), Ok(PortEventKind::none()));
    assert_eq!(ports.clear_port_events(2), Err(PdError::InvalidPort));
}

#[test]
fn ports_interrupts_and_status() {
    let mut ports: Ports = Ports::new(2);
    let ints = vec![
        PortInterrupt { plug_event: true, new_consumer_contract: false, new_provider_contract: true },
        PortInterrupt { plug_event: false, new_consumer_contract: false, new_provider_contract: false },
        PortInterrupt { plug_event: true, new_consumer_contract: true, new_provider_contract: true },
    ];
    ports.record_interrupts(&ints);
    assert_eq!(ports.clear_port_events(0), Ok(ev(true, true, false)));
    assert_eq!(ports.clear_port_events(1), Ok(PortEventKind::none()));
    let st = ports.get_port_status(0).unwrap();
    assert!(!st.connection_present);
    let mut status: PortStatus = PortStatus::new();
    status.connection_present = true;
    status.available_sink_contract = Some(cap(5000, 1500));
    ports.record_update(1, status, ev(false, false, true));
    let got = ports.get_port_status(1).unwrap();
    assert!(got.connection_present);
    assert_eq!(got.available_sink_contract, Some(cap(5000, 1500)));
    assert_eq!(ports.clear_port_events(1), Ok(ev(false, false, true)));
    assert!(ports.get_port_status(7).is_err());
}

#[test]
fn ports_poll_round_stops_at_first_error() {
    let mut ports: Ports = Ports::new(3);
    let mut connected: PortStatus = PortStatus::new();
    connected.connection_present = true;
    let results: Vec<Result<(PortStatus, PortEventKind), u8>> = vec![
        Ok((connected, ev(true, false, false))),
        Err(7),
        Ok((connected, ev(false, true, false))),
    ];
    assert_eq!(ports.record_updates(&results), Err(7));
    assert!(ports.get_port_status(0).unwrap().connection_present);
    assert!(!ports.get_port_status(2).unwrap().connection_present);
    assert_eq!(ports.clear_port_events(0), Ok(ev(true, false, false)));
    assert_eq!(ports.clear_port_events(2), Ok(PortEventKind::none()));
    let all_ok: Vec<Result<(PortStatus, PortEventKind), u8>> =
        vec![Ok((connected, PortEventKind::none())), Ok((connected, ev(false, false, true)))];
    assert_eq!(ports.record_updates(&all_ok), Ok(()));
    assert!(ports.get_port_status(1).unwrap().connection_present);
    assert_eq!(ports.clear_port_events(1), Ok(ev(false, false, true)));
}

#[test]
fn port_status_decisions() {
    assert!(connection_present(true, ConnectionState::Connected));
    assert!(connection_present(true, ConnectionState::Debug));
    assert!(!connection_present(false, ConnectionState::Connected));
    assert!(!connection_present(true, ConnectionState::NotConnected));
    assert_eq!(contract_kind(1, 1, true, false), ContractKind::ExplicitSource);
    assert_eq!(contract_kind(1, 1, false, true), ContractKind::ExplicitSink);
    assert_eq!(contract_kind(0, 1, true, true), ContractKind::ImplicitSource);
    assert_eq!(contract_kind(1, 0, false, false), ContractKind::ImplicitSinkNoPull);
    assert_eq!(contract_kind(0, 0, false, true), ContractKind::ImplicitSink);

    let idle = PortStatus::new();
    let (st, e) = port_status::<()>(false, ConnectionState::Connected, None, &idle).unwrap();
    assert!(!st.connection_present);
    assert_eq!(e, PortEventKind::none());

    let (st, e) = port_status::<()>(
        true,
        ConnectionState::Debug,
        Some(Contract::ExplicitSource(Ok((cap(20000, 3000), true)))),
        &idle,
    )
    .unwrap();
    assert!(st.connection_present && st.debug_connection && st.dual_power);
    assert_eq!(st.available_source_contract, Some(cap(20000, 3000)));
    assert_eq!(e, PortEventKind::none());

    let (st, e) = port_status::<()>(
        true,
        ConnectionState::ConnectedNoRa,
        Some(Contract::ImplicitSinkNoPull),
        &idle,
    )
    .unwrap();
    assert!(st.connection_present);
    assert_eq!(st.available_sink_contract, None);
    assert_eq!(e, PortEventKind::none());

    let r = port_status::<u8>(true, ConnectionState::Connected, Some(Contract::ExplicitSink(Err(9))), &idle);
    assert_eq!(r.err(), Some(9));
    assert_eq!(check_port_ids(2, 2), Ok(()));
    assert_eq!(check_port_ids(1, 2), Err(PdError::InvalidParams));
}

fn cap(voltage_mv: u16, current_ma: u16) -> PowerCapability {
    PowerCapability { voltage_mv, current_ma }
}

#[test]
fn implicit_source_contract_reported_once() {
    let idle = PortStatus::new();
    let c = || Some(Contract::<()>::ImplicitSource(Ok(cap(5000, 1500))));
    let (st, e) = port_status(true, ConnectionState::Connected, c(), &idle).unwrap();
    assert_eq!(st.available_source_contract, Some(cap(5000, 1500)));
    assert_eq!(e, ev(false, true, false));
    // same contract on the next poll: no new event
    let (st2, e2) = port_status(true, ConnectionState::Connected, c(), &st).unwrap();
    assert_eq!(st2, st);
    assert_eq!(e2, PortEventKind::none());
    // the advertised current changes: a new event
    let (st3, e3) = port_status(
        true,
        ConnectionState::Connected,
        Some(Contract::<()>::ImplicitSource(Ok(cap(5000, 3000)))),
        &st2,
    )
    .unwrap();
    assert_eq!(st3.available_source_contract, Some(cap(5000, 3000)));
    assert_eq!(e3, ev(false, true, false));
}

#[test]
fn implicit_sink_contract_reported_once() {
    let idle = PortStatus::new();
    let (st, e) =
        port_status(true, ConnectionState::Audio, Some(Contract::<()>::ImplicitSink(Ok(cap(5000, 900)))), &idle)
            .unwrap();
    assert_eq!(st.available_sink_contract, Some(cap(5000, 900)));
    assert_eq!(e, ev(false, false, true));
    let (st2, e2) =
        port_status(true, ConnectionState::Audio, Some(Contract::<()>::ImplicitSink(Ok(cap(5000, 900)))), &st)
            .unwrap();
    assert_eq!(st2, st);
    assert_eq!(e2, PortEventKind::none());
    // the pull-up goes away: no contract, and no event
    let (st3, e3) =
        port_status(true, ConnectionState::Audio, Some(Contract::<()>::ImplicitSinkNoPull), &st2).unwrap();
    assert_eq!(st3.available_sink_contract, None);
    assert_eq!(e3, PortEventKind::none());
    // the sink role ignores a source contract recorded before
    let mut was_source = PortStatus::new();
    was_source.available_source_contract = Some(cap(5000, 900));
    let (_, e4) =
        port_status(true, ConnectionState::Audio, Some(Contract::<()>::ImplicitSink(Ok(cap(5000, 900)))), &was_source)
            .unwrap();
    assert_eq!(e4, ev(false, false, true));
}

#[test]
fn context_token_given_once_over_many_calls() {
    let mut created = false;
    let given: Vec<bool> = (0..5).map(|_| thermal::ContextToken::create(&mut created).is_some()).collect();
    assert_eq!(given, vec![true, false, false, false, false]);
    let mut already = true;
    let given: Vec<bool> = (0..3).map(|_| thermal::ContextToken::create(&mut already).is_some()).collect();
    assert_eq!(given, vec![false, false, false]);
}
