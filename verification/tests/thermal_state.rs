use embedded_services::registry;
use embedded_services::thermal_service::context::{self, Context, ContextToken};
use embedded_services::thermal_service::default_handler::{
    self, max_rpm_of, min_rpm_of, notifications, ramp_rpm, ramp_target, threshold_notification, uid, FanAction,
    FanState, TempOrder,
};
use embedded_services::thermal_service::utils::SampleBuf;
use embedded_services::thermal_service::{fan, mptf, sensor};
use embedded_services::comms::{EndpointID, External, Internal};

#[test]
fn sample_buf_starts_empty_and_reports_zero() {
    let buf = SampleBuf::new();
    assert_eq!(buf.recent(), 0);
}

#[test]
fn sample_buf_recent_is_last_pushed() {
    let mut buf = SampleBuf::new();
    buf.push(7);
    assert_eq!(buf.recent(), 7);
    buf.push(9);
    assert_eq!(buf.recent(), 9);
}

#[test]
fn sample_buf_keeps_working_past_capacity() {
    let mut buf = SampleBuf::new();
    for i in 0..25u32 {
        buf.push(i);
        assert_eq!(buf.recent(), i);
    }
}

#[test]
fn registry_rejects_duplicate_ids() {
    let mut r: registry::Registry<&'static str> = registry::Registry::new();
    assert_eq!(r.register(1, "a"), Ok(()));
    assert_eq!(r.register(2, "b"), Ok(()));
    assert_eq!(r.register(1, "c"), Err(registry::Error::NodeAlreadyInList));
    assert_eq!(r.len(), 2);
    assert_eq!(r.get(1), Some(&"a"));
    assert_eq!(r.get(2), Some(&"b"));
    assert_eq!(r.get(3), None);
    assert!(r.contains(2));
    assert!(!r.contains(3));
    assert_eq!(r.devices(), vec![&"a", &"b"]);
}

#[test]
fn context_routes_requests_by_id() {
    let mut ctx: Context<u32, u32> = Context::new();
    assert_eq!(ctx.register_sensor(sensor::DeviceId(0), 10), Ok(()));
    assert_eq!(ctx.register_sensor(sensor::DeviceId(0), 11), Err(registry::Error::NodeAlreadyInList));
    assert_eq!(ctx.register_fan(fan::DeviceId(0), 20), Ok(()));
    assert_eq!(ctx.get_sensor(sensor::DeviceId(0)), Some(&10));
    assert_eq!(ctx.sensor_for_request(sensor::DeviceId(0)), Ok(&10));
    assert_eq!(ctx.sensor_for_request(sensor::DeviceId(1)), Err(sensor::Error::InvalidRequest));
    assert_eq!(ctx.fan_for_request(fan::DeviceId(0)), Ok(&20));
    assert_eq!(ctx.fan_for_request(fan::DeviceId(5)), Err(fan::Error::InvalidRequest));
    assert_eq!(ctx.get_fan(fan::DeviceId(5)), None);
    assert_eq!(ctx.register_sensor(sensor::DeviceId(4), 12), Ok(()));
    assert_eq!(ctx.sensors(), vec![&10, &12]);
    assert_eq!(ctx.fans(), vec![&20]);
}

#[test]
fn context_init_only_once() {
    let mut cell: Option<Context<u32, u32>> = None;
    context::init(&mut cell);
    assert!(cell.is_some());
    cell.as_mut().unwrap().register_fan(fan::DeviceId(3), 1).unwrap();
    context::init(&mut cell);
    assert_eq!(cell.as_ref().unwrap().get_fan(fan::DeviceId(3)), Some(&1));
}

#[test]
fn context_token_is_a_singleton() {
    let mut created = false;
    assert!(ContextToken::create(&mut created).is_some());
    assert!(created);
    assert!(ContextToken::create(&mut created).is_none());
}

#[test]
fn message_new_keeps_fields() {
    let m = context::Message::new(mptf::Request::GetTmp(2), EndpointID::External(External::Host));
    assert!(matches!(m.request, mptf::Request::GetTmp(2)));
    assert_eq!(m.from, EndpointID::External(External::Host));
}

#[test]
fn mptf_error_codes() {
    assert_eq!(u8::from(mptf::Error::InvalidParameter), 1);
    assert_eq!(u8::from(mptf::Error::UnsupportedRevision), 2);
    assert_eq!(u8::from(mptf::Error::HardwareError), 3);
}

#[test]
fn fan_state_answers_requests() {
    let mut s = fan::State::new();
    assert_eq!(s.period(), 1000);
    assert_eq!(s.process_request(fan::Request::GetRpm, Err(())), Ok(fan::Response::Rpm(0)));
    s.record_sample(Ok(1200));
    s.record_sample(Err(()));
    assert_eq!(s.recent_rpm(), 1200);
    assert_eq!(s.process_request(fan::Request::GetRpm, Err(())), Ok(fan::Response::Rpm(1200)));
    assert_eq!(s.process_request(fan::Request::SetRpm(3000), Ok(3000)), Ok(fan::Response::Success));
    assert_eq!(s.process_request(fan::Request::SetRpm(3000), Err(())), Err(fan::Error::Hardware));
    assert_eq!(s.process_request(fan::Request::GetMinRpm, Ok(100)), Ok(fan::Response::MinRpm(100)));
    assert_eq!(s.process_request(fan::Request::GetMaxRpm, Ok(5000)), Ok(fan::Response::MaxRpm(5000)));
    assert_eq!(s.process_request(fan::Request::SetSamplingPeriod(250), Err(())), Ok(fan::Response::Success));
    assert_eq!(s.period(), 250);
}

#[test]
fn fan_driver_calls() {
    assert_eq!(fan::driver_call(fan::Request::GetRpm), fan::DriverCall::NoCall);
    assert_eq!(fan::driver_call(fan::Request::SetRpm(42)), fan::DriverCall::SetSpeedRpm(42));
    assert_eq!(fan::driver_call(fan::Request::GetMinRpm), fan::DriverCall::MinRpm);
    assert_eq!(fan::driver_call(fan::Request::GetMaxRpm), fan::DriverCall::MaxRpm);
    assert_eq!(fan::driver_call(fan::Request::SetSamplingPeriod(5)), fan::DriverCall::NoCall);
}

#[test]
fn fan_samples_newest_first_past_capacity() {
    let mut s = fan::State::new();
    for rpm in 1..=12u16 {
        s.record_sample(Ok(rpm * 100));
    }
    assert_eq!(s.recent_rpm(), 1200);
}

#[test]
fn sensor_state_defaults() {
    let s = sensor::State::new();
    assert_eq!(s.period(), 1000);
    assert_eq!(s.alert_low(), f32::MAX.to_bits());
    assert_eq!(s.alert_high(), f32::MAX.to_bits());
    assert_eq!(sensor::F32_MAX_BITS, f32::MAX.to_bits());
}

#[test]
fn sensor_state_answers_requests() {
    let mut s = sensor::State::new();
    assert_eq!(s.process_request(sensor::Request::GetTemp, Ok(())), Ok(sensor::Response::Temp(0)));
    s.record_sample(Ok(42.5f32.to_bits()));
    s.record_sample(Err(()));
    assert_eq!(
        s.process_request(sensor::Request::GetTemp, Ok(())),
        Ok(sensor::Response::Temp(42.5f32.to_bits()))
    );
    let low = 10.0f32.to_bits();
    assert_eq!(s.process_request(sensor::Request::SetAlertLow(low), Err(())), Err(sensor::Error::Hardware));
    assert_eq!(s.alert_low(), f32::MAX.to_bits());
    assert_eq!(s.process_request(sensor::Request::SetAlertLow(low), Ok(())), Ok(sensor::Response::Success));
    assert_eq!(s.alert_low(), low);
    let high = 90.0f32.to_bits();
    assert_eq!(s.process_request(sensor::Request::SetAlertHigh(high), Ok(())), Ok(sensor::Response::Success));
    assert_eq!(s.alert_high(), high);
    assert_eq!(
        s.process_request(sensor::Request::SetSamplingPeriod(20), Err(())),
        Ok(sensor::Response::Success)
    );
    assert_eq!(s.period(), 20);
}

#[test]
fn sensor_alerts_and_driver_calls() {
    // at or below the low limit the low threshold was crossed (ThresholdHigh)
    assert_eq!(sensor::alert_for(true), sensor::Alert::ThresholdHigh);
    assert_eq!(sensor::alert_for(false), sensor::Alert::ThresholdLow);
    let low = 10.0f32.to_bits();
    let high = 100.0f32.to_bits();
    assert_eq!(sensor::driver_call(sensor::Request::SetAlertLow(low)), sensor::DriverCall::SetThresholdLow(low));
    assert_eq!(sensor::driver_call(sensor::Request::SetAlertHigh(high)), sensor::DriverCall::SetThresholdHigh(high));
    assert_eq!(sensor::driver_call(sensor::Request::GetTemp), sensor::DriverCall::NoCall);
    assert_eq!(sensor::driver_call(sensor::Request::SetSamplingPeriod(1)), sensor::DriverCall::NoCall);
}

#[test]
fn default_handler_table_defaults() {
    let s = default_handler::State::new();
    assert_eq!(s.crt_temp(), 3631);
    assert_eq!(s.fan_on_temp(), 3431);
    assert_eq!(s.fan_ramp_temp(), 3481);
    assert_eq!(s.fan_max_temp(), 3531);
    assert_eq!(s.get_var(uid::PROC_HOT_TEMP), Ok(mptf::Response::GetVar(3731)));
    assert_eq!(s.get_var(uid::PROFILE_TYPE), Ok(mptf::Response::GetVar(0)));
    assert_eq!(s.get_var(uid::FAN_MIN_RPM), Ok(mptf::Response::GetVar(0)));
    assert_eq!(s.get_var(uid::FAN_MAX_RPM), Ok(mptf::Response::GetVar(0)));
    assert_eq!(s.get_var(uid::FAN_CURRENT_RPM), Ok(mptf::Response::GetVar(0)));
    assert_eq!(s.get_var("not-a-uid"), Err(mptf::Error::InvalidParameter));
    assert_eq!(s.fan_state(), FanState::Off);
    assert_eq!(s.cur_temp(), 0);
    assert_eq!(s.thresholds(), (0, 0, 0));
    assert_eq!(s.scp(), (0, 0, 0));
}

#[test]
fn default_handler_set_var_reads_back() {
    let mut s = default_handler::State::new();
    assert_eq!(s.set_var(uid::FAN_ON_TEMP, 3131), Ok(mptf::Response::SetVar));
    assert_eq!(s.get_var(uid::FAN_ON_TEMP), Ok(mptf::Response::GetVar(3131)));
    assert_eq!(s.fan_on_temp(), 3131);
    // a different &'static str with the same characters finds the same variable
    let same: &'static str = Box::leak(String::from(uid::FAN_ON_TEMP).into_boxed_str());
    assert_eq!(s.get_var(same), Ok(mptf::Response::GetVar(3131)));
    assert_eq!(s.crt_temp(), 3631);
    assert_eq!(s.set_var("unknown", 1), Err(mptf::Error::InvalidParameter));
    assert_eq!(s.get_var("unknown"), Err(mptf::Error::InvalidParameter));
    assert_eq!(s.var("unknown"), None);
    assert_eq!(s.var(uid::FAN_MAX_TEMP), Some(3531));
}

#[test]
fn default_handler_scp_and_thresholds() {
    let mut s = default_handler::State::new();
    assert_eq!(s.set_scp(1, 2, 3), Ok(mptf::Response::SetScp));
    assert_eq!(s.scp(), (1, 2, 3));
    s.set_thresholds(5, 6, 7);
    assert_eq!(s.thresholds(), (5, 6, 7));
}

#[test]
fn default_handler_caches_temperature() {
    let mut s = default_handler::State::new();
    s.update_cur_temp(Ok(sensor::Response::Temp(55.0f32.to_bits())));
    assert_eq!(s.cur_temp(), 55.0f32.to_bits());
    s.update_cur_temp(Err(sensor::Error::Hardware));
    assert_eq!(s.cur_temp(), 55.0f32.to_bits());
    s.update_cur_temp(Ok(sensor::Response::Success));
    assert_eq!(s.cur_temp(), 55.0f32.to_bits());
}

#[test]
fn fan_policy_cycle() {
    let mut s = default_handler::State::new();
    // cold: stays off
    assert_eq!(s.step_fan_state(TempOrder::Below, TempOrder::Below, TempOrder::Below), vec![]);
    assert_eq!(s.fan_state(), FanState::Off);
    // reaches the on temperature: minimum speed
    assert_eq!(s.step_fan_state(TempOrder::Equal, TempOrder::Below, TempOrder::Below), vec![FanAction::SetMinRpm]);
    assert_eq!(s.fan_state(), FanState::On);
    // between on and ramp: nothing
    assert_eq!(s.step_fan_state(TempOrder::Above, TempOrder::Below, TempOrder::Below), vec![]);
    assert_eq!(s.fan_state(), FanState::On);
    // reaches ramp temperature
    assert_eq!(s.step_fan_state(TempOrder::Above, TempOrder::Above, TempOrder::Below), vec![]);
    assert_eq!(s.fan_state(), FanState::Ramping);
    // ramping below max: ramp curve
    assert_eq!(s.step_fan_state(TempOrder::Above, TempOrder::Above, TempOrder::Below), vec![FanAction::Ramp]);
    assert_eq!(s.fan_state(), FanState::Ramping);
    // reaches max
    assert_eq!(s.step_fan_state(TempOrder::Above, TempOrder::Above, TempOrder::Equal), vec![FanAction::SetMaxRpm]);
    assert_eq!(s.fan_state(), FanState::Max);
    // still hot
    assert_eq!(s.step_fan_state(TempOrder::Above, TempOrder::Above, TempOrder::Above), vec![]);
    assert_eq!(s.fan_state(), FanState::Max);
    // below max again
    assert_eq!(s.step_fan_state(TempOrder::Above, TempOrder::Above, TempOrder::Below), vec![]);
    assert_eq!(s.fan_state(), FanState::Ramping);
    // below ramp: back to minimum speed
    assert_eq!(s.step_fan_state(TempOrder::Above, TempOrder::Below, TempOrder::Below), vec![FanAction::SetMinRpm]);
    assert_eq!(s.fan_state(), FanState::On);
    // below on: off
    assert_eq!(s.step_fan_state(TempOrder::Below, TempOrder::Below, TempOrder::Below), vec![FanAction::TurnOff]);
    assert_eq!(s.fan_state(), FanState::Off);
}

#[test]
fn fan_policy_nan_reading() {
    let mut s = default_handler::State::new();
    assert_eq!(s.step_fan_state(TempOrder::Unordered, TempOrder::Unordered, TempOrder::Unordered), vec![]);
    assert_eq!(s.fan_state(), FanState::Off);
    assert_eq!(s.step_fan_state(TempOrder::Above, TempOrder::Below, TempOrder::Below), vec![FanAction::SetMinRpm]);
    assert_eq!(s.step_fan_state(TempOrder::Unordered, TempOrder::Unordered, TempOrder::Unordered), vec![]);
    assert_eq!(s.fan_state(), FanState::On);
    assert_eq!(s.step_fan_state(TempOrder::Above, TempOrder::Above, TempOrder::Below), vec![]);
    assert_eq!(s.step_fan_state(TempOrder::Unordered, TempOrder::Unordered, TempOrder::Unordered), vec![FanAction::SetMaxRpm]);
    assert_eq!(s.fan_state(), FanState::Max);
}

#[test]
fn fan_policy_misconfigured_max_below_ramp() {
    let mut s = default_handler::State::new();
    s.step_fan_state(TempOrder::Above, TempOrder::Below, TempOrder::Below);
    s.step_fan_state(TempOrder::Above, TempOrder::Above, TempOrder::Above);
    assert_eq!(s.fan_state(), FanState::Ramping);
    assert_eq!(
        s.step_fan_state(TempOrder::Above, TempOrder::Below, TempOrder::Above),
        vec![FanAction::SetMinRpm]
    );
    assert_eq!(s.fan_state(), FanState::On);
}

#[test]
fn crt_prochot_notifications() {
    let host = EndpointID::External(External::Host);
    let power = EndpointID::Internal(Internal::Power);
    assert_eq!(notifications(TempOrder::Below, TempOrder::Below), vec![]);
    assert_eq!(notifications(TempOrder::Equal, TempOrder::Below), vec![(host, mptf::Notify::ProcHot)]);
    assert_eq!(notifications(TempOrder::Above, TempOrder::Below), vec![(host, mptf::Notify::ProcHot)]);
    assert_eq!(
        notifications(TempOrder::Below, TempOrder::Above),
        vec![(host, mptf::Notify::Critical), (power, mptf::Notify::Critical)]
    );
    assert_eq!(
        notifications(TempOrder::Above, TempOrder::Equal),
        vec![(host, mptf::Notify::ProcHot), (host, mptf::Notify::Critical), (power, mptf::Notify::Critical)]
    );
    assert_eq!(notifications(TempOrder::Unordered, TempOrder::Unordered), vec![]);
    assert_eq!(threshold_notification(sensor::Alert::ThresholdHigh), (host, mptf::Notify::Threshold));
    assert_eq!(threshold_notification(sensor::Alert::ThresholdLow), (host, mptf::Notify::Threshold));
}

#[test]
fn default_proc_hot_temperature() {
    let mut s = default_handler::State::new();
    assert_eq!(s.proc_hot_temp(), 3731);
    s.set_var(uid::PROC_HOT_TEMP, 3700).unwrap();
    assert_eq!(s.proc_hot_temp(), 3700);
}

#[test]
fn ramp_curve_and_replies() {
    assert_eq!(ramp_rpm(1000, 5000, 80), 50);
    assert_eq!(ramp_rpm(0, 5000, 1), 5000);
    assert_eq!(min_rpm_of(Ok(fan::Response::MinRpm(10))), Some(10));
    assert_eq!(min_rpm_of(Ok(fan::Response::MaxRpm(10))), None);
    assert_eq!(min_rpm_of(Err(fan::Error::Hardware)), None);
    assert_eq!(max_rpm_of(Ok(fan::Response::MaxRpm(9000))), Some(9000));
    assert_eq!(max_rpm_of(Ok(fan::Response::Success)), None);
    assert_eq!(ramp_target(Ok(fan::Response::MinRpm(1000)), Ok(fan::Response::MaxRpm(5000)), 80), Ok(50));
    assert_eq!(ramp_target(Err(fan::Error::Hardware), Ok(fan::Response::MaxRpm(5000)), 80), Err(()));
    assert_eq!(ramp_target(Ok(fan::Response::MinRpm(1000)), Ok(fan::Response::Success), 0), Err(()));
}
