//! Temperature sensor devices: requests, responses, alerts and the
//! per-sensor state that a sensor's request, sampling and alert tasks keep.
//!
//! Temperatures (degrees Celsius, `f32`) are carried by their IEEE-754 bit
//! pattern (`f32::to_bits`), which this module stores and hands back
//! unchanged; only the driver side compares temperatures.

use crate::thermal_service::utils::{most_recent, pushed, SampleBuf, SAMPLE_CAPACITY};
use vstd::prelude::*;

verus! {

/// Sensor error type
#[derive(Debug, Clone, Copy, PartialEq, Eq, Structural)]
pub enum Error {
    /// Invalid request
    InvalidRequest,
    /// Device encountered a hardware failure
    Hardware,
}

/// Sensor request; temperatures by their `f32` bit pattern.
#[derive(Debug, Clone, Copy, PartialEq, Eq, Structural)]
pub enum Request {
    /// Current temperature measurement
    GetTemp,
    /// Set low alert threshold (degrees Celsius)
    SetAlertLow(u32),
    /// Set high alert threshold (degrees Celsius)
    SetAlertHigh(u32),
    /// Set temperature sampling period (in ms)
    SetSamplingPeriod(u64),
}

/// Sensor response; temperatures by their `f32` bit pattern.
#[derive(Debug, Clone, Copy, PartialEq, Eq, Structural)]
pub enum Response {
    /// Response for any request that is successful but does not require data
    Success,
    /// Current temperature of sensor (degrees Celsius)
    Temp(u32),
}

/// Threshold alert.
#[derive(Debug, Clone, Copy, PartialEq, Eq, Structural)]
pub enum Alert {
    /// High threshold was crossed
    ThresholdLow,
    /// Low threshold was crossed
    ThresholdHigh,
}

/// Device ID new type
#[derive(Debug, Clone, Copy, PartialEq, Eq, Structural)]
pub struct DeviceId(pub u8);

/// Bit pattern of `f32::MAX`, the alert threshold a new sensor starts with.
pub const F32_MAX_BITS: u32 = 0x7f7f_ffff;

/// Sampling period a new sensor starts with, in ms.
pub const DEFAULT_PERIOD_MS: u64 = 1000;

/// The alert raised when the driver reports a threshold crossing at a
/// temperature that is (`true`) or is not (`false`) at or below the low
/// alert threshold: the low threshold was crossed (`ThresholdHigh`) in the
/// first case, the high one (`ThresholdLow`) otherwise.
pub fn alert_for(at_or_below_low: bool) -> (r: Alert)
    ensures
        r == (if at_or_below_low { Alert::ThresholdHigh } else { Alert::ThresholdLow }),
{
    if at_or_below_low {
        Alert::ThresholdHigh
    } else {
        Alert::ThresholdLow
    }
}

/// The call a request needs from the sensor driver before it can be
/// answered; thresholds by their `f32` bit pattern.
#[derive(Debug, Clone, Copy, PartialEq, Eq, Structural)]
pub enum DriverCall {
    /// The request is answered from the sensor's own state.
    NoCall,
    /// `set_temperature_threshold_low` with the given threshold.
    SetThresholdLow(u32),
    /// `set_temperature_threshold_high` with the given threshold.
    SetThresholdHigh(u32),
}

/// The driver call that `request` needs.
pub open spec fn spec_driver_call(request: Request) -> DriverCall {
    match request {
        Request::SetAlertLow(low) => DriverCall::SetThresholdLow(low),
        Request::SetAlertHigh(high) => DriverCall::SetThresholdHigh(high),
        _ => DriverCall::NoCall,
    }
}

/// The driver call that `request` needs.
pub fn driver_call(request: Request) -> (r: DriverCall)
    ensures
        r == spec_driver_call(request),
{
    match request {
        Request::SetAlertLow(low) => DriverCall::SetThresholdLow(low),
        Request::SetAlertHigh(high) => DriverCall::SetThresholdHigh(high),
        _ => DriverCall::NoCall,
    }
}

/// Abstract sensor state.
pub struct StateView {
    /// Recent temperature samples, newest first.
    pub samples: Seq<u32>,
    pub period: u64,
    pub alert_low: u32,
    pub alert_high: u32,
}

/// The answer to `request`; `driver` is the driver's reply to the call
/// [`spec_driver_call`] names for it (ignored when it names none).
pub open spec fn spec_response(s: StateView, request: Request, driver: Result<(), ()>) -> Result<
    Response,
    Error,
> {
    match request {
        Request::GetTemp => Ok(Response::Temp(most_recent(s.samples))),
        Request::SetAlertLow(_) | Request::SetAlertHigh(_) => match driver {
            Ok(_) => Ok(Response::Success),
            Err(_) => Err(Error::Hardware),
        },
        Request::SetSamplingPeriod(_) => Ok(Response::Success),
    }
}

/// The state after answering `request`: a threshold is recorded only when
/// the driver accepted it.
pub open spec fn spec_after_request(s: StateView, request: Request, driver: Result<(), ()>) -> StateView {
    match request {
        Request::SetAlertLow(low) => if driver is Ok {
            StateView { alert_low: low, ..s }
        } else {
            s
        },
        Request::SetAlertHigh(high) => if driver is Ok {
            StateView { alert_high: high, ..s }
        } else {
            s
        },
        Request::SetSamplingPeriod(period) => StateView { period, ..s },
        Request::GetTemp => s,
    }
}

/// The state after a sampling round that read `reading` from the driver.
pub open spec fn spec_after_sample(s: StateView, reading: Result<u32, ()>) -> StateView {
    match reading {
        Ok(t) => StateView { samples: pushed(s.samples, t), ..s },
        Err(_) => s,
    }
}

/// Internal sensor state.
pub struct State {
    samples: SampleBuf,
    period: u64,
    alert_low: u32,
    alert_high: u32,
}

impl State {
    pub closed spec fn view(&self) -> StateView {
        StateView {
            samples: self.samples.view(),
            period: self.period,
            alert_low: self.alert_low,
            alert_high: self.alert_high,
        }
    }

    /// A fresh state: no samples, default period, both alert thresholds at
    /// `f32::MAX`.
    pub fn new() -> (r: Self)
        ensures
            r.view() == (StateView {
                samples: Seq::<u32>::empty(),
                period: DEFAULT_PERIOD_MS,
                alert_low: F32_MAX_BITS,
                alert_high: F32_MAX_BITS,
            }),
    {
        State {
            samples: SampleBuf::new(),
            period: DEFAULT_PERIOD_MS,
            alert_low: F32_MAX_BITS,
            alert_high: F32_MAX_BITS,
        }
    }

    /// The current sampling period, in ms.
    pub fn period(&self) -> (r: u64)
        ensures
            r == self.view().period,
    {
        self.period
    }

    /// The low alert threshold.
    pub fn alert_low(&self) -> (r: u32)
        ensures
            r == self.view().alert_low,
    {
        self.alert_low
    }

    /// The high alert threshold.
    pub fn alert_high(&self) -> (r: u32)
        ensures
            r == self.view().alert_high,
    {
        self.alert_high
    }

    /// Answers `request`, given the driver's reply to the call
    /// [`driver_call`] names for it (ignored when it names none).
    pub fn process_request(&mut self, request: Request, driver: Result<(), ()>) -> (r: Result<
        Response,
        Error,
    >)
        ensures
            r == spec_response(old(self).view(), request, driver),
            final(self).view() == spec_after_request(old(self).view(), request, driver),
    {
        match request {
            Request::GetTemp => Ok(Response::Temp(self.samples.recent())),
            Request::SetAlertLow(low) => {
                if driver.is_err() {
                    return Err(Error::Hardware);
                }
                self.alert_low = low;
                Ok(Response::Success)
            },
            Request::SetAlertHigh(high) => {
                if driver.is_err() {
                    return Err(Error::Hardware);
                }
                self.alert_high = high;
                Ok(Response::Success)
            },
            Request::SetSamplingPeriod(period) => {
                self.period = period;
                Ok(Response::Success)
            },
        }
    }

    /// Records the result of one sampling round: a successful reading is
    /// pushed as the newest sample, a failed one is ignored.
    pub fn record_sample(&mut self, reading: Result<u32, ()>)
        ensures
            final(self).view() == spec_after_sample(old(self).view(), reading),
    {
        if let Ok(t) = reading {
            self.samples.push(t);
        }
    }
}

/// Law: after a sampling round that read a temperature, the current
/// temperature request answers with that temperature.
pub proof fn lemma_sample_then_get_temp(s: StateView, t: u32, driver: Result<(), ()>)
    ensures
        spec_response(spec_after_sample(s, Ok(t)), Request::GetTemp, driver) == Ok::<
            Response,
            Error,
        >(Response::Temp(t)),
{
}

/// Law: a threshold the driver rejects is not recorded and is answered
/// with a hardware error; one it accepts is recorded and acknowledged.
pub proof fn lemma_threshold_recorded_iff_accepted(s: StateView, low: u32, driver: Result<(), ()>)
    ensures
        spec_after_request(s, Request::SetAlertLow(low), driver).alert_low == if driver is Ok {
            low
        } else {
            s.alert_low
        },
        spec_response(s, Request::SetAlertLow(low), driver) == if driver is Ok {
            Ok::<Response, Error>(Response::Success)
        } else {
            Err::<Response, Error>(Error::Hardware)
        },
{
}

/// Law: a request changes only the setting it names, and a threshold only
/// when the driver accepted it: samples are never changed by a request, the
/// low threshold only by an accepted `SetAlertLow`, the high threshold only
/// by an accepted `SetAlertHigh`, and the period only by
/// `SetSamplingPeriod`.
pub proof fn lemma_request_changes_only_named_setting(s: StateView, request: Request, driver: Result<(), ()>)
    ensures
        spec_after_request(s, request, driver).samples == s.samples,
        spec_after_request(s, request, driver).alert_low == match request {
            Request::SetAlertLow(low) => if driver is Ok {
                low
            } else {
                s.alert_low
            },
            _ => s.alert_low,
        },
        spec_after_request(s, request, driver).alert_high == match request {
            Request::SetAlertHigh(high) => if driver is Ok {
                high
            } else {
                s.alert_high
            },
            _ => s.alert_high,
        },
        spec_after_request(s, request, driver).period == match request {
            Request::SetSamplingPeriod(period) => period,
            _ => s.period,
        },
{
}

/// Law: what each request is answered: the most recent sample for the
/// current temperature; success for a threshold the driver accepted and a
/// hardware error for one it rejected; success for a sampling period.
pub proof fn lemma_request_answers(s: StateView, request: Request, driver: Result<(), ()>)
    ensures
        request is GetTemp ==> spec_response(s, request, driver) == Ok::<Response, Error>(
            Response::Temp(most_recent(s.samples)),
        ),
        request is SetAlertLow || request is SetAlertHigh ==> (spec_response(s, request, driver)
            == if driver is Ok {
            Ok::<Response, Error>(Response::Success)
        } else {
            Err::<Response, Error>(Error::Hardware)
        }),
        request is SetSamplingPeriod ==> spec_response(s, request, driver) == Ok::<Response, Error>(
            Response::Success,
        ),
{
}

/// Law: setting the low and then the high threshold, both accepted, leaves
/// both as set, and gives the same state as setting them the other way
/// round.
pub proof fn lemma_thresholds_independent(s: StateView, low: u32, high: u32)
    ensures
        ({
            let a = spec_after_request(
                spec_after_request(s, Request::SetAlertLow(low), Ok(())),
                Request::SetAlertHigh(high),
                Ok(()),
            );
            let b = spec_after_request(
                spec_after_request(s, Request::SetAlertHigh(high), Ok(())),
                Request::SetAlertLow(low),
                Ok(()),
            );
            &&& a.alert_low == low
            &&& a.alert_high == high
            &&& a == b
        }),
{
    lemma_request_changes_only_named_setting(s, Request::SetAlertLow(low), Ok(()));
    lemma_request_changes_only_named_setting(s, Request::SetAlertHigh(high), Ok(()));
    let s1 = spec_after_request(s, Request::SetAlertLow(low), Ok(()));
    let s2 = spec_after_request(s, Request::SetAlertHigh(high), Ok(()));
    lemma_request_changes_only_named_setting(s1, Request::SetAlertHigh(high), Ok(()));
    lemma_request_changes_only_named_setting(s2, Request::SetAlertLow(low), Ok(()));
}

/// Law: the sampling period a request sets is the one the sampling task
/// waits afterwards.
pub proof fn lemma_set_period(s: StateView, period: u64, driver: Result<(), ()>)
    ensures
        spec_after_request(s, Request::SetSamplingPeriod(period), driver).period == period,
{
}

/// Law: only the threshold requests call the sensor driver, each with the
/// threshold it names, on the driver's setter for that same threshold.
pub proof fn lemma_sensor_driver_calls(request: Request)
    ensures
        request matches Request::SetAlertLow(low) ==> spec_driver_call(request)
            == DriverCall::SetThresholdLow(low),
        request matches Request::SetAlertHigh(high) ==> spec_driver_call(request)
            == DriverCall::SetThresholdHigh(high),
        spec_driver_call(request) == DriverCall::NoCall <==> (request is GetTemp
            || request is SetSamplingPeriod),
{
}

/// Law: a sampling round that read a temperature puts it first and keeps
/// the earlier samples behind it in order, dropping only the oldest one
/// when the buffer was full; a failed reading changes nothing, and sampling
/// never changes the thresholds or the period.
pub proof fn lemma_sensor_sample_recorded(s: StateView, reading: Result<u32, ()>)
    requires
        s.samples.len() <= SAMPLE_CAPACITY,
    ensures
        spec_after_sample(s, reading).period == s.period,
        spec_after_sample(s, reading).alert_low == s.alert_low,
        spec_after_sample(s, reading).alert_high == s.alert_high,
        reading is Err ==> spec_after_sample(s, reading) == s,
        reading matches Ok(t) ==> {
            let after = spec_after_sample(s, reading).samples;
            &&& after.len() == if s.samples.len() < SAMPLE_CAPACITY {
                s.samples.len() + 1int
            } else {
                s.samples.len() as int
            }
            &&& after[0] == t
            &&& forall|i: int| 0 <= i < after.len() - 1 ==> #[trigger] after[i + 1] == s.samples[i]
        },
{
}

} // verus!
