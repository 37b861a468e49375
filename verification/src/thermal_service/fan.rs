//! Fan devices: requests, responses and the per-fan state that a fan's
//! request and sampling tasks keep.

use crate::thermal_service::utils::{SampleBuf, SAMPLE_CAPACITY};
use vstd::prelude::*;

verus! {

/// Fan error type
#[derive(Debug, Clone, Copy, PartialEq, Eq, Structural)]
pub enum Error {
    /// Invalid request
    InvalidRequest,
    /// Device encountered a hardware failure
    Hardware,
}

/// Fan request
#[derive(Debug, Clone, Copy, PartialEq, Eq, Structural)]
pub enum Request {
    /// Get RPM
    GetRpm,
    /// Get Min RPM
    GetMinRpm,
    /// Get Max RPM
    GetMaxRpm,
    /// Set RPM
    SetRpm(u16),
    /// Set RPM sampling period (in ms)
    SetSamplingPeriod(u64),
}

/// Fan response
#[derive(Debug, Clone, Copy, PartialEq, Eq, Structural)]
pub enum Response {
    /// Response for any request that is successful but does not require data
    Success,
    /// Current RPM
    Rpm(u16),
    /// Min RPM
    MinRpm(u16),
    /// Max RPM
    MaxRpm(u16),
}

/// Device ID new type
#[derive(Debug, Clone, Copy, PartialEq, Eq, Structural)]
pub struct DeviceId(pub u8);

/// The call a request needs from the fan driver before it can be answered.
#[derive(Debug, Clone, Copy, PartialEq, Eq, Structural)]
pub enum DriverCall {
    /// The request is answered from the fan's own state.
    NoCall,
    /// `set_speed_rpm` with the given speed.
    SetSpeedRpm(u16),
    /// `min_rpm`.
    MinRpm,
    /// `max_rpm`.
    MaxRpm,
}

/// The driver call that `request` needs.
pub open spec fn spec_driver_call(request: Request) -> DriverCall {
    match request {
        Request::GetRpm => DriverCall::NoCall,
        Request::SetRpm(rpm) => DriverCall::SetSpeedRpm(rpm),
        Request::GetMinRpm => DriverCall::MinRpm,
        Request::GetMaxRpm => DriverCall::MaxRpm,
        Request::SetSamplingPeriod(_) => DriverCall::NoCall,
    }
}

/// The driver call that `request` needs.
pub fn driver_call(request: Request) -> (r: DriverCall)
    ensures
        r == spec_driver_call(request),
{
    match request {
        Request::GetRpm => DriverCall::NoCall,
        Request::SetRpm(rpm) => DriverCall::SetSpeedRpm(rpm),
        Request::GetMinRpm => DriverCall::MinRpm,
        Request::GetMaxRpm => DriverCall::MaxRpm,
        Request::SetSamplingPeriod(_) => DriverCall::NoCall,
    }
}

/// Sampling period a new fan starts with, in ms.
pub const DEFAULT_PERIOD_MS: u64 = 1000;

/// Internal fan state: recent speed samples and the sampling period.
pub struct State {
    samples: SampleBuf,
    period: u64,
}

/// The abstract fan state: samples (newest first) and sampling period.
pub struct StateView {
    pub samples: Seq<u16>,
    pub period: u64,
}

/// The answer to `request` given the state and, where the request needs
/// one, what the driver replied (`Ok(value)` on success).
pub open spec fn spec_response(s: StateView, request: Request, driver: Result<u16, ()>) -> Result<
    Response,
    Error,
> {
    match request {
        Request::GetRpm => Ok(
            Response::Rpm(
                if s.samples.len() == 0 {
                    0
                } else {
                    s.samples[0]
                },
            ),
        ),
        Request::SetRpm(_) => match driver {
            Ok(_) => Ok(Response::Success),
            Err(_) => Err(Error::Hardware),
        },
        Request::GetMinRpm => Ok(Response::MinRpm(reply_value(driver))),
        Request::GetMaxRpm => Ok(Response::MaxRpm(reply_value(driver))),
        Request::SetSamplingPeriod(_) => Ok(Response::Success),
    }
}

/// The value a driver reply carries (`min_rpm` and `max_rpm` always reply
/// with one).
pub open spec fn reply_value(driver: Result<u16, ()>) -> u16 {
    match driver {
        Ok(v) => v,
        Err(_) => 0,
    }
}

/// The state after answering `request`.
pub open spec fn spec_after_request(s: StateView, request: Request) -> StateView {
    match request {
        Request::SetSamplingPeriod(period) => StateView { period, ..s },
        _ => s,
    }
}

/// The state after a sampling round that read `reading` from the driver.
pub open spec fn spec_after_sample(s: StateView, reading: Result<u16, ()>) -> StateView {
    match reading {
        Ok(rpm) => StateView {
            samples: seq![rpm] + (if s.samples.len() >= SAMPLE_CAPACITY {
                s.samples.drop_last()
            } else {
                s.samples
            }),
            ..s
        },
        Err(_) => s,
    }
}

impl State {
    /// The samples, as speeds.
    pub closed spec fn view(&self) -> StateView {
        StateView { samples: self.samples.view().map_values(|w: u32| w as u16), period: self.period }
    }

    /// Every stored word is a speed.
    #[verifier::type_invariant]
    spec fn words_are_speeds(self) -> bool {
        forall|i: int| 0 <= i < self.samples.view().len() ==> #[trigger] self.samples.view()[i] <= u16::MAX
    }

    /// A fresh state: no samples, default period.
    pub fn new() -> (r: Self)
        ensures
            r.view().samples == Seq::<u16>::empty(),
            r.view().period == DEFAULT_PERIOD_MS,
    {
        State { samples: SampleBuf::new(), period: DEFAULT_PERIOD_MS }
    }

    /// The current sampling period, in ms.
    pub fn period(&self) -> (r: u64)
        ensures
            r == self.view().period,
    {
        self.period
    }

    /// The most recent speed sample, or 0 when there is none.
    pub fn recent_rpm(&self) -> (r: u16)
        ensures
            r == (if self.view().samples.len() == 0 { 0 } else { self.view().samples[0] }),
    {
        proof {
            use_type_invariant(self);
        }
        let w = self.samples.recent();
        proof {
            if self.samples.view().len() > 0 {
                assert(self.samples.view()[0] <= u16::MAX);
            }
        }
        w as u16
    }

    /// Answers `request`; `driver` is what the driver replied to the call
    /// that [`driver_call`] names for it (ignored when it names none).
    pub fn process_request(&mut self, request: Request, driver: Result<u16, ()>) -> (r: Result<
        Response,
        Error,
    >)
        ensures
            r == spec_response(old(self).view(), request, driver),
            final(self).view() == spec_after_request(old(self).view(), request),
    {
        match request {
            Request::GetRpm => Ok(Response::Rpm(self.recent_rpm())),
            Request::SetRpm(_) => match driver {
                Ok(_) => Ok(Response::Success),
                Err(_) => Err(Error::Hardware),
            },
            Request::GetMinRpm => Ok(
                Response::MinRpm(
                    match driver {
                        Ok(v) => v,
                        Err(_) => 0,
                    },
                ),
            ),
            Request::GetMaxRpm => Ok(
                Response::MaxRpm(
                    match driver {
                        Ok(v) => v,
                        Err(_) => 0,
                    },
                ),
            ),
            Request::SetSamplingPeriod(period) => {
                proof {
                    use_type_invariant(&*self);
                }
                self.period = period;
                Ok(Response::Success)
            },
        }
    }

    /// Records the result of one sampling round: a successful reading is
    /// pushed as the newest sample, a failed one is ignored.
    pub fn record_sample(&mut self, reading: Result<u16, ()>)
        ensures
            final(self).view() == spec_after_sample(old(self).view(), reading),
    {
        proof {
            use_type_invariant(&*self);
        }
        if let Ok(rpm) = reading {
            let ghost old_words = self.samples.view();
            self.samples.push(rpm as u32);
            proof {
                let n = self.samples.view();
                assert forall|i: int| 0 <= i < n.len() implies #[trigger] n[i] <= u16::MAX by {
                    if i > 0 {
                        assert(n[i] == old_words[i - 1]);
                    }
                }
                let tail = if old_words.len() >= SAMPLE_CAPACITY { old_words.drop_last() } else { old_words };
                assert(n.map_values(|w: u32| w as u16) =~= seq![rpm] + tail.map_values(|w: u32| w as u16));
                if old_words.len() >= SAMPLE_CAPACITY {
                    assert(old_words.drop_last().map_values(|w: u32| w as u16)
                        =~= old_words.map_values(|w: u32| w as u16).drop_last());
                }
            }
        }
    }
}

/// Law: after a sampling round that read a speed, the speed request
/// answers with that speed.
pub proof fn lemma_sample_then_get_rpm(s: StateView, rpm: u16, driver: Result<u16, ()>)
    ensures
        spec_response(spec_after_sample(s, Ok(rpm)), Request::GetRpm, driver) == Ok::<Response, Error>(
            Response::Rpm(rpm),
        ),
{
}

/// Law: the sampling period a request sets is the one the sampling task
/// waits afterwards, and no other request changes the state.
pub proof fn lemma_only_period_changes(s: StateView, request: Request)
    ensures
        request matches Request::SetSamplingPeriod(p) ==> spec_after_request(s, request).period == p
            && spec_after_request(s, request).samples == s.samples,
        !(request is SetSamplingPeriod) ==> spec_after_request(s, request) == s,
{
}

/// Law: a request calls the fan driver exactly when it needs the hardware:
/// a speed request hands the driver exactly the speed asked for, the
/// minimum and maximum speed requests ask the driver for that limit, and
/// reading the speed or setting the sampling period calls nothing.
pub proof fn lemma_fan_driver_calls(request: Request)
    ensures
        request matches Request::SetRpm(rpm) ==> spec_driver_call(request) == DriverCall::SetSpeedRpm(
            rpm,
        ),
        request is GetMinRpm ==> spec_driver_call(request) == DriverCall::MinRpm,
        request is GetMaxRpm ==> spec_driver_call(request) == DriverCall::MaxRpm,
        spec_driver_call(request) == DriverCall::NoCall <==> (request is GetRpm
            || request is SetSamplingPeriod),
{
}

/// Law: what each fan request is answered: the newest speed sample (0
/// before any); success for a speed the driver accepted and a hardware
/// error for one it rejected; the minimum and maximum speeds the driver
/// replied with; success for a sampling period.
pub proof fn lemma_fan_answers(s: StateView, request: Request, driver: Result<u16, ()>)
    ensures
        request is GetRpm ==> spec_response(s, request, driver) == Ok::<Response, Error>(
            Response::Rpm(if s.samples.len() > 0 { s.samples[0] } else { 0 }),
        ),
        request is SetRpm ==> (spec_response(s, request, driver) == if driver is Ok {
            Ok::<Response, Error>(Response::Success)
        } else {
            Err::<Response, Error>(Error::Hardware)
        }),
        request is GetMinRpm ==> (driver matches Ok(v) ==> spec_response(s, request, driver) == Ok::<
            Response,
            Error,
        >(Response::MinRpm(v))),
        request is GetMaxRpm ==> (driver matches Ok(v) ==> spec_response(s, request, driver) == Ok::<
            Response,
            Error,
        >(Response::MaxRpm(v))),
        request is SetSamplingPeriod ==> spec_response(s, request, driver) == Ok::<Response, Error>(
            Response::Success,
        ),
{
}

/// Law: a sampling round that read a speed puts it first and keeps the
/// earlier samples behind it in order, dropping only the oldest one when
/// the buffer was full; a failed reading changes nothing. The period is
/// never changed by sampling.
pub proof fn lemma_fan_sample_recorded(s: StateView, reading: Result<u16, ()>)
    requires
        s.samples.len() <= SAMPLE_CAPACITY,
    ensures
        spec_after_sample(s, reading).period == s.period,
        reading is Err ==> spec_after_sample(s, reading) == s,
        reading matches Ok(rpm) ==> {
            let after = spec_after_sample(s, reading).samples;
            &&& after.len() == if s.samples.len() < SAMPLE_CAPACITY {
                s.samples.len() + 1int
            } else {
                s.samples.len() as int
            }
            &&& after[0] == rpm
            &&& forall|i: int| 0 <= i < after.len() - 1 ==> #[trigger] after[i + 1] == s.samples[i]
        },
{
}

} // verus!
