//! Fan device messages and the request handling of a fan.

use vstd::prelude::*;

verus! {

/// Fan error type
#[derive(Debug, Clone, Copy, PartialEq, Eq, Structural)]
pub enum Error {
    /// An unknown error occurred
    Unknown,
}

/// Fan request
#[derive(Debug, Clone, Copy, PartialEq, Eq, Structural)]
pub enum Request {
    /// Current RPM
    CurRpm,
    /// Set RPM
    SetRpm(u32),
}

/// Fan response
#[derive(Debug, Clone, Copy, PartialEq, Eq, Structural)]
pub enum Response {
    /// Acknowledge request and return data
    Ack(u32),
}

/// The driver call a fan request is served by.
#[derive(Debug, Clone, Copy, PartialEq, Eq, Structural)]
pub enum DriverCall {
    /// `rpm`: read the current speed.
    ReadRpm,
    /// `set_speed_rpm` with the given speed.
    SetSpeedRpm(u16),
}

/// The driver call `request` is served by; a requested speed is cut to its
/// low 16 bits, as `rpm as u16` does.
pub open spec fn spec_driver_call(request: Request) -> DriverCall {
    match request {
        Request::CurRpm => DriverCall::ReadRpm,
        Request::SetRpm(rpm) => DriverCall::SetSpeedRpm((rpm % 0x10000) as u16),
    }
}

/// The driver call `request` is served by.
pub fn driver_call(request: Request) -> (r: DriverCall)
    ensures
        r == spec_driver_call(request),
{
    match request {
        Request::CurRpm => DriverCall::ReadRpm,
        Request::SetRpm(rpm) => {
            let speed = #[verifier::truncate] (rpm as u16);
            assert((rpm as u16) == (rpm % 0x10000) as u16) by (bit_vector);
            DriverCall::SetSpeedRpm(speed)
        },
    }
}

/// The response to `request` once its driver call succeeded; `reading` is
/// the speed the driver read (used by `CurRpm`).
pub fn response(request: Request, reading: u16) -> (r: Response)
    ensures
        r == (match request {
            Request::CurRpm => Response::Ack(reading as u32),
            Request::SetRpm(rpm) => Response::Ack(rpm),
        }),
{
    match request {
        Request::CurRpm => Response::Ack(reading as u32),
        Request::SetRpm(rpm) => Response::Ack(rpm),
    }
}

/// Law: reading the speed calls the driver's reader; setting a speed that
/// fits in 16 bits hands the driver exactly that speed.
pub proof fn lemma_legacy_driver_calls(request: Request)
    ensures
        request is CurRpm ==> spec_driver_call(request) == DriverCall::ReadRpm,
        request matches Request::SetRpm(rpm) ==> (rpm <= u16::MAX ==> spec_driver_call(request)
            == DriverCall::SetSpeedRpm(rpm as u16)),
{
}

} // verus!
