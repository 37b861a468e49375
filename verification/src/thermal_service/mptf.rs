//! Definitions for the standard MPTF messages the thermal service handles.
//!
//! Transport services convert raw data into these types and forward them to
//! the thermal service.

use vstd::prelude::*;
use vstd::std_specs::convert::FromSpecImpl;

verus! {

/// Thermal zone id.
pub type TzId = u8;

/// A 32-bit MPTF word.
pub type Dword = u32;

/// A temperature in tenths of a kelvin.
pub type DeciKelvin = Dword;

/// Id of a variable of the MPTF variable table.
pub type Uid = &'static str;

/// MPTF error.
#[derive(Debug, Clone, Copy, PartialEq, Eq, Structural)]
pub enum Error {
    InvalidParameter,
    UnsupportedRevision,
    HardwareError,
}

/// The wire code of an MPTF error.
pub open spec fn error_code(e: Error) -> u8 {
    match e {
        Error::InvalidParameter => 1,
        Error::UnsupportedRevision => 2,
        Error::HardwareError => 3,
    }
}

/// Law: every error has its own wire code, and none is 0 (success).
pub proof fn lemma_error_codes_distinct(a: Error, b: Error)
    ensures
        error_code(a) != 0,
        error_code(a) == error_code(b) <==> a == b,
{
}

impl From<Error> for u8 {
    fn from(value: Error) -> (r: u8) {
        match value {
            Error::InvalidParameter => 1,
            Error::UnsupportedRevision => 2,
            Error::HardwareError => 3,
        }
    }
}

impl FromSpecImpl<Error> for u8 {
    open spec fn obeys_from_spec() -> bool {
        true
    }

    open spec fn from_spec(v: Error) -> u8 {
        error_code(v)
    }
}

/// MPTF request.
#[derive(Debug, Clone, Copy)]
pub enum Request {
    /// EC_THM_GET_TMP
    GetTmp(TzId),
    /// EC_THM_GET_THRS
    GetThrs(TzId),
    /// EC_THM_SET_THRS: zone, timeout, low and high threshold
    SetThrs(TzId, Dword, DeciKelvin, DeciKelvin),
    /// EC_THM_SET_SCP: zone, cooling mode, acoustic limit, power limit
    SetScp(TzId, Dword, Dword, Dword),
    /// EC_THM_GET_VAR
    GetVar(&'static str),
    /// EC_THM_SET_VAR
    SetVar(&'static str, Dword),
}

/// MPTF response.
#[derive(Debug, Clone, Copy, PartialEq, Eq, Structural)]
pub enum Response {
    GetTmp(DeciKelvin),
    GetThrs(Dword, DeciKelvin, DeciKelvin),
    SetThrs,
    SetScp,
    GetVar(Dword),
    SetVar,
}

/// MPTF notification.
#[derive(Debug, Clone, Copy, PartialEq, Eq, Structural)]
pub enum Notify {
    Threshold,
    Critical,
    ProcHot,
}

} // verus!
