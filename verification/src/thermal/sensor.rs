//! Sensor device messages.

use vstd::prelude::*;

verus! {

/// Sensor error type
#[derive(Debug, Clone, Copy, PartialEq, Eq, Structural)]
pub enum Error {
    /// An unknown error occurred
    Unknown,
}

/// Sensor request
#[derive(Debug, Clone, Copy, PartialEq, Eq, Structural)]
pub enum Request {
    /// Current temperature measurement
    CurTemp,
}

} // verus!
