//! Temperature sensor device errors.

use vstd::prelude::*;

verus! {

/// Temperature sensor error.
#[derive(Clone, Copy, Debug, PartialEq, Eq, Structural)]
pub enum TemperatureSensorError {
    /// A bus error.
    Bus,
}

} // verus!
