//! Ids of the variables of the MPTF variable table.

use vstd::prelude::*;

verus! {

/// Critical temperature (deciKelvin).
pub const CRT_TEMP: &'static str = "218246e7-baf6-45f1-aa13-07e4845256b8";

/// Processor-hot temperature (deciKelvin).
pub const PROC_HOT_TEMP: &'static str = "22dc52d2-fd0b-47ab-95b8-26552f9831a5";

/// Cooling profile type.
pub const PROFILE_TYPE: &'static str = "23b4a025-cdfd-4af9-a411-37a24c574615";

/// Temperature at which the fan is turned on (deciKelvin).
pub const FAN_ON_TEMP: &'static str = "ba17b567-c368-48d5-bc6f-a312a41583c1";

/// Temperature at which the fan starts ramping (deciKelvin).
pub const FAN_RAMP_TEMP: &'static str = "3a62688c-d95b-4d2d-bacc-90d7a5816bcd";

/// Temperature at which the fan runs at its maximum speed (deciKelvin).
pub const FAN_MAX_TEMP: &'static str = "dcb758b1-f0fd-4ec7-b2c0-ef1e2a547b76";

/// Minimum fan speed (RPM).
pub const FAN_MIN_RPM: &'static str = "db261c77-934b-45e2-9742-256c62badb7a";

/// Maximum fan speed (RPM).
pub const FAN_MAX_RPM: &'static str = "5cf839df-8be7-42b9-9ac5-3403ca2c8a6a";

/// Current fan speed (RPM).
pub const FAN_CURRENT_RPM: &'static str = "adf95492-0776-4ffc-84f3-b6c8b5269683";

} // verus!
