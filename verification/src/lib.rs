//! Verified core of an embedded thermal-management and device-service stack.
//!
//! The crate holds the decision logic of the services (device registries,
//! request handling, the default fan-control policy, sample buffers, the
//! USB-C port bookkeeping and the layered entity-component system) as
//! synchronous functions with contracts.  Waiting on channels, timers and
//! hardware drivers is left to the code that drives these functions.

pub mod comms;
pub mod ecs;
pub mod registry;
pub mod thermal;
pub mod type_c;
pub mod thermal_service;
