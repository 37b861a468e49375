//! Thermal service: sensors, fans and the MPTF request handler.

pub mod context;
pub mod default_handler;
pub mod fan;
pub mod mptf;
pub mod sensor;
pub mod temperature;
pub mod utils;
