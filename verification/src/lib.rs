//! Control logic of the dust collector's fire sensor.
//!
//! The library decides; the firmware around it reads pins, waits, publishes
//! and posts. Every decision is a function of plain values with a proved
//! contract.
pub mod alert;
pub mod boot;
pub mod clock;
pub mod layout;
pub mod led;
pub mod monitor;
pub mod monitor_laws;
pub mod multiplexer;
pub mod scan_laws;
pub mod temperature;
pub mod text;
pub mod topics;
pub mod wifi;
