//! Data types for cooling-fan control and telemetry, a fixed-width binary
//! encoding of fan reports, and a simulated fan driver for use without
//! hardware.

use vstd::prelude::*;

pub mod connection;
pub mod control;
pub mod error;
pub mod mode;
pub mod report;
pub mod select;
pub mod virtual_fan;
pub mod wire;

pub use connection::FanConnection;
pub use control::FanControl;
pub use error::Error;
pub use mode::FanMode;
pub use report::FanReport;
pub use select::FanSelect;

verus! {

/// Duty cycle of a fan, as a percentage.
pub type FanDutyCycle = u8;

/// Rotational speed of a fan, in revolutions per minute.
pub type FanRpm = u16;

/// Supply voltage of a fan, in millivolts.
pub type FanVoltage = u32;

/// Supply current of a fan, in milliamps.
pub type FanCurrent = u32;

} // verus!
