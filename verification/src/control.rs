//! Control target of a fan.

use vstd::prelude::*;

verus! {

/// Drive method for a fan.
///
/// A fan can be controlled by either setting the duty cycle or a target RPM.
#[derive(Clone, Copy, Debug, PartialEq, Eq, Structural)]
pub enum FanControl {
    /// Duty cycle for a fan to be driven at.
    DutyCycle(u8),
    /// Target RPM for a fan to reach.
    Rpm(u16),
}

} // verus!
