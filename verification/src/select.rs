//! Selection of one fan among the fans of a controller.

use vstd::prelude::*;

use crate::wire::{u16_from_be, u16_of_be_bytes};

verus! {

/// Identifies a fan by its position, counted from 1. The value 0 selects no
/// fan.
#[derive(Clone, Copy, Debug, PartialEq, Eq, Structural)]
pub struct FanSelect(pub u16);

impl FanSelect {
    /// Creates a selection from its raw value.
    pub fn new(value: u16) -> (select: Self)
        ensures
            select.0 == value,
    {
        FanSelect(value)
    }

    /// Reads a selection from two bytes, most significant byte first.
    pub fn from_be_bytes(bytes: [u8; 2]) -> (select: Self)
        ensures
            select.0 == u16_of_be_bytes(bytes@),
            select.0 == bytes[0] as int * 0x100 + bytes[1] as int,
    {
        FanSelect(u16_from_be(bytes))
    }
}

} // verus!
