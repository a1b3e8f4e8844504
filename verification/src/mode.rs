//! Operating mode of a fan.

use vstd::prelude::*;
use vstd::std_specs::convert::TryFromSpecImpl;

use crate::error::Error;

verus! {

/// Operating mode for a fan.
#[derive(Clone, Copy, Debug, PartialEq, Eq, Structural)]
pub enum FanMode {
    /// Completely disable the fan (if supported).
    Disabled,
    /// The fan is targeting a specific duty cycle.
    DutyCycle,
    /// The fan is targeting a specific RPM.
    Rpm,
    /// The fan is targeting a specific temperature.
    Temperature,
    /// The fan is following a temperature curve.
    TemperatureCurve,
}

impl FanMode {
    /// The byte that stands for this mode in encoded data.
    pub open spec fn tag(self) -> u8 {
        match self {
            FanMode::Disabled => 0,
            FanMode::DutyCycle => 1,
            FanMode::Rpm => 2,
            FanMode::Temperature => 3,
            FanMode::TemperatureCurve => 4,
        }
    }

    /// The mode that `value` stands for, or the error for a byte that stands
    /// for none.
    pub open spec fn of_tag(value: u8) -> Result<FanMode, Error> {
        if value == 0 {
            Ok(FanMode::Disabled)
        } else if value == 1 {
            Ok(FanMode::DutyCycle)
        } else if value == 2 {
            Ok(FanMode::Rpm)
        } else if value == 3 {
            Ok(FanMode::Temperature)
        } else if value == 4 {
            Ok(FanMode::TemperatureCurve)
        } else {
            Err(Error::InvalidFanModeValue)
        }
    }

    /// Returns the byte that stands for this mode in encoded data.
    pub fn to_u8(self) -> (value: u8)
        ensures
            value == self.tag(),
            value <= 4,
    {
        match self {
            FanMode::Disabled => 0,
            FanMode::DutyCycle => 1,
            FanMode::Rpm => 2,
            FanMode::Temperature => 3,
            FanMode::TemperatureCurve => 4,
        }
    }

    /// A byte decodes to a mode exactly when it is that mode's tag: decoding
    /// undoes `tag`, and only the bytes 0 to 4 are tags.
    pub proof fn lemma_of_tag_inverts_tag(value: u8, mode: FanMode)
        ensures
            FanMode::of_tag(mode.tag()) == Ok::<FanMode, Error>(mode),
            FanMode::of_tag(value) == Ok::<FanMode, Error>(mode) <==> value == mode.tag(),
            FanMode::of_tag(value) is Ok <==> value <= 4,
            FanMode::of_tag(value) is Err ==> FanMode::of_tag(value) == Err::<FanMode, Error>(
                Error::InvalidFanModeValue,
            ),
    {
    }
}

impl Default for FanMode {
    /// A fan is disabled until a mode is chosen.
    fn default() -> (mode: Self)
        ensures
            mode == FanMode::Disabled,
    {
        FanMode::Disabled
    }
}

impl TryFrom<u8> for FanMode {
    type Error = Error;

    /// Decodes a mode from its byte. The bytes 0 to 4 stand for the five
    /// modes in their order of declaration; every other byte is refused.
    fn try_from(value: u8) -> (result: Result<Self, Self::Error>)
        ensures
            result == FanMode::of_tag(value),
            value <= 4 ==> result is Ok && result->Ok_0.tag() == value,
            value > 4 ==> result == Err::<FanMode, Error>(Error::InvalidFanModeValue),
    {
        match value {
            0 => Ok(FanMode::Disabled),
            1 => Ok(FanMode::DutyCycle),
            2 => Ok(FanMode::Rpm),
            3 => Ok(FanMode::Temperature),
            4 => Ok(FanMode::TemperatureCurve),
            _ => Err(Error::InvalidFanModeValue),
        }
    }
}

impl TryFromSpecImpl<u8> for FanMode {
    open spec fn obeys_try_from_spec() -> bool {
        true
    }

    open spec fn try_from_spec(value: u8) -> Result<Self, Self::Error> {
        FanMode::of_tag(value)
    }
}

} // verus!
