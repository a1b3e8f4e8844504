//! Physical connection of a fan.

use vstd::prelude::*;
use vstd::std_specs::convert::TryFromSpecImpl;

use crate::error::Error;

verus! {

/// Connection type for a fan.
#[derive(Clone, Copy, Debug, PartialEq, Eq, Structural)]
pub enum FanConnection {
    /// No physical connection detected.
    NotConnected,
    /// 3-pin fan connection without PWM control.
    ThreePin,
    /// Standard Intel 4-pin fan connection with PWM control.
    FourPin,
    /// Virtual fan with no physical connection.
    Virtual,
}

impl FanConnection {
    /// The byte that stands for this connection in encoded data.
    pub open spec fn tag(self) -> u8 {
        match self {
            FanConnection::NotConnected => 0,
            FanConnection::ThreePin => 1,
            FanConnection::FourPin => 2,
            FanConnection::Virtual => 3,
        }
    }

    /// The connection that `value` stands for, or the error for a byte that
    /// stands for none.
    pub open spec fn of_tag(value: u8) -> Result<FanConnection, Error> {
        if value == 0 {
            Ok(FanConnection::NotConnected)
        } else if value == 1 {
            Ok(FanConnection::ThreePin)
        } else if value == 2 {
            Ok(FanConnection::FourPin)
        } else if value == 3 {
            Ok(FanConnection::Virtual)
        } else {
            Err(Error::InvalidFanConnectionValue)
        }
    }

    /// Returns the byte that stands for this connection in encoded data.
    pub fn to_u8(self) -> (value: u8)
        ensures
            value == self.tag(),
            value <= 3,
    {
        match self {
            FanConnection::NotConnected => 0,
            FanConnection::ThreePin => 1,
            FanConnection::FourPin => 2,
            FanConnection::Virtual => 3,
        }
    }

    /// A byte decodes to a connection exactly when it is that connection's
    /// tag: decoding undoes `tag`, and only the bytes 0 to 3 are tags.
    pub proof fn lemma_of_tag_inverts_tag(value: u8, connection: FanConnection)
        ensures
            FanConnection::of_tag(connection.tag()) == Ok::<FanConnection, Error>(connection),
            FanConnection::of_tag(value) == Ok::<FanConnection, Error>(connection)
                <==> value == connection.tag(),
            FanConnection::of_tag(value) is Ok <==> value <= 3,
            FanConnection::of_tag(value) is Err ==> FanConnection::of_tag(value) == Err::<
                FanConnection,
                Error,
            >(Error::InvalidFanConnectionValue),
    {
    }
}

impl Default for FanConnection {
    /// A fan is taken as not connected until a connection is detected.
    fn default() -> (connection: Self)
        ensures
            connection == FanConnection::NotConnected,
    {
        FanConnection::NotConnected
    }
}

impl TryFrom<u8> for FanConnection {
    type Error = Error;

    /// Decodes a connection from its byte. The bytes 0, 1, 2 and 3 stand for
    /// the four connections in their order of declaration; every other byte
    /// is refused.
    fn try_from(value: u8) -> (result: Result<Self, Self::Error>)
        ensures
            result == FanConnection::of_tag(value),
            value <= 3 ==> result is Ok && result->Ok_0.tag() == value,
            value > 3 ==> result == Err::<FanConnection, Error>(Error::InvalidFanConnectionValue),
    {
        match value {
            0 => Ok(FanConnection::NotConnected),
            1 => Ok(FanConnection::ThreePin),
            2 => Ok(FanConnection::FourPin),
            3 => Ok(FanConnection::Virtual),
            _ => Err(Error::InvalidFanConnectionValue),
        }
    }
}

impl TryFromSpecImpl<u8> for FanConnection {
    open spec fn obeys_try_from_spec() -> bool {
        true
    }

    open spec fn try_from_spec(value: u8) -> Result<Self, Self::Error> {
        FanConnection::of_tag(value)
    }
}

} // verus!
