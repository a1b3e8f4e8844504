//! Status report of a fan and its encoding as a record of 17 bytes.
//!
//! | bytes | field                      |
//! |-------|----------------------------|
//! | 0-1   | select                     |
//! | 2-3   | capabilities               |
//! | 4     | connection                 |
//! | 5     | duty cycle                 |
//! | 6-7   | rpm                        |
//! | 8     | mode                       |
//! | 9-12  | voltage, in millivolts     |
//! | 13-16 | current, in milliamps      |
//!
//! Multi-byte fields are stored most significant byte first.

use vstd::prelude::*;
use vstd::std_specs::convert::TryFromSpecImpl;

use crate::connection::FanConnection;
use crate::error::Error;
use crate::mode::FanMode;
use crate::select::FanSelect;
use crate::wire::{
    lemma_u16_be_round_trip, lemma_u32_be_round_trip, u16_be_bytes, u16_from_be, u16_of_be_bytes,
    u16_to_be, u32_be_bytes, u32_from_be, u32_of_be_bytes, u32_to_be,
};
use crate::{FanCurrent, FanDutyCycle, FanRpm, FanVoltage};

verus! {

/// A report containing the status of a fan.
#[derive(Clone, Copy, Debug, PartialEq, Eq, Structural)]
pub struct FanReport {
    /// Fan that the report belongs to.
    pub select: FanSelect,
    /// Bit mask of the features that the fan's controller supports.
    pub capabilities: u16,
    /// Physical connection of the fan.
    pub connection: FanConnection,
    /// Reported duty cycle.
    pub duty_cycle: FanDutyCycle,
    /// Reported RPM.
    pub rpm: FanRpm,
    /// Operating mode of the fan.
    pub mode: FanMode,
    /// Supply voltage, in millivolts.
    pub voltage: FanVoltage,
    /// Supply current, in milliamps.
    pub current: FanCurrent,
}

impl FanReport {
    /// Number of bytes of an encoded report.
    pub const BYTE_LENGTH: usize = 17;

    /// The encoded report: its fields in order, each in its fixed width.
    pub open spec fn wire_bytes(self) -> Seq<u8> {
        u16_be_bytes(self.select.0) + u16_be_bytes(self.capabilities) + seq![
            self.connection.tag(),
            self.duty_cycle,
        ] + u16_be_bytes(self.rpm) + seq![self.mode.tag()] + u32_be_bytes(self.voltage)
            + u32_be_bytes(self.current)
    }

    /// What decoding makes of `bytes`: the length is checked first, then the
    /// connection byte, then the mode byte; the other fields are taken as
    /// they are.
    pub open spec fn decode(bytes: Seq<u8>) -> Result<FanReport, Error> {
        if bytes.len() != 17 {
            Err(Error::InvalidFarReportByteLength)
        } else if FanConnection::of_tag(bytes[4]) is Err {
            Err(Error::InvalidFanConnectionValue)
        } else if FanMode::of_tag(bytes[8]) is Err {
            Err(Error::InvalidFanModeValue)
        } else {
            Ok(
                FanReport {
                    select: FanSelect(u16_of_be_bytes(bytes.subrange(0, 2))),
                    capabilities: u16_of_be_bytes(bytes.subrange(2, 4)),
                    connection: FanConnection::of_tag(bytes[4])->Ok_0,
                    duty_cycle: bytes[5],
                    rpm: u16_of_be_bytes(bytes.subrange(6, 8)),
                    mode: FanMode::of_tag(bytes[8])->Ok_0,
                    voltage: u32_of_be_bytes(bytes.subrange(9, 13)),
                    current: u32_of_be_bytes(bytes.subrange(13, 17)),
                },
            )
        }
    }

    /// Encodes the report into `out`, which must be 17 bytes long. A buffer
    /// of another length is refused and left as it was.
    pub fn write_to_slice(self, out: &mut [u8]) -> (result: Result<(), Error>)
        ensures
            old(out)@.len() == 17 ==> result is Ok && final(out)@ == self.wire_bytes(),
            old(out)@.len() != 17 ==> result == Err::<(), Error>(
                Error::InvalidFarReportByteLength,
            ) && final(out)@ == old(out)@,
    {
        if out.len() != Self::BYTE_LENGTH {
            return Err(Error::InvalidFarReportByteLength);
        }
        let select: [u8; 2] = u16_to_be(self.select.0);
        let capabilities: [u8; 2] = u16_to_be(self.capabilities);
        let rpm: [u8; 2] = u16_to_be(self.rpm);
        let voltage: [u8; 4] = u32_to_be(self.voltage);
        let current: [u8; 4] = u32_to_be(self.current);

        out[0] = select[0];
        out[1] = select[1];
        out[2] = capabilities[0];
        out[3] = capabilities[1];
        out[4] = self.connection.to_u8();
        out[5] = self.duty_cycle;
        out[6] = rpm[0];
        out[7] = rpm[1];
        out[8] = self.mode.to_u8();
        out[9] = voltage[0];
        out[10] = voltage[1];
        out[11] = voltage[2];
        out[12] = voltage[3];
        out[13] = current[0];
        out[14] = current[1];
        out[15] = current[2];
        out[16] = current[3];

        assert(out@ =~= self.wire_bytes());
        Ok(())
    }

    /// An encoded report is 17 bytes long.
    pub proof fn lemma_wire_bytes_len(report: FanReport)
        ensures
            report.wire_bytes().len() == 17,
    {
    }

    /// Decoding the encoding of a report gives that report back.
    pub proof fn lemma_decode_wire_bytes(report: FanReport)
        ensures
            FanReport::decode(report.wire_bytes()) == Ok::<FanReport, Error>(report),
    {
        let bytes = report.wire_bytes();
        assert(bytes.subrange(0, 2) =~= u16_be_bytes(report.select.0));
        assert(bytes.subrange(2, 4) =~= u16_be_bytes(report.capabilities));
        assert(bytes.subrange(6, 8) =~= u16_be_bytes(report.rpm));
        assert(bytes.subrange(9, 13) =~= u32_be_bytes(report.voltage));
        assert(bytes.subrange(13, 17) =~= u32_be_bytes(report.current));
        assert(bytes[4] == report.connection.tag());
        assert(bytes[5] == report.duty_cycle);
        assert(bytes[8] == report.mode.tag());
        lemma_u16_be_round_trip(report.select.0, bytes);
        lemma_u16_be_round_trip(report.capabilities, bytes);
        lemma_u16_be_round_trip(report.rpm, bytes);
        lemma_u32_be_round_trip(report.voltage, bytes);
        lemma_u32_be_round_trip(report.current, bytes);
        FanConnection::lemma_of_tag_inverts_tag(bytes[4], report.connection);
        FanMode::lemma_of_tag_inverts_tag(bytes[8], report.mode);
    }

    /// Bytes decode to a report exactly when they are that report's
    /// encoding, so no two reports share an encoding and no two buffers
    /// decode to the same report.
    pub proof fn lemma_decode_inverts_wire_bytes(bytes: Seq<u8>, report: FanReport)
        ensures
            FanReport::decode(bytes) == Ok::<FanReport, Error>(report) <==> bytes
                == report.wire_bytes(),
    {
        FanReport::lemma_decode_wire_bytes(report);
        if FanReport::decode(bytes) == Ok::<FanReport, Error>(report) {
            lemma_u16_be_round_trip(0, bytes.subrange(0, 2));
            lemma_u16_be_round_trip(0, bytes.subrange(2, 4));
            lemma_u16_be_round_trip(0, bytes.subrange(6, 8));
            lemma_u32_be_round_trip(0, bytes.subrange(9, 13));
            lemma_u32_be_round_trip(0, bytes.subrange(13, 17));
            FanConnection::lemma_of_tag_inverts_tag(bytes[4], report.connection);
            FanMode::lemma_of_tag_inverts_tag(bytes[8], report.mode);
            assert(bytes =~= bytes.subrange(0, 2) + bytes.subrange(2, 4) + seq![bytes[4], bytes[5]]
                + bytes.subrange(6, 8) + seq![bytes[8]] + bytes.subrange(9, 13) + bytes.subrange(
                13,
                17,
            ));
            assert(bytes =~= report.wire_bytes());
        }
    }

    /// A buffer is refused for its length whenever it is not 17 bytes long,
    /// whatever it holds.
    pub proof fn lemma_decode_length_guard(bytes: Seq<u8>)
        requires
            bytes.len() != 17,
        ensures
            FanReport::decode(bytes) == Err::<FanReport, Error>(Error::InvalidFarReportByteLength),
    {
    }

    /// In a buffer of 17 bytes, a connection byte above 3 is refused as
    /// such, whatever the other bytes hold; with a connection byte of 0 to
    /// 3, a mode byte above 4 is refused as such; with both in range the
    /// buffer decodes.
    pub proof fn lemma_decode_tag_guard(bytes: Seq<u8>)
        requires
            bytes.len() == 17,
        ensures
            bytes[4] > 3 ==> FanReport::decode(bytes) == Err::<FanReport, Error>(
                Error::InvalidFanConnectionValue,
            ),
            bytes[4] <= 3 && bytes[8] > 4 ==> FanReport::decode(bytes) == Err::<FanReport, Error>(
                Error::InvalidFanModeValue,
            ),
            bytes[4] <= 3 && bytes[8] <= 4 ==> FanReport::decode(bytes) is Ok,
    {
    }
}

impl<'a> TryFrom<&'a [u8]> for FanReport {
    type Error = Error;

    /// Decodes a report from a buffer of 17 bytes. The length is checked
    /// first, then the connection byte, then the mode byte; every other
    /// field is accepted as it stands.
    fn try_from(data: &'a [u8]) -> (result: Result<Self, Self::Error>)
        ensures
            result == FanReport::decode(data@),
            data@.len() != 17 ==> result == Err::<FanReport, Error>(
                Error::InvalidFarReportByteLength,
            ),
            data@.len() == 17 && data@[4] > 3 ==> result == Err::<FanReport, Error>(
                Error::InvalidFanConnectionValue,
            ),
            data@.len() == 17 && data@[4] <= 3 && data@[8] > 4 ==> result == Err::<
                FanReport,
                Error,
            >(Error::InvalidFanModeValue),
            data@.len() == 17 && data@[4] <= 3 && data@[8] <= 4 ==> result is Ok
                && result->Ok_0.wire_bytes() == data@,
    {
        if data.len() != FanReport::BYTE_LENGTH {
            return Err(Error::InvalidFarReportByteLength);
        }
        let select = FanSelect::from_be_bytes([data[0], data[1]]);
        let capabilities: u16 = u16_from_be([data[2], data[3]]);
        let connection = FanConnection::try_from(data[4])?;
        let duty_cycle: u8 = data[5];
        let rpm: u16 = u16_from_be([data[6], data[7]]);
        let mode = FanMode::try_from(data[8])?;
        let voltage: u32 = u32_from_be([data[9], data[10], data[11], data[12]]);
        let current: u32 = u32_from_be([data[13], data[14], data[15], data[16]]);
        let report = FanReport {
            select,
            capabilities,
            connection,
            duty_cycle,
            rpm,
            mode,
            voltage,
            current,
        };
        proof {
            assert(data@.subrange(0, 2) =~= [data[0], data[1]]@);
            assert(data@.subrange(2, 4) =~= [data[2], data[3]]@);
            assert(data@.subrange(6, 8) =~= [data[6], data[7]]@);
            assert(data@.subrange(9, 13) =~= [data[9], data[10], data[11], data[12]]@);
            assert(data@.subrange(13, 17) =~= [data[13], data[14], data[15], data[16]]@);
            FanReport::lemma_decode_inverts_wire_bytes(data@, report);
        }
        Ok(report)
    }
}

impl<'a> TryFromSpecImpl<&'a [u8]> for FanReport {
    open spec fn obeys_try_from_spec() -> bool {
        true
    }

    open spec fn try_from_spec(data: &'a [u8]) -> Result<Self, Self::Error> {
        FanReport::decode(data@)
    }
}

} // verus!
