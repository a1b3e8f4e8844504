//! Errors of the fan data types.

use vstd::prelude::*;

verus! {

/// Reasons for which bytes are refused as fan data.
#[derive(Clone, Copy, Debug, PartialEq, Eq, Structural)]
pub enum Error {
    /// The byte does not name a fan connection.
    InvalidFanConnectionValue,
    /// The byte does not name a fan mode.
    InvalidFanModeValue,
    /// The buffer does not have the length of an encoded fan report.
    InvalidFarReportByteLength,
}

} // verus!
