//! Errors that abort a test run.

use vstd::prelude::*;

verus! {

/// Why a run stopped before or during the test plan. Transport failures are
/// surfaced by the driver itself and are not enumerated here.
#[derive(Debug, Clone, Copy, PartialEq, Eq, Structural)]
pub enum RunError {
    /// Discovery produced no usable device record.
    NoDevices,
    /// Devices were found, but none of the full-size class the plan needs.
    NoFullDevice,
    /// A command named a physical device for which no session is open.
    SessionNotFound,
}

impl RunError {
    /// The characters of the operator-facing diagnostic for this error.
    pub open spec fn message_spec(self) -> Seq<char> {
        match self {
            RunError::NoDevices => "No GoXLR Devices Detected"@,
            RunError::NoFullDevice => "This tool only works on Full GoXLR Devices"@,
            RunError::SessionNotFound => "No Device?"@,
        }
    }

    /// Operator-facing diagnostic line for this error.
    pub fn message(&self) -> (r: &'static str)
        ensures
            r@ == self.message_spec(),
    {
        match self {
            RunError::NoDevices => "No GoXLR Devices Detected",
            RunError::NoFullDevice => "This tool only works on Full GoXLR Devices",
            RunError::SessionNotFound => "No Device?",
        }
    }
}

} // verus!
