//! Verified core of a bench tool that exercises the motorised faders of a
//! GoXLR audio mixer: device discovery bookkeeping, the calibration table,
//! the tolerance comparison, and the phase-by-phase test plan.
//!
//! All hardware access (USB transport, process inspection, console output)
//! lives outside this crate; the functions here take plain values that the
//! driver reads from the device and hand back decisions and expected values.

pub mod channels;
pub mod device;
pub mod errors;
pub mod outcome;
pub mod plan;
pub mod preflight;
pub mod registry;
pub mod version;
