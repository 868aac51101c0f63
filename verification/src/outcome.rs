//! Tolerance comparison between a commanded volume and the value read back
//! from the device.

use vstd::prelude::*;

verus! {

/// Result of holding one measured volume against its expected value.
///
/// A measurement that equals the expectation exactly passes with no margin
/// noted; one that differs but stays within the tolerance passes with the
/// signed deviation (measured minus expected) noted; anything further away
/// fails.
#[derive(Debug, Clone, Copy, PartialEq, Eq, Structural)]
pub enum CheckOutcome {
    PassExact,
    PassWithin(i16),
    Fail,
}

/// What the comparison must yield for given measured, expected and
/// tolerance values, all on the raw 8-bit fader scale.
pub open spec fn compare_spec(measured: u8, expected: u8, tolerance: u8) -> CheckOutcome {
    if measured == expected {
        CheckOutcome::PassExact
    } else if abs_diff(measured as int, expected as int) <= tolerance as int {
        CheckOutcome::PassWithin((measured - expected) as i16)
    } else {
        CheckOutcome::Fail
    }
}

/// Absolute difference of two integers.
pub open spec fn abs_diff(a: int, b: int) -> int {
    if a >= b {
        a - b
    } else {
        b - a
    }
}

impl CheckOutcome {
    /// Whether this outcome records a pass (exact or within tolerance).
    pub open spec fn is_pass(self) -> bool {
        self != CheckOutcome::Fail
    }

    /// Returns whether this outcome records a pass.
    pub fn passed(&self) -> (r: bool)
        ensures
            r == self.is_pass(),
    {
        !matches!(self, CheckOutcome::Fail)
    }
}

/// Compares a read-back volume against the commanded value with a symmetric
/// tolerance.
pub fn compare_volume(measured: u8, expected: u8, tolerance: u8) -> (r: CheckOutcome)
    ensures
        r == compare_spec(measured, expected, tolerance),
        measured == expected ==> r == CheckOutcome::PassExact,
        measured != expected && abs_diff(measured as int, expected as int) <= tolerance as int
            ==> r == CheckOutcome::PassWithin((measured - expected) as i16),
        abs_diff(measured as int, expected as int) > tolerance as int ==> r == CheckOutcome::Fail,
{
    let m: i16 = measured as i16;
    let e: i16 = expected as i16;
    if m == e {
        CheckOutcome::PassExact
    } else {
        let diff: i16 = if m >= e {
            m - e
        } else {
            e - m
        };
        if diff <= tolerance as i16 {
            CheckOutcome::PassWithin(m - e)
        } else {
            CheckOutcome::Fail
        }
    }
}

} // verus!
