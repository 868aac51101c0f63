//! Firmware version numbers and their rendering as
//! "major.minor[.patch[.build]]".

use vstd::prelude::*;
use vstd::string::StringExecFns;

verus! {

/// A 2-to-4 component firmware version: major, minor, optional patch,
/// optional build. Components compare left to right; a missing patch hides
/// the build when rendering.
#[derive(Debug, Copy, Clone, PartialEq, Eq, PartialOrd, Ord)]
pub struct VersionNumber(pub u32, pub u32, pub Option<u32>, pub Option<u32>);

/// The decimal digit character for a value below ten.
pub open spec fn digit_char(d: int) -> char {
    if d == 0 {
        '0'
    } else if d == 1 {
        '1'
    } else if d == 2 {
        '2'
    } else if d == 3 {
        '3'
    } else if d == 4 {
        '4'
    } else if d == 5 {
        '5'
    } else if d == 6 {
        '6'
    } else if d == 7 {
        '7'
    } else if d == 8 {
        '8'
    } else {
        '9'
    }
}

/// The decimal rendering of a natural number, most significant digit first,
/// with no leading zeros (zero itself renders as "0").
pub open spec fn dec_spec(n: nat) -> Seq<char>
    decreases n,
{
    if n < 10 {
        seq![digit_char(n as int)]
    } else {
        dec_spec(n / 10).push(digit_char((n % 10) as int))
    }
}

/// The characters of a version's rendering: major and minor always, then the
/// patch if present, then the build if both patch and build are present, all
/// separated by dots.
pub open spec fn render_spec(v: VersionNumber) -> Seq<char> {
    let base = dec_spec(v.0 as nat) + "."@ + dec_spec(v.1 as nat);
    match v.2 {
        Some(patch) => {
            let with_patch = base + "."@ + dec_spec(patch as nat);
            match v.3 {
                Some(build) => with_patch + "."@ + dec_spec(build as nat),
                None => with_patch,
            }
        },
        None => base,
    }
}

/// Returns the single-character string for a decimal digit.
fn digit_str(d: u32) -> (r: &'static str)
    requires
        d < 10,
    ensures
        r@ =~= seq![digit_char(d as int)],
{
    proof {
        reveal_strlit("0");
        reveal_strlit("1");
        reveal_strlit("2");
        reveal_strlit("3");
        reveal_strlit("4");
        reveal_strlit("5");
        reveal_strlit("6");
        reveal_strlit("7");
        reveal_strlit("8");
        reveal_strlit("9");
    }
    match d {
        0 => "0",
        1 => "1",
        2 => "2",
        3 => "3",
        4 => "4",
        5 => "5",
        6 => "6",
        7 => "7",
        8 => "8",
        _ => "9",
    }
}

/// Renders a number in decimal.
pub(crate) fn dec_u32(n: u32) -> (r: String)
    ensures
        r@ == dec_spec(n as nat),
    decreases n,
{
    if n < 10 {
        String::from_str(digit_str(n))
    } else {
        let prefix = dec_u32(n / 10);
        let r = prefix.concat(digit_str(n % 10));
        proof {
            assert(r@ =~= dec_spec(n as nat));
        }
        r
    }
}

/// The decimal rendering of an integer with a leading minus sign when it is
/// negative.
pub open spec fn signed_dec_spec(d: int) -> Seq<char> {
    if d < 0 {
        seq!['-'] + dec_spec((-d) as nat)
    } else {
        dec_spec(d as nat)
    }
}

/// Renders a signed number in decimal.
pub(crate) fn signed_dec_i16(d: i16) -> (r: String)
    ensures
        r@ == signed_dec_spec(d as int),
{
    let wide: i32 = d as i32;
    if wide < 0 {
        let mag: u32 = (-wide) as u32;
        let mut s = String::from_str("-");
        let digits = dec_u32(mag);
        s.append(digits.as_str());
        proof {
            reveal_strlit("-");
            assert(s@ =~= signed_dec_spec(d as int));
        }
        s
    } else {
        dec_u32(wide as u32)
    }
}

impl VersionNumber {
    /// Renders the version as "major.minor[.patch[.build]]".
    pub fn render(&self) -> (r: String)
        ensures
            r@ == render_spec(*self),
    {
        let mut s = dec_u32(self.0);
        s.append(".");
        let minor = dec_u32(self.1);
        s.append(minor.as_str());
        if let Some(patch) = self.2 {
            s.append(".");
            let p = dec_u32(patch);
            s.append(p.as_str());
            if let Some(build) = self.3 {
                s.append(".");
                let b = dec_u32(build);
                s.append(b.as_str());
            }
        }
        s
    }
}

} // verus!
