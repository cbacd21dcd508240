//! The version record of the binding layer, and its rendering.

use vstd::prelude::*;
use vstd::string::StringExecFns;

verus! {

/// Major version of this binding layer.
pub const MAJOR: u32 = 0;

/// Minor version of this binding layer.
pub const MINOR: u32 = 1;

/// Patch number of this binding layer.
pub const PATCH: u32 = 0;

/// Whether this build of the binding layer is a release.
pub const RELEASE: bool = false;

/// Name, version triple and release flag, of the embedded runtime or of this
/// binding layer.
#[derive(Debug, Clone, Copy)]
pub struct Version<'a> {
    pub name: &'a str,
    pub major: u32,
    pub minor: u32,
    pub patch: u32,
    pub release: bool,
}

/// The version of this binding layer.
pub fn get() -> (r: Version<'static>)
    ensures
        r.name@ == "julia-rs"@,
        r.major == MAJOR,
        r.minor == MINOR,
        r.patch == PATCH,
        r.release == RELEASE,
{
    Version { name: "julia-rs", major: MAJOR, minor: MINOR, patch: PATCH, release: RELEASE }
}

/// The digit character of `d`.
pub open spec fn digit_char(d: nat) -> char {
    if d == 0 {
        '0'
    } else if d == 1 {
        '1'
    } else if d == 2 {
        '2'
    } else if d == 3 {
        '3'
    } else if d == 4 {
        '4'
    } else if d == 5 {
        '5'
    } else if d == 6 {
        '6'
    } else if d == 7 {
        '7'
    } else if d == 8 {
        '8'
    } else {
        '9'
    }
}

/// The decimal rendering of `n`, most significant digit first.
pub open spec fn spec_decimal(n: nat) -> Seq<char>
    decreases n,
{
    if n < 10 {
        seq![digit_char(n)]
    } else {
        spec_decimal(n / 10).push(digit_char(n % 10))
    }
}

/// One decimal digit as text.
fn digit_str(d: u32) -> (r: &'static str)
    requires
        d < 10,
    ensures
        r@ =~= seq![digit_char(d as nat)],
{
    proof {
        reveal_strlit("0");
        reveal_strlit("1");
        reveal_strlit("2");
        reveal_strlit("3");
        reveal_strlit("4");
        reveal_strlit("5");
        reveal_strlit("6");
        reveal_strlit("7");
        reveal_strlit("8");
        reveal_strlit("9");
    }
    match d {
        0 => "0",
        1 => "1",
        2 => "2",
        3 => "3",
        4 => "4",
        5 => "5",
        6 => "6",
        7 => "7",
        8 => "8",
        _ => "9",
    }
}

/// Renders `n` in decimal.
fn decimal(n: u32) -> (r: String)
    ensures
        r@ == spec_decimal(n as nat),
    decreases n,
{
    if n < 10 {
        let s = String::from_str(digit_str(n));
        proof {
            assert(s@ =~= spec_decimal(n as nat));
        }
        s
    } else {
        let mut s = decimal(n / 10);
        s.append(digit_str(n % 10));
        proof {
            assert(s@ =~= spec_decimal(n as nat));
        }
        s
    }
}

impl<'a> Version<'a> {
    /// The rendering `name major.minor.patch`.
    pub open spec fn spec_text(&self) -> Seq<char> {
        self.name@ + " "@ + spec_decimal(self.major as nat) + "."@ + spec_decimal(
            self.minor as nat,
        ) + "."@ + spec_decimal(self.patch as nat)
    }

    /// Renders the version as `name major.minor.patch`.
    pub fn text(&self) -> (r: String)
        ensures
            r@ == self.spec_text(),
    {
        let mut s = String::from_str(self.name);
        s.append(" ");
        let major = decimal(self.major);
        s.append(major.as_str());
        s.append(".");
        let minor = decimal(self.minor);
        s.append(minor.as_str());
        s.append(".");
        let patch = decimal(self.patch);
        s.append(patch.as_str());
        s
    }
}

} // verus!
