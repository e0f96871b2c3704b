//! The base that an address text is written in.

use vstd::prelude::*;

verus! {

/// How an address text is written and read.
#[derive(Clone, Copy, Debug, PartialEq, Eq, Structural)]
pub enum AddrMode {
    Hex,
    Dec,
}

impl AddrMode {
    /// The other mode.
    pub open spec fn flipped(self) -> AddrMode {
        match self {
            AddrMode::Hex => AddrMode::Dec,
            AddrMode::Dec => AddrMode::Hex,
        }
    }
}

/// The radix that labels a mode: `16` or `10`.
pub open spec fn radix_label(m: AddrMode) -> &'static str {
    match m {
        AddrMode::Hex => "16",
        AddrMode::Dec => "10",
    }
}

impl From<&AddrMode> for &'static str {
    fn from(value: &AddrMode) -> (r: &'static str) {
        match *value {
            AddrMode::Hex => "16",
            AddrMode::Dec => "10",
        }
    }
}

impl vstd::std_specs::convert::FromSpecImpl<&AddrMode> for &'static str {
    open spec fn obeys_from_spec() -> bool {
        true
    }

    open spec fn from_spec(v: &AddrMode) -> &'static str {
        radix_label(*v)
    }
}

} // verus!
