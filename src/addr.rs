//! Address text tagged with the mode it is written in.

use vstd::prelude::*;

use crate::mode::AddrMode;
use crate::text::{
    dec_text, format_dec, format_hex, hex_text, lemma_dec_round_trip, lemma_hex_round_trip,
    parse_dec, parse_dec_text, parse_guess, parse_guess_text, parse_hex, parse_hex_text,
};

verus! {

/// Value of text read in mode `m`.
pub open spec fn parse_in(m: AddrMode, s: Seq<char>) -> Option<u64> {
    match m {
        AddrMode::Hex => parse_hex(s),
        AddrMode::Dec => parse_dec(s),
    }
}

/// Canonical text of `v` in mode `m`.
pub open spec fn format_in(m: AddrMode, v: u64) -> Seq<char> {
    match m {
        AddrMode::Hex => hex_text(v as nat),
        AddrMode::Dec => dec_text(v as nat),
    }
}

/// What an `AddrString` holds: its mode and its text.
pub struct AddrView {
    pub mode: AddrMode,
    pub text: Seq<char>,
}

impl AddrView {
    /// The number the text stands for, if it can be read in the mode.
    pub open spec fn value(self) -> Option<u64> {
        parse_in(self.mode, self.text)
    }

    /// The same mode, with the text replaced by the canonical text of `v`.
    pub open spec fn with_value(self, v: u64) -> AddrView {
        AddrView { mode: self.mode, text: format_in(self.mode, v) }
    }

    /// The other mode with the value rewritten in it; unchanged where the
    /// text cannot be read.
    pub open spec fn toggled(self) -> AddrView {
        match self.value() {
            Some(v) => AddrView { mode: self.mode.flipped(), text: format_in(self.mode.flipped(), v) },
            None => self,
        }
    }
}

/// Formatting a value in a mode and then reading the text in that mode gives
/// the value back.
pub proof fn lemma_round_trip(a: AddrView, v: u64)
    ensures
        a.with_value(v).value() == Some(v),
        a.with_value(v).mode == a.mode,
{
    lemma_hex_round_trip(v);
    lemma_dec_round_trip(v);
}

/// Toggling the mode of readable text twice keeps its value and its mode.
pub proof fn lemma_toggle_twice(a: AddrView)
    requires
        a.value() is Some,
    ensures
        a.toggled().toggled().value() == a.value(),
        a.toggled().toggled().mode == a.mode,
{
    let v = a.value()->0;
    lemma_round_trip(AddrView { mode: a.mode.flipped(), text: a.text }, v);
    lemma_round_trip(a, v);
}

/// Something that can be read as an address.
pub trait GenericAddressString {
    /// The address read, if the text holds one.
    spec fn addr_spec(&self) -> Option<u64>;

    fn get_addr(&self) -> (r: Option<u64>)
        ensures
            r == self.addr_spec(),
    ;
}

/// Text of no stated mode: decimal when it is all decimal digits, else
/// hexadecimal with an optional `0x`.
impl GenericAddressString for String {
    open spec fn addr_spec(&self) -> Option<u64> {
        parse_guess(self@)
    }

    fn get_addr(&self) -> (r: Option<u64>) {
        parse_guess_text(self.as_str())
    }
}

/// Editable address text, in hexadecimal or in decimal.
#[derive(Debug)]
pub enum AddrString {
    Hex(String),
    Dec(String),
}

impl View for AddrString {
    type V = AddrView;

    open spec fn view(&self) -> AddrView {
        match self {
            AddrString::Hex(s) => AddrView { mode: AddrMode::Hex, text: s@ },
            AddrString::Dec(s) => AddrView { mode: AddrMode::Dec, text: s@ },
        }
    }
}

impl AddrString {
    /// The text buffer.
    pub open spec fn spec_buffer(&self) -> String {
        match self {
            AddrString::Hex(s) => *s,
            AddrString::Dec(s) => *s,
        }
    }

    /// The same mode, holding buffer `s`.
    pub open spec fn with_buffer(&self, s: String) -> AddrString {
        match self {
            AddrString::Hex(_) => AddrString::Hex(s),
            AddrString::Dec(_) => AddrString::Dec(s),
        }
    }

    /// Decimal zero.
    pub fn default_decimal() -> (r: Self)
        ensures
            r@.mode == AddrMode::Dec,
            r@.text == seq!['0'],
    {
        let zero = "0";
        proof {
            reveal_strlit("0");
        }
        assert(zero@ =~= seq!['0']);
        Self::Dec(String::from_str(zero))
    }

    pub fn new(s: String, m: AddrMode) -> (r: Self)
        ensures
            r@ == (AddrView { mode: m, text: s@ }),
            r.spec_buffer() == s,
    {
        match m {
            AddrMode::Hex => Self::Hex(s),
            AddrMode::Dec => Self::Dec(s),
        }
    }

    pub fn mode(&self) -> (r: AddrMode)
        ensures
            r == self@.mode,
    {
        match self {
            Self::Hex(..) => AddrMode::Hex,
            Self::Dec(..) => AddrMode::Dec,
        }
    }

    pub fn is_empty(&self) -> (r: bool)
        ensures
            r == (self@.text.len() == 0),
    {
        match self {
            Self::Hex(s) => s.as_str().is_empty(),
            Self::Dec(s) => s.as_str().is_empty(),
        }
    }

    /// Rewrites the value in the other mode; leaves unreadable text as it is.
    pub fn toggle_mode(&mut self)
        ensures
            final(self)@ == old(self)@.toggled(),
    {
        let addr = match self.get_addr() {
            Some(addr) => addr,
            None => {
                return ;
            },
        };
        *self = match self {
            Self::Dec(..) => Self::Hex(format_hex(addr)),
            Self::Hex(..) => Self::Dec(format_dec(addr)),
        };
    }

    /// The text buffer, for editing in place.
    pub fn buffer(&mut self) -> (r: &mut String)
        ensures
            *r == old(self).spec_buffer(),
            *final(self) == old(self).with_buffer(*final(r)),
    {
        match self {
            Self::Hex(s) => s,
            Self::Dec(s) => s,
        }
    }

    /// Overwrites the text with the canonical text of `d`; the mode stays.
    pub fn update_data(&mut self, d: u64)
        ensures
            final(self)@ == old(self)@.with_value(d),
    {
        match self {
            Self::Hex(s) => *s = format_hex(d),
            Self::Dec(s) => *s = format_dec(d),
        }
    }
}

impl GenericAddressString for AddrString {
    open spec fn addr_spec(&self) -> Option<u64> {
        self@.value()
    }

    fn get_addr(&self) -> (r: Option<u64>) {
        match self {
            Self::Hex(s) => parse_hex_text(s.as_str()),
            Self::Dec(s) => parse_dec_text(s.as_str()),
        }
    }
}

impl Default for AddrString {
    /// Hexadecimal zero, `0x0`.
    fn default() -> (r: Self)
        ensures
            r@.mode == AddrMode::Hex,
            r@.text == seq!['0', 'x', '0'],
    {
        let zero = "0x0";
        proof {
            reveal_strlit("0x0");
        }
        assert(zero@ =~= seq!['0', 'x', '0']);
        Self::new(String::from_str(zero), AddrMode::Hex)
    }
}

} // verus!
