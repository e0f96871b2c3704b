//! One location of an area: a relative start address, an offset and an
//! absolute memory address, one of which is derived from the others.

use vstd::prelude::*;

use crate::addr::{lemma_round_trip, AddrString, AddrView, GenericAddressString};
use crate::mode::AddrMode;

verus! {

/// Which of the start and memory addresses is derived from the other.
#[derive(Clone, Copy, Debug, PartialEq, Eq, Structural)]
pub enum CalcDirection {
    StartAddressToMemory,
    MemoryToStartAddress,
}

impl CalcDirection {
    /// The other direction.
    pub open spec fn flipped(self) -> CalcDirection {
        match self {
            CalcDirection::StartAddressToMemory => CalcDirection::MemoryToStartAddress,
            CalcDirection::MemoryToStartAddress => CalcDirection::StartAddressToMemory,
        }
    }
}

impl Default for CalcDirection {
    fn default() -> (r: Self)
        ensures
            r == CalcDirection::StartAddressToMemory,
    {
        Self::StartAddressToMemory
    }
}

/// `base + start + offset`, where a missing offset counts as zero; `None`
/// where the start is missing or the sum does not fit in 64 bits.
pub open spec fn memory_target(base: u64, start: Option<u64>, offset: Option<u64>) -> Option<u64> {
    match start {
        Some(s) => {
            let m = base + s + offset.unwrap_or(0);
            if m <= u64::MAX {
                Some(m as u64)
            } else {
                None
            }
        },
        None => None,
    }
}

/// `memory - (base + offset)`, where a missing offset counts as zero; `None`
/// where the memory address is missing or `base + offset` exceeds it.
pub open spec fn start_target(base: u64, memory: Option<u64>, offset: Option<u64>) -> Option<u64> {
    match memory {
        Some(m) => {
            let b = base + offset.unwrap_or(0);
            if b <= m {
                Some((m - b) as u64)
            } else {
                None
            }
        },
        None => None,
    }
}

/// What a `LocData` holds.
pub struct LocView {
    pub comment: Seq<char>,
    pub start: AddrView,
    pub offset: AddrView,
    pub memory: AddrView,
    pub direction: CalcDirection,
}

impl LocView {
    /// The memory address derived from the start address and the offset.
    pub open spec fn memory_recomputed(self, base: u64) -> LocView {
        match memory_target(base, self.start.value(), self.offset.value()) {
            Some(m) => LocView { memory: self.memory.with_value(m), ..self },
            None => self,
        }
    }

    /// The start address derived from the memory address and the offset.
    pub open spec fn start_recomputed(self, base: u64) -> LocView {
        match start_target(base, self.memory.value(), self.offset.value()) {
            Some(s) => LocView { start: self.start.with_value(s), ..self },
            None => self,
        }
    }

    /// The derived address of the direction recomputed against `base`.
    pub open spec fn recomputed(self, base: u64) -> LocView {
        match self.direction {
            CalcDirection::StartAddressToMemory => self.memory_recomputed(base),
            CalcDirection::MemoryToStartAddress => self.start_recomputed(base),
        }
    }

    /// The same location with the other direction.
    pub open spec fn direction_toggled(self) -> LocView {
        LocView { direction: self.direction.flipped(), ..self }
    }
}

/// Deriving the memory address from a start address, then toggling the
/// direction and deriving the start address from that memory address, gives
/// the start address back, whenever `base + start + offset` fits in 64 bits.
pub proof fn lemma_direction_symmetry(l: LocView, base: u64, start: u64, offset: u64)
    requires
        l.direction == CalcDirection::StartAddressToMemory,
        l.start.value() == Some(start),
        l.offset.value() == Some(offset),
        base + start + offset <= u64::MAX,
    ensures
        l.recomputed(base).direction_toggled().recomputed(base).start.value() == Some(start),
{
    let m = (base + start + offset) as u64;
    lemma_round_trip(l.memory, m);
    lemma_round_trip(l.start, start);
}

/// Where `base + start + offset` exceeds 64 bits, recomputing leaves the
/// memory address as it was.
pub proof fn lemma_overflow_keeps_memory(l: LocView, base: u64, start: u64, offset: u64)
    requires
        l.start.value() == Some(start),
        l.offset.value() == Some(offset),
        base + start + offset > u64::MAX,
    ensures
        l.recomputed(base).memory == l.memory,
{
}

/// An offset that cannot be read counts as zero: the memory address becomes
/// `base + start`.
pub proof fn lemma_missing_offset_is_zero(l: LocView, base: u64, start: u64)
    requires
        l.direction == CalcDirection::StartAddressToMemory,
        l.start.value() == Some(start),
        l.offset.value() is None,
        base + start <= u64::MAX,
    ensures
        l.recomputed(base).memory == l.memory.with_value((base + start) as u64),
        l.recomputed(base).memory.value() == Some((base + start) as u64),
{
    lemma_round_trip(l.memory, (base + start) as u64);
}

/// Where the address that the direction reads from cannot be read,
/// recomputing changes nothing, whatever the base and the offset.
pub proof fn lemma_missing_input_aborts(l: LocView, base: u64)
    requires
        l.direction == CalcDirection::StartAddressToMemory ==> l.start.value() is None,
        l.direction == CalcDirection::MemoryToStartAddress ==> l.memory.value() is None,
    ensures
        l.recomputed(base) == l,
{
}

/// One location: a comment, the three addresses and the direction.
pub struct LocData {
    pub comment: String,
    pub start_addr: AddrString,
    pub offset_addr: AddrString,
    pub memory_addr: AddrString,
    pub direction: CalcDirection,
}

impl View for LocData {
    type V = LocView;

    open spec fn view(&self) -> LocView {
        LocView {
            comment: self.comment@,
            start: self.start_addr@,
            offset: self.offset_addr@,
            memory: self.memory_addr@,
            direction: self.direction,
        }
    }
}

/// `0x0`, hexadecimal zero.
pub open spec fn hex_zero() -> AddrView {
    AddrView { mode: AddrMode::Hex, text: seq!['0', 'x', '0'] }
}

/// `0`, decimal zero.
pub open spec fn dec_zero() -> AddrView {
    AddrView { mode: AddrMode::Dec, text: seq!['0'] }
}

/// A location with an empty comment, `0x0` in every address, start to memory.
pub open spec fn default_location() -> LocView {
    LocView {
        comment: Seq::empty(),
        start: hex_zero(),
        offset: hex_zero(),
        memory: hex_zero(),
        direction: CalcDirection::StartAddressToMemory,
    }
}

impl Default for LocData {
    fn default() -> (r: Self)
        ensures
            r@ == default_location(),
    {
        let r = LocData {
            comment: String::new(),
            start_addr: AddrString::default(),
            offset_addr: AddrString::default(),
            memory_addr: AddrString::default(),
            direction: CalcDirection::default(),
        };
        assert(r@.comment =~= Seq::<char>::empty());
        r
    }
}

impl LocData {
    pub fn toggle_direction(&mut self)
        ensures
            final(self)@ == old(self)@.direction_toggled(),
    {
        match self.direction {
            CalcDirection::StartAddressToMemory => {
                self.direction = CalcDirection::MemoryToStartAddress
            },
            CalcDirection::MemoryToStartAddress => {
                self.direction = CalcDirection::StartAddressToMemory
            },
        }
    }

    /// An arrow that shows the direction: `->` or `<-`.
    pub fn direction_text(&self) -> (r: &'static str)
        ensures
            r@ == (match self.direction {
                CalcDirection::StartAddressToMemory => seq!['-', '>'],
                CalcDirection::MemoryToStartAddress => seq!['<', '-'],
            }),
    {
        match self.direction {
            CalcDirection::StartAddressToMemory => {
                let r = "->";
                proof {
                    reveal_strlit("->");
                }
                assert(r@ =~= seq!['-', '>']);
                r
            },
            CalcDirection::MemoryToStartAddress => {
                let r = "<-";
                proof {
                    reveal_strlit("<-");
                }
                assert(r@ =~= seq!['<', '-']);
                r
            },
        }
    }

    /// Recomputes the derived address of the current direction.
    pub fn update_data(&mut self, base_addr: u64)
        ensures
            final(self)@ == old(self)@.recomputed(base_addr),
    {
        match self.direction {
            CalcDirection::MemoryToStartAddress => self.update_function_data(base_addr),
            CalcDirection::StartAddressToMemory => self.update_memory_data(base_addr),
        };
    }

    /// Sets the memory address to `base + start + offset`.
    pub fn update_memory_data(&mut self, base_addr: u64)
        ensures
            final(self)@ == old(self)@.memory_recomputed(base_addr),
    {
        let start_addr = match self.start_addr.get_addr() {
            Some(v) => v,
            _ => return ,
        };
        let offset_addr = match self.offset_addr.get_addr() {
            Some(v) => v,
            None => 0,
        };
        let rel = match start_addr.checked_add(offset_addr) {
            Some(v) => v,
            _ => return ,
        };
        let mem_addr = match base_addr.checked_add(rel) {
            Some(v) => v,
            _ => return ,
        };
        self.memory_addr.update_data(mem_addr);
    }

    /// Sets the start address to `memory - (base + offset)`.
    pub fn update_function_data(&mut self, base_addr: u64)
        ensures
            final(self)@ == old(self)@.start_recomputed(base_addr),
    {
        let mem_addr = match self.memory_addr.get_addr() {
            Some(v) => v,
            _ => return ,
        };
        let offset_addr = match self.offset_addr.get_addr() {
            Some(v) => v,
            None => 0,
        };
        let below = match base_addr.checked_add(offset_addr) {
            Some(v) => v,
            _ => return ,
        };
        let start_addr = match mem_addr.checked_sub(below) {
            Some(v) => v,
            _ => return ,
        };
        self.start_addr.update_data(start_addr);
    }
}

} // verus!
