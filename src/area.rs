//! Areas (loaded modules): a base address and an ordered list of locations;
//! and the calculator, an ordered list of areas with one selected.

use vstd::prelude::*;

use crate::addr::{AddrString, AddrView, GenericAddressString};
use crate::location::{dec_zero, default_location, hex_zero, CalcDirection, LocData, LocView};

verus! {

/// What an `AreaData` holds.
pub struct AreaView {
    pub base: AddrView,
    pub locations: Seq<LocView>,
}

impl AreaView {
    /// Every location recomputed against the base address; unchanged where
    /// the base address cannot be read.
    pub open spec fn recomputed_all(self) -> AreaView {
        match self.base.value() {
            Some(b) => AreaView {
                base: self.base,
                locations: self.locations.map_values(|l: LocView| l.recomputed(b)),
            },
            None => self,
        }
    }
}

/// A location with decimal zero as start address, the rest as in
/// `default_location`, and memory address `0` where it reads from memory.
pub open spec fn preset_location(direction: CalcDirection) -> LocView {
    match direction {
        CalcDirection::StartAddressToMemory => LocView { start: dec_zero(), ..default_location() },
        CalcDirection::MemoryToStartAddress => LocView {
            start: dec_zero(),
            memory: dec_zero(),
            direction: CalcDirection::MemoryToStartAddress,
            ..default_location()
        },
    }
}

/// A new area: base `0x0` and four locations, alternately start to memory
/// and memory to start.
pub open spec fn default_area() -> AreaView {
    AreaView {
        base: hex_zero(),
        locations: seq![
            preset_location(CalcDirection::StartAddressToMemory),
            preset_location(CalcDirection::MemoryToStartAddress),
            preset_location(CalcDirection::StartAddressToMemory),
            preset_location(CalcDirection::MemoryToStartAddress),
        ],
    }
}

/// One area: a base address and its locations, in display order.
pub struct AreaData {
    pub base_addr: AddrString,
    pub locations: Vec<LocData>,
}

impl View for AreaData {
    type V = AreaView;

    open spec fn view(&self) -> AreaView {
        AreaView { base: self.base_addr@, locations: self.locations@.map_values(|l: LocData| l@) }
    }
}

fn preset(direction: CalcDirection) -> (r: LocData)
    ensures
        r@ == preset_location(direction),
{
    let mut r = LocData::default();
    r.start_addr = AddrString::default_decimal();
    match direction {
        CalcDirection::StartAddressToMemory => {},
        CalcDirection::MemoryToStartAddress => {
            r.memory_addr = AddrString::default_decimal();
            r.direction = CalcDirection::MemoryToStartAddress;
        },
    }
    r
}

impl Default for AreaData {
    fn default() -> (r: Self)
        ensures
            r@ == default_area(),
    {
        let r = AreaData {
            base_addr: AddrString::default(),
            locations: vec![
                preset(CalcDirection::StartAddressToMemory),
                preset(CalcDirection::MemoryToStartAddress),
                preset(CalcDirection::StartAddressToMemory),
                preset(CalcDirection::MemoryToStartAddress),
            ],
        };
        assert(r@.locations =~= default_area().locations);
        r
    }
}

impl AreaData {
    /// Recomputes every location against the base address, in order; does
    /// nothing where the base address cannot be read.
    pub fn update_data(&mut self)
        ensures
            final(self)@ == old(self)@.recomputed_all(),
    {
        let ghost orig = self@;
        if let Some(base_addr) = self.base_addr.get_addr() {
            let n = self.locations.len();
            let mut i: usize = 0;
            while i < n
                invariant
                    i <= n,
                    n == self.locations.len(),
                    n == orig.locations.len(),
                    self.base_addr@ == orig.base,
                    forall|j: int|
                        0 <= j < i ==> #[trigger] self.locations@[j]@ == orig.locations[j].recomputed(
                            base_addr,
                        ),
                    forall|j: int| i <= j < n ==> #[trigger] self.locations@[j]@ == orig.locations[j],
                decreases n - i,
            {
                self.locations[i].update_data(base_addr);
                i += 1;
            }
            assert(self@.locations =~= orig.recomputed_all().locations);
        }
    }

    /// Appends a location with `default_location`'s contents.
    pub fn append_default_location(&mut self)
        ensures
            final(self)@ == (AreaView {
                locations: old(self)@.locations.push(default_location()),
                ..old(self)@
            }),
    {
        self.locations.push(LocData::default());
        assert(self@.locations =~= old(self)@.locations.push(default_location()));
    }

    /// Removes the last location; does nothing where there is none.
    pub fn remove_last_location(&mut self)
        ensures
            final(self)@ == (if old(self)@.locations.len() > 0 {
                AreaView { locations: old(self)@.locations.drop_last(), ..old(self)@ }
            } else {
                old(self)@
            }),
    {
        if self.locations.len() > 0 {
            self.locations.pop();
            assert(self@.locations =~= old(self)@.locations.drop_last());
        }
    }
}

} // verus!
