//! The calculator: an ordered list of areas, one of which is selected.

use vstd::prelude::*;

use crate::area::{default_area, AreaData, AreaView};

verus! {

/// `index` kept inside a list of length `len`: the last index where it is
/// past the end, zero where the list is empty.
pub open spec fn clamp_index(index: usize, len: nat) -> usize {
    if len == 0 {
        0
    } else if index < len {
        index
    } else {
        (len - 1) as usize
    }
}

/// The calculator's state: the areas, the selected one, and the text held by
/// the address import window.
pub struct CompilerCalc {
    pub info_loading_window_show: bool,
    pub info_data: String,
    pub current_area_tab: usize,
    pub area_data: Vec<AreaData>,
}

impl CompilerCalc {
    /// What the areas hold, in order.
    pub open spec fn areas(&self) -> Seq<AreaView> {
        self.area_data@.map_values(|a: AreaData| a@)
    }

    /// The selection is an index of the list, or zero when the list is empty.
    pub open spec fn selection_in_range(&self) -> bool {
        self.current_area_tab < self.area_data.len() || (self.area_data.len() == 0
            && self.current_area_tab == 0)
    }

    /// Selects area `index`; an index past the end changes nothing.
    pub fn select_area(&mut self, index: usize)
        ensures
            final(self).current_area_tab == (if index < old(self).area_data.len() {
                index
            } else {
                old(self).current_area_tab
            }),
            final(self).areas() == old(self).areas(),
            final(self).info_data@ == old(self).info_data@,
            final(self).info_loading_window_show == old(self).info_loading_window_show,
    {
        if index < self.area_data.len() {
            self.current_area_tab = index;
        }
    }

    /// Appends a new area; the selection stays.
    pub fn add_area(&mut self)
        ensures
            final(self).areas() == old(self).areas().push(default_area()),
            final(self).current_area_tab == old(self).current_area_tab,
            final(self).info_data@ == old(self).info_data@,
            final(self).info_loading_window_show == old(self).info_loading_window_show,
            old(self).selection_in_range() ==> final(self).selection_in_range(),
    {
        self.area_data.push(AreaData::default());
        assert(self.areas() =~= old(self).areas().push(default_area()));
    }

    /// Removes the last area, if there is one, and keeps the selection
    /// inside the list.
    pub fn remove_last_area(&mut self)
        ensures
            final(self).areas() == (if old(self).areas().len() > 0 {
                old(self).areas().drop_last()
            } else {
                old(self).areas()
            }),
            final(self).current_area_tab == clamp_index(
                old(self).current_area_tab,
                final(self).areas().len(),
            ),
            final(self).selection_in_range(),
            final(self).info_data@ == old(self).info_data@,
            final(self).info_loading_window_show == old(self).info_loading_window_show,
    {
        if self.area_data.len() > 0 {
            self.area_data.pop();
            assert(self.areas() =~= old(self).areas().drop_last());
        }
        let len = self.area_data.len();
        if len == 0 {
            self.current_area_tab = 0;
        } else if self.current_area_tab >= len {
            self.current_area_tab = len - 1;
        }
    }

    /// Recomputes the selected area; does nothing where the selection is
    /// past the end of the list.
    pub fn update_current_area(&mut self)
        ensures
            final(self).areas() == (if old(self).current_area_tab < old(self).areas().len() {
                old(self).areas().update(
                    old(self).current_area_tab as int,
                    old(self).areas()[old(self).current_area_tab as int].recomputed_all(),
                )
            } else {
                old(self).areas()
            }),
            final(self).current_area_tab == old(self).current_area_tab,
            final(self).info_data@ == old(self).info_data@,
            final(self).info_loading_window_show == old(self).info_loading_window_show,
    {
        let i = self.current_area_tab;
        if i < self.area_data.len() {
            self.area_data[i].update_data();
            assert(self.areas() =~= old(self).areas().update(
                i as int,
                old(self).areas()[i as int].recomputed_all(),
            ));
        }
    }
}

impl Default for CompilerCalc {
    /// Five new areas, the first selected, the import window closed and empty.
    fn default() -> (r: Self)
        ensures
            r.areas() == Seq::new(5, |i: int| default_area()),
            r.current_area_tab == 0,
            r.info_data@.len() == 0,
            !r.info_loading_window_show,
    {
        let r = CompilerCalc {
            info_data: String::new(),
            info_loading_window_show: false,
            current_area_tab: 0,
            area_data: vec![
                AreaData::default(),
                AreaData::default(),
                AreaData::default(),
                AreaData::default(),
                AreaData::default(),
            ],
        };
        assert(r.areas() =~= Seq::new(5, |i: int| default_area()));
        r
    }
}

} // verus!
