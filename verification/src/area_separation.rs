//! The split between the editor pane and the render pane, as a percentage
//! of the width given to the editor, moved in steps of ten.
use vstd::prelude::*;

verus! {

/// The editor pane's share of the width, always a multiple of ten between
/// zero and one hundred.
pub struct AreaSplit {
    pub left_area_percentage: u16,
}

impl AreaSplit {
    pub open spec fn wf(self) -> bool {
        self.left_area_percentage <= 100 && self.left_area_percentage % 10 == 0
    }

    /// The even split the editor starts with.
    pub fn new() -> (r: AreaSplit)
        ensures
            r.wf(),
            r.left_area_percentage == 50,
    {
        AreaSplit { left_area_percentage: 50 }
    }

    /// Gives the editor pane one step less, never below nothing.
    pub fn shrink_left_area(&mut self)
        requires
            old(self).wf(),
        ensures
            final(self).wf(),
            old(self).left_area_percentage > 0 ==> final(self).left_area_percentage == old(
                self,
            ).left_area_percentage - 10,
            old(self).left_area_percentage == 0 ==> final(self).left_area_percentage == 0,
    {
        if self.left_area_percentage > 0 {
            self.left_area_percentage = self.left_area_percentage - 10;
        }
    }

    /// Gives the editor pane one step more, never beyond the whole width.
    pub fn expand_left_area(&mut self)
        requires
            old(self).wf(),
        ensures
            final(self).wf(),
            old(self).left_area_percentage < 100 ==> final(self).left_area_percentage == old(
                self,
            ).left_area_percentage + 10,
            old(self).left_area_percentage == 100 ==> final(self).left_area_percentage == 100,
    {
        if self.left_area_percentage < 100 {
            self.left_area_percentage = self.left_area_percentage + 10;
        }
    }
}

} // verus!
