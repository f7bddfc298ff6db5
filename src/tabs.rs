use vstd::prelude::*;

verus! {

/// Identity of a tab: the slot it occupies and the generation of that slot.
#[derive(Clone, Copy, Debug, PartialEq, Eq, Hash, Structural)]
pub struct TabId {
    pub index: u32,
    pub generation: u32,
}

impl TabId {
    pub fn new(index: u32, generation: u32) -> (r: Self)
        ensures
            r.index == index,
            r.generation == generation,
    {
        Self { index, generation }
    }

    /// The slot of the tab, usable as an index into the tab table.
    pub fn slot_index(self) -> (r: usize)
        ensures
            r as int == self.index as int,
    {
        self.index as usize
    }
}

/// A request to change which tab is selected.
#[derive(Clone, Copy, Debug, PartialEq, Eq, Structural)]
pub enum TabCommand {
    SelectNext,
    SelectPrevious,
    SelectIndex(usize),
    SelectLast,
}

} // verus!
