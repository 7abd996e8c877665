use vstd::prelude::*;

use crate::grid::GridCoord;
use crate::item::Item;

verus! {

/// Sentinel level identifier that no real level uses: a freshly reset store
/// never matches the active level, so replay reliably no-ops until the store
/// is repopulated.
pub const INVALID_LEVEL: usize = usize::MAX;

/// The last captured full layout for a level: the level identifier and the
/// placements in insertion order.
#[derive(Debug)]
pub struct CurrentPlacement {
    level: usize,
    placements: Vec<(GridCoord, Item)>,
}

impl CurrentPlacement {
    /// The level the stored layout belongs to.
    pub closed spec fn spec_level(self) -> usize {
        self.level
    }

    /// The stored (coordinate, item) pairs, in insertion order.
    pub closed spec fn entries(self) -> Seq<(GridCoord, Item)> {
        self.placements@
    }

    pub fn new(level: usize, placements: Vec<(GridCoord, Item)>) -> (r: Self)
        ensures
            r.spec_level() == level,
            r.entries() == placements@,
    {
        CurrentPlacement { level, placements }
    }

    pub fn level(&self) -> (l: usize)
        ensures
            l == self.spec_level(),
    {
        self.level
    }

    pub fn len(&self) -> (n: usize)
        ensures
            n == self.entries().len(),
    {
        self.placements.len()
    }

    pub fn entry(&self, i: usize) -> (e: (GridCoord, Item))
        requires
            i < self.entries().len(),
        ensures
            e == self.entries()[i as int],
    {
        self.placements[i]
    }

    /// Clear the stored layout and mark the level invalid, so that replay is a
    /// no-op until an external collaborator repopulates the store.
    pub fn reset(&mut self)
        ensures
            final(self).spec_level() == INVALID_LEVEL,
            final(self).entries() == Seq::<(GridCoord, Item)>::empty(),
    {
        self.placements.clear();
        self.level = usize::MAX;
    }
}

} // verus!
