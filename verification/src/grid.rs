use vstd::prelude::*;

verus! {

/// Integer cell address on the play grid.
#[derive(Clone, Copy, Debug, PartialEq, Eq, Hash, Structural)]
pub struct GridCoord {
    pub x: i32,
    pub y: i32,
}

/// One registered grid tile: the cell it covers and the handle of the owning
/// grid-tile entity.
#[derive(Clone, Copy, Debug, PartialEq, Eq, Structural)]
pub struct GridTile {
    pub coord: GridCoord,
    pub entity: usize,
}

/// Read-only registry mapping a grid coordinate to the owning grid-tile entity.
#[derive(Debug)]
pub struct GridRegistry {
    pub tiles: Vec<GridTile>,
}

impl GridRegistry {
    /// The entity of the first registered tile at `c`, scanning from index `i`.
    pub open spec fn spec_lookup_at(tiles: Seq<GridTile>, c: GridCoord, i: int) -> Option<usize>
        decreases tiles.len() - i,
    {
        if i < 0 || i >= tiles.len() {
            Option::None
        } else if tiles[i].coord == c {
            Option::Some(tiles[i].entity)
        } else {
            Self::spec_lookup_at(tiles, c, i + 1)
        }
    }

    /// The entity of the grid tile registered at `c`, if any.
    pub open spec fn spec_lookup(self, c: GridCoord) -> Option<usize> {
        Self::spec_lookup_at(self.tiles@, c, 0)
    }

    pub fn lookup(&self, c: GridCoord) -> (r: Option<usize>)
        ensures
            r == self.spec_lookup(c),
    {
        let mut i: usize = 0;
        while i < self.tiles.len()
            invariant
                i <= self.tiles@.len(),
                Self::spec_lookup_at(self.tiles@, c, i as int) == self.spec_lookup(c),
            decreases self.tiles@.len() - i,
        {
            if self.tiles[i].coord == c {
                return Option::Some(self.tiles[i].entity);
            }
            i += 1;
        }
        Option::None
    }
}

} // verus!
