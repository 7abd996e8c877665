use vstd::prelude::*;

use crate::grid::GridCoord;
use crate::item::Item;

verus! {

/// Command for the object-creation engine: place `item` at `coord` under the
/// grid tile `parent_grid`, optionally requesting a sound effect.
#[derive(Debug, Clone)]
pub struct CreateObject {
    pub parent_grid: usize,
    pub coord: GridCoord,
    pub item: Item,
    pub with_sound: bool,
}

impl CreateObject {
    pub fn new(parent_grid: usize, coord: GridCoord, item: Item) -> (r: Self)
        ensures
            r == (CreateObject { parent_grid, coord, item, with_sound: true }),
    {
        CreateObject { parent_grid, coord, item, with_sound: true }
    }

    pub fn without_sound(self) -> (r: Self)
        ensures
            r == (CreateObject { with_sound: false, ..self }),
    {
        CreateObject {
            parent_grid: self.parent_grid,
            coord: self.coord,
            item: self.item,
            with_sound: false,
        }
    }

    pub fn with_sound(self) -> (r: Self)
        ensures
            r == (CreateObject { with_sound: true, ..self }),
    {
        CreateObject {
            parent_grid: self.parent_grid,
            coord: self.coord,
            item: self.item,
            with_sound: true,
        }
    }
}

/// Command for the fire toggle: arm or disarm the single fire marker at `coord`.
#[derive(Debug, Clone)]
pub struct CreateFire {
    pub parent_grid: usize,
    pub coord: GridCoord,
}

} // verus!
