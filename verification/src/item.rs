use vstd::prelude::*;

verus! {

/// The closed set of placeable kinds, plus the `Eraser` pseudo-item.
///
/// `Eraser` is never materialized as a placed object; it only ever acts as a
/// removal command. `BombLarge` is a dormant capability: it exists and has a
/// reserved code, but no item button offers it yet.
#[derive(Clone, Copy, Debug, PartialEq, Eq, Structural)]
pub enum Item {
    BombSmall,
    BombMedium,
    BombLarge,
    BombHorizontal,
    BombVertical,
    Eraser,
}

impl Item {
    /// Numeric encoding shared with the presentation layer.
    pub open spec fn spec_code(self) -> u8 {
        match self {
            Item::BombSmall => 0,
            Item::BombMedium => 1,
            Item::BombLarge => 2,
            Item::BombHorizontal => 3,
            Item::BombVertical => 4,
            Item::Eraser => 255,
        }
    }

    pub fn code(&self) -> (c: u8)
        ensures
            c == self.spec_code(),
    {
        match self {
            Item::BombSmall => 0,
            Item::BombMedium => 1,
            Item::BombLarge => 2,
            Item::BombHorizontal => 3,
            Item::BombVertical => 4,
            Item::Eraser => 255,
        }
    }

    /// The item named by a numeric code, if the code is assigned.
    pub open spec fn spec_from_code(code: u8) -> Option<Item> {
        if code == 0 {
            Option::Some(Item::BombSmall)
        } else if code == 1 {
            Option::Some(Item::BombMedium)
        } else if code == 2 {
            Option::Some(Item::BombLarge)
        } else if code == 3 {
            Option::Some(Item::BombHorizontal)
        } else if code == 4 {
            Option::Some(Item::BombVertical)
        } else if code == 255 {
            Option::Some(Item::Eraser)
        } else {
            Option::None
        }
    }

    pub fn from_code(code: u8) -> (r: Option<Item>)
        ensures
            r == Item::spec_from_code(code),
    {
        if code == 0 {
            Option::Some(Item::BombSmall)
        } else if code == 1 {
            Option::Some(Item::BombMedium)
        } else if code == 2 {
            Option::Some(Item::BombLarge)
        } else if code == 3 {
            Option::Some(Item::BombHorizontal)
        } else if code == 4 {
            Option::Some(Item::BombVertical)
        } else if code == 255 {
            Option::Some(Item::Eraser)
        } else {
            Option::None
        }
    }

    /// Every real item is a bomb; only the eraser is not.
    pub open spec fn spec_is_bomb(self) -> bool {
        self != Item::Eraser
    }

    pub fn is_bomb(&self) -> (b: bool)
        ensures
            b == self.spec_is_bomb(),
    {
        match self {
            Item::Eraser => false,
            _ => true,
        }
    }
}

} // verus!
