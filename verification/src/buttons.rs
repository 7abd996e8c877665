use vstd::prelude::*;

use crate::item::Item;

verus! {

/// Sprite-sheet slot an item button shows while its item is selected.
pub const HIGHLIGHTED_ATLAS_INDEX: usize = 0;

/// Sprite-sheet slot an item button shows while its item is not selected.
pub const NORMAL_ATLAS_INDEX: usize = 1;

/// The item buttons offered in the edit UI, in display order. The large bomb
/// is a dormant capability: it has no button yet.
pub fn item_buttons() -> (v: Vec<Item>)
    ensures
        v@ == seq![
            Item::BombSmall,
            Item::BombMedium,
            Item::BombHorizontal,
            Item::BombVertical,
            Item::Eraser,
        ],
{
    let mut v: Vec<Item> = Vec::new();
    v.push(Item::BombSmall);
    v.push(Item::BombMedium);
    v.push(Item::BombHorizontal);
    v.push(Item::BombVertical);
    v.push(Item::Eraser);
    proof {
        assert(v@ =~= seq![
            Item::BombSmall,
            Item::BombMedium,
            Item::BombHorizontal,
            Item::BombVertical,
            Item::Eraser,
        ]);
    }
    v
}

/// The sprite-sheet slot one item button shows under the given selection.
pub fn highlight_index(selected: Option<Item>, button: Item) -> (idx: usize)
    ensures
        idx == (if selected == Some(button) {
            HIGHLIGHTED_ATLAS_INDEX
        } else {
            NORMAL_ATLAS_INDEX
        }),
{
    let hit = match selected {
        Option::Some(s) => s == button,
        Option::None => false,
    };
    if hit {
        HIGHLIGHTED_ATLAS_INDEX
    } else {
        NORMAL_ATLAS_INDEX
    }
}

/// Recompute, in full, the sprite-sheet slot of every button for the given
/// selection: exactly the button matching the selection is highlighted, all
/// others are normal.
pub fn highlight_selected_item(selected: Option<Item>, buttons: &Vec<Item>) -> (v: Vec<usize>)
    ensures
        v@.len() == buttons@.len(),
        forall|k: int|
            0 <= k < buttons@.len() ==> v@[k] == (if selected == Some(#[trigger] buttons@[k]) {
                HIGHLIGHTED_ATLAS_INDEX
            } else {
                NORMAL_ATLAS_INDEX
            }),
{
    let mut v: Vec<usize> = Vec::new();
    let mut i: usize = 0;
    while i < buttons.len()
        invariant
            i <= buttons@.len(),
            v@.len() == i,
            forall|k: int|
                0 <= k < i ==> v@[k] == (if selected == Some(#[trigger] buttons@[k]) {
                    HIGHLIGHTED_ATLAS_INDEX
                } else {
                    NORMAL_ATLAS_INDEX
                }),
        decreases buttons@.len() - i,
    {
        v.push(highlight_index(selected, buttons[i]));
        i += 1;
    }
    v
}

} // verus!
