use grid_edit::commands::CreateObject;
use grid_edit::engine::EditState;
use grid_edit::engine::GamePhase;
use grid_edit::engine::SoundRequest;
use grid_edit::grid::GridCoord;
use grid_edit::grid::GridRegistry;
use grid_edit::grid::GridTile;
use grid_edit::item::Item;
use grid_edit::store::CurrentPlacement;

fn coord(x: i32, y: i32) -> GridCoord {
    GridCoord { x, y }
}

#[test]
fn at_most_one_object_per_cell() {
    let mut s = EditState::new();
    let c = coord(2, 3);
    s.create_object(&CreateObject::new(1, c, Item::BombSmall), false);
    s.create_object(&CreateObject::new(1, c, Item::BombMedium), false);
    s.create_object(&CreateObject::new(1, c, Item::BombVertical), false);
    assert_eq!(s.objects.len(), 1);
    assert_eq!(s.objects[0].item, Item::BombVertical);
    s.create_object(&CreateObject::new(1, coord(4, 4), Item::BombSmall), false);
    assert_eq!(s.objects.len(), 2);
}

#[test]
fn create_object_idempotent() {
    let mut s = EditState::new();
    let c = coord(0, 0);
    let cmd = CreateObject::new(9, c, Item::BombHorizontal);
    s.create_object(&cmd, false);
    s.create_object(&cmd, false);
    assert_eq!(s.objects.len(), 1);
    let obj = s.object_at(c).expect("object should exist");
    assert_eq!(obj.item, Item::BombHorizontal);
    assert_eq!(obj.parent_grid, 9);
    assert_eq!(obj.coord, c);
    assert_eq!(obj.visual_index, 3);
}

#[test]
fn create_object_replaces_latest_attributes() {
    let mut s = EditState::new();
    let c = coord(5, 5);
    s.create_object(&CreateObject::new(1, c, Item::BombSmall), false);
    s.create_object(&CreateObject::new(2, c, Item::BombLarge), false);
    let obj = s.object_at(c).expect("object should exist");
    assert_eq!(obj.parent_grid, 2);
    assert_eq!(obj.item, Item::BombLarge);
    assert_eq!(obj.visual_index, 2);
}

#[test]
fn eraser_removes_existing_object() {
    let mut s = EditState::new();
    let c = coord(1, 1);
    s.create_object(&CreateObject::new(1, c, Item::BombSmall), false);
    s.create_object(&CreateObject::new(1, c, Item::Eraser), false);
    assert!(s.object_at(c).is_none());
    assert_eq!(s.objects.len(), 0);
}

#[test]
fn eraser_on_empty_cell_creates_nothing() {
    let mut s = EditState::new();
    let c = coord(8, -3);
    s.create_object(&CreateObject::new(1, c, Item::Eraser), false);
    assert!(s.object_at(c).is_none());
    assert_eq!(s.objects.len(), 0);
}

#[test]
fn create_sound_requests() {
    let mut s = EditState::new();
    let c = coord(0, 1);
    s.create_object(&CreateObject::new(1, c, Item::BombSmall), true);
    assert_eq!(s.sounds, vec![SoundRequest::Break2]);
    s.create_object(&CreateObject::new(1, c, Item::Eraser), true);
    assert_eq!(s.sounds, vec![SoundRequest::Break2, SoundRequest::Break1]);
}

#[test]
fn create_without_sound_or_without_resource_is_silent() {
    let mut s = EditState::new();
    let c = coord(0, 1);
    s.create_object(&CreateObject::new(1, c, Item::BombSmall).without_sound(), true);
    assert!(s.sounds.is_empty());
    s.create_object(&CreateObject::new(1, c, Item::BombMedium), false);
    assert!(s.sounds.is_empty());
    s.create_object(&CreateObject::new(1, c, Item::Eraser).without_sound().with_sound(), true);
    assert_eq!(s.sounds, vec![SoundRequest::Break1]);
}

#[test]
fn replay_matching_level_restores_layout() {
    let mut s = EditState::new();
    let c1 = coord(1, 0);
    let c2 = coord(2, 0);
    let registry = GridRegistry {
        tiles: vec![
            GridTile { coord: c1, entity: 11 },
            GridTile { coord: c2, entity: 22 },
        ],
    };
    s.store = CurrentPlacement::new(5, vec![(c1, Item::BombSmall), (c2, Item::BombVertical)]);
    s.apply_current_placement(&registry, 5);
    assert_eq!(s.objects.len(), 2);
    let o1 = s.object_at(c1).expect("first stored object");
    assert_eq!(o1.item, Item::BombSmall);
    assert_eq!(o1.parent_grid, 11);
    let o2 = s.object_at(c2).expect("second stored object");
    assert_eq!(o2.item, Item::BombVertical);
    assert_eq!(o2.parent_grid, 22);
    assert!(s.object_at(coord(3, 0)).is_none());
    assert!(s.sounds.is_empty(), "replay must be silent");
}

#[test]
fn replay_stale_level_is_skipped() {
    let mut s = EditState::new();
    let c1 = coord(1, 0);
    let registry = GridRegistry {
        tiles: vec![GridTile { coord: c1, entity: 11 }],
    };
    s.store = CurrentPlacement::new(5, vec![(c1, Item::BombSmall)]);
    s.apply_current_placement(&registry, 6);
    assert_eq!(s.objects.len(), 0);
}

#[test]
fn replay_skips_missing_tile_and_continues() {
    let mut s = EditState::new();
    let c1 = coord(1, 0);
    let c2 = coord(2, 0);
    let c3 = coord(3, 0);
    let registry = GridRegistry {
        tiles: vec![
            GridTile { coord: c1, entity: 11 },
            GridTile { coord: c3, entity: 33 },
        ],
    };
    s.store = CurrentPlacement::new(
        0,
        vec![(c1, Item::BombSmall), (c2, Item::BombMedium), (c3, Item::BombHorizontal)],
    );
    s.apply_current_placement(&registry, 0);
    assert_eq!(s.objects.len(), 2);
    assert!(s.object_at(c1).is_some());
    assert!(s.object_at(c2).is_none());
    assert!(s.object_at(c3).is_some());
}

#[test]
fn replay_applies_eraser_entries() {
    let mut s = EditState::new();
    let c = coord(4, 4);
    let registry = GridRegistry {
        tiles: vec![GridTile { coord: c, entity: 7 }],
    };
    s.create_object(&CreateObject::new(7, c, Item::BombSmall), false);
    s.store = CurrentPlacement::new(1, vec![(c, Item::Eraser)]);
    s.apply_current_placement(&registry, 1);
    assert!(s.object_at(c).is_none());
    assert_eq!(s.objects.len(), 0);
}

#[test]
fn reset_durability() {
    let mut s = EditState::new();
    let c = coord(1, 1);
    let registry = GridRegistry {
        tiles: vec![GridTile { coord: c, entity: 3 }],
    };
    s.store = CurrentPlacement::new(2, vec![(c, Item::BombSmall)]);
    s.reset_current_placement();
    s.apply_current_placement(&registry, 2);
    assert_eq!(s.objects.len(), 0);
    s.apply_current_placement(&registry, usize::MAX);
    assert_eq!(s.objects.len(), 0);
    s.apply_current_placement(&registry, 0);
    assert_eq!(s.objects.len(), 0);
}

#[test]
fn enter_edit_clears_selection_then_replays() {
    let mut s = EditState::new();
    let c = coord(0, 2);
    let registry = GridRegistry {
        tiles: vec![GridTile { coord: c, entity: 5 }],
    };
    s.phase = GamePhase::Edit;
    s.select_item(Item::BombSmall);
    assert_eq!(s.selected, Some(Item::BombSmall));
    s.phase = GamePhase::Init;
    s.store = CurrentPlacement::new(3, vec![(c, Item::BombMedium)]);
    s.enter_edit(&registry, 3);
    assert_eq!(s.phase, GamePhase::Edit);
    assert_eq!(s.selected, None);
    let obj = s.object_at(c).expect("replayed object");
    assert_eq!(obj.item, Item::BombMedium);
    assert!(s.sounds.is_empty());
}
