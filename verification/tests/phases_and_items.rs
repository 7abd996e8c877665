use grid_edit::buttons::highlight_index;
use grid_edit::buttons::highlight_selected_item;
use grid_edit::buttons::item_buttons;
use grid_edit::commands::CreateFire;
use grid_edit::commands::CreateObject;
use grid_edit::engine::fire;
use grid_edit::engine::EditState;
use grid_edit::engine::GamePhase;
use grid_edit::engine::SoundRequest;
use grid_edit::grid::GridCoord;
use grid_edit::item::Item;

fn coord(x: i32, y: i32) -> GridCoord {
    GridCoord { x, y }
}

#[test]
fn selection_toggle_same_item() {
    let mut s = EditState::new();
    s.phase = GamePhase::Edit;
    s.select_item(Item::BombSmall);
    assert_eq!(s.selected, Some(Item::BombSmall));
    s.select_item(Item::BombSmall);
    assert_eq!(s.selected, None);
}

#[test]
fn selection_toggle_other_item() {
    let mut s = EditState::new();
    s.phase = GamePhase::Edit;
    s.select_item(Item::BombSmall);
    s.select_item(Item::BombVertical);
    assert_eq!(s.selected, Some(Item::BombVertical));
}

#[test]
fn selection_gated_by_phase() {
    let mut s = EditState::new();
    s.phase = GamePhase::Init;
    s.select_item(Item::BombSmall);
    assert_eq!(s.selected, None);
    s.phase = GamePhase::Run;
    s.selected = Some(Item::BombSmall);
    s.select_item(Item::BombMedium);
    assert_eq!(s.selected, None);
}

#[test]
fn eraser_is_a_selectable_candidate() {
    let mut s = EditState::new();
    s.phase = GamePhase::Edit;
    s.select_item(Item::Eraser);
    assert_eq!(s.selected, Some(Item::Eraser));
}

#[test]
fn run_gating_without_fire() {
    let mut s = EditState::new();
    s.phase = GamePhase::Edit;
    s.run_simulation_with_button();
    assert_eq!(s.phase, GamePhase::Edit);
    s.run_simulation_with_keyboard(false);
    assert_eq!(s.phase, GamePhase::Edit);
}

#[test]
fn run_gating_with_fire() {
    let mut s = EditState::new();
    s.phase = GamePhase::Edit;
    s.fire = Some(fire(coord(1, 1)));
    s.run_simulation_with_button();
    assert_eq!(s.phase, GamePhase::Run);
}

#[test]
fn run_button_ignored_outside_edit() {
    let mut s = EditState::new();
    s.phase = GamePhase::Init;
    s.fire = Some(fire(coord(1, 1)));
    s.run_simulation_with_button();
    assert_eq!(s.phase, GamePhase::Init);
}

#[test]
fn run_keyboard_requests_start_sound() {
    let mut s = EditState::new();
    s.phase = GamePhase::Edit;
    s.fire = Some(fire(coord(0, 0)));
    s.run_simulation_with_keyboard(true);
    assert_eq!(s.phase, GamePhase::Run);
    assert_eq!(s.sounds, vec![SoundRequest::Start1]);
}

#[test]
fn reset_key_returns_to_init() {
    let mut s = EditState::new();
    s.phase = GamePhase::Edit;
    s.reset_all_object_placements();
    assert_eq!(s.phase, GamePhase::Init);
}

#[test]
fn fire_toggle_needs_a_bomb() {
    let mut s = EditState::new();
    let c = coord(2, 2);
    s.try_create_single_fire(&CreateFire { parent_grid: 1, coord: c });
    assert_eq!(s.fire, None);
}

#[test]
fn fire_toggle_on_off_and_move() {
    let mut s = EditState::new();
    let c1 = coord(2, 2);
    let c2 = coord(3, 3);
    s.create_object(&CreateObject::new(1, c1, Item::BombSmall), false);
    s.create_object(&CreateObject::new(1, c2, Item::BombMedium), false);
    s.try_create_single_fire(&CreateFire { parent_grid: 1, coord: c1 });
    assert_eq!(s.fire, Some(fire(c1)));
    s.try_create_single_fire(&CreateFire { parent_grid: 1, coord: c2 });
    assert_eq!(s.fire, Some(fire(c2)));
    s.try_create_single_fire(&CreateFire { parent_grid: 1, coord: c2 });
    assert_eq!(s.fire, None);
}

#[test]
fn fire_marker_visual_index() {
    let f = fire(coord(9, 9));
    assert_eq!(f.coord, coord(9, 9));
    assert_eq!(f.visual_index, 5);
}

#[test]
fn item_codes() {
    assert_eq!(Item::BombSmall.code(), 0);
    assert_eq!(Item::BombMedium.code(), 1);
    assert_eq!(Item::BombLarge.code(), 2);
    assert_eq!(Item::BombHorizontal.code(), 3);
    assert_eq!(Item::BombVertical.code(), 4);
    assert_eq!(Item::Eraser.code(), 255);
}

#[test]
fn item_from_code_roundtrip() {
    for item in [
        Item::BombSmall,
        Item::BombMedium,
        Item::BombLarge,
        Item::BombHorizontal,
        Item::BombVertical,
        Item::Eraser,
    ] {
        assert_eq!(Item::from_code(item.code()), Some(item));
    }
    assert_eq!(Item::from_code(7), None);
    assert_eq!(Item::from_code(254), None);
}

#[test]
fn only_the_eraser_is_not_a_bomb() {
    assert!(Item::BombSmall.is_bomb());
    assert!(Item::BombLarge.is_bomb());
    assert!(!Item::Eraser.is_bomb());
}

#[test]
fn item_buttons_table() {
    let buttons = item_buttons();
    assert_eq!(
        buttons,
        vec![
            Item::BombSmall,
            Item::BombMedium,
            Item::BombHorizontal,
            Item::BombVertical,
            Item::Eraser,
        ]
    );
}

#[test]
fn highlight_recomputed_in_full() {
    let buttons = item_buttons();
    let states = highlight_selected_item(Some(Item::BombHorizontal), &buttons);
    assert_eq!(states, vec![1, 1, 0, 1, 1]);
    let cleared = highlight_selected_item(None, &buttons);
    assert_eq!(cleared, vec![1, 1, 1, 1, 1]);
}

#[test]
fn highlight_index_for_one_button() {
    assert_eq!(highlight_index(Some(Item::Eraser), Item::Eraser), 0);
    assert_eq!(highlight_index(Some(Item::Eraser), Item::BombSmall), 1);
    assert_eq!(highlight_index(None, Item::BombSmall), 1);
}

#[test]
fn create_object_builders() {
    let c = coord(1, 2);
    let cmd = CreateObject::new(4, c, Item::BombSmall);
    assert!(cmd.with_sound);
    let silent = cmd.clone().without_sound();
    assert!(!silent.with_sound);
    let loud = silent.with_sound();
    assert!(loud.with_sound);
    assert_eq!(loud.parent_grid, 4);
    assert_eq!(loud.coord, c);
    assert_eq!(loud.item, Item::BombSmall);
}
