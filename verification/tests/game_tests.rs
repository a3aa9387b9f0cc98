use myrmex::camera::{movement_direction, MovementKeys, CAMERA_SPEED};
use myrmex::home::{is_universe_loaded, HomeState, MAX_DIMENSION, MIN_DIMENSION};
use myrmex::height::HeightData;
use myrmex::load::apply_loaded_save;
use myrmex::panel::{find_option, shows_hierarchy, MenuOption};
use myrmex::save::{universe_record, SaveFileData};
use myrmex::state::{self, GameState};
use myrmex::tilemap::{needs_refill, refill_single_tilemap, tile_positions, STARTING_MAP_SIDE};

fn keys(left: bool, right: bool, up: bool, down: bool) -> MovementKeys {
    MovementKeys { left, right, up, down }
}

#[test]
fn home_starts_with_nothing_loaded() {
    let h = HomeState::default();
    assert!(!h.is_universe_loaded);
    assert_eq!(h.input_universe_dimensions, (0, 0, 0));
    assert!(!is_universe_loaded(&h));
    assert_eq!((MIN_DIMENSION, MAX_DIMENSION), (32, 256));
}

#[test]
fn a_read_save_loads_the_universe() {
    let mut home = HomeState { is_universe_loaded: false, input_universe_dimensions: (40, 40, 40) };
    let mut save = universe_record((32, 32, 32), 1, String::from("a"));
    let loaded = universe_record((64, 48, 128), 1700000000, String::from("b"));
    let mut height = HeightData { current_z: 3 };
    assert!(apply_loaded_save(&mut home, &mut save, &mut height, Some(loaded)));
    assert_eq!(height.current_z, 64);
    assert!(home.is_universe_loaded);
    assert!(is_universe_loaded(&home));
    assert_eq!(home.input_universe_dimensions, (40, 40, 40));
    assert_eq!(save.id, "universe_1700000000");
    assert_eq!((save.x, save.y, save.z), (64, 48, 128));
    assert_eq!(save.created_at, "b");
}

#[test]
fn an_unread_save_changes_nothing() {
    let mut home = HomeState::default();
    let mut save = universe_record((32, 33, 34), 5, String::from("a"));
    let mut height = HeightData { current_z: 3 };
    assert!(!apply_loaded_save(&mut home, &mut save, &mut height, None));
    assert_eq!(height.current_z, 3);
    assert!(!home.is_universe_loaded);
    assert_eq!(save.id, "universe_5");
    assert_eq!((save.x, save.y, save.z), (32, 33, 34));
}

#[test]
fn map_is_refilled_when_a_side_differs() {
    let save = universe_record((64, 32, 32), 0, String::new());
    assert!(needs_refill(32, 32, &save));
    assert!(needs_refill(64, 31, &save));
    assert!(!needs_refill(64, 32, &save));
    let d = SaveFileData::with_default_size(String::new());
    assert!(!needs_refill(STARTING_MAP_SIDE, STARTING_MAP_SIDE, &d));
}

#[test]
fn only_a_single_tilemap_of_another_size_is_refilled() {
    let save = universe_record((64, 48, 32), 0, String::new());
    assert!(refill_single_tilemap(&[(32, 32)], &save));
    assert!(!refill_single_tilemap(&[(64, 48)], &save));
    assert!(!refill_single_tilemap(&[], &save));
    assert!(!refill_single_tilemap(&[(32, 32), (32, 32)], &save));
    // once laid out at the save's size, the map is not laid out again
    assert!(!refill_single_tilemap(&[(save.x, save.y)], &save));
}

#[test]
fn tiles_are_laid_column_by_column() {
    assert_eq!(tile_positions(2, 3), vec![(0, 0), (0, 1), (0, 2), (1, 0), (1, 1), (1, 2)]);
    assert_eq!(tile_positions(0, 5), vec![]);
    assert_eq!(tile_positions(5, 0), vec![]);
    assert_eq!(tile_positions(1, 1), vec![(0, 0)]);
}

#[test]
fn every_tile_is_laid_once() {
    let sx: u32 = STARTING_MAP_SIDE;
    let sy: u32 = 7;
    let p = tile_positions(sx, sy);
    assert_eq!(p.len(), (sx * sy) as usize);
    for x in 0..sx {
        for y in 0..sy {
            let idx: usize = (x * sy + y) as usize;
            assert_eq!(p[idx], (x, y));
            assert_eq!(p.iter().filter(|t| **t == (x, y)).count(), 1);
        }
    }
}

#[test]
fn camera_moves_with_the_keys() {
    assert_eq!(movement_direction(keys(false, false, false, false)), (0, 0));
    assert_eq!(movement_direction(keys(true, false, false, false)), (-1, 0));
    assert_eq!(movement_direction(keys(false, true, false, false)), (1, 0));
    assert_eq!(movement_direction(keys(false, false, true, false)), (0, 1));
    assert_eq!(movement_direction(keys(false, false, false, true)), (0, -1));
    assert_eq!(movement_direction(keys(false, true, true, false)), (1, 1));
    assert_eq!(CAMERA_SPEED, 500);
}

#[test]
fn opposite_keys_cancel() {
    assert_eq!(movement_direction(keys(true, true, false, false)), (0, 0));
    assert_eq!(movement_direction(keys(false, false, true, true)), (0, 0));
    assert_eq!(movement_direction(keys(true, true, true, true)), (0, 0));
    assert_eq!(movement_direction(keys(true, true, true, false)), (0, 1));
}

#[test]
fn flat_universe_record() {
    let g = GameState { is_universe_loaded: false, input_universe_dimensions: (100, 80) };
    let d = g.universe_record(42, String::from("t"));
    assert_eq!(d.id, "universe_42");
    assert_eq!((d.width, d.height), (100, 80));
    assert_eq!(d.created_at, "t");
    let (n, file) = g.new_universe().expect("the clock reads after 1970");
    assert!(n.created_at.ends_with("+00:00"));
    assert!(n.id.starts_with("universe_"));
    assert_eq!(file, format!("{}.json", n.id));
    assert_eq!((n.width, n.height), (100, 80));
    assert!(!state::is_universe_loaded(&g));
    let gd = GameState::default();
    assert_eq!(gd.input_universe_dimensions, (0, 0));
    assert!(!gd.is_universe_loaded);
}

#[test]
fn panel_finds_the_first_matching_view() {
    let options = [MenuOption::Controls, MenuOption::Entities, MenuOption::Entities];
    assert_eq!(find_option(&options, MenuOption::Controls), Some(0));
    assert_eq!(find_option(&options, MenuOption::Entities), Some(1));
    assert_eq!(find_option(&options[..1], MenuOption::Entities), None);
    assert_eq!(find_option(&[], MenuOption::Controls), None);
    assert_eq!(MenuOption::default(), MenuOption::Controls);
    assert!(shows_hierarchy(MenuOption::Entities));
    assert!(!shows_hierarchy(MenuOption::Controls));
}
