use myrmex::height::{HeightAction, HeightData};
use myrmex::save::DEFAULT_DIMENSION;

fn after(z: u32, action: HeightAction, height: u32) -> u32 {
    let mut h = HeightData { current_z: z };
    h.apply(action, height);
    h.current_z
}

#[test]
fn height_starts_halfway_up() {
    assert_eq!(HeightData::default().current_z, 16);
    assert_eq!(HeightData::default().current_z, DEFAULT_DIMENSION / 2);
    assert_eq!(HeightData::for_universe(64).current_z, 32);
    assert_eq!(HeightData::for_universe(33).current_z, 16);
    assert_eq!(HeightData::for_universe(1).current_z, 0);
    assert_eq!(HeightData::for_universe(0).current_z, 0);
}

#[test]
fn buttons_move_the_view() {
    assert_eq!(after(10, HeightAction::Up5, 64), 15);
    assert_eq!(after(10, HeightAction::Up1, 64), 11);
    assert_eq!(after(10, HeightAction::Down1, 64), 9);
    assert_eq!(after(10, HeightAction::Down5, 64), 5);
    assert_eq!(after(10, HeightAction::Floor, 64), 0);
    assert_eq!(after(10, HeightAction::Half, 64), 32);
    assert_eq!(after(10, HeightAction::Ceiling, 64), 63);
}

#[test]
fn down_buttons_stop_at_the_floor() {
    assert_eq!(after(0, HeightAction::Down1, 64), 0);
    assert_eq!(after(3, HeightAction::Down5, 64), 0);
    assert_eq!(after(5, HeightAction::Down5, 64), 0);
    assert_eq!(after(0, HeightAction::Down5, 64), 0);
}

#[test]
fn half_rounds_down_and_ceiling_is_the_last_layer() {
    assert_eq!(after(0, HeightAction::Half, 33), 16);
    assert_eq!(after(0, HeightAction::Half, 1), 0);
    assert_eq!(after(0, HeightAction::Ceiling, 1), 0);
    assert_eq!(after(200, HeightAction::Ceiling, 256), 255);
}

#[test]
fn up_buttons_stop_at_the_ceiling() {
    assert_eq!(after(62, HeightAction::Up1, 64), 63);
    assert_eq!(after(63, HeightAction::Up1, 64), 63);
    assert_eq!(after(31, HeightAction::Up1, 32), 31);
    assert_eq!(after(62, HeightAction::Up5, 64), 63);
    assert_eq!(after(58, HeightAction::Up5, 64), 63);
    assert_eq!(after(57, HeightAction::Up5, 64), 62);
    // a view above the ceiling keeps moving up
    assert_eq!(after(70, HeightAction::Up1, 64), 71);
    assert_eq!(after(40, HeightAction::Up5, 32), 45);
    // a universe without layers has no ceiling to stop at
    assert_eq!(after(0, HeightAction::Up1, 0), 1);
    assert_eq!(after(0, HeightAction::Up5, 0), 5);
    // at the ceiling of the largest universe, up stays there
    assert_eq!(after(u32::MAX - 1, HeightAction::Up5, u32::MAX), u32::MAX - 1);
}

#[test]
fn the_view_stays_in_the_universe() {
    let actions = [
        HeightAction::Up5,
        HeightAction::Up1,
        HeightAction::Down1,
        HeightAction::Down5,
        HeightAction::Floor,
        HeightAction::Half,
        HeightAction::Ceiling,
    ];
    for h in [1u32, 2, 5, 32] {
        for z in 0..h {
            for a in actions {
                assert!(after(z, a, h) < h);
            }
        }
    }
}

#[test]
fn down5_is_five_down1() {
    for z in 0..20u32 {
        let mut h = HeightData { current_z: z };
        for _ in 0..5 {
            h.apply(HeightAction::Down1, 32);
        }
        assert_eq!(after(z, HeightAction::Down5, 32), h.current_z);
    }
}

#[test]
fn up5_is_five_up1() {
    for z in [0u32, 7, 26, 27, 29, 31, 40, u32::MAX - 5] {
        let mut h = HeightData { current_z: z };
        for _ in 0..5 {
            h.apply(HeightAction::Up1, 32);
        }
        assert_eq!(after(z, HeightAction::Up5, 32), h.current_z);
    }
}

#[test]
fn up_and_down_undo_each_other() {
    assert_eq!(after(after(7, HeightAction::Up1, 32), HeightAction::Down1, 32), 7);
    assert_eq!(after(after(0, HeightAction::Up1, 32), HeightAction::Down1, 32), 0);
    // at the ceiling, up does nothing, so down does not undo it
    assert_eq!(after(after(31, HeightAction::Up1, 32), HeightAction::Down1, 32), 30);
    assert_eq!(after(after(7, HeightAction::Down1, 32), HeightAction::Up1, 32), 7);
    // on the floor, down does nothing, so up does not undo it
    assert_eq!(after(after(0, HeightAction::Down1, 32), HeightAction::Up1, 32), 1);
}

#[test]
fn jumps_do_not_depend_on_the_layer() {
    for z in [0u32, 5, 100, u32::MAX] {
        assert_eq!(after(z, HeightAction::Floor, 48), 0);
        assert_eq!(after(z, HeightAction::Half, 48), 24);
        assert_eq!(after(z, HeightAction::Ceiling, 48), 47);
    }
}
