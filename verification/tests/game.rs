use crab_arcade::entity::{sat_add_i64, Entity, EntityType};
use crab_arcade::input::{Input, Key};
use crab_arcade::score::{push_decimal, score_label};
use crab_arcade::state::{millis_from, MainState};

fn player_at(x: i64, y: i64) -> Entity {
    Entity {
        entity_type: EntityType::Player,
        sprite: 0,
        x,
        y,
        hp: 100,
        vel: 10,
        bounds_w: 256,
        bounds_h: 171,
    }
}

#[test]
fn new_state_holds_one_player_at_origin() {
    let s = MainState::new();
    assert_eq!(s.frames, 0);
    assert_eq!(s.score, 0);
    assert_eq!(s.elapsed_ms, 0);
    assert_eq!(s.delta_ms, 0);
    assert_eq!(s.input, Input::new());
    assert_eq!(s.entities.len(), 1);
    assert_eq!(s.entities[0], player_at(0, 0));
}

#[test]
fn translate_moves_by_offsets() {
    let mut e = player_at(5, -3);
    e.translate(7, -4);
    assert_eq!(e.x, 12);
    assert_eq!(e.y, -7);
    assert_eq!(e.hp, 100);
    assert_eq!(e.vel, 10);
}

#[test]
fn translate_saturates_at_the_ends() {
    let mut e = player_at(i64::MAX - 1, i64::MIN + 1);
    e.translate(5, -5);
    assert_eq!(e.x, i64::MAX);
    assert_eq!(e.y, i64::MIN);
}

#[test]
fn sat_add_clamps_instead_of_wrapping() {
    assert_eq!(sat_add_i64(1, 2), 3);
    assert_eq!(sat_add_i64(i64::MAX, 1), i64::MAX);
    assert_eq!(sat_add_i64(i64::MIN, -1), i64::MIN);
    assert_eq!(sat_add_i64(i64::MAX, -1), i64::MAX - 1);
}

#[test]
fn key_down_raises_only_the_matching_flag() {
    let mut inp = Input::new();
    inp.key_down(Key::Left);
    assert!(inp.left && !inp.right && !inp.up && !inp.down && !inp.shoot);
    inp.key_down(Key::Space);
    assert!(inp.left && inp.shoot);
    inp.key_down(Key::Other);
    assert!(inp.left && !inp.right && !inp.up && !inp.down && inp.shoot);
}

#[test]
fn key_up_clears_only_the_matching_flag() {
    let mut inp = Input {
        left: true,
        right: true,
        up: true,
        down: true,
        shoot: true,
    };
    inp.key_up(Key::Down);
    assert!(inp.left && inp.right && inp.up && !inp.down && inp.shoot);
    inp.key_up(Key::Other);
    assert!(inp.left && inp.right && inp.up && !inp.down && inp.shoot);
}

#[test]
fn press_then_release_restores_the_state() {
    let mut inp = Input::new();
    inp.key_down(Key::Up);
    inp.key_up(Key::Up);
    assert_eq!(inp, Input::new());
}

#[test]
fn update_moves_player_along_held_axes() {
    let mut s = MainState::new();
    s.input.key_down(Key::Right);
    s.input.key_down(Key::Down);
    s.update(16);
    assert_eq!(s.entities[0].x, 10);
    assert_eq!(s.entities[0].y, 10);
    assert_eq!(s.elapsed_ms, 16);
    assert_eq!(s.delta_ms, 16);
    s.update(32);
    assert_eq!(s.entities[0].x, 20);
    assert_eq!(s.entities[0].y, 20);
    assert_eq!(s.delta_ms, 16);
}

#[test]
fn update_with_opposite_keys_cancels_out() {
    let mut s = MainState::new();
    s.input.key_down(Key::Left);
    s.input.key_down(Key::Right);
    s.update(16);
    assert_eq!(s.entities[0].x, 0);
    assert_eq!(s.entities[0].y, 0);
}

#[test]
fn update_leaves_non_player_entities_alone() {
    let mut s = MainState::new();
    let enemy = Entity {
        entity_type: EntityType::Enemy,
        sprite: 1,
        x: 50,
        y: 60,
        hp: 20,
        vel: 5,
        bounds_w: 32,
        bounds_h: 32,
    };
    s.entities.push(enemy);
    s.input.key_down(Key::Left);
    s.update(16);
    assert_eq!(s.entities[0].x, -10);
    assert_eq!(s.entities[1], enemy);
}

#[test]
fn shoot_alone_moves_nothing() {
    let mut s = MainState::new();
    s.input.key_down(Key::Space);
    s.update(16);
    assert_eq!(s.entities[0], player_at(0, 0));
}

#[test]
fn update_time_tracks_the_clock() {
    let mut s = MainState::new();
    s.update_time(1000);
    assert_eq!(s.elapsed_ms, 1000);
    assert_eq!(s.delta_ms, 1000);
    s.update_time(1016);
    assert_eq!(s.elapsed_ms, 1016);
    assert_eq!(s.delta_ms, 16);
    s.update_time(1016);
    assert_eq!(s.delta_ms, 0);
}

#[test]
fn millis_from_combines_seconds_and_nanoseconds() {
    assert_eq!(millis_from(0, 0), 0);
    assert_eq!(millis_from(2, 345_678_901), 2345);
    assert_eq!(millis_from(2, 999_999), 2000);
}

#[test]
fn background_scrolls_one_unit_per_forty_milliseconds() {
    let mut s = MainState::new();
    assert_eq!(s.background_offsets(), (0, -1920));
    s.update_time(123_456);
    assert_eq!(s.background_offsets(), (1166, -754));
    s.update_time(40 * 1919);
    assert_eq!(s.background_offsets(), (1919, -1));
    s.update_time(40 * 1920);
    assert_eq!(s.background_offsets(), (0, -1920));
}

#[test]
fn every_hundredth_frame_reports_the_rate() {
    let mut s = MainState::new();
    for frame in 1..=200u32 {
        let report = s.end_frame();
        assert_eq!(report, frame % 100 == 0);
    }
    assert_eq!(s.frames, 200);
}

#[test]
fn push_decimal_appends_the_numeral() {
    let mut s = String::from("HP ");
    push_decimal(&mut s, 100);
    assert_eq!(s, "HP 100");
    push_decimal(&mut s, 0);
    assert_eq!(s, "HP 1000");
}

#[test]
fn score_label_renders_the_decimal_score() {
    assert_eq!(score_label(0), "Score: 0");
    assert_eq!(score_label(7), "Score: 7");
    assert_eq!(score_label(105), "Score: 105");
    assert_eq!(score_label(4_294_967_295), "Score: 4294967295");
}
