use cgmath::{Angle, Rad};
use zombie_shooter::gun::{ButtonState, Gun, Pistol, Shotgun, Weapon, SHOTGUN_DRAW_TIME};
use zombie_shooter::player::{
    decimal_string, face_mouse, move_player, player_input, shoot_bullet, sprite_row, update_text,
    MoveKeys, Player, MOVE_SPEED,
};
use zombie_shooter::transform::{Transform, Viewport};
use zombie_shooter::units::{HALF_TURN, QUARTER_TURN};
use zombie_shooter::vec2::Vec2;

const CLICK: ButtonState = ButtonState { pressed: true, just_pressed: true };
const IDLE: ButtonState = ButtonState { pressed: false, just_pressed: false };

fn keys(up: bool, down: bool, left: bool, right: bool) -> MoveKeys {
    MoveKeys { up, down, left, right }
}

fn with_pistol() -> Player {
    Player { angle: 0, gun: Some(Weapon::Pistol(Pistol::new())) }
}

fn unarmed() -> Player {
    Player { angle: 0, gun: None }
}

#[test]
fn one_key_moves_at_full_speed() {
    assert_eq!(MOVE_SPEED, 1_800);
    assert_eq!(keys(true, false, false, false).step(), Vec2::new(0, 1_800));
    assert_eq!(keys(false, true, false, false).step(), Vec2::new(0, -1_800));
    assert_eq!(keys(false, false, true, false).step(), Vec2::new(-1_800, 0));
    assert_eq!(keys(false, false, false, true).step(), Vec2::new(1_800, 0));
}

#[test]
fn a_diagonal_is_no_faster_than_an_axis() {
    let step = keys(true, false, false, true).step();
    assert_eq!(step, Vec2::new(1_272, 1_272));
    // 1800 / sqrt(2) is 1272.79..; the step is 1798.88.. long, not 2545.58..
    assert_eq!(step.magnitude(), 1_798);
    assert!(step.squared_length() <= 1_800 * 1_800);
    assert!(step.squared_length() > 1_798 * 1_798);
    assert_ne!(step.magnitude(), Vec2::new(1_800, 1_800).magnitude());
}

#[test]
fn every_diagonal_has_the_same_length() {
    assert_eq!(keys(true, false, true, false).step(), Vec2::new(-1_272, 1_272));
    assert_eq!(keys(false, true, true, false).step(), Vec2::new(-1_272, -1_272));
    assert_eq!(keys(false, true, false, true).step(), Vec2::new(1_272, -1_272));
}

#[test]
fn opposite_keys_cancel() {
    assert_eq!(keys(true, true, false, false).step(), Vec2::new(0, 0));
    assert_eq!(keys(false, false, true, true).step(), Vec2::new(0, 0));
    assert_eq!(keys(true, true, true, true).step(), Vec2::new(0, 0));
    assert_eq!(keys(false, false, false, false).step(), Vec2::new(0, 0));
    assert_eq!(keys(true, true, false, true).step(), Vec2::new(1_800, 0));
    assert_eq!(keys(true, false, true, true).step(), Vec2::new(0, 1_800));
}

#[test]
fn no_key_combination_is_faster_than_the_speed() {
    for bits in 0..16 {
        let step = keys(bits & 1 != 0, bits & 2 != 0, bits & 4 != 0, bits & 8 != 0).step();
        let length_sq = step.squared_length();
        assert!(length_sq <= 1_800 * 1_800);
        assert!(length_sq == 0 || length_sq > 1_798 * 1_798);
    }
}

#[test]
fn move_player_adds_the_step() {
    let mut trans = Transform { translation: Vec2::new(100, -100), rotation: 77 };
    move_player(&keys(true, false, false, true), &mut trans);
    assert_eq!(trans, Transform { translation: Vec2::new(1_372, 1_172), rotation: 77 });
    move_player(&keys(false, false, true, false), &mut trans);
    assert_eq!(trans, Transform { translation: Vec2::new(-428, 1_172), rotation: 77 });
    move_player(&keys(false, false, false, false), &mut trans);
    assert_eq!(trans, Transform { translation: Vec2::new(-428, 1_172), rotation: 77 });
}

#[test]
fn move_player_stops_at_the_end_of_the_world() {
    let mut trans = Transform::from_xy(i32::MAX - 5, i32::MIN + 5);
    move_player(&keys(false, true, false, true), &mut trans);
    assert_eq!(trans.translation, Vec2::new(i32::MAX, i32::MIN));
}

#[test]
fn a_new_player_carries_a_shotgun() {
    let player = Player::new();
    assert_eq!(player.angle, 0);
    let gun = player.gun.expect("a weapon");
    assert!(matches!(gun, Weapon::Shotgun(_)));
    assert_eq!(gun.left_in_mag(), 2);
    assert!(!gun.reloading());
    assert_eq!(gun.name(), "Shotgun");
}

#[test]
fn the_pointer_is_seen_from_the_centre() {
    let w = Viewport::new(800_000, 600_000);
    assert_eq!(w.centered(&Vec2::new(0, 0)), Vec2::new(-400_000, -300_000));
    assert_eq!(w.centered(&Vec2::new(400_000, 300_000)), Vec2::new(0, 0));
    assert_eq!(w.centered(&Vec2::new(800_000, 600_000)), Vec2::new(400_000, 300_000));
    assert_eq!(w.centered(&Vec2::new(i32::MIN, 5)), Vec2::new(i32::MIN, -299_995));
}

#[test]
fn face_mouse_aims_at_the_pointer() {
    let w = Viewport::new(800_000, 600_000);
    let here = Transform::from_xy(0, 0);
    let mut player = unarmed();

    face_mouse(&mut player, &here, &Some(Vec2::new(500_000, 400_000)), &w, 785_398);
    assert_eq!(player.angle, 785_398);

    face_mouse(&mut player, &here, &Some(Vec2::new(300_000, 400_000)), &w, -785_398);
    assert_eq!(player.angle, 2_356_195);

    face_mouse(&mut player, &here, &Some(Vec2::new(300_000, 200_000)), &w, 785_398);
    assert_eq!(player.angle, 3_926_991);

    face_mouse(&mut player, &here, &Some(Vec2::new(500_000, 200_000)), &w, -785_398);
    assert_eq!(player.angle, -785_398);
}

#[test]
fn face_mouse_goes_by_the_players_place() {
    let w = Viewport::new(800_000, 600_000);
    let mut player = unarmed();
    // the pointer is right of the centre and left of the player
    let there = Transform::from_xy(200_000, 0);
    face_mouse(&mut player, &there, &Some(Vec2::new(500_000, 300_000)), &w, 0);
    assert_eq!(player.angle, HALF_TURN);
    let there = Transform::from_xy(100_000, 0);
    face_mouse(&mut player, &there, &Some(Vec2::new(500_000, 300_000)), &w, 0);
    assert_eq!(player.angle, 0);
}

#[test]
fn without_a_pointer_the_aim_stays() {
    let w = Viewport::new(800_000, 600_000);
    let mut player = unarmed();
    player.angle = 1_234;
    face_mouse(&mut player, &Transform::from_xy(0, 0), &None, &w, 99);
    assert_eq!(player.angle, 1_234);
}

fn microradians(angle: Rad<f64>) -> i32 {
    (angle.0 * 1_000_000.0).round() as i32
}

#[test]
fn angle_to_agrees_with_the_two_argument_arctangent() {
    let full_turn = 2.0 * std::f64::consts::PI;
    let here = Vec2::new(1_500, -2_500);
    for ix in -12..=12 {
        for iy in -12..=12 {
            let there = Vec2::new(here.x + ix * 917, here.y + iy * 1_031);
            let (dx, dy) = Vec2::between_transforms(&here, &there);
            if dx == 0 {
                continue;
            }
            let principal: Rad<f64> = Rad::atan(dy as f64 / dx as f64);
            let angle = here.get_angle_to(&there, microradians(principal));
            let expected: Rad<f64> = Rad::atan2(dy as f64, dx as f64);
            let turned = (angle as f64 / 1_000_000.0 - expected.0).rem_euclid(full_turn);
            let off = turned.min(full_turn - turned);
            assert!(off < 0.000_002, "{:?} to {:?}: {} against {:?}", here, there, angle, expected.0);
            assert!(-QUARTER_TURN - 1 <= angle && angle <= 3 * QUARTER_TURN + 2);
        }
    }
}

#[test]
fn the_reload_key_reloads() {
    let mut player = with_pistol();
    assert_eq!(shoot_bullet(&mut player, &Transform::from_xy(0, 0), &CLICK, 0).len(), 1);
    player_input(&mut player, false);
    assert!(!player.gun.as_ref().unwrap().reloading());
    assert_eq!(player.gun.as_ref().unwrap().left_in_mag(), 6);
    player_input(&mut player, true);
    assert!(player.gun.as_ref().unwrap().reloading());
    assert_eq!(player.gun.as_ref().unwrap().left_in_mag(), 7);
    assert!(matches!(player.gun, Some(Weapon::Pistol(_))));
    assert_eq!(shoot_bullet(&mut player, &Transform::from_xy(0, 0), &CLICK, 799_999).len(), 0);
}

#[test]
fn the_reload_key_without_a_weapon_does_nothing() {
    let mut player = unarmed();
    player.angle = 5;
    player_input(&mut player, true);
    assert!(player.gun.is_none());
    assert_eq!(player.angle, 5);
}

#[test]
fn the_player_shoots_where_they_aim() {
    let mut player = with_pistol();
    player.angle = -1_000_000;
    let at = Transform { translation: Vec2::new(5_000, 6_000), rotation: 3 };
    let bullets = shoot_bullet(&mut player, &at, &CLICK, 0);
    assert_eq!(bullets.len(), 1);
    assert_eq!(bullets[0].transform.translation, Vec2::new(5_000, 6_000));
    assert_eq!(bullets[0].transform.rotation, -1_000_000);
    assert_eq!(bullets[0].speed, 6_000);
    assert_eq!(player.angle, -1_000_000);
    assert_eq!(shoot_bullet(&mut player, &at, &IDLE, 1_000_000).len(), 0);
}

#[test]
fn a_new_players_shotgun_fires_after_its_draw_time() {
    let mut player = Player::new();
    player.angle = 2_000_000;
    let at = Transform::from_xy(0, 0);
    assert_eq!(shoot_bullet(&mut player, &at, &CLICK, SHOTGUN_DRAW_TIME - 1).len(), 0);
    let bullets = shoot_bullet(&mut player, &at, &CLICK, 1);
    assert_eq!(bullets.len(), 5);
    for bullet in bullets {
        assert!((bullet.transform.rotation - 2_000_000).abs() <= 100_000);
    }
}

#[test]
fn an_unarmed_player_fires_nothing() {
    let mut player = unarmed();
    assert_eq!(shoot_bullet(&mut player, &Transform::from_xy(0, 0), &CLICK, 1_000_000).len(), 0);
    assert!(player.gun.is_none());
}

#[test]
fn the_status_line_names_the_weapon_and_its_rounds() {
    assert_eq!(update_text(&Player::new()), "Shotgun Rounds: 2");
    let mut player = with_pistol();
    assert_eq!(update_text(&player), "Pistol Rounds: 7");
    assert_eq!(shoot_bullet(&mut player, &Transform::from_xy(0, 0), &CLICK, 0).len(), 1);
    assert_eq!(update_text(&player), "Pistol Rounds: 6");
}

#[test]
fn the_status_line_tells_of_a_reload() {
    let mut player = with_pistol();
    player_input(&mut player, true);
    assert_eq!(update_text(&player), "RELOADING!");
    assert_eq!(shoot_bullet(&mut player, &Transform::from_xy(0, 0), &IDLE, 800_000).len(), 0);
    assert_eq!(update_text(&player), "Pistol Rounds: 7");
    let mut player = Player { angle: 0, gun: Some(Weapon::Shotgun(Shotgun::new())) };
    player_input(&mut player, true);
    assert_eq!(update_text(&player), "RELOADING!");
}

#[test]
fn the_status_line_without_a_weapon() {
    assert_eq!(update_text(&unarmed()), "No gun");
}

#[test]
fn numbers_are_written_in_decimal() {
    assert_eq!(decimal_string(0), "0");
    assert_eq!(decimal_string(7), "7");
    assert_eq!(decimal_string(9), "9");
    assert_eq!(decimal_string(10), "10");
    assert_eq!(decimal_string(907), "907");
    assert_eq!(decimal_string(1_000), "1000");
    assert_eq!(decimal_string(12_345), "12345");
    assert_eq!(decimal_string(u16::MAX), "65535");
}

#[test]
fn numbers_are_written_as_the_formatter_writes_them() {
    for n in 0..=u16::MAX {
        assert_eq!(decimal_string(n), format!("{}", n));
    }
}

#[test]
fn the_sprite_row_follows_the_aim() {
    // right
    assert_eq!(sprite_row(0), 2);
    assert_eq!(sprite_row(785_398), 2);
    assert_eq!(sprite_row(-785_398), 2);
    assert_eq!(sprite_row(802_851), 2);
    // up
    assert_eq!(sprite_row(802_852), 3);
    assert_eq!(sprite_row(QUARTER_TURN), 3);
    assert_eq!(sprite_row(2_373_648), 3);
    // left
    assert_eq!(sprite_row(2_373_649), 1);
    assert_eq!(sprite_row(HALF_TURN), 1);
    assert_eq!(sprite_row(3_944_444), 1);
    // down
    assert_eq!(sprite_row(3_944_445), 0);
    assert_eq!(sprite_row(4_729_842), 0);
    assert_eq!(sprite_row(3 * QUARTER_TURN), 0);
    assert_eq!(sprite_row(-QUARTER_TURN), 0);
    assert_eq!(sprite_row(-802_852), 0);
    assert_eq!(sprite_row(-802_851), 2);
}

#[test]
fn an_angle_that_is_no_aim_is_shown_facing_right() {
    assert_eq!(sprite_row(4_729_843), 2);
    assert_eq!(sprite_row(-1_588_250), 2);
    assert_eq!(sprite_row(i32::MAX), 2);
    assert_eq!(sprite_row(i32::MIN), 2);
}
