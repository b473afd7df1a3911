use zombie_shooter::bullet::{
    collides, despawn_bullet, move_elements, zom_bullet_collision, Bullet, Vel,
};
use zombie_shooter::gun::Shot;
use zombie_shooter::transform::{Transform, Viewport};
use zombie_shooter::vec2::Vec2;
use zombie_shooter::zom::{Zom, ZomBody, ZomType};

fn bullet_at(x: i32, y: i32) -> Bullet {
    Bullet { transform: Transform::from_xy(x, y), velocity: Vel(Vec2::new(0, 0)) }
}

fn zom_at(zom_type: ZomType, x: i32, y: i32) -> ZomBody {
    ZomBody { zom: Zom { zom_type }, transform: Transform::from_xy(x, y) }
}

#[test]
fn a_bullet_just_inside_the_radius_destroys_both() {
    let out = zom_bullet_collision(&vec![bullet_at(9_999, 0)], &vec![zom_at(ZomType::Default, 0, 0)]);
    assert_eq!(out.zoms, vec![true]);
    assert_eq!(out.bullets, vec![true]);
}

#[test]
fn a_bullet_on_the_radius_destroys_neither() {
    let out = zom_bullet_collision(&vec![bullet_at(10_000, 0)], &vec![zom_at(ZomType::Default, 0, 0)]);
    assert_eq!(out.zoms, vec![false]);
    assert_eq!(out.bullets, vec![false]);
    let out = zom_bullet_collision(&vec![bullet_at(10_001, 0)], &vec![zom_at(ZomType::Default, 0, 0)]);
    assert_eq!(out.zoms, vec![false]);
    assert_eq!(out.bullets, vec![false]);
}

#[test]
fn the_radius_is_round() {
    let zom = zom_at(ZomType::Default, 100, -100);
    assert!(!collides(&zom, &bullet_at(6_100, 7_900)));
    assert!(collides(&zom, &bullet_at(6_099, 7_900)));
    assert!(collides(&zom, &bullet_at(6_100, 7_899)));
    assert!(!collides(&zom, &bullet_at(-5_900, -8_100)));
    assert!(collides(&zom, &bullet_at(-5_899, -8_100)));
    assert!(collides(&zom, &bullet_at(7_171, 6_971)));
    assert!(!collides(&zom, &bullet_at(7_172, 6_972)));
    assert!(collides(&zom, &bullet_at(100, -100)));
}

#[test]
fn a_strong_enemy_is_larger() {
    let zom = zom_at(ZomType::Strong, 0, 0);
    assert!(collides(&zom, &bullet_at(14_999, 0)));
    assert!(!collides(&zom, &bullet_at(15_000, 0)));
    assert!(collides(&zom, &bullet_at(0, -14_999)));
    assert!(!collides(&zom, &bullet_at(0, -15_000)));
    assert!(!collides(&zom, &bullet_at(9_000, 12_000)));
    assert!(collides(&zom, &bullet_at(8_999, 12_000)));
    let zom = zom_at(ZomType::Default, 0, 0);
    assert!(!collides(&zom, &bullet_at(14_999, 0)));
}

#[test]
fn far_apart_is_no_collision() {
    let zom = zom_at(ZomType::Strong, i32::MIN, i32::MIN);
    assert!(!collides(&zom, &bullet_at(i32::MAX, i32::MAX)));
    assert!(collides(&zom, &bullet_at(i32::MIN, i32::MIN + 14_999)));
}

#[test]
fn every_pair_in_reach_is_destroyed() {
    let bullets = vec![
        bullet_at(5_000, 0),
        bullet_at(-5_000, 0),
        bullet_at(100_000, 100_000),
        bullet_at(50_000, 14_000),
    ];
    let zoms = vec![
        zom_at(ZomType::Default, 0, 0),
        zom_at(ZomType::Default, 12_000, 0),
        zom_at(ZomType::Strong, 50_000, 0),
        zom_at(ZomType::Default, 50_000, 0),
        zom_at(ZomType::Strong, -100_000, -100_000),
    ];
    let out = zom_bullet_collision(&bullets, &zoms);
    // the first bullet is within reach of the first two enemies, the second of the first;
    // the last is within reach of the strong enemy at (50, 0) and not of the ordinary one there
    assert_eq!(out.zoms, vec![true, true, true, false, false]);
    assert_eq!(out.bullets, vec![true, true, false, true]);
}

#[test]
fn nothing_collides_with_nothing() {
    let out = zom_bullet_collision(&Vec::new(), &Vec::new());
    assert!(out.zoms.is_empty() && out.bullets.is_empty());
    let out = zom_bullet_collision(&vec![bullet_at(0, 0)], &Vec::new());
    assert!(out.zoms.is_empty());
    assert_eq!(out.bullets, vec![false]);
    let out = zom_bullet_collision(&Vec::new(), &vec![zom_at(ZomType::Default, 0, 0)]);
    assert_eq!(out.zoms, vec![false]);
    assert!(out.bullets.is_empty());
}

#[test]
fn a_bullet_beyond_the_edge_is_removed() {
    let w = Viewport::new(800_000, 600_000);
    let bullets = vec![
        bullet_at(400_001, 0),
        bullet_at(400_000, 0),
        bullet_at(-400_001, 0),
        bullet_at(-400_000, 0),
        bullet_at(0, 300_001),
        bullet_at(0, 300_000),
        bullet_at(0, -300_001),
        bullet_at(0, -300_000),
        bullet_at(400_000, 300_000),
        bullet_at(400_000, -300_001),
        bullet_at(0, 0),
    ];
    assert_eq!(
        despawn_bullet(&bullets, &w),
        vec![true, false, true, false, true, false, true, false, false, true, false]
    );
}

#[test]
fn an_odd_viewport_culls_at_its_half() {
    // half of 800.001 is 400.0005: 400.000 is inside, 400.001 is outside
    let w = Viewport::new(800_001, 600_001);
    assert!(!w.is_outside(&Vec2::new(400_000, 0)));
    assert!(w.is_outside(&Vec2::new(400_001, 0)));
    assert!(!w.is_outside(&Vec2::new(0, -300_000)));
    assert!(w.is_outside(&Vec2::new(0, -300_001)));
}

#[test]
fn the_whole_range_fits_the_largest_viewport() {
    let w = Viewport::new(u32::MAX, u32::MAX);
    assert!(!w.is_outside(&Vec2::new(i32::MAX, -i32::MAX)));
    assert!(w.is_outside(&Vec2::new(i32::MIN, 0)));
    let w = Viewport::new(0, 0);
    assert!(!w.is_outside(&Vec2::new(0, 0)));
    assert!(w.is_outside(&Vec2::new(0, 1)));
}

#[test]
fn no_bullets_nothing_to_cull() {
    assert_eq!(despawn_bullet(&Vec::new(), &Viewport::new(10, 10)), Vec::<bool>::new());
}

#[test]
fn bullets_fly_by_their_velocity() {
    let mut bullets = vec![
        Bullet {
            transform: Transform { translation: Vec2::new(10, 20), rotation: 7 },
            velocity: Vel(Vec2::new(6_000, 0)),
        },
        Bullet {
            transform: Transform { translation: Vec2::new(-10, -20), rotation: -7 },
            velocity: Vel(Vec2::new(-4_242, 4_242)),
        },
        Bullet {
            transform: Transform { translation: Vec2::new(i32::MAX - 1, i32::MIN + 1), rotation: 0 },
            velocity: Vel(Vec2::new(6_000, -6_000)),
        },
    ];
    move_elements(&mut bullets);
    assert_eq!(
        bullets,
        vec![
            Bullet {
                transform: Transform { translation: Vec2::new(6_010, 20), rotation: 7 },
                velocity: Vel(Vec2::new(6_000, 0)),
            },
            Bullet {
                transform: Transform { translation: Vec2::new(-4_252, 4_222), rotation: -7 },
                velocity: Vel(Vec2::new(-4_242, 4_242)),
            },
            Bullet {
                transform: Transform { translation: Vec2::new(i32::MAX, i32::MIN), rotation: 0 },
                velocity: Vel(Vec2::new(6_000, -6_000)),
            },
        ]
    );
    move_elements(&mut bullets);
    assert_eq!(bullets[0].transform.translation, Vec2::new(12_010, 20));
}

#[test]
fn a_fired_bullet_flies_at_the_shots_speed() {
    let shot = Shot {
        transform: Transform { translation: Vec2::new(1, 2), rotation: 785_398 },
        speed: 6_000,
    };
    let bullet = Bullet::fired(&shot, &Vec2::new(707_107, 707_107));
    assert_eq!(bullet.transform, shot.transform);
    assert_eq!(bullet.velocity, Vel(Vec2::new(4_242, 4_242)));
    let bullet = Bullet::fired(&shot, &Vec2::new(-1_000_000, 0));
    assert_eq!(bullet.velocity, Vel(Vec2::new(-6_000, 0)));
    let bullet = Bullet::fired(&shot, &Vec2::new(600, -800));
    assert_eq!(bullet.velocity, Vel(Vec2::new(3_600, -4_800)));
}

#[test]
fn a_bullet_flies_and_is_culled_on_the_frame_it_leaves() {
    let w = Viewport::new(800_000, 600_000);
    let mut bullets = vec![Bullet {
        transform: Transform::from_xy(394_000, 0),
        velocity: Vel(Vec2::new(6_000, 0)),
    }];
    move_elements(&mut bullets);
    assert_eq!(despawn_bullet(&bullets, &w), vec![false]);
    move_elements(&mut bullets);
    assert_eq!(despawn_bullet(&bullets, &w), vec![true]);
}
