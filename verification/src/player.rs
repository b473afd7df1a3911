//! The player: walking, aiming, firing and reloading, and the status line
//! that tells how the weapon is doing.

use crate::gun::{shot_of, ButtonState, Gun, GunState, Shot, Shotgun, Weapon};
use crate::transform::{Transform, Viewport};
use crate::units::HALF_TURN;
use crate::vec2::{angle_to, is_sqrt, lemma_sqrt_floor_is, resized, Vec2};
use vstd::prelude::*;
use vstd::string::StringExecFns;

verus! {

/// Distance the player covers per frame.
pub const MOVE_SPEED: u32 = 1_800;

/// The one player of the game: where they aim, and what they carry.
pub struct Player {
    /// Angle from the player to the pointer, in microradians.
    pub angle: i32,
    /// The weapon in hand, if any.
    pub gun: Option<Weapon>,
}

/// The four movement keys of the input snapshot of a frame.
#[derive(Clone, Copy, Debug, PartialEq, Eq, Structural)]
pub struct MoveKeys {
    pub up: bool,
    pub down: bool,
    pub left: bool,
    pub right: bool,
}

/// What two opposite keys add up to along their axis.
pub open spec fn axis(forward: bool, backward: bool) -> int {
    (if forward {
        MOVE_SPEED as int
    } else {
        0
    }) - (if backward {
        MOVE_SPEED as int
    } else {
        0
    })
}

impl MoveKeys {
    /// The step that the keys ask for before its length is limited: each
    /// key adds one step of the player's speed along its axis.
    pub open spec fn raw_step(self) -> Vec2 {
        Vec2 { x: axis(self.right, self.left) as i32, y: axis(self.up, self.down) as i32 }
    }

    /// The step that the player takes in a frame: the step asked for,
    /// shortened to the player's speed where two keys together ask for more.
    pub open spec fn displacement(self) -> Vec2 {
        let raw = self.raw_step();
        if raw.length_sq() > MOVE_SPEED * MOVE_SPEED {
            Vec2 {
                x: resized(raw.x as int, raw.length_sq(), MOVE_SPEED as int) as i32,
                y: resized(raw.y as int, raw.length_sq(), MOVE_SPEED as int) as i32,
            }
        } else {
            raw
        }
    }

    /// The step that the player takes in a frame.
    pub fn step(&self) -> (d: Vec2)
        ensures
            d == self.displacement(),
            d.length_sq() <= MOVE_SPEED * MOVE_SPEED,
    {
        let mut translation: Vec2 = Vec2::new(0, 0);
        if self.up {
            translation.y += MOVE_SPEED as i32;
        }
        if self.down {
            translation.y -= MOVE_SPEED as i32;
        }
        if self.left {
            translation.x -= MOVE_SPEED as i32;
        }
        if self.right {
            translation.x += MOVE_SPEED as i32;
        }
        translation.clamp_max_length(MOVE_SPEED);
        translation
    }
}

/// Walking is never faster than the player's speed, whichever keys are
/// down: along one axis the step has exactly that length, and on a diagonal
/// it falls short of it by less than two thousandths of a unit, with both
/// components of the same size. Opposite keys cancel.
pub proof fn lemma_walk_speed(keys: MoveKeys)
    ensures
        keys.displacement().length_sq() <= MOVE_SPEED * MOVE_SPEED,
        keys.raw_step() != (Vec2 { x: 0, y: 0 }) ==> (MOVE_SPEED - 2) * (MOVE_SPEED - 2)
            < keys.displacement().length_sq(),
        keys.raw_step().x == 0 || keys.raw_step().y == 0 ==> keys.displacement() == keys.raw_step(),
        keys.raw_step().x != 0 && keys.raw_step().y != 0 ==> {
            &&& keys.displacement().x == (if keys.right { 1_272i32 } else { -1_272i32 })
            &&& keys.displacement().y == (if keys.up { 1_272i32 } else { -1_272i32 })
        },
{
    let raw = keys.raw_step();
    let step = keys.displacement();
    if raw.x != 0 && raw.y != 0 {
        assert(raw.length_sq() == 6_480_000) by (nonlinear_arith)
            requires
                raw.x == 1_800 || raw.x == -1_800,
                raw.y == 1_800 || raw.y == -1_800,
                raw.length_sq() == raw.x * raw.x + raw.y * raw.y,
        ;
        assert(1_800int * 1_800 == 3_240_000 && (-1_800int) * (-1_800) == 3_240_000);
        assert(3_240_000int * 3_240_000 == 10_497_600_000_000);
        assert(10_497_600_000_000int / 6_480_000 == 1_620_000);
        assert(is_sqrt(1_620_000, 1_272));
        lemma_sqrt_floor_is(1_620_000, 1_272);
        assert(resized(1_800, 6_480_000, 1_800) == 1_272);
        assert(resized(-1_800, 6_480_000, 1_800) == -1_272);
        assert(step.length_sq() == 3_235_968) by (nonlinear_arith)
            requires
                step.x == 1_272 || step.x == -1_272,
                step.y == 1_272 || step.y == -1_272,
                step.length_sq() == step.x * step.x + step.y * step.y,
        ;
    } else {
        assert(raw.length_sq() == 0 || raw.length_sq() == 3_240_000) by (nonlinear_arith)
            requires
                raw.length_sq() == raw.x * raw.x + raw.y * raw.y,
                raw.x == 0 || raw.y == 0,
                raw.x == 0 || raw.x == 1_800 || raw.x == -1_800,
                raw.y == 0 || raw.y == 1_800 || raw.y == -1_800,
        ;
        assert(raw.length_sq() == 0 ==> raw.x == 0 && raw.y == 0) by (nonlinear_arith)
            requires
                raw.length_sq() == raw.x * raw.x + raw.y * raw.y,
        ;
    }
}

/// Moves the player by the step that the keys ask for.
pub fn move_player(keys: &MoveKeys, trans: &mut Transform)
    ensures
        final(trans).translation == old(trans).translation.plus(keys.displacement()),
        final(trans).rotation == old(trans).rotation,
{
    let translation: Vec2 = keys.step();
    trans.translation = trans.translation.saturating_add(&translation);
}

impl Player {
    /// A player who aims along the positive x axis and carries a shotgun.
    pub fn new() -> (player: Player)
        ensures
            player.angle == 0,
            player.gun is Some,
            player.gun->0 is Shotgun,
            player.gun->0.state().rounds == crate::gun::SHOTGUN_MAGAZINE,
            player.gun->0.state().time_left == crate::gun::SHOTGUN_DRAW_TIME,
            !player.gun->0.state().reloading,
    {
        Player { angle: 0, gun: Some(Weapon::Shotgun(Shotgun::new())) }
    }
}

/// Aims the player at the pointer. `cursor` is the pointer's position
/// counted from the corner of the viewport, if the pointer is over it, and
/// `principal` the principal arctangent of the slope from the player to the
/// pointer as seen from the viewport's centre. Without a pointer the aim
/// stays.
pub fn face_mouse(
    player: &mut Player,
    transform: &Transform,
    cursor: &Option<Vec2>,
    window: &Viewport,
    principal: i32,
)
    ensures
        final(player).gun == old(player).gun,
        cursor is None ==> final(player).angle == old(player).angle,
        cursor matches Some(at) ==> final(player).angle == angle_to(
            transform.translation,
            window.recentred(*at),
            principal as int,
        ),
{
    match cursor {
        Some(cursor_location) => {
            let cursor_location_corrected: Vec2 = window.centered(cursor_location);
            let player_location: Vec2 = transform.translation;
            player.angle = player_location.get_angle_to(&cursor_location_corrected, principal);
        },
        None => {},
    }
}

/// Starts a reload of the weapon in hand when the reload key is down.
pub fn player_input(player: &mut Player, reload_pressed: bool)
    ensures
        final(player).angle == old(player).angle,
        final(player).gun is Some <==> old(player).gun is Some,
        !reload_pressed ==> final(player).gun == old(player).gun,
        reload_pressed ==> (old(player).gun matches Some(before) ==> {
            &&& final(player).gun->0.same_kind(&before)
            &&& final(player).gun->0.state() == GunState::reloaded(before.params())
        }),
{
    if reload_pressed {
        if let Some(gun) = &mut player.gun {
            gun.reload();
        }
    }
}

/// Lets a frame pass for the weapon in hand and returns the bullets of the
/// shot that goes off in it, if one does. A player without a weapon fires
/// nothing.
pub fn shoot_bullet(player: &mut Player, trans: &Transform, mouse: &ButtonState, elapsed: u64) -> (bullets:
    Vec<Shot>)
    ensures
        final(player).angle == old(player).angle,
        final(player).gun is Some <==> old(player).gun is Some,
        old(player).gun is None ==> bullets.len() == 0,
        old(player).gun matches Some(before) ==> {
            &&& final(player).gun->0.same_kind(&before)
            &&& final(player).gun->0.state() == before.state().after(
                before.params(),
                elapsed as nat,
                *mouse,
            )
            &&& shot_of(
                before.params(),
                before.state(),
                elapsed as nat,
                *mouse,
                *trans,
                old(player).angle as int,
                bullets@,
            )
        },
{
    let angle: i32 = player.angle;
    match &mut player.gun {
        Some(gun) => gun.shoot(elapsed, mouse, trans, angle),
        None => Vec::new(),
    }
}

/// An angle in whole degrees, rounded toward zero; half a turn is taken
/// as 3.141593.
pub open spec fn degrees(angle: int) -> int {
    if angle >= 0 {
        (angle * 180) / (HALF_TURN as int)
    } else {
        -(((-angle) * 180) / (HALF_TURN as int))
    }
}

/// The row of the sprite sheet that shows the player facing `angle`,
/// counted from the first row of the player's frames: facing right is row
/// two, up row three, left row one and down row zero. An angle outside the
/// range of an aim, from a quarter turn below the x axis to three quarters
/// above it, is shown as facing right.
pub open spec fn facing_row(angle: int) -> int {
    let d = degrees(angle);
    if -45 <= d <= 45 {
        2
    } else if 46 <= d <= 135 {
        3
    } else if 136 <= d <= 225 {
        1
    } else if 226 <= d <= 270 || -90 <= d <= -46 {
        0
    } else {
        2
    }
}

/// The row of the sprite sheet that shows the player facing `angle`.
pub fn sprite_row(angle: i32) -> (row: u32)
    ensures
        row == facing_row(angle as int),
{
    let wide: i64 = angle as i64;
    let d: i64 = if wide >= 0 {
        (wide * 180) / (HALF_TURN as i64)
    } else {
        -(((-wide) * 180) / (HALF_TURN as i64))
    };
    if -45 <= d && d <= 45 {
        2
    } else if 46 <= d && d <= 135 {
        3
    } else if 136 <= d && d <= 225 {
        1
    } else if (226 <= d && d <= 270) || (-90 <= d && d <= -46) {
        0
    } else {
        2
    }
}

/// The decimal digit for `d`.
pub open spec fn digit(d: int) -> char {
    if d == 0 {
        '0'
    } else if d == 1 {
        '1'
    } else if d == 2 {
        '2'
    } else if d == 3 {
        '3'
    } else if d == 4 {
        '4'
    } else if d == 5 {
        '5'
    } else if d == 6 {
        '6'
    } else if d == 7 {
        '7'
    } else if d == 8 {
        '8'
    } else {
        '9'
    }
}

/// `n` written in decimal, without leading zeros.
pub open spec fn decimal(n: nat) -> Seq<char>
    decreases n,
{
    if n < 10 {
        seq![digit(n as int)]
    } else {
        decimal(n / 10).push(digit((n % 10) as int))
    }
}

/// The status line for a weapon with the given name and state, or for
/// none.
pub open spec fn status_line(gun: Option<(Seq<char>, GunState)>) -> Seq<char> {
    match gun {
        Some((label, state)) => if state.reloading {
            "RELOADING!"@
        } else {
            label + " Rounds: "@ + decimal(state.rounds)
        },
        None => "No gun"@,
    }
}

/// The decimal digit for `d`, as text.
fn digit_str(d: u16) -> (text: &'static str)
    requires
        d < 10,
    ensures
        text@ == seq![digit(d as int)],
{
    proof {
        reveal_strlit("0");
        reveal_strlit("1");
        reveal_strlit("2");
        reveal_strlit("3");
        reveal_strlit("4");
        reveal_strlit("5");
        reveal_strlit("6");
        reveal_strlit("7");
        reveal_strlit("8");
        reveal_strlit("9");
    }
    let text: &'static str = if d == 0 {
        "0"
    } else if d == 1 {
        "1"
    } else if d == 2 {
        "2"
    } else if d == 3 {
        "3"
    } else if d == 4 {
        "4"
    } else if d == 5 {
        "5"
    } else if d == 6 {
        "6"
    } else if d == 7 {
        "7"
    } else if d == 8 {
        "8"
    } else {
        "9"
    };
    assert(text@ =~= seq![digit(d as int)]);
    text
}

/// `n` written in decimal, without leading zeros.
pub fn decimal_string(n: u16) -> (text: String)
    ensures
        text@ == decimal(n as nat),
    decreases n,
{
    if n < 10 {
        String::from_str(digit_str(n))
    } else {
        let mut text: String = decimal_string(n / 10);
        text.append(digit_str(n % 10));
        assert(text@ =~= decimal(n as nat));
        text
    }
}

/// The status line: the weapon's name and the rounds left in it, a notice
/// while it reloads, or a note that there is no weapon.
pub fn update_text(player: &Player) -> (text: String)
    ensures
        text@ == status_line(
            match player.gun {
                Some(gun) => Some((gun.label(), gun.state())),
                None => None,
            },
        ),
{
    match &player.gun {
        Some(gun) => {
            if gun.reloading() {
                String::from_str("RELOADING!")
            } else {
                let mut text: String = String::from_str(gun.name());
                text.append(" Rounds: ");
                let rounds: String = decimal_string(gun.left_in_mag());
                text.append(rounds.as_str());
                text
            }
        },
        None => String::from_str("No gun"),
    }
}

} // verus!
