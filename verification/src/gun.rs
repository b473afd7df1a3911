//! Weapons: a magazine, a cooldown and a reload, behind one interface.
//!
//! A weapon waits out its cooldown, fires when the trigger is pulled and a
//! round is left, and reloads by itself when the magazine runs empty. Times
//! are counted in microseconds, angles in microradians.

use crate::random::draw_inclusive;
use crate::transform::Transform;
use crate::units::{clamp_i32, saturate};
use vstd::prelude::*;

verus! {

/// Distance a bullet covers per frame.
pub const BULLET_SPEED: u32 = 6_000;

/// Rounds in a pistol's magazine.
pub const PISTOL_MAGAZINE: u16 = 7;

/// Time between two shots of a pistol.
pub const PISTOL_SHOT_DELAY: u64 = 10_000;

/// Time a pistol takes to reload.
pub const PISTOL_RELOAD_TIME: u64 = 800_000;

/// Rounds in a shotgun's magazine.
pub const SHOTGUN_MAGAZINE: u16 = 2;

/// Time between two shots of a shotgun.
pub const SHOTGUN_SHOT_DELAY: u64 = 500_000;

/// Time a shotgun takes to reload.
pub const SHOTGUN_RELOAD_TIME: u64 = 1_000_000;

/// Time before a fresh shotgun can fire its first shot.
pub const SHOTGUN_DRAW_TIME: u64 = 200_000;

/// Pellets in one shot of a shotgun.
pub const SHOTGUN_PELLETS: usize = 5;

/// How far a pellet may stray from the aim, to either side.
pub const SHOTGUN_SPREAD: i32 = 100_000;

/// One button of the input snapshot of a frame.
#[derive(Clone, Copy, Debug, PartialEq, Eq, Structural)]
pub struct ButtonState {
    /// The button is down.
    pub pressed: bool,
    /// The button went down in this frame.
    pub just_pressed: bool,
}

/// A bullet to create: it starts at `transform` and flies at `speed` in the
/// direction of `transform.rotation`.
#[derive(Clone, Copy, Debug, PartialEq, Eq, Structural)]
pub struct Shot {
    pub transform: Transform,
    pub speed: u32,
}

/// What a kind of weapon is built to: the columns of its data sheet.
pub struct GunParams {
    /// Shots in a full magazine.
    pub magazine: nat,
    /// Cooldown after a shot that leaves rounds in the magazine.
    pub shot_delay: nat,
    /// Cooldown of a reload.
    pub reload_time: nat,
    /// Bullets that leave the barrel in one shot.
    pub pellets: nat,
    /// Largest angle between a bullet and the aim.
    pub spread: nat,
}

/// The firing state of a weapon.
pub struct GunState {
    /// Cooldown that remains before the weapon is ready.
    pub time_left: nat,
    /// Shots left in the magazine.
    pub rounds: nat,
    /// Whether the cooldown under way is a reload.
    pub reloading: bool,
}

impl GunParams {
    /// A weapon holds at least one round and takes time to reload.
    pub open spec fn wf(self) -> bool {
        self.magazine >= 1 && self.reload_time >= 1
    }
}

impl GunState {
    /// The states a weapon of kind `p` can be in: the magazine is never
    /// empty and never overfull, and the weapon is reloading only while a
    /// reload's cooldown runs, with the magazine already full.
    pub open spec fn wf(self, p: GunParams) -> bool {
        &&& 1 <= self.rounds <= p.magazine
        &&& self.reloading ==> self.rounds == p.magazine && 0 < self.time_left <= p.reload_time
    }

    /// Whether the cooldown is over once `elapsed` has passed.
    pub open spec fn ready(self, elapsed: nat) -> bool {
        self.time_left <= elapsed
    }

    /// Whether a shot goes off in a frame of length `elapsed` with the fire
    /// button in state `button`: the cooldown is over and the button went
    /// down in this very frame. Holding it down does not fire.
    pub open spec fn fires(self, elapsed: nat, button: ButtonState) -> bool {
        self.ready(elapsed) && button.just_pressed
    }

    /// The state at the start of a reload.
    pub open spec fn reloaded(p: GunParams) -> GunState {
        GunState { time_left: p.reload_time, rounds: p.magazine, reloading: true }
    }

    /// The state after a frame of length `elapsed` with the fire button in
    /// state `button`.
    pub open spec fn after(self, p: GunParams, elapsed: nat, button: ButtonState) -> GunState {
        if !self.ready(elapsed) {
            GunState {
                time_left: (self.time_left - elapsed) as nat,
                rounds: self.rounds,
                reloading: self.reloading,
            }
        } else if !button.just_pressed {
            GunState { time_left: 0, rounds: self.rounds, reloading: false }
        } else if self.rounds <= 1 {
            GunState::reloaded(p)
        } else {
            GunState { time_left: p.shot_delay, rounds: (self.rounds - 1) as nat, reloading: false }
        }
    }
}

impl Shot {
    /// The bullet that leaves `origin` at angle `heading`.
    pub open spec fn along(origin: Transform, heading: int) -> Shot {
        Shot {
            transform: Transform { translation: origin.translation, rotation: heading as i32 },
            speed: BULLET_SPEED,
        }
    }

    /// The bullet that leaves `origin` at angle `heading`: it starts where
    /// the firer stands, turned to the angle of fire.
    pub fn leaving(origin: &Transform, heading: i32) -> (shot: Shot)
        ensures
            shot == Shot::along(*origin, heading as int),
    {
        Shot {
            transform: Transform { translation: origin.translation, rotation: heading },
            speed: BULLET_SPEED,
        }
    }
}

/// The bullets of one shot whose pellets stray from `angle` by `offsets`.
/// An angle that would leave the range of an `i32` stops at the bound.
pub fn pellets(origin: &Transform, angle: i32, offsets: &Vec<i32>) -> (bullets: Vec<Shot>)
    ensures
        bullets.len() == offsets.len(),
        forall|i: int|
            0 <= i < offsets.len() ==> bullets[i] == Shot::along(
                *origin,
                clamp_i32(angle + offsets[i]),
            ),
{
    let mut bullets: Vec<Shot> = Vec::new();
    let mut index: usize = 0;
    while index < offsets.len()
        invariant
            index <= offsets.len(),
            bullets.len() == index,
            forall|i: int|
                0 <= i < index ==> bullets[i] == Shot::along(
                    *origin,
                    clamp_i32(angle + offsets[i]),
                ),
        decreases offsets.len() - index,
    {
        let heading: i32 = saturate(angle as i64 + offsets[index] as i64);
        bullets.push(Shot::leaving(origin, heading));
        index += 1;
    }
    bullets
}

/// Draws how far each of `count` pellets strays from the aim: each by at
/// most `spread` to either side, independently of the others.
pub fn draw_spread(count: usize, spread: i32) -> (offsets: Vec<i32>)
    requires
        0 <= spread,
    ensures
        offsets.len() == count,
        forall|i: int| 0 <= i < count ==> -spread <= #[trigger] offsets[i] <= spread,
{
    let mut random = rand::thread_rng();
    let mut offsets: Vec<i32> = Vec::new();
    let mut index: usize = 0;
    while index < count
        invariant
            0 <= spread,
            index <= count,
            offsets.len() == index,
            forall|i: int| 0 <= i < index ==> -spread <= #[trigger] offsets[i] <= spread,
        decreases count - index,
    {
        let offset: i32 = draw_inclusive(&mut random, -spread, spread);
        offsets.push(offset);
        index += 1;
    }
    offsets
}

/// One frame as a weapon sees it: how long it lasted, and what the fire
/// button did in it.
pub struct Frame {
    pub elapsed: nat,
    pub button: ButtonState,
}

/// The time that `frames` last together.
pub open spec fn total_elapsed(frames: Seq<Frame>) -> nat
    decreases frames.len(),
{
    if frames.len() == 0 {
        0
    } else {
        frames[0].elapsed + total_elapsed(frames.skip(1))
    }
}

/// The state of a weapon of kind `p` that starts in `s` and lives through
/// `frames`, one after the other.
pub open spec fn run(p: GunParams, s: GunState, frames: Seq<Frame>) -> GunState
    decreases frames.len(),
{
    if frames.len() == 0 {
        s
    } else {
        run(p, s.after(p, frames[0].elapsed, frames[0].button), frames.skip(1))
    }
}

/// The number of shots that go off while a weapon of kind `p` that starts
/// in `s` lives through `frames`.
pub open spec fn shots_fired(p: GunParams, s: GunState, frames: Seq<Frame>) -> nat
    decreases frames.len(),
{
    if frames.len() == 0 {
        0
    } else {
        let first: nat = if s.fires(frames[0].elapsed, frames[0].button) {
            1
        } else {
            0
        };
        first + shots_fired(p, s.after(p, frames[0].elapsed, frames[0].button), frames.skip(1))
    }
}

/// A frame takes a weapon from a state it can be in to another such state.
pub proof fn lemma_frame_keeps_wf(p: GunParams, s: GunState, elapsed: nat, button: ButtonState)
    requires
        p.wf(),
        s.wf(p),
    ensures
        s.after(p, elapsed, button).wf(p),
{
}

/// A shot takes exactly one round out of the magazine. The last round
/// starts a reload, which fills the magazine at once and keeps the weapon
/// busy for the whole reload time; any other shot leaves the weapon busy for
/// the delay between shots.
pub proof fn lemma_shot_spends_one_round(
    p: GunParams,
    s: GunState,
    elapsed: nat,
    button: ButtonState,
)
    requires
        p.wf(),
        s.wf(p),
        s.fires(elapsed, button),
    ensures
        s.rounds > 1 ==> s.after(p, elapsed, button) == (GunState {
            time_left: p.shot_delay,
            rounds: (s.rounds - 1) as nat,
            reloading: false,
        }),
        s.rounds == 1 ==> s.after(p, elapsed, button) == GunState::reloaded(p),
{
}

/// A frame in which no shot goes off leaves the magazine as it was.
pub proof fn lemma_no_shot_keeps_rounds(
    p: GunParams,
    s: GunState,
    elapsed: nat,
    button: ButtonState,
)
    requires
        !s.fires(elapsed, button),
    ensures
        s.after(p, elapsed, button).rounds == s.rounds,
{
}

/// A magazine fired empty: when the fire button goes down in frame after
/// frame, each at least the delay between shots after the one before, every
/// round left in the magazine is fired, one per frame, and the last of them
/// starts the reload.
pub proof fn lemma_magazine_empties(p: GunParams, s: GunState, frames: Seq<Frame>)
    requires
        p.wf(),
        s.wf(p),
        frames.len() == s.rounds,
        s.time_left <= frames[0].elapsed,
        forall|i: int|
            0 <= i < frames.len() ==> (#[trigger] frames[i]).button.just_pressed && frames[i].elapsed
                >= p.shot_delay,
    ensures
        shots_fired(p, s, frames) == s.rounds,
        run(p, s, frames) == GunState::reloaded(p),
    decreases frames.len(),
{
    let next = s.after(p, frames[0].elapsed, frames[0].button);
    let rest = frames.skip(1);
    assert(s.fires(frames[0].elapsed, frames[0].button));
    if s.rounds == 1 {
        assert(rest.len() == 0);
        assert(next == GunState::reloaded(p));
        assert(run(p, next, rest) == next);
        assert(shots_fired(p, next, rest) == 0);
    } else {
        assert forall|i: int| 0 <= i < rest.len() implies (#[trigger] rest[i]).button.just_pressed
            && rest[i].elapsed >= p.shot_delay by {
            assert(rest[i] == frames[i + 1]);
        }
        assert(rest[0] == frames[1]);
        lemma_magazine_empties(p, next, rest);
    }
}

/// A weapon is reloading only within the window of a reload: from a reload
/// on, for as long as the frames together stay short of the cooldown, it
/// stays reloading with a full magazine, and no shot goes off, whatever the
/// fire button does.
pub proof fn lemma_reload_blocks_fire(p: GunParams, s: GunState, frames: Seq<Frame>)
    requires
        p.wf(),
        s.wf(p),
        s.reloading,
        total_elapsed(frames) < s.time_left,
    ensures
        shots_fired(p, s, frames) == 0,
        run(p, s, frames) == (GunState {
            time_left: (s.time_left - total_elapsed(frames)) as nat,
            rounds: p.magazine,
            reloading: true,
        }),
    decreases frames.len(),
{
    if frames.len() > 0 {
        let next = s.after(p, frames[0].elapsed, frames[0].button);
        lemma_reload_blocks_fire(p, next, frames.skip(1));
    }
}

/// The window of a reload closes when its cooldown has run out: the first
/// frame that reaches the end of the cooldown clears the flag, unless that
/// very frame fires the last round and so starts the next reload.
pub proof fn lemma_reload_ends(p: GunParams, s: GunState, elapsed: nat, button: ButtonState)
    requires
        p.wf(),
        s.wf(p),
        s.time_left <= elapsed,
    ensures
        s.after(p, elapsed, button).reloading <==> button.just_pressed && s.rounds == 1,
{
}

/// Whether `bullets` are what a weapon of kind `p` in state `before` lets
/// off in a frame of length `elapsed` with the fire button in state `mouse`,
/// for a firer at `origin` who aims at `angle`: nothing unless a shot goes
/// off, else one bullet per pellet, each starting at the firer's position
/// with the speed of a bullet, and turned no further from the aim than the
/// kind's spread.
pub open spec fn shot_of(
    p: GunParams,
    before: GunState,
    elapsed: nat,
    mouse: ButtonState,
    origin: Transform,
    angle: int,
    bullets: Seq<Shot>,
) -> bool {
    &&& before.fires(elapsed, mouse) ==> bullets.len() == p.pellets
    &&& !before.fires(elapsed, mouse) ==> bullets.len() == 0
    &&& forall|i: int|
        0 <= i < bullets.len() ==> {
            &&& (#[trigger] bullets[i]).transform.translation == origin.translation
            &&& bullets[i].speed == BULLET_SPEED
            &&& angle - p.spread <= bullets[i].transform.rotation <= angle + p.spread
        }
}

/// A weapon that the player can carry.
pub trait Gun: Send + Sync {
    /// The firing state.
    spec fn state(&self) -> GunState;

    /// The kind's data sheet.
    spec fn params(&self) -> GunParams;

    /// The name shown to the player.
    spec fn label(&self) -> Seq<char>;

    /// A weapon with a full magazine.
    fn new() -> (gun: Box<Self>) where Self: Sized
        ensures
            gun.params().wf(),
            gun.state().wf(gun.params()),
            gun.state().rounds == gun.params().magazine,
            !gun.state().reloading,
    ;

    /// Lets a frame of `elapsed` microseconds pass with the fire button in
    /// state `mouse`, and returns the bullets of the shot that goes off in
    /// it, if one does, for a firer at `player_transform` who aims at
    /// `angle`.
    fn shoot(
        &mut self,
        elapsed: u64,
        mouse: &ButtonState,
        player_transform: &Transform,
        angle: i32,
    ) -> (bullets: Vec<Shot>)
        ensures
            final(self).params() == old(self).params(),
            final(self).label() == old(self).label(),
            final(self).state() == old(self).state().after(
                old(self).params(),
                elapsed as nat,
                *mouse,
            ),
            final(self).state().wf(old(self).params()),
            shot_of(
                old(self).params(),
                old(self).state(),
                elapsed as nat,
                *mouse,
                *player_transform,
                angle as int,
                bullets@,
            ),
    ;

    /// Shots left in the magazine.
    fn left_in_mag(&self) -> (rounds: u16)
        ensures
            rounds == self.state().rounds,
            1 <= rounds <= self.params().magazine,
    ;

    /// Starts a reload, whatever the weapon was doing: the magazine is
    /// full again, and the weapon is busy for the time a reload takes.
    fn reload(&mut self)
        ensures
            final(self).params() == old(self).params(),
            final(self).label() == old(self).label(),
            final(self).state() == GunState::reloaded(old(self).params()),
            final(self).state().wf(old(self).params()),
    ;

    /// Whether a reload is under way.
    fn reloading(&self) -> (busy: bool)
        ensures
            busy == self.state().reloading,
            busy ==> 0 < self.state().time_left <= self.params().reload_time,
    ;

    /// The name shown to the player.
    fn name(&self) -> (name: &'static str)
        ensures
            name@ == self.label(),
    ;
}

/// A weapon whose every shot scatters a handful of pellets around the aim.
pub struct Shotgun {
    time_left: u64,
    mag_size: u16,
    reloading: bool,
}

/// A weapon that fires one bullet per shot, straight along the aim.
pub struct Pistol {
    time_left: u64,
    mag_size: u16,
    reloading: bool,
}

/// The data sheet of the shotgun.
pub open spec fn shotgun_params() -> GunParams {
    GunParams {
        magazine: SHOTGUN_MAGAZINE as nat,
        shot_delay: SHOTGUN_SHOT_DELAY as nat,
        reload_time: SHOTGUN_RELOAD_TIME as nat,
        pellets: SHOTGUN_PELLETS as nat,
        spread: SHOTGUN_SPREAD as nat,
    }
}

/// The data sheet of the pistol.
pub open spec fn pistol_params() -> GunParams {
    GunParams {
        magazine: PISTOL_MAGAZINE as nat,
        shot_delay: PISTOL_SHOT_DELAY as nat,
        reload_time: PISTOL_RELOAD_TIME as nat,
        pellets: 1,
        spread: 0,
    }
}

impl Shotgun {
    #[verifier::type_invariant]
    spec fn inv(self) -> bool {
        self.state().wf(shotgun_params())
    }
}

impl Pistol {
    #[verifier::type_invariant]
    spec fn inv(self) -> bool {
        self.state().wf(pistol_params())
    }
}

impl Gun for Shotgun {
    closed spec fn state(&self) -> GunState {
        GunState {
            time_left: self.time_left as nat,
            rounds: self.mag_size as nat,
            reloading: self.reloading,
        }
    }

    open spec fn params(&self) -> GunParams {
        shotgun_params()
    }

    open spec fn label(&self) -> Seq<char> {
        "Shotgun"@
    }

    fn new() -> (gun: Box<Self>)
        ensures
            gun.state().time_left == SHOTGUN_DRAW_TIME,
    {
        Box::new(Shotgun { time_left: SHOTGUN_DRAW_TIME, mag_size: SHOTGUN_MAGAZINE, reloading: false })
    }

    fn shoot(
        &mut self,
        elapsed: u64,
        mouse: &ButtonState,
        player_transform: &Transform,
        angle: i32,
    ) -> (bullets: Vec<Shot>) {
        proof {
            use_type_invariant(&*self);
        }
        if elapsed < self.time_left {
            *self = Shotgun {
                time_left: self.time_left - elapsed,
                mag_size: self.mag_size,
                reloading: self.reloading,
            };
            return Vec::new();
        }
        if !mouse.just_pressed {
            *self = Shotgun { time_left: 0, mag_size: self.mag_size, reloading: false };
            return Vec::new();
        }
        let offsets: Vec<i32> = draw_spread(SHOTGUN_PELLETS, SHOTGUN_SPREAD);
        let bullets: Vec<Shot> = pellets(player_transform, angle, &offsets);

        // the last round starts the reload
        if self.mag_size <= 1 {
            self.reload();
        } else {
            *self = Shotgun {
                time_left: SHOTGUN_SHOT_DELAY,
                mag_size: self.mag_size - 1,
                reloading: false,
            };
        }
        bullets
    }

    fn reload(&mut self) {
        *self = Shotgun {
            time_left: SHOTGUN_RELOAD_TIME,
            mag_size: SHOTGUN_MAGAZINE,
            reloading: true,
        };
    }

    fn reloading(&self) -> (busy: bool) {
        proof {
            use_type_invariant(self);
        }
        self.reloading
    }

    fn left_in_mag(&self) -> (rounds: u16) {
        proof {
            use_type_invariant(self);
        }
        self.mag_size
    }

    fn name(&self) -> (name: &'static str) {
        "Shotgun"
    }
}

impl Gun for Pistol {
    closed spec fn state(&self) -> GunState {
        GunState {
            time_left: self.time_left as nat,
            rounds: self.mag_size as nat,
            reloading: self.reloading,
        }
    }

    open spec fn params(&self) -> GunParams {
        pistol_params()
    }

    open spec fn label(&self) -> Seq<char> {
        "Pistol"@
    }

    fn new() -> (gun: Box<Self>)
        ensures
            gun.state().time_left == 0,
    {
        Box::new(Pistol { time_left: 0, mag_size: PISTOL_MAGAZINE, reloading: false })
    }

    fn shoot(
        &mut self,
        elapsed: u64,
        mouse: &ButtonState,
        player_transform: &Transform,
        angle: i32,
    ) -> (bullets: Vec<Shot>) {
        proof {
            use_type_invariant(&*self);
        }
        let mut bullets: Vec<Shot> = Vec::new();
        if elapsed < self.time_left {
            *self = Pistol {
                time_left: self.time_left - elapsed,
                mag_size: self.mag_size,
                reloading: self.reloading,
            };
            return bullets;
        }
        if !mouse.just_pressed {
            *self = Pistol { time_left: 0, mag_size: self.mag_size, reloading: false };
            return bullets;
        }
        bullets.push(Shot::leaving(player_transform, angle));

        // the last round starts the reload
        if self.mag_size <= 1 {
            self.reload();
        } else {
            *self = Pistol {
                time_left: PISTOL_SHOT_DELAY,
                mag_size: self.mag_size - 1,
                reloading: false,
            };
        }
        bullets
    }

    fn left_in_mag(&self) -> (rounds: u16) {
        proof {
            use_type_invariant(self);
        }
        self.mag_size
    }

    fn reload(&mut self) {
        *self = Pistol { time_left: PISTOL_RELOAD_TIME, mag_size: PISTOL_MAGAZINE, reloading: true };
    }

    fn reloading(&self) -> (busy: bool) {
        proof {
            use_type_invariant(self);
        }
        self.reloading
    }

    fn name(&self) -> (name: &'static str) {
        "Pistol"
    }
}

/// The weapon in a player's hand: one of the kinds there are.
pub enum Weapon {
    Shotgun(Box<Shotgun>),
    Pistol(Box<Pistol>),
}

impl Weapon {
    /// The firing state.
    pub open spec fn state(&self) -> GunState {
        match self {
            Weapon::Shotgun(gun) => gun.state(),
            Weapon::Pistol(gun) => gun.state(),
        }
    }

    /// The kind's data sheet.
    pub open spec fn params(&self) -> GunParams {
        match self {
            Weapon::Shotgun(gun) => gun.params(),
            Weapon::Pistol(gun) => gun.params(),
        }
    }

    /// The name shown to the player.
    pub open spec fn label(&self) -> Seq<char> {
        match self {
            Weapon::Shotgun(gun) => gun.label(),
            Weapon::Pistol(gun) => gun.label(),
        }
    }

    /// Whether this is the same kind of weapon as `other`.
    pub open spec fn same_kind(&self, other: &Weapon) -> bool {
        (self is Shotgun) == (other is Shotgun)
    }

    /// Lets a frame pass, as `Gun::shoot` does for the weapon inside.
    pub fn shoot(
        &mut self,
        elapsed: u64,
        mouse: &ButtonState,
        player_transform: &Transform,
        angle: i32,
    ) -> (bullets: Vec<Shot>)
        ensures
            final(self).same_kind(old(self)),
            final(self).state() == old(self).state().after(
                old(self).params(),
                elapsed as nat,
                *mouse,
            ),
            final(self).state().wf(old(self).params()),
            shot_of(
                old(self).params(),
                old(self).state(),
                elapsed as nat,
                *mouse,
                *player_transform,
                angle as int,
                bullets@,
            ),
    {
        match self {
            Weapon::Shotgun(gun) => gun.shoot(elapsed, mouse, player_transform, angle),
            Weapon::Pistol(gun) => gun.shoot(elapsed, mouse, player_transform, angle),
        }
    }

    /// Shots left in the magazine.
    pub fn left_in_mag(&self) -> (rounds: u16)
        ensures
            rounds == self.state().rounds,
            1 <= rounds <= self.params().magazine,
    {
        match self {
            Weapon::Shotgun(gun) => gun.left_in_mag(),
            Weapon::Pistol(gun) => gun.left_in_mag(),
        }
    }

    /// Starts a reload, whatever the weapon was doing.
    pub fn reload(&mut self)
        ensures
            final(self).same_kind(old(self)),
            final(self).state() == GunState::reloaded(old(self).params()),
            final(self).state().wf(old(self).params()),
    {
        match self {
            Weapon::Shotgun(gun) => gun.reload(),
            Weapon::Pistol(gun) => gun.reload(),
        }
    }

    /// Whether a reload is under way.
    pub fn reloading(&self) -> (busy: bool)
        ensures
            busy == self.state().reloading,
            busy ==> 0 < self.state().time_left <= self.params().reload_time,
    {
        match self {
            Weapon::Shotgun(gun) => gun.reloading(),
            Weapon::Pistol(gun) => gun.reloading(),
        }
    }

    /// The name shown to the player.
    pub fn name(&self) -> (name: &'static str)
        ensures
            name@ == self.label(),
    {
        match self {
            Weapon::Shotgun(gun) => gun.name(),
            Weapon::Pistol(gun) => gun.name(),
        }
    }
}

} // verus!
