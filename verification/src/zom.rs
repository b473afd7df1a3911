//! Enemies: their kinds, how they are spawned on the edges of the play area,
//! and how they close in on the player.

use crate::random::{draw_inclusive, draw_ratio};
use crate::transform::{Transform, Viewport};
use crate::vec2::{angle_to, Vec2};
use vstd::prelude::*;

verus! {

/// Distance an ordinary enemy covers per frame.
pub const ZOM_SPEED: u32 = 2_200;

/// Collision radius of an ordinary enemy.
pub const ZOM_SIZE: u32 = 10_000;

/// Collision radius of a strong enemy.
pub const STRONG_ZOM_SIZE: u32 = 15_000;

/// Distance a strong enemy covers per frame.
pub const STRONG_ZOM_SPEED: u32 = 1_600;

/// An enemy appears in one frame out of this many, on average.
pub const SPAWN_ONE_IN: u32 = 100;

/// Of ten enemies, this many are of the ordinary kind, on average.
pub const DEFAULT_IN_TEN: i32 = 7;

/// The two kinds of enemy.
#[derive(Clone, Copy, Debug, PartialEq, Eq, Structural)]
pub enum ZomType {
    Default,
    Strong,
}

impl ZomType {
    /// Distance covered per frame.
    pub open spec fn spec_speed(self) -> int {
        match self {
            ZomType::Default => ZOM_SPEED as int,
            ZomType::Strong => STRONG_ZOM_SPEED as int,
        }
    }

    /// Collision radius.
    pub open spec fn spec_size(self) -> int {
        match self {
            ZomType::Default => ZOM_SIZE as int,
            ZomType::Strong => STRONG_ZOM_SIZE as int,
        }
    }

    /// Distance covered per frame.
    pub fn speed(&self) -> (s: u32)
        ensures
            s == self.spec_speed(),
    {
        match self {
            ZomType::Default => ZOM_SPEED,
            ZomType::Strong => STRONG_ZOM_SPEED,
        }
    }

    /// Collision radius.
    pub fn size(&self) -> (s: u32)
        ensures
            s == self.spec_size(),
    {
        match self {
            ZomType::Default => ZOM_SIZE,
            ZomType::Strong => STRONG_ZOM_SIZE,
        }
    }
}

impl Default for ZomType {
    fn default() -> (kind: Self)
        ensures
            kind == ZomType::Default,
    {
        ZomType::Default
    }
}

/// The role marker of an enemy.
#[derive(Clone, Copy, Debug, PartialEq, Eq, Structural)]
pub struct Zom {
    pub zom_type: ZomType,
}

impl Default for Zom {
    fn default() -> (zom: Self)
        ensures
            zom.zom_type == ZomType::Default,
    {
        Zom { zom_type: ZomType::Default }
    }
}

/// An enemy in the world: its marker and where it stands.
#[derive(Clone, Copy, Debug, PartialEq, Eq, Structural)]
pub struct ZomBody {
    pub zom: Zom,
    pub transform: Transform,
}

/// An edge of the play area.
#[derive(Clone, Copy, Debug, PartialEq, Eq, Structural)]
pub enum Edge {
    Left,
    Top,
    Right,
    Bottom,
}

impl Edge {
    /// The edge that a selector from one to four stands for.
    pub open spec fn of(selector: int) -> Edge {
        if selector == 1 {
            Edge::Left
        } else if selector == 2 {
            Edge::Top
        } else if selector == 3 {
            Edge::Right
        } else {
            Edge::Bottom
        }
    }

    /// The edge that `selector` stands for. There are four edges and no
    /// fifth: any other selector is a defect of the caller.
    pub fn from_selector(selector: i32) -> (edge: Edge)
        requires
            1 <= selector <= 4,
        ensures
            edge == Edge::of(selector as int),
    {
        if selector == 1 {
            Edge::Left
        } else if selector == 2 {
            Edge::Top
        } else if selector == 3 {
            Edge::Right
        } else {
            Edge::Bottom
        }
    }
}

impl Viewport {
    /// Half the length of `edge`: a point of that edge lies at a
    /// coordinate from minus this to just below this along the edge.
    pub open spec fn reach_along(self, edge: Edge) -> int {
        match edge {
            Edge::Left | Edge::Right => self.half_h(),
            Edge::Top | Edge::Bottom => self.half_w(),
        }
    }

    /// The point of `edge` at coordinate `along`.
    pub open spec fn edge_point(self, edge: Edge, along: int) -> Vec2 {
        match edge {
            Edge::Left => Vec2 { x: (-self.half_w()) as i32, y: along as i32 },
            Edge::Top => Vec2 { x: along as i32, y: self.half_h() as i32 },
            Edge::Right => Vec2 { x: self.half_w() as i32, y: along as i32 },
            Edge::Bottom => Vec2 { x: along as i32, y: (-self.half_h()) as i32 },
        }
    }

    /// Whether `p` is a place where an enemy may appear: exactly on one of
    /// the four edges, and within that edge's extent.
    pub open spec fn on_edge(self, p: Vec2) -> bool {
        ||| (p.x == -self.half_w() || p.x == self.half_w()) && -self.half_h() <= p.y < self.half_h()
        ||| (p.y == -self.half_h() || p.y == self.half_h()) && -self.half_w() <= p.x < self.half_w()
    }

    /// Whether every edge has a point for an enemy to appear at.
    pub open spec fn has_edges(self) -> bool {
        self.half_w() >= 1 && self.half_h() >= 1
    }

    /// Half the length of `edge`.
    pub fn edge_reach(&self, edge: Edge) -> (reach: i32)
        ensures
            reach == self.reach_along(edge),
            reach >= 0,
    {
        match edge {
            Edge::Left | Edge::Right => self.half_height(),
            Edge::Top | Edge::Bottom => self.half_width(),
        }
    }

    /// The point of `edge` at coordinate `along`.
    pub fn place_on_edge(&self, edge: Edge, along: i32) -> (p: Vec2)
        ensures
            p == self.edge_point(edge, along as int),
    {
        match edge {
            Edge::Left => Vec2 { x: -self.half_width(), y: along },
            Edge::Top => Vec2 { x: along, y: self.half_height() },
            Edge::Right => Vec2 { x: self.half_width(), y: along },
            Edge::Bottom => Vec2 { x: along, y: -self.half_height() },
        }
    }
}

/// The kind of enemy that a roll of a ten-sided die gives: seven faces for
/// the ordinary kind, three for the strong one. A roll off the die gives none.
pub open spec fn kind_for_roll(roll: int) -> Option<ZomType> {
    if 0 <= roll < DEFAULT_IN_TEN {
        Some(ZomType::Default)
    } else if DEFAULT_IN_TEN <= roll < 10 {
        Some(ZomType::Strong)
    } else {
        None
    }
}

/// The enemy, if any, that a frame's four draws call for: `hit` says
/// whether one appears at all, `selector` picks the edge, `along` the place on
/// it and `roll` the kind.
pub open spec fn spawn_plan(window: Viewport, hit: bool, selector: int, along: int, roll: int)
    -> Option<ZomBody> {
    if !hit {
        None
    } else {
        match kind_for_roll(roll) {
            Some(zom_type) => Some(
                ZomBody {
                    zom: Zom { zom_type },
                    transform: Transform {
                        translation: window.edge_point(Edge::of(selector), along),
                        rotation: 0,
                    },
                },
            ),
            None => None,
        }
    }
}

/// The kind of enemy that `roll` gives.
pub fn zom_for_roll(roll: i32) -> (kind: Option<ZomType>)
    ensures
        kind == kind_for_roll(roll as int),
{
    if 0 <= roll && roll < DEFAULT_IN_TEN {
        Some(ZomType::Default)
    } else if DEFAULT_IN_TEN <= roll && roll < 10 {
        Some(ZomType::Strong)
    } else {
        None
    }
}

/// Decides from a frame's draws whether an enemy appears, and which and
/// where. The draws are arguments, so the decision can be replayed.
pub fn plan_spawn(window: &Viewport, hit: bool, selector: i32, along: i32, roll: i32) -> (spawned:
    Option<ZomBody>)
    requires
        hit ==> 1 <= selector <= 4,
    ensures
        spawned == spawn_plan(*window, hit, selector as int, along as int, roll as int),
{
    if !hit {
        return None;
    }
    let edge: Edge = Edge::from_selector(selector);
    let translation: Vec2 = window.place_on_edge(edge, along);
    match zom_for_roll(roll) {
        Some(zom_type) => Some(
            ZomBody { zom: Zom { zom_type }, transform: Transform { translation, rotation: 0 } },
        ),
        None => None,
    }
}

/// Whether `selector`, `along` and `roll` are draws that a frame can make
/// in `window`: one of the four edges, a place within that edge's extent,
/// and a face of the ten-sided die.
pub open spec fn can_draw(window: Viewport, selector: int, along: int, roll: int) -> bool {
    &&& 1 <= selector <= 4
    &&& -window.reach_along(Edge::of(selector)) <= along < window.reach_along(Edge::of(selector))
    &&& 0 <= roll <= 9
}

/// Rolls the dice of one frame: in one frame out of a hundred, on average, an
/// enemy appears at a random place on a random edge of the play area, of the
/// strong kind three times out of ten.
///
/// Which frames, edges, places and kinds come up is left to chance. Whatever
/// comes up, an enemy that appears is the one that `plan_spawn` makes of
/// some draws within their ranges: it stands exactly on an edge and has not
/// turned yet.
pub fn spawn_zom(window: &Viewport) -> (spawned: Option<ZomBody>)
    requires
        window.has_edges(),
    ensures
        spawned is Some ==> exists|selector: int, along: int, roll: int|
            #[trigger] can_draw(*window, selector, along, roll) && spawned == spawn_plan(
                *window,
                true,
                selector,
                along,
                roll,
            ),
        spawned matches Some(body) ==> {
            &&& window.on_edge(body.transform.translation)
            &&& body.transform.rotation == 0
        },
{
    let mut random = rand::thread_rng();
    if !draw_ratio(&mut random, 1, SPAWN_ONE_IN) {
        return None;
    }
    let selector: i32 = draw_inclusive(&mut random, 1, 4);
    let reach: i32 = window.edge_reach(Edge::from_selector(selector));
    let along: i32 = draw_inclusive(&mut random, -reach, reach - 1);
    let roll: i32 = draw_inclusive(&mut random, 0, 9);
    assert(can_draw(*window, selector as int, along as int, roll as int));
    plan_spawn(window, true, selector, along, roll)
}

/// Wherever the draws fall within their ranges, the plan puts an enemy
/// exactly on an edge of the play area, facing along the x axis.
pub proof fn lemma_spawn_on_edge(window: Viewport, selector: int, along: int, roll: int)
    requires
        can_draw(window, selector, along, roll),
    ensures
        spawn_plan(window, true, selector, along, roll) matches Some(body) && {
            &&& window.on_edge(body.transform.translation)
            &&& body.transform.rotation == 0
            &&& body.zom.zom_type == (if roll < DEFAULT_IN_TEN {
                ZomType::Default
            } else {
                ZomType::Strong
            })
        },
{
}

impl ZomBody {
    /// This enemy after one frame of homing in on `player`: one step of its
    /// kind's speed toward the player's position, or none without a player.
    /// The facing is left as it was.
    pub open spec fn homing(self, player: Option<Transform>) -> ZomBody {
        match player {
            Some(target) => ZomBody {
                zom: self.zom,
                transform: Transform {
                    translation: self.transform.translation.toward(
                        target.translation,
                        self.zom.zom_type.spec_speed(),
                    ),
                    rotation: self.transform.rotation,
                },
            },
            None => self,
        }
    }

    /// Moves this enemy one step toward the player. Without a player it
    /// holds its position.
    pub fn advance(&mut self, player: &Option<Transform>)
        ensures
            *final(self) == old(self).homing(*player),
    {
        match player {
            Some(target) => {
                let speed: u32 = self.zom.zom_type.speed();
                self.transform.translation = self.transform.translation.step_toward(
                    &target.translation,
                    speed,
                );
            },
            None => {},
        }
    }
}

impl ZomBody {
    /// Turns this enemy toward the player, given the principal arctangent
    /// of the slope from the enemy to the player. Without a player the
    /// enemy keeps its facing.
    pub fn turn(&mut self, player: &Option<Transform>, principal: i32)
        ensures
            final(self).zom == old(self).zom,
            final(self).transform.translation == old(self).transform.translation,
            player is None ==> final(self).transform.rotation == old(self).transform.rotation,
            player matches Some(target) ==> final(self).transform.rotation == angle_to(
                old(self).transform.translation,
                target.translation,
                principal as int,
            ),
    {
        match player {
            Some(target) => {
                self.transform.face(&target.translation, principal);
            },
            None => {},
        }
    }
}

/// Moves every enemy one step toward the player. Without a player all of
/// them hold their positions.
pub fn move_zom(player: &Option<Transform>, zoms: &mut Vec<ZomBody>)
    ensures
        final(zoms).len() == old(zoms).len(),
        forall|i: int| 0 <= i < old(zoms).len() ==> final(zoms)[i] == old(zoms)[i].homing(*player),
{
    let count: usize = zoms.len();
    let mut index: usize = 0;
    while index < count
        invariant
            index <= count,
            zoms.len() == count,
            count == old(zoms).len(),
            forall|i: int| 0 <= i < index ==> zoms[i] == old(zoms)[i].homing(*player),
            forall|i: int| index <= i < count ==> zoms[i] == old(zoms)[i],
        decreases count - index,
    {
        let mut body: ZomBody = zoms[index];
        body.advance(player);
        zoms.set(index, body);
        index += 1;
    }
}

} // verus!
