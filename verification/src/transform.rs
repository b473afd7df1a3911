//! Where an entity is and which way it faces, and the play area it lives in.

use crate::units::{clamp_i32, saturate};
use crate::vec2::{angle_to, Vec2};
use vstd::prelude::*;

verus! {

/// Position and facing of an entity: thousandths of a world unit, and
/// microradians counter-clockwise from the positive x axis.
#[derive(Clone, Copy, Debug, PartialEq, Eq, Structural)]
pub struct Transform {
    pub translation: Vec2,
    pub rotation: i32,
}

impl Transform {
    /// An entity at `(x, y)` that faces along the positive x axis.
    pub fn from_xy(x: i32, y: i32) -> (t: Transform)
        ensures
            t.translation.x == x,
            t.translation.y == y,
            t.rotation == 0,
    {
        Transform { translation: Vec2 { x, y }, rotation: 0 }
    }

    /// Turns the entity toward `target`, given the principal arctangent of
    /// the slope from its position to `target`; its position is kept.
    pub fn face(&mut self, target: &Vec2, principal: i32)
        ensures
            final(self).translation == old(self).translation,
            final(self).rotation == angle_to(old(self).translation, *target, principal as int),
    {
        self.rotation = self.translation.get_angle_to(target, principal);
    }
}

/// The visible play area: a rectangle of the given size, in thousandths of
/// a world unit, centred on the origin.
#[derive(Clone, Copy, Debug, PartialEq, Eq, Structural)]
pub struct Viewport {
    pub width: u32,
    pub height: u32,
}

impl Viewport {
    pub fn new(width: u32, height: u32) -> (v: Viewport)
        ensures
            v.width == width,
            v.height == height,
    {
        Viewport { width, height }
    }

    /// Distance from the centre to the left and right edges.
    pub open spec fn half_w(self) -> int {
        self.width as int / 2
    }

    /// Distance from the centre to the top and bottom edges.
    pub open spec fn half_h(self) -> int {
        self.height as int / 2
    }

    /// Whether `p` lies beyond an edge: one of its coordinates is larger in
    /// size than half the extent of the viewport in that direction. A point
    /// on an edge is still inside. An odd extent has its half rounded down,
    /// which no whole coordinate can tell from the exact half.
    pub open spec fn outside(self, p: Vec2) -> bool {
        vstd::math::abs(p.x as int) > self.half_w() || vstd::math::abs(p.y as int) > self.half_h()
    }

    /// A pointer position counted from a corner of the viewport, as seen
    /// from its centre.
    pub open spec fn recentred(self, cursor: Vec2) -> Vec2 {
        Vec2 {
            x: clamp_i32(cursor.x - self.half_w()) as i32,
            y: clamp_i32(cursor.y - self.half_h()) as i32,
        }
    }

    /// Distance from the centre to the left and right edges.
    pub fn half_width(&self) -> (half: i32)
        ensures
            half == self.half_w(),
            half >= 0,
    {
        (self.width / 2) as i32
    }

    /// Distance from the centre to the top and bottom edges.
    pub fn half_height(&self) -> (half: i32)
        ensures
            half == self.half_h(),
            half >= 0,
    {
        (self.height / 2) as i32
    }

    /// Whether `p` lies beyond an edge. A point on an edge is still inside.
    pub fn is_outside(&self, p: &Vec2) -> (out: bool)
        ensures
            out == self.outside(*p),
    {
        let half_w: i64 = self.half_width() as i64;
        let half_h: i64 = self.half_height() as i64;
        let x: i64 = p.x as i64;
        let y: i64 = p.y as i64;
        x > half_w || -x > half_w || y > half_h || -y > half_h
    }

    /// Converts a pointer position counted from a corner of the viewport
    /// into one counted from its centre.
    pub fn centered(&self, cursor: &Vec2) -> (p: Vec2)
        ensures
            p == self.recentred(*cursor),
    {
        Vec2 {
            x: saturate(cursor.x as i64 - self.half_width() as i64),
            y: saturate(cursor.y as i64 - self.half_height() as i64),
        }
    }
}

} // verus!
