//! Bullets: how they fly, when they leave the play area, and which of them
//! hit an enemy.

use crate::gun::Shot;
use crate::transform::{Transform, Viewport};
use crate::vec2::Vec2;
use crate::zom::ZomBody;
use vstd::prelude::*;

verus! {

/// Displacement per frame.
#[derive(Clone, Copy, Debug, PartialEq, Eq, Structural)]
pub struct Vel(pub Vec2);

/// A bullet in flight. Its velocity is set when it is fired and never
/// changes.
#[derive(Clone, Copy, Debug, PartialEq, Eq, Structural)]
pub struct Bullet {
    pub transform: Transform,
    pub velocity: Vel,
}

/// The casualties of a frame, entity by entity: `zoms[i]` says whether the
/// enemy at index `i` is destroyed, `bullets[j]` whether the bullet at
/// index `j` is.
pub struct Casualties {
    pub zoms: Vec<bool>,
    pub bullets: Vec<bool>,
}

impl Bullet {
    /// The bullet that `shot` calls for. `direction` holds the cosine and
    /// the sine of the shot's heading, both in one unit of the caller's
    /// choice; the bullet's velocity is the shot's speed along that
    /// direction, so a bullet is never faster than the shot's speed.
    pub fn fired(shot: &Shot, direction: &Vec2) -> (bullet: Bullet)
        ensures
            bullet.transform == shot.transform,
            bullet.velocity.0 == direction.rescaled(shot.speed as int),
            shot.speed <= i32::MAX ==> bullet.velocity.0.length_sq() <= shot.speed * shot.speed,
    {
        Bullet { transform: shot.transform, velocity: Vel(direction.with_length(shot.speed)) }
    }

    /// This bullet one frame later: moved by its velocity, otherwise as
    /// it was.
    pub open spec fn flown(self) -> Bullet {
        Bullet {
            transform: Transform {
                translation: self.transform.translation.plus(self.velocity.0),
                rotation: self.transform.rotation,
            },
            velocity: self.velocity,
        }
    }

    /// Moves this bullet by its velocity.
    pub fn fly(&mut self)
        ensures
            *final(self) == old(self).flown(),
    {
        self.transform.translation = self.transform.translation.saturating_add(&self.velocity.0);
    }
}

/// Whether `bullet` is close enough to `zom` to destroy it: their centres
/// are strictly less than the enemy's collision radius apart.
pub open spec fn hits(zom: ZomBody, bullet: Bullet) -> bool {
    zom.transform.translation.distance_sq(bullet.transform.translation)
        < zom.zom.zom_type.spec_size() * zom.zom.zom_type.spec_size()
}

/// Whether one of the first `count` of `bullets` hits `zom`.
pub open spec fn hit_by_any(zom: ZomBody, bullets: Seq<Bullet>, count: int) -> bool {
    exists|j: int| 0 <= j < count && #[trigger] hits(zom, bullets[j])
}

/// Whether `bullet` hits one of the first `count` of `zoms`.
pub open spec fn hits_any(bullet: Bullet, zoms: Seq<ZomBody>, count: int) -> bool {
    exists|i: int| 0 <= i < count && #[trigger] hits(zoms[i], bullet)
}

/// Whether `bullet` is close enough to `zom` to destroy it.
pub fn collides(zom: &ZomBody, bullet: &Bullet) -> (hit: bool)
    ensures
        hit == hits(*zom, *bullet),
{
    let distance_sq: u128 = zom.transform.translation.squared_distance(
        &bullet.transform.translation,
    );
    let size: u128 = zom.zom.zom_type.size() as u128;
    assert(size * size <= 0xFFFF_FFFF * 0xFFFF_FFFF) by (nonlinear_arith)
        requires
            0 <= size <= 0xFFFF_FFFF,
    ;
    distance_sq < size * size
}

/// Moves everything that has a velocity by that velocity.
pub fn move_elements(bullets: &mut Vec<Bullet>)
    ensures
        final(bullets).len() == old(bullets).len(),
        forall|i: int| 0 <= i < old(bullets).len() ==> final(bullets)[i] == old(bullets)[i].flown(),
{
    let count: usize = bullets.len();
    let mut index: usize = 0;
    while index < count
        invariant
            index <= count,
            bullets.len() == count,
            count == old(bullets).len(),
            forall|i: int| 0 <= i < index ==> bullets[i] == old(bullets)[i].flown(),
            forall|i: int| index <= i < count ==> bullets[i] == old(bullets)[i],
        decreases count - index,
    {
        let mut bullet: Bullet = bullets[index];
        bullet.fly();
        bullets.set(index, bullet);
        index += 1;
    }
}

/// Marks the bullets that have left the play area: those with a coordinate
/// whose size exceeds half the viewport's extent in that direction. A bullet
/// exactly on an edge stays.
pub fn despawn_bullet(bullets: &Vec<Bullet>, window: &Viewport) -> (gone: Vec<bool>)
    ensures
        gone.len() == bullets.len(),
        forall|i: int|
            0 <= i < bullets.len() ==> gone[i] == window.outside(bullets[i].transform.translation),
{
    let mut gone: Vec<bool> = Vec::new();
    let mut index: usize = 0;
    while index < bullets.len()
        invariant
            index <= bullets.len(),
            gone.len() == index,
            forall|i: int|
                0 <= i < index ==> gone[i] == window.outside(bullets[i].transform.translation),
        decreases bullets.len() - index,
    {
        gone.push(window.is_outside(&bullets[index].transform.translation));
        index += 1;
    }
    gone
}

/// Finds the casualties of a frame: an enemy is destroyed if and only if
/// some bullet is within its collision radius, and a bullet if and only if
/// it is within the collision radius of some enemy. A bullet within reach of
/// several enemies destroys them all, and so do several bullets one enemy.
///
/// Every enemy is held against every bullet: the work grows with the
/// product of their numbers.
pub fn zom_bullet_collision(bullets: &Vec<Bullet>, zoms: &Vec<ZomBody>) -> (out: Casualties)
    ensures
        out.zoms.len() == zoms.len(),
        out.bullets.len() == bullets.len(),
        forall|i: int|
            0 <= i < zoms.len() ==> out.zoms[i] == hit_by_any(
                zoms[i],
                bullets@,
                bullets.len() as int,
            ),
        forall|j: int|
            0 <= j < bullets.len() ==> out.bullets[j] == hits_any(
                bullets[j],
                zoms@,
                zoms.len() as int,
            ),
{
    let mut zoms_hit: Vec<bool> = Vec::new();
    let mut bullets_hit: Vec<bool> = Vec::new();
    let mut fill: usize = 0;
    while fill < bullets.len()
        invariant
            fill <= bullets.len(),
            bullets_hit.len() == fill,
            forall|j: int| 0 <= j < fill ==> !bullets_hit[j],
        decreases bullets.len() - fill,
    {
        bullets_hit.push(false);
        fill += 1;
    }
    let mut i: usize = 0;
    while i < zoms.len()
        invariant
            i <= zoms.len(),
            zoms_hit.len() == i,
            bullets_hit.len() == bullets.len(),
            forall|k: int|
                0 <= k < i ==> zoms_hit[k] == hit_by_any(zoms[k], bullets@, bullets.len() as int),
            forall|j: int|
                0 <= j < bullets.len() ==> bullets_hit[j] == hits_any(bullets[j], zoms@, i as int),
        decreases zoms.len() - i,
    {
        let mut zom_hit: bool = false;
        let mut j: usize = 0;
        while j < bullets.len()
            invariant
                i < zoms.len(),
                j <= bullets.len(),
                bullets_hit.len() == bullets.len(),
                zom_hit == hit_by_any(zoms[i as int], bullets@, j as int),
                forall|m: int|
                    0 <= m < j ==> bullets_hit[m] == hits_any(bullets[m], zoms@, i + 1),
                forall|m: int|
                    j <= m < bullets.len() ==> bullets_hit[m] == hits_any(
                        bullets[m],
                        zoms@,
                        i as int,
                    ),
            decreases bullets.len() - j,
        {
            let hit: bool = collides(&zoms[i], &bullets[j]);
            if hit {
                zom_hit = true;
                bullets_hit.set(j, true);
            }
            j += 1;
        }
        zoms_hit.push(zom_hit);
        i += 1;
    }
    Casualties { zoms: zoms_hit, bullets: bullets_hit }
}

} // verus!
