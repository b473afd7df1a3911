//! The rules of a top-down arcade shooter: a player who walks, aims at the
//! pointer and fires; weapons with a magazine, a cooldown and a reload;
//! enemies that appear on the edges of the play area and close in on the
//! player; bullets that destroy the enemies they come near.
//!
//! The rules count in whole numbers. A length is a number of thousandths of
//! a world unit, an angle a number of microradians, a time a number of
//! microseconds, so that every comparison is exact: an enemy of radius ten is
//! hit at a distance of 9.999 and missed at 10.000. Where a result has to be
//! rounded, it is rounded toward zero, so that nothing moves faster than its
//! speed. A coordinate is an `i32`, and one that would leave that range stops
//! at its bound.
//!
//! Two things are left to the caller, because they take trigonometry: the
//! principal arctangent of a slope, from which [`vec2::Vec2::get_angle_to`]
//! makes the angle to a target, and the cosine and sine of a heading, from
//! which [`bullet::Bullet::fired`] makes a bullet's velocity.
//!
//! Chance comes from the thread-local generator of the `rand` crate. Every
//! decision that depends on a draw can also be made from given draws:
//! [`zom::plan_spawn`] for spawning, [`gun::pellets`] for the spread of a
//! shotgun.

pub mod bullet;
pub mod gun;
pub mod player;
pub mod random;
pub mod transform;
pub mod units;
pub mod vec2;
pub mod zom;
