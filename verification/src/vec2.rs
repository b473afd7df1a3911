//! Plane vectors with integer components, and the vector arithmetic of the
//! simulation: lengths, rescaling, clamping, steps and facing angles.

use crate::units::{clamp_i32, saturate, HALF_TURN, MILLI, QUARTER_TURN};
use vstd::arithmetic::div_mod::{lemma_div_pos_is_pos, lemma_fundamental_div_mod, lemma_mod_bound};
use vstd::arithmetic::mul::{
    lemma_mul_inequality, lemma_mul_inequality_converse, lemma_mul_is_commutative,
    lemma_mul_is_distributive_add_other_way, lemma_mul_nonnegative,
    lemma_mul_strict_inequality_converse,
};
use vstd::math::abs;
use vstd::prelude::*;

verus! {

/// `r` is the integer square root of `n`: the largest integer whose square
/// does not exceed `n`.
pub open spec fn is_sqrt(n: int, r: int) -> bool {
    0 <= r && r * r <= n < (r + 1) * (r + 1)
}

/// The integer square root of `n`, rounded down.
pub open spec fn sqrt_floor(n: int) -> int {
    choose|r: int| is_sqrt(n, r)
}

/// One component of a vector rescaled to length `len`, where `c` is the
/// component and `length_sq` the squared length of the whole vector: the
/// exact value `c * len / sqrt(length_sq)`, rounded toward zero. Its size is
/// the largest integer `q` with `q * q * length_sq <= (c * len) * (c * len)`.
/// The null vector has no direction and stays null.
pub open spec fn resized(c: int, length_sq: int, len: int) -> int {
    if length_sq == 0 {
        0
    } else if c >= 0 {
        sqrt_floor(((c * c) * (len * len)) / length_sq)
    } else {
        -sqrt_floor(((c * c) * (len * len)) / length_sq)
    }
}

/// The angle from `from` to `target`, given the principal arctangent of
/// the slope between them: half a turn more than the principal value when
/// the target lies to the left, the principal value itself otherwise.
pub open spec fn angle_to(from: Vec2, target: Vec2, principal: int) -> int {
    if target.x < from.x {
        clamp_i32(principal + HALF_TURN)
    } else {
        principal
    }
}

/// A number has at most one integer square root.
pub proof fn lemma_sqrt_unique(n: int, a: int, b: int)
    requires
        is_sqrt(n, a),
        is_sqrt(n, b),
    ensures
        a == b,
{
    if a < b {
        assert((a + 1) * (a + 1) <= b * b) by (nonlinear_arith)
            requires
                0 <= a + 1 <= b,
        ;
    } else if b < a {
        assert((b + 1) * (b + 1) <= a * a) by (nonlinear_arith)
            requires
                0 <= b + 1 <= a,
        ;
    }
}

/// Whatever meets `is_sqrt` is the square root that the contracts speak of.
pub proof fn lemma_sqrt_floor_is(n: int, r: int)
    requires
        is_sqrt(n, r),
    ensures
        sqrt_floor(n) == r,
{
    lemma_sqrt_unique(n, sqrt_floor(n), r);
}

/// Every natural number has an integer square root.
pub proof fn lemma_sqrt_exists(n: int)
    requires
        0 <= n,
    ensures
        is_sqrt(n, sqrt_floor(n)),
    decreases n,
{
    if n == 0 {
        assert(is_sqrt(0, 0));
    } else {
        lemma_sqrt_exists(n - 1);
        let r = sqrt_floor(n - 1);
        if (r + 1) * (r + 1) <= n {
            assert(n < (r + 2) * (r + 2)) by (nonlinear_arith)
                requires
                    (r + 1) * (r + 1) == n,
                    0 <= r,
            ;
            assert(is_sqrt(n, r + 1));
        } else {
            assert(is_sqrt(n, r));
        }
    }
}

/// A rescaled vector is as long as it can be without exceeding the length
/// asked for: the vector `(x, y)` rescaled to `len` is no longer than `len`,
/// and one more on the size of each component would make it longer.
pub proof fn lemma_rescaled_bounds(x: int, y: int, len: int)
    requires
        0 <= len,
        x != 0 || y != 0,
    ensures
        ({
            let n = x * x + y * y;
            let a = abs(resized(x, n, len)) as int;
            let b = abs(resized(y, n, len)) as int;
            &&& resized(x, n, len) * resized(x, n, len) + resized(y, n, len) * resized(y, n, len)
                == a * a + b * b
            &&& a * a + b * b <= len * len
            &&& len * len < (a + 1) * (a + 1) + (b + 1) * (b + 1)
        }),
{
    let n = x * x + y * y;
    assert(0 < n) by (nonlinear_arith)
        requires
            n == x * x + y * y,
            x != 0 || y != 0,
    ;
    let a = abs(resized(x, n, len)) as int;
    let b = abs(resized(y, n, len)) as int;
    let l2 = len * len;
    lemma_resized_component(x, n, len);
    lemma_resized_component(y, n, len);
    assert(resized(x, n, len) * resized(x, n, len) == a * a) by (nonlinear_arith)
        requires
            resized(x, n, len) == a || resized(x, n, len) == -a,
    ;
    assert(resized(y, n, len) * resized(y, n, len) == b * b) by (nonlinear_arith)
        requires
            resized(y, n, len) == b || resized(y, n, len) == -b,
    ;
    // the squares of the two components add up to the squared length
    lemma_mul_is_distributive_add_other_way(l2, x * x, y * y);
    assert((x * x) * l2 + (y * y) * l2 == n * l2);
    lemma_mul_is_commutative(n, l2);
    // the rescaled vector is no longer than `len`
    lemma_mul_is_distributive_add_other_way(n, a * a, b * b);
    assert((a * a + b * b) * n <= l2 * n);
    lemma_mul_inequality_converse(a * a + b * b, l2, n);
    // and one more on each component is too long
    lemma_mul_is_distributive_add_other_way(n, (a + 1) * (a + 1), (b + 1) * (b + 1));
    assert(l2 * n < ((a + 1) * (a + 1) + (b + 1) * (b + 1)) * n);
    lemma_mul_strict_inequality_converse(l2, (a + 1) * (a + 1) + (b + 1) * (b + 1), n);
}

/// A step toward a target is never longer than the speed it is taken with,
/// and falls short of it by less than one thousandth in each direction.
pub proof fn lemma_step_length(from: Vec2, target: Vec2, speed: int)
    requires
        0 <= speed,
        from != target,
    ensures
        ({
            let d = from.distance_sq(target);
            let step_x = abs(resized(target.x - from.x, d, speed)) as int;
            let step_y = abs(resized(target.y - from.y, d, speed)) as int;
            &&& step_x * step_x + step_y * step_y <= speed * speed
            &&& speed * speed < (step_x + 1) * (step_x + 1) + (step_y + 1) * (step_y + 1)
        }),
{
    lemma_rescaled_bounds(target.x - from.x, target.y - from.y, speed);
}

/// The angle to a target lies in the target's half of the plane: given a
/// principal value within a quarter turn, the angle to a target that is not
/// to the left stays within a quarter turn of the positive x axis, and the
/// angle to a target on the left within a quarter turn of the negative one.
pub proof fn lemma_angle_half_plane(from: Vec2, target: Vec2, principal: int)
    requires
        -QUARTER_TURN <= principal <= QUARTER_TURN,
    ensures
        target.x >= from.x ==> -QUARTER_TURN <= angle_to(from, target, principal) <= QUARTER_TURN,
        target.x < from.x ==> HALF_TURN - QUARTER_TURN <= angle_to(from, target, principal)
            <= HALF_TURN + QUARTER_TURN,
{
}

/// The quotient of a division is the largest multiple that fits.
proof fn lemma_quotient_bounds(x: int, n: int)
    requires
        0 <= x,
        0 < n,
    ensures
        0 <= x / n,
        (x / n) * n <= x < (x / n + 1) * n,
{
    lemma_div_pos_is_pos(x, n);
    lemma_fundamental_div_mod(x, n);
    lemma_mod_bound(x, n);
    lemma_mul_is_commutative(n, x / n);
    lemma_mul_is_distributive_add_other_way(n, x / n, 1);
}

/// The size `a` of a rescaled component is the largest integer with
/// `a * a * n <= (c * c) * (len * len)`.
proof fn lemma_resized_component(c: int, n: int, len: int)
    requires
        0 < n,
        0 <= len,
    ensures
        ({
            let a = abs(resized(c, n, len)) as int;
            &&& resized(c, n, len) == (if c >= 0 {
                a
            } else {
                -a
            })
            &&& (a * a) * n <= (c * c) * (len * len)
            &&& (c * c) * (len * len) < ((a + 1) * (a + 1)) * n
        }),
{
    let x = (c * c) * (len * len);
    assert(0 <= c * c) by (nonlinear_arith);
    assert(0 <= len * len) by (nonlinear_arith);
    lemma_mul_nonnegative(c * c, len * len);
    lemma_quotient_bounds(x, n);
    let q = x / n;
    lemma_sqrt_exists(q);
    let a = sqrt_floor(q);
    lemma_mul_inequality(a * a, q, n);
    lemma_mul_inequality(q + 1, (a + 1) * (a + 1), n);
}

/// A rescaled component is no larger than the length asked for, and no
/// larger than it was if the vector is shortened.
proof fn lemma_resized_size(c: int, n: int, len: int)
    requires
        0 < n,
        0 <= len,
        c * c <= n,
    ensures
        abs(resized(c, n, len)) <= len,
        len * len <= n ==> abs(resized(c, n, len)) <= abs(c),
        c == 0 ==> resized(c, n, len) == 0,
{
    let a = abs(resized(c, n, len)) as int;
    let size = abs(c) as int;
    lemma_resized_component(c, n, len);
    if c == 0 {
        assert((c * c) * (len * len) == 0) by (nonlinear_arith)
            requires
                c == 0,
        ;
        assert(a == 0) by (nonlinear_arith)
            requires
                (a * a) * n <= 0,
                0 < n,
                0 <= a,
        ;
    }
    assert(0 <= len * len) by (nonlinear_arith);
    assert(0 <= c * c) by (nonlinear_arith);
    lemma_mul_inequality(c * c, n, len * len);
    lemma_mul_is_commutative(n, len * len);
    lemma_mul_inequality_converse(a * a, len * len, n);
    assert(a <= len) by (nonlinear_arith)
        requires
            a * a <= len * len,
            0 <= a,
            0 <= len,
    ;
    if len * len <= n {
        lemma_mul_inequality(len * len, n, c * c);
        lemma_mul_is_commutative(c * c, len * len);
        lemma_mul_is_commutative(c * c, n);
        lemma_mul_inequality_converse(a * a, c * c, n);
        assert(a <= size) by (nonlinear_arith)
            requires
                a * a <= c * c,
                0 <= a,
                size == c || size == -c,
                0 <= size,
        ;
    }
}

/// The integer square root of `n`, rounded down.
pub fn isqrt(n: u128) -> (r: u64)
    ensures
        is_sqrt(n as int, r as int),
        r == sqrt_floor(n as int),
{
    let mut low: u128 = 0;
    let mut high: u128 = 0x1_0000_0000_0000_0000;
    assert(n < high * high) by (nonlinear_arith)
        requires
            high == 0x1_0000_0000_0000_0000,
            n <= u128::MAX,
    ;
    while high - low > 1
        invariant
            low < high <= 0x1_0000_0000_0000_0000,
            low * low <= n < high * high,
        decreases high - low,
    {
        let mid: u128 = low + (high - low) / 2;
        assert(mid * mid <= u128::MAX) by (nonlinear_arith)
            requires
                0 <= mid <= 0xFFFF_FFFF_FFFF_FFFF,
        ;
        if mid * mid <= n {
            low = mid;
        } else {
            high = mid;
        }
    }
    proof {
        lemma_sqrt_floor_is(n as int, low as int);
    }
    low as u64
}

/// The size of a component or of a difference of two components.
fn magnitude_of(c: i64) -> (m: u64)
    requires
        -0x1_0000_0000 < c < 0x1_0000_0000,
    ensures
        m == abs(c as int),
        m < 0x1_0000_0000,
{
    if c < 0 {
        (-c) as u64
    } else {
        c as u64
    }
}

/// One component `c` of a vector of squared length `n`, rescaled to length
/// `len`.
fn rescale(c: i64, len: u32, n: u128) -> (r: i64)
    requires
        -0x1_0000_0000 < c < 0x1_0000_0000,
        0 < n,
        c * c <= n,
    ensures
        r == resized(c as int, n as int, len as int),
        -len <= r <= len,
        len * len <= n ==> abs(r as int) <= abs(c as int),
        c >= 0 ==> r >= 0,
        c <= 0 ==> r <= 0,
{
    let size: u128 = magnitude_of(c) as u128;
    let length: u128 = len as u128;
    proof {
        assert(size * size == c * c) by (nonlinear_arith)
            requires
                size == c || size == -c,
        ;
        assert(0 <= size * size <= 0xFFFF_FFFE_0000_0001) by (nonlinear_arith)
            requires
                0 <= size <= 0xFFFF_FFFF,
        ;
        assert(0 <= length * length <= 0xFFFF_FFFE_0000_0001) by (nonlinear_arith)
            requires
                0 <= length <= 0xFFFF_FFFF,
        ;
        assert((size * size) * (length * length) <= 0xFFFF_FFFC_0000_0005_FFFF_FFFC_0000_0001)
            by (nonlinear_arith)
            requires
                0 <= size * size <= 0xFFFF_FFFE_0000_0001,
                0 <= length * length <= 0xFFFF_FFFE_0000_0001,
        ;
        lemma_resized_size(c as int, n as int, len as int);
    }
    let root: u64 = isqrt(((size * size) * (length * length)) / n);
    if c < 0 {
        -(root as i64)
    } else {
        root as i64
    }
}

/// A point or a displacement of the plane, in thousandths of a world unit.
#[derive(Clone, Copy, Debug, PartialEq, Eq, Structural)]
pub struct Vec2 {
    pub x: i32,
    pub y: i32,
}

impl Vec2 {
    pub fn new(x: i32, y: i32) -> (v: Vec2)
        ensures
            v.x == x,
            v.y == y,
    {
        Vec2 { x, y }
    }

    /// The square of this vector's length.
    pub open spec fn length_sq(self) -> int {
        self.x * self.x + self.y * self.y
    }

    /// The square of the distance from this point to `other`.
    pub open spec fn distance_sq(self, other: Vec2) -> int {
        (other.x - self.x) * (other.x - self.x) + (other.y - self.y) * (other.y - self.y)
    }

    /// This point moved by `step`, each coordinate held to its range.
    pub open spec fn plus(self, step: Vec2) -> Vec2 {
        Vec2 {
            x: clamp_i32(self.x + step.x) as i32,
            y: clamp_i32(self.y + step.y) as i32,
        }
    }

    /// This vector rescaled to length `len`, each component held to its
    /// range.
    pub open spec fn rescaled(self, len: int) -> Vec2 {
        Vec2 {
            x: clamp_i32(resized(self.x as int, self.length_sq(), len)) as i32,
            y: clamp_i32(resized(self.y as int, self.length_sq(), len)) as i32,
        }
    }

    /// This point after one step of length `speed` toward `target`, each
    /// coordinate held to its range.
    pub open spec fn toward(self, target: Vec2, speed: int) -> Vec2 {
        let d = self.distance_sq(target);
        Vec2 {
            x: clamp_i32(self.x + resized(target.x - self.x, d, speed)) as i32,
            y: clamp_i32(self.y + resized(target.y - self.y, d, speed)) as i32,
        }
    }

    /// The square of the distance from this point to `other`.
    pub fn squared_distance(&self, other: &Vec2) -> (d: u128)
        ensures
            d == self.distance_sq(*other),
    {
        let dx: i128 = other.x as i128 - self.x as i128;
        let dy: i128 = other.y as i128 - self.y as i128;
        assert(0 <= dx * dx <= 0x1_0000_0000_0000_0000) by (nonlinear_arith)
            requires
                -0x1_0000_0000 <= dx <= 0x1_0000_0000,
        ;
        assert(0 <= dy * dy <= 0x1_0000_0000_0000_0000) by (nonlinear_arith)
            requires
                -0x1_0000_0000 <= dy <= 0x1_0000_0000,
        ;
        (dx * dx + dy * dy) as u128
    }

    /// The square of this vector's length.
    pub fn squared_length(&self) -> (n: u64)
        ensures
            n == self.length_sq(),
            n <= 0x8000_0000_0000_0000,
    {
        let x: i64 = self.x as i64;
        let y: i64 = self.y as i64;
        assert(0 <= x * x <= 0x4000_0000_0000_0000) by (nonlinear_arith)
            requires
                -0x8000_0000 <= x <= 0x8000_0000,
        ;
        assert(0 <= y * y <= 0x4000_0000_0000_0000) by (nonlinear_arith)
            requires
                -0x8000_0000 <= y <= 0x8000_0000,
        ;
        (x * x) as u64 + (y * y) as u64
    }

    /// The length of this vector, rounded down.
    pub fn magnitude(&self) -> (len: u32)
        ensures
            len == sqrt_floor(self.length_sq()),
    {
        let n: u64 = self.squared_length();
        let root: u64 = isqrt(n as u128);
        assert(root < 0x1_0000_0000) by (nonlinear_arith)
            requires
                root * root <= n,
                n <= 0x8000_0000_0000_0000,
                0 <= root,
        ;
        root as u32
    }

    /// This point moved by `step`; a coordinate that would leave its range
    /// stops at the bound.
    pub fn saturating_add(&self, step: &Vec2) -> (moved: Vec2)
        ensures
            moved == self.plus(*step),
    {
        Vec2 {
            x: saturate(self.x as i64 + step.x as i64),
            y: saturate(self.y as i64 + step.y as i64),
        }
    }

    /// The displacement that leads from `start` to `end`, as `(dx, dy)`. The
    /// components are wider than a coordinate, so that no pair of points
    /// overflows.
    pub fn between_transforms(start: &Vec2, end: &Vec2) -> (delta: (i64, i64))
        ensures
            delta.0 == end.x - start.x,
            delta.1 == end.y - start.y,
    {
        (end.x as i64 - start.x as i64, end.y as i64 - start.y as i64)
    }

    /// The vector of length `len` in this vector's direction, each component
    /// rounded toward zero, so that the result is never longer than `len`.
    /// The null vector has no direction and stays null.
    pub fn with_length(&self, len: u32) -> (v: Vec2)
        ensures
            v == self.rescaled(len as int),
            len <= i32::MAX ==> {
                &&& v.x == resized(self.x as int, self.length_sq(), len as int)
                &&& v.y == resized(self.y as int, self.length_sq(), len as int)
                &&& v.length_sq() <= len * len
            },
    {
        let n: u64 = self.squared_length();
        if n == 0 {
            assert(0 <= len * len) by (nonlinear_arith);
            return Vec2 { x: 0, y: 0 };
        }
        proof {
            lemma_squares_in_sum(self.x as int, self.y as int);
            lemma_rescaled_bounds(self.x as int, self.y as int, len as int);
        }
        let x: i64 = rescale(self.x as i64, len, n as u128);
        let y: i64 = rescale(self.y as i64, len, n as u128);
        Vec2 { x: saturate(x), y: saturate(y) }
    }

    /// The vector of length one world unit in this vector's direction, each
    /// component rounded toward zero.
    pub fn unit_vec(&self) -> (unit: Vec2)
        ensures
            unit.x == resized(self.x as int, self.length_sq(), MILLI as int),
            unit.y == resized(self.y as int, self.length_sq(), MILLI as int),
            unit.length_sq() <= MILLI * MILLI,
    {
        self.with_length(MILLI)
    }

    /// Shortens this vector to length `max` if it is longer, keeping its
    /// direction; each component is rounded toward zero, so the result is
    /// never longer than `max`.
    pub fn clamp_max_length(&mut self, max: u32)
        ensures
            old(self).length_sq() <= max * max ==> *final(self) == *old(self),
            old(self).length_sq() > max * max ==> {
                &&& final(self).x == resized(old(self).x as int, old(self).length_sq(), max as int)
                &&& final(self).y == resized(old(self).y as int, old(self).length_sq(), max as int)
            },
            final(self).length_sq() <= max * max,
    {
        let n: u64 = self.squared_length();
        assert(max * max <= 0xFFFF_FFFF_FFFF_FFFF) by (nonlinear_arith)
            requires
                0 <= max <= 0xFFFF_FFFF,
        ;
        let limit: u64 = max as u64 * max as u64;
        if n > limit {
            proof {
                lemma_squares_in_sum(self.x as int, self.y as int);
                lemma_rescaled_bounds(self.x as int, self.y as int, max as int);
            }
            let x: i64 = rescale(self.x as i64, max, n as u128);
            let y: i64 = rescale(self.y as i64, max, n as u128);
            self.x = x as i32;
            self.y = y as i32;
        }
    }

    /// Advances this point by `speed` along the straight line to `target`.
    /// Each component of the step is rounded toward zero, so the step is
    /// never longer than `speed`. The step does not stop at the target: a
    /// target nearer than `speed` is overshot. A point that is on its target
    /// stays there.
    pub fn step_toward(&self, target: &Vec2, speed: u32) -> (moved: Vec2)
        ensures
            moved == self.toward(*target, speed as int),
    {
        let d: u128 = self.squared_distance(target);
        if d == 0 {
            return *self;
        }
        let (dx, dy): (i64, i64) = Vec2::between_transforms(self, target);
        proof {
            lemma_squares_in_sum(dx as int, dy as int);
        }
        let step_x: i64 = rescale(dx, speed, d);
        let step_y: i64 = rescale(dy, speed, d);
        Vec2 { x: saturate(self.x as i64 + step_x), y: saturate(self.y as i64 + step_y) }
    }

    /// The angle from this point to `other`, in microradians, given the
    /// principal arctangent of the slope between them: half a turn is added
    /// when `other` lies to the left, which a slope alone cannot tell.
    pub fn get_angle_to(&self, other: &Vec2, principal: i32) -> (angle: i32)
        ensures
            angle == angle_to(*self, *other, principal as int),
    {
        if other.x < self.x {
            saturate(principal as i64 + HALF_TURN as i64)
        } else {
            principal
        }
    }
}

/// Neither square of a sum of two squares exceeds the sum, and the sum is
/// nothing only for the null vector.
proof fn lemma_squares_in_sum(x: int, y: int)
    ensures
        x * x <= x * x + y * y,
        y * y <= x * x + y * y,
        x * x + y * y != 0 ==> x != 0 || y != 0,
{
    assert(0 <= x * x) by (nonlinear_arith);
    assert(0 <= y * y) by (nonlinear_arith);
    assert(x == 0 ==> x * x == 0) by (nonlinear_arith);
    assert(y == 0 ==> y * y == 0) by (nonlinear_arith);
}

} // verus!
