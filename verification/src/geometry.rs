//! Fixed-point plane geometry.
//!
//! Every length, coordinate and speed of the simulation is a whole number of
//! thousandths of a pixel, so that the simulation is exact and repeatable.

use vstd::prelude::*;

verus! {

/// Number of coordinate units in one pixel.
pub const UNIT: i64 = 1000;

/// Integer division that rounds toward zero, for a positive divisor.
pub open spec fn div_toward_zero(a: int, b: int) -> int {
    if a >= 0 {
        a / b
    } else {
        -((-a) / b)
    }
}

/// The magnitude of a speed.
pub open spec fn magnitude(speed: i64) -> int {
    if speed >= 0 {
        speed as int
    } else {
        -speed
    }
}

/// `r` is the integer square root of `s`, rounded down.
pub open spec fn is_floor_sqrt(s: int, r: int) -> bool {
    0 <= r && r * r <= s && s < (r + 1) * (r + 1)
}

/// The integer square root of a non-negative `s`, rounded down.
pub open spec fn floor_sqrt(s: int) -> int {
    choose|r: int| is_floor_sqrt(s, r)
}

/// At most one number is the rounded-down square root of `s`.
pub proof fn lemma_floor_sqrt_unique(s: int, a: int, b: int)
    requires
        is_floor_sqrt(s, a),
        is_floor_sqrt(s, b),
    ensures
        a == b,
{
    if a < b {
        assert((a + 1) * (a + 1) <= b * b) by (nonlinear_arith)
            requires
                0 <= a,
                a + 1 <= b,
        ;
    } else if b < a {
        assert((b + 1) * (b + 1) <= a * a) by (nonlinear_arith)
            requires
                0 <= b,
                b + 1 <= a,
        ;
    }
}

/// Every non-negative number has a rounded-down square root.
pub proof fn lemma_floor_sqrt_exists(s: int)
    requires
        0 <= s,
    ensures
        is_floor_sqrt(s, floor_sqrt(s)),
    decreases s,
{
    if s == 0 {
        assert(is_floor_sqrt(0, 0));
    } else {
        lemma_floor_sqrt_exists(s - 1);
        let r = floor_sqrt(s - 1);
        if (r + 1) * (r + 1) <= s {
            assert((r + 1) * (r + 1) < (r + 2) * (r + 2)) by (nonlinear_arith)
                requires
                    0 <= r,
            ;
            assert(is_floor_sqrt(s, r + 1));
        } else {
            assert(is_floor_sqrt(s, r));
        }
    }
}

/// A number that meets the defining bounds is the square root.
pub proof fn lemma_floor_sqrt_is(s: int, r: int)
    requires
        is_floor_sqrt(s, r),
    ensures
        floor_sqrt(s) == r,
{
    lemma_floor_sqrt_unique(s, r, floor_sqrt(s));
}

/// The magnitude of either term of a sum of two squares is at most the
/// rounded-down square root of the sum.
pub proof fn lemma_leg_le_hypotenuse(x: int, y: int)
    ensures
        -floor_sqrt(x * x + y * y) <= x <= floor_sqrt(x * x + y * y),
        floor_sqrt(x * x + y * y) == 0 <==> (x == 0 && y == 0),
{
    let s = x * x + y * y;
    assert(0 <= x * x && 0 <= y * y) by (nonlinear_arith);
    lemma_floor_sqrt_exists(s);
    let r = floor_sqrt(s);
    if x > r {
        assert((r + 1) * (r + 1) <= x * x) by (nonlinear_arith)
            requires
                0 <= r,
                r + 1 <= x,
        ;
    }
    if -x > r {
        assert((r + 1) * (r + 1) <= x * x) by (nonlinear_arith)
            requires
                0 <= r,
                r + 1 <= -x,
        ;
    }
    if r == 0 {
        assert((r + 1) * (r + 1) == 1) by (nonlinear_arith)
            requires
                r == 0,
        ;
        assert(y != 0 ==> y * y >= 1) by (nonlinear_arith);
    }
    if x == 0 && y == 0 {
        assert(x * x + y * y == 0) by (nonlinear_arith)
            requires
                x == 0,
                y == 0,
        ;
        lemma_floor_sqrt_is(0, 0);
    }
}

/// Integer square root, rounded down.
pub fn isqrt(s: u128) -> (r: u64)
    ensures
        r == floor_sqrt(s as int),
        is_floor_sqrt(s as int, r as int),
{
    let mut lo: u128 = 0;
    let mut hi: u128 = 0x1_0000_0000_0000_0000;
    while hi - lo > 1
        invariant
            lo < hi <= 0x1_0000_0000_0000_0000,
            lo * lo <= s,
            s < hi * hi,
        decreases hi - lo,
    {
        let mid: u128 = lo + (hi - lo) / 2;
        assert(mid * mid <= u128::MAX) by (nonlinear_arith)
            requires
                0 <= mid < 0x1_0000_0000_0000_0000,
        ;
        if mid * mid <= s {
            lo = mid;
        } else {
            hi = mid;
        }
    }
    proof {
        lemma_floor_sqrt_is(s as int, lo as int);
    }
    lo as u64
}

/// A point of the plane, or a displacement between two points.
#[derive(Clone, Copy, Debug, PartialEq, Eq, Structural)]
pub struct Vec2 {
    pub x: i64,
    pub y: i64,
}

impl Vec2 {
    /// Rounded-down Euclidean length.
    pub open spec fn length_spec(self) -> int {
        floor_sqrt(self.x * self.x + self.y * self.y)
    }

    /// One coordinate of the unit-length direction of a displacement whose
    /// rounded-down length is `len`; zero for the zero displacement.
    pub open spec fn unit_part(d: int, len: int) -> int {
        if len == 0 {
            0
        } else {
            div_toward_zero(d * UNIT, len)
        }
    }

    /// The direction of `self`, as a vector of length `UNIT`, each
    /// coordinate rounded toward zero. The zero vector has direction zero.
    pub open spec fn normalized(self) -> Vec2 {
        Vec2 {
            x: Self::unit_part(self.x as int, self.length_spec()) as i64,
            y: Self::unit_part(self.y as int, self.length_spec()) as i64,
        }
    }

    /// One coordinate of a vector multiplied by `factor / UNIT`.
    pub open spec fn scaled_part(d: int, factor: int) -> int {
        div_toward_zero(d * factor, UNIT as int)
    }

    /// Whether `self` multiplied by `factor / UNIT` has machine coordinates.
    pub open spec fn can_scale(self, factor: i64) -> bool {
        &&& i64::MIN <= Self::scaled_part(self.x as int, factor as int) <= i64::MAX
        &&& i64::MIN <= Self::scaled_part(self.y as int, factor as int) <= i64::MAX
    }

    /// `self` multiplied by `factor / UNIT`, each coordinate rounded toward zero.
    pub open spec fn scaled(self, factor: i64) -> Vec2 {
        Vec2 {
            x: Self::scaled_part(self.x as int, factor as int) as i64,
            y: Self::scaled_part(self.y as int, factor as int) as i64,
        }
    }

    /// Whether the displacement from `self` to `target` has machine coordinates.
    pub open spec fn can_reach(self, target: Vec2) -> bool {
        &&& i64::MIN <= target.x - self.x <= i64::MAX
        &&& i64::MIN <= target.y - self.y <= i64::MAX
    }

    /// The displacement that leads from `self` to `target`.
    pub open spec fn toward(self, target: Vec2) -> Vec2 {
        Vec2 { x: (target.x - self.x) as i64, y: (target.y - self.y) as i64 }
    }

    /// Whether `self` moved by `step` has machine coordinates.
    pub open spec fn can_shift(self, step: Vec2) -> bool {
        &&& i64::MIN <= self.x + step.x <= i64::MAX
        &&& i64::MIN <= self.y + step.y <= i64::MAX
    }

    /// `self` moved by `step`.
    pub open spec fn shifted(self, step: Vec2) -> Vec2 {
        Vec2 { x: (self.x + step.x) as i64, y: (self.y + step.y) as i64 }
    }

    /// Each coordinate has magnitude at most `bound`.
    pub open spec fn within(self, bound: int) -> bool {
        -bound <= self.x <= bound && -bound <= self.y <= bound
    }

    /// The step of length `speed` from `self` in the direction of `target`.
    pub open spec fn stride(self, target: Vec2, speed: i64) -> Vec2 {
        self.toward(target).normalized().scaled(speed)
    }

    /// `self` after one step of length `speed` in the direction of
    /// `target`. A point that is already there stays.
    pub open spec fn approached(self, target: Vec2, speed: i64) -> Vec2 {
        self.shifted(self.stride(target, speed))
    }

    /// Whether a step of length `speed` toward `target` stays within the
    /// machine's range.
    pub open spec fn can_approach(self, target: Vec2, speed: i64) -> bool {
        &&& self.can_reach(target)
        &&& speed > i64::MIN
        &&& self.can_shift(self.stride(target, speed))
    }

    pub fn new(x: i64, y: i64) -> (v: Vec2)
        ensures
            v == (Vec2 { x, y }),
    {
        Vec2 { x, y }
    }

    /// The displacement from `self` to `target`.
    pub fn offset_to(self, target: Vec2) -> (d: Vec2)
        requires
            self.can_reach(target),
        ensures
            d == self.toward(target),
            d.x == target.x - self.x,
            d.y == target.y - self.y,
    {
        Vec2 { x: target.x - self.x, y: target.y - self.y }
    }

    /// `self` moved by `step`.
    pub fn translate(self, step: Vec2) -> (p: Vec2)
        requires
            self.can_shift(step),
        ensures
            p == self.shifted(step),
            p.x == self.x + step.x,
            p.y == self.y + step.y,
    {
        Vec2 { x: self.x + step.x, y: self.y + step.y }
    }

    /// Rounded-down Euclidean length.
    pub fn length(self) -> (len: u64)
        ensures
            len == self.length_spec(),
            is_floor_sqrt(self.x * self.x + self.y * self.y, len as int),
    {
        let x: i128 = self.x as i128;
        let y: i128 = self.y as i128;
        assert(0 <= x * x <= 0x4000_0000_0000_0000_0000_0000_0000_0000) by (nonlinear_arith)
            requires
                -0x8000_0000_0000_0000 <= x <= 0x8000_0000_0000_0000,
        ;
        assert(0 <= y * y <= 0x4000_0000_0000_0000_0000_0000_0000_0000) by (nonlinear_arith)
            requires
                -0x8000_0000_0000_0000 <= y <= 0x8000_0000_0000_0000,
        ;
        let s: u128 = (x * x) as u128 + (y * y) as u128;
        isqrt(s)
    }

    /// The direction of `self` as a vector of length `UNIT`; the zero
    /// vector when `self` is zero.
    pub fn normalize(self) -> (u: Vec2)
        ensures
            u == self.normalized(),
            u.within(UNIT as int),
            (self.x == 0 && self.y == 0) ==> u == (Vec2 { x: 0, y: 0 }),
    {
        let len: u64 = self.length();
        proof {
            lemma_leg_le_hypotenuse(self.x as int, self.y as int);
            lemma_leg_le_hypotenuse(self.y as int, self.x as int);
        }
        if len == 0 {
            return Vec2 { x: 0, y: 0 };
        }
        let l: i128 = len as i128;
        let x: i128 = self.x as i128;
        let y: i128 = self.y as i128;
        let unit: i128 = UNIT as i128;
        let ux: i128 = (x * unit) / l;
        let uy: i128 = (y * unit) / l;
        proof {
            lemma_unit_part_bounded(x as int, l as int);
            lemma_unit_part_bounded(y as int, l as int);
        }
        Vec2 { x: ux as i64, y: uy as i64 }
    }

    /// One step of length `speed` from `self` in the direction of `target`.
    pub fn step_toward(self, target: Vec2, speed: i64) -> (p: Vec2)
        requires
            self.can_approach(target, speed),
        ensures
            p == self.approached(target, speed),
            self == target ==> p == self,
    {
        let direction = self.offset_to(target).normalize();
        proof {
            lemma_scaled_part_bounded(direction.x as int, speed as int);
            lemma_scaled_part_bounded(direction.y as int, speed as int);
        }
        self.translate(direction.scale(speed))
    }

    /// `self` multiplied by `factor / UNIT`.
    pub fn scale(self, factor: i64) -> (v: Vec2)
        requires
            self.can_scale(factor),
        ensures
            v == self.scaled(factor),
    {
        let f: i128 = factor as i128;
        let x: i128 = self.x as i128;
        let y: i128 = self.y as i128;
        assert(-0x4000_0000_0000_0000_0000_0000_0000_0000 <= x * f
            <= 0x4000_0000_0000_0000_0000_0000_0000_0000) by (nonlinear_arith)
            requires
                -0x8000_0000_0000_0000 <= x <= 0x8000_0000_0000_0000,
                -0x8000_0000_0000_0000 <= f <= 0x8000_0000_0000_0000,
        ;
        assert(-0x4000_0000_0000_0000_0000_0000_0000_0000 <= y * f
            <= 0x4000_0000_0000_0000_0000_0000_0000_0000) by (nonlinear_arith)
            requires
                -0x8000_0000_0000_0000 <= y <= 0x8000_0000_0000_0000,
                -0x8000_0000_0000_0000 <= f <= 0x8000_0000_0000_0000,
        ;
        let unit: i128 = UNIT as i128;
        let sx: i128 = (x * f) / unit;
        let sy: i128 = (y * f) / unit;
        Vec2 { x: sx as i64, y: sy as i64 }
    }
}

/// A coordinate of a direction has magnitude at most `UNIT`.
pub proof fn lemma_unit_part_bounded(d: int, len: int)
    requires
        -len <= d <= len,
    ensures
        -UNIT <= Vec2::unit_part(d, len) <= UNIT,
        d >= 0 ==> Vec2::unit_part(d, len) >= 0,
        d <= 0 ==> Vec2::unit_part(d, len) <= 0,
{
    if len > 0 {
        if d >= 0 {
            assert(0 <= (d * 1000) / len <= 1000) by (nonlinear_arith)
                requires
                    0 <= d <= len,
                    len > 0,
            ;
        } else {
            assert(0 <= ((-d) * 1000) / len <= 1000) by (nonlinear_arith)
                requires
                    0 <= -d <= len,
                    len > 0,
            ;
        }
    }
}

/// Scaling moves no coordinate further from zero than the factor's own
/// magnitude, when the vector is no longer than `UNIT` in each coordinate.
pub proof fn lemma_scaled_part_bounded(d: int, factor: int)
    requires
        -UNIT <= d <= UNIT,
    ensures
        factor >= 0 ==> -factor <= Vec2::scaled_part(d, factor) <= factor,
        factor <= 0 ==> factor <= Vec2::scaled_part(d, factor) <= -factor,
        factor == 0 || d == 0 ==> Vec2::scaled_part(d, factor) == 0,
        (d >= 0 && factor >= 0) || (d <= 0 && factor <= 0) ==> Vec2::scaled_part(d, factor) >= 0,
        (d >= 0 && factor <= 0) || (d <= 0 && factor >= 0) ==> Vec2::scaled_part(d, factor) <= 0,
{
    let p = d * factor;
    let m = if factor >= 0 { factor } else { -factor };
    assert(-(m * 1000) <= p <= m * 1000) by (nonlinear_arith)
        requires
            p == d * factor,
            -1000 <= d <= 1000,
            m == if factor >= 0 { factor } else { -factor },
    ;
    assert((d >= 0 && factor >= 0) || (d <= 0 && factor <= 0) ==> p >= 0) by (nonlinear_arith)
        requires
            p == d * factor,
    ;
    assert((d >= 0 && factor <= 0) || (d <= 0 && factor >= 0) ==> p <= 0) by (nonlinear_arith)
        requires
            p == d * factor,
    ;
    assert(factor == 0 || d == 0 ==> p == 0) by (nonlinear_arith)
        requires
            p == d * factor,
    ;
}

/// A step toward a target moves each coordinate toward the target's, by
/// no more than the speed.
pub proof fn lemma_stride_bounded(pos: Vec2, target: Vec2, speed: i64)
    requires
        pos.can_reach(target),
        speed > i64::MIN,
    ensures
        pos.stride(target, speed).within(magnitude(speed)),
        speed >= 0 && target.x >= pos.x ==> pos.stride(target, speed).x >= 0,
        speed >= 0 && target.x <= pos.x ==> pos.stride(target, speed).x <= 0,
        speed >= 0 && target.y >= pos.y ==> pos.stride(target, speed).y >= 0,
        speed >= 0 && target.y <= pos.y ==> pos.stride(target, speed).y <= 0,
{
    let d = pos.toward(target);
    lemma_leg_le_hypotenuse(d.x as int, d.y as int);
    lemma_leg_le_hypotenuse(d.y as int, d.x as int);
    let len = d.length_spec();
    lemma_unit_part_bounded(d.x as int, len);
    lemma_unit_part_bounded(d.y as int, len);
    let u = d.normalized();
    lemma_scaled_part_bounded(u.x as int, speed as int);
    lemma_scaled_part_bounded(u.y as int, speed as int);
}

/// An axis-aligned rectangle: corner `(x, y)`, width `w`, height `h`.
#[derive(Clone, Copy, Debug, PartialEq, Eq, Structural)]
pub struct Rect {
    pub x: i128,
    pub y: i128,
    pub w: i128,
    pub h: i128,
}

impl Rect {
    pub open spec fn left(self) -> int {
        self.x as int
    }

    pub open spec fn right(self) -> int {
        self.x + self.w
    }

    pub open spec fn top(self) -> int {
        self.y as int
    }

    pub open spec fn bottom(self) -> int {
        self.y + self.h
    }

    /// The far edges are machine numbers.
    pub open spec fn edges_fit(self) -> bool {
        &&& i128::MIN <= self.right() <= i128::MAX
        &&& i128::MIN <= self.bottom() <= i128::MAX
    }

    /// The two rectangles share a point, touching edges included.
    pub open spec fn overlaps_spec(self, other: Rect) -> bool {
        &&& self.left() <= other.right()
        &&& self.right() >= other.left()
        &&& self.top() <= other.bottom()
        &&& self.bottom() >= other.top()
    }

    /// The square of side `size` whose corner lies `reach` before `center`
    /// on both axes.
    pub open spec fn square_spec(center: Vec2, reach: i64, size: i64) -> Rect {
        Rect {
            x: (center.x - reach) as i128,
            y: (center.y - reach) as i128,
            w: size as i128,
            h: size as i128,
        }
    }

    /// Which of two rectangles is asked about the other makes no difference.
    pub proof fn lemma_overlap_symmetric(self, other: Rect)
        ensures
            self.overlaps_spec(other) == other.overlaps_spec(self),
    {
    }

    pub fn new(x: i128, y: i128, w: i128, h: i128) -> (r: Rect)
        ensures
            r == (Rect { x, y, w, h }),
    {
        Rect { x, y, w, h }
    }

    /// The square of side `size` whose corner lies `reach` before `center`
    /// on both axes.
    pub fn square(center: Vec2, reach: i64, size: i64) -> (r: Rect)
        ensures
            r == Self::square_spec(center, reach, size),
            r.edges_fit(),
    {
        Rect {
            x: center.x as i128 - reach as i128,
            y: center.y as i128 - reach as i128,
            w: size as i128,
            h: size as i128,
        }
    }

    /// Whether the two rectangles share a point, touching edges included.
    pub fn overlaps(&self, other: &Rect) -> (b: bool)
        requires
            self.edges_fit(),
            other.edges_fit(),
        ensures
            b == self.overlaps_spec(*other),
    {
        self.x <= other.x + other.w && self.x + self.w >= other.x && self.y <= other.y + other.h
            && self.y + self.h >= other.y
    }
}

} // verus!
