//! Headings that divide the full turn into equal parts.
//!
//! The sine and cosine of an angle within a quarter turn are taken from
//! Bhaskara's rational approximation, which needs only whole numbers. A
//! projectile normalises its heading again, so only the ratio of the two
//! coordinates matters.

use vstd::prelude::*;
use crate::geometry::{UNIT, Vec2};

verus! {

/// `UNIT` times the cosine of `r / n` of a quarter turn, rounded down.
pub open spec fn quarter_cos(r: int, n: int) -> int {
    (4000 * (n * n - r * r)) / (4 * (n * n) + r * r)
}

/// `UNIT` times the sine of `r / n` of a quarter turn, rounded down.
pub open spec fn quarter_sin(r: int, n: int) -> int {
    (4000 * (r * (2 * n - r))) / (5 * (n * n) - r * (2 * n - r))
}

/// `v` turned by `quarters` quarter turns, from the x axis toward the y axis.
pub open spec fn turned(v: Vec2, quarters: int) -> Vec2 {
    if quarters % 4 == 0 {
        v
    } else if quarters % 4 == 1 {
        Vec2 { x: (-v.y) as i64, y: v.x }
    } else if quarters % 4 == 2 {
        Vec2 { x: (-v.x) as i64, y: (-v.y) as i64 }
    } else {
        Vec2 { x: v.y, y: (-v.x) as i64 }
    }
}

/// The heading at `i / n` of a full turn, for `0 <= i < n`: the full
/// quarter turns that fit into it, and sine and cosine of what is left.
pub open spec fn circle_heading(i: int, n: int) -> Vec2 {
    let q = (4 * i) / n;
    let r = 4 * i - q * n;
    turned(Vec2 { x: quarter_cos(r, n) as i64, y: quarter_sin(r, n) as i64 }, q)
}

/// Sine and cosine within a quarter turn lie between zero and `UNIT`.
pub proof fn lemma_quarter_bounds(r: int, n: int)
    requires
        0 <= r < n,
    ensures
        0 <= quarter_cos(r, n) <= UNIT,
        0 <= quarter_sin(r, n) <= UNIT,
        4 * (n * n) + r * r > 0,
        5 * (n * n) - r * (2 * n - r) > 0,
        0 <= n * n - r * r <= n * n,
        0 <= r * (2 * n - r) <= n * n,
{
    let nn = n * n;
    let rr = r * r;
    let p = r * (2 * n - r);
    assert(0 <= rr && rr <= nn && nn >= 1) by (nonlinear_arith)
        requires
            0 <= r < n,
            nn == n * n,
            rr == r * r,
    ;
    assert(0 <= p && p <= nn) by (nonlinear_arith)
        requires
            0 <= r < n,
            nn == n * n,
            p == r * (2 * n - r),
    ;
    let cd = 4 * nn + rr;
    let cn = 4000 * (nn - rr);
    assert(0 <= cn / cd <= 1000) by (nonlinear_arith)
        requires
            cd > 0,
            0 <= cn <= 1000 * cd,
    ;
    let sd = 5 * nn - p;
    let sn = 4000 * p;
    assert(0 <= sn / sd <= 1000) by (nonlinear_arith)
        requires
            sd > 0,
            0 <= sn <= 1000 * sd,
    ;
}

/// The first heading of every circle lies along the x axis.
pub proof fn lemma_first_heading(n: int)
    requires
        0 < n,
    ensures
        circle_heading(0, n) == (Vec2 { x: UNIT, y: 0 }),
{
    let nn = n * n;
    assert(nn > 0) by (nonlinear_arith)
        requires
            n > 0,
            nn == n * n,
    ;
    assert((4 * 0int) / n == 0) by (nonlinear_arith)
        requires
            n > 0,
    ;
    assert(0 * n == 0);
    assert((4000 * nn) / (4 * nn) == 1000) by (nonlinear_arith)
        requires
            nn > 0,
    ;
    assert((4000 * 0int) / (5 * nn) == 0) by (nonlinear_arith)
        requires
            nn > 0,
    ;
}

/// A quarter of the way round the circle, the heading has turned by a
/// quarter turn: where four divides `n`, the headings repeat every `n / 4`
/// steps, each time turned once more.
pub proof fn lemma_quarter_step(i: int, n: int)
    requires
        0 < n,
        n % 4 == 0,
        0 <= i,
        i + n / 4 < n,
    ensures
        circle_heading(i + n / 4, n) == turned(circle_heading(i, n), 1),
{
    let q = (4 * i) / n;
    let r = 4 * i - q * n;
    assert((4 * i + n) / n == (4 * i) / n + 1) by (nonlinear_arith)
        requires
            n > 0,
    ;
    assert((q + 1) * n == q * n + n) by (nonlinear_arith);
    assert(0 <= r < n) by (nonlinear_arith)
        requires
            n > 0,
            i >= 0,
            q == (4 * i) / n,
            r == 4 * i - q * n,
    ;
    assert(0 <= q <= 2) by (nonlinear_arith)
        requires
            n > 0,
            i >= 0,
            4 * i + n < 4 * n,
            q == (4 * i) / n,
    ;
    lemma_quarter_bounds(r, n);
}

/// The heading at `i / n` of a full turn.
pub fn heading(i: usize, n: usize) -> (v: Vec2)
    requires
        i < n <= u32::MAX,
    ensures
        v == circle_heading(i as int, n as int),
        v.within(UNIT as int),
{
    let n_wide: u128 = n as u128;
    let i_wide: u128 = i as u128;
    let q: u128 = (4 * i_wide) / n_wide;
    assert(q <= 3 && q * n_wide <= 4 * i_wide && 4 * i_wide - q * n_wide < n_wide)
        by (nonlinear_arith)
        requires
            0 <= i_wide < n_wide,
            q == (4 * i_wide) / (n_wide as int),
    ;
    let r: u128 = 4 * i_wide - q * n_wide;
    proof {
        lemma_quarter_bounds(r as int, n_wide as int);
    }
    assert(n_wide * n_wide <= 0xFFFF_FFFF * 0xFFFF_FFFF) by (nonlinear_arith)
        requires
            0 <= n_wide <= 0xFFFF_FFFF,
    ;
    let nn: u128 = n_wide * n_wide;
    assert(r * r <= nn) by (nonlinear_arith)
        requires
            0 <= r < n_wide,
            nn == n_wide * n_wide,
    ;
    let rr: u128 = r * r;
    let p: u128 = r * (2 * n_wide - r);
    let c: u128 = (4000 * (nn - rr)) / (4 * nn + rr);
    let s: u128 = (4000 * p) / (5 * nn - p);
    let cos: i64 = c as i64;
    let sin: i64 = s as i64;
    if q == 0 {
        Vec2 { x: cos, y: sin }
    } else if q == 1 {
        Vec2 { x: -sin, y: cos }
    } else if q == 2 {
        Vec2 { x: -cos, y: -sin }
    } else {
        Vec2 { x: sin, y: -cos }
    }
}

} // verus!
