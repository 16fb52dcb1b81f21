//! Hit points that are never negative.

use vstd::prelude::*;

verus! {

/// Hit points left after `damage` is taken from `hp`: the difference, or
/// zero where the difference would be negative.
pub open spec fn remaining(hp: int, damage: int) -> int {
    if hp - damage < 0 {
        0
    } else {
        hp - damage
    }
}

/// Takes `damage` from `hp` and stops at zero.
pub fn reduce(hp: i32, damage: i32) -> (left: i32)
    requires
        hp - damage <= i32::MAX,
    ensures
        left == remaining(hp as int, damage as int),
        left >= 0,
{
    let wide: i64 = hp as i64 - damage as i64;
    if wide < 0 {
        0
    } else {
        wide as i32
    }
}

} // verus!
