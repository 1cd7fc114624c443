//! Fixed-point units shared by the whole crate.
//!
//! Positions, speeds, damage and knockback carry three decimal places: a
//! stored value of 1000 stands for 1.0. All such quantities are kept inside
//! `[-MAG_LIMIT, MAG_LIMIT]`, which keeps every product and sum used by the
//! combat arithmetic inside `i64`.

use vstd::prelude::*;

verus! {

/// Magnitude cap for fixed-point gameplay values (one million whole units).
pub const MAG_LIMIT: i64 = 1_000_000_000;

/// A fixed-point value within the magnitude cap.
pub open spec fn in_mag(x: i64) -> bool {
    -MAG_LIMIT <= x <= MAG_LIMIT
}

/// Clamp an unbounded intermediate result back into the magnitude cap.
pub open spec fn clamp_mag(x: int) -> int {
    if x > MAG_LIMIT {
        MAG_LIMIT as int
    } else if x < -MAG_LIMIT {
        -MAG_LIMIT as int
    } else {
        x
    }
}

/// Sign of a value: -1, 0 or 1.
pub open spec fn sign(x: int) -> int {
    if x > 0 {
        1
    } else if x < 0 {
        -1
    } else {
        0
    }
}

/// Absolute value.
pub open spec fn abs_val(x: int) -> int {
    if x < 0 {
        -x
    } else {
        x
    }
}

/// `v` taken along the sign `s`: `v` when `s` is positive, `-v` when
/// negative, `0` when zero.
pub open spec fn mul_sign(s: int, v: int) -> int {
    if s > 0 {
        v
    } else if s < 0 {
        -v
    } else {
        0
    }
}

/// Executable absolute value.
pub fn abs_i64(x: i64) -> (r: i64)
    requires
        x > i64::MIN,
    ensures
        r == abs_val(x as int),
{
    if x < 0 {
        -x
    } else {
        x
    }
}

/// Executable counterpart of `mul_sign` for a sign in `{-1, 0, 1}`.
pub fn scale_by_sign(s: i64, v: i64) -> (r: i64)
    requires
        -1 <= s <= 1,
        v > i64::MIN,
    ensures
        r == mul_sign(s as int, v as int),
{
    if s > 0 {
        v
    } else if s < 0 {
        -v
    } else {
        0
    }
}

/// A 2D fixed-point vector (velocities, hitbox extents, offsets).
#[derive(Clone, Copy, PartialEq, Eq, Structural, Debug)]
pub struct Vec2i {
    pub x: i64,
    pub y: i64,
}

impl Vec2i {
    pub open spec fn wf(self) -> bool {
        in_mag(self.x) && in_mag(self.y)
    }

    pub fn new(x: i64, y: i64) -> (v: Vec2i)
        ensures
            v.x == x,
            v.y == y,
    {
        Vec2i { x, y }
    }
}

/// Saturating addition: the exact sum, clamped into the magnitude cap.
/// `a` must already be capped; `b` may be an intermediate product.
pub fn clamped_add(a: i64, b: i64) -> (r: i64)
    requires
        in_mag(a),
        -4_000_000_000_000_000_000 <= b <= 4_000_000_000_000_000_000,
    ensures
        r == clamp_mag(a + b),
        in_mag(r),
{
    let s = a + b;
    if s > MAG_LIMIT {
        MAG_LIMIT
    } else if s < -MAG_LIMIT {
        -MAG_LIMIT
    } else {
        s
    }
}

} // verus!
