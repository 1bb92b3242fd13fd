//! Rigid-transform components in fixed-point coordinates, and the exact
//! linear blend used when a lookup falls between two recorded samples.
//!
//! Components are plain signed integers in whatever fixed-point unit the
//! producer chooses (the chain never interprets the unit). Blending between
//! two samples uses an exact rational weight taken from the bracketing
//! timestamps, so the result is pinned down to the integer.

use vstd::prelude::*;
use vstd::arithmetic::div_mod::{
    lemma_div_is_ordered, lemma_div_multiples_vanish, lemma_div_pos_is_pos,
};
use vstd::arithmetic::mul::{lemma_mul_inequality, lemma_mul_nonnegative, lemma_mul_upper_bound};

verus! {

/// A translation vector in fixed-point coordinates.
#[derive(Clone, Copy, Debug, PartialEq, Eq, Structural)]
pub struct Vector3 {
    pub x: i64,
    pub y: i64,
    pub z: i64,
}

/// A rotation as quaternion components in fixed-point coordinates.
#[derive(Clone, Copy, Debug, PartialEq, Eq, Structural)]
pub struct Quaternion {
    pub x: i64,
    pub y: i64,
    pub z: i64,
    pub w: i64,
}

/// A rigid transform: a translation plus a rotation.
#[derive(Clone, Copy, Debug, PartialEq, Eq, Structural)]
pub struct Transform {
    pub translation: Vector3,
    pub rotation: Quaternion,
}

/// The blend of components `a` (older) and `b` (newer) at `d` nanoseconds
/// past the older stamp out of a bracket `t` nanoseconds wide: the value
/// `b + (a - b) * (t - d) / t`, with the division truncated toward zero.
/// At `d == 0` it is `a`, at `d == t` it is `b`.
pub open spec fn lerp_val(a: int, b: int, d: int, t: int) -> int
    recommends
        0 < t,
        0 <= d <= t,
{
    if a >= b {
        b + ((a - b) * (t - d)) / t
    } else {
        b - ((b - a) * (t - d)) / t
    }
}

/// The componentwise blend of two transforms at `d` out of `t` nanoseconds.
pub open spec fn interpolate_spec(t1: Transform, t2: Transform, d: int, t: int) -> Transform {
    Transform {
        translation: Vector3 {
            x: lerp_val(t1.translation.x as int, t2.translation.x as int, d, t) as i64,
            y: lerp_val(t1.translation.y as int, t2.translation.y as int, d, t) as i64,
            z: lerp_val(t1.translation.z as int, t2.translation.z as int, d, t) as i64,
        },
        rotation: Quaternion {
            x: lerp_val(t1.rotation.x as int, t2.rotation.x as int, d, t) as i64,
            y: lerp_val(t1.rotation.y as int, t2.rotation.y as int, d, t) as i64,
            z: lerp_val(t1.rotation.z as int, t2.rotation.z as int, d, t) as i64,
            w: lerp_val(t1.rotation.w as int, t2.rotation.w as int, d, t) as i64,
        },
    }
}

/// A truncated quotient of a scaled non-negative difference never exceeds
/// the difference itself.
proof fn lemma_scaled_quotient_bounds(diff: int, w: int, t: int)
    requires
        0 <= diff,
        0 <= w <= t,
        0 < t,
    ensures
        0 <= (diff * w) / t <= diff,
{
    lemma_mul_nonnegative(diff, w);
    lemma_div_pos_is_pos(diff * w, t);
    lemma_mul_inequality(w, t, diff);
    assert(w * diff == diff * w);
    assert(t * diff == diff * t);
    lemma_div_is_ordered(diff * w, diff * t, t);
    lemma_div_multiples_vanish(diff, t);
    assert(t * diff == diff * t);
}

/// One blended component, exactly as `lerp_val` states it.
pub fn lerp_component(a: i64, b: i64, d: u64, t: u64) -> (r: i64)
    requires
        0 < t,
        d <= t,
    ensures
        r as int == lerp_val(a as int, b as int, d as int, t as int),
        a <= b ==> a <= r <= b,
        b <= a ==> b <= r <= a,
{
    let w: u64 = t - d;
    if a >= b {
        let diff: u128 = (a as i128 - b as i128) as u128;
        assert(diff as int == a as int - b as int);
        proof {
            lemma_mul_upper_bound(diff as int, u64::MAX as int, w as int, u64::MAX as int);
        }
        let q: u128 = (diff * (w as u128)) / (t as u128);
        proof {
            lemma_scaled_quotient_bounds(diff as int, w as int, t as int);
        }
        let r: i128 = (b as i128) + (q as i128);
        r as i64
    } else {
        let diff: u128 = (b as i128 - a as i128) as u128;
        assert(diff as int == b as int - a as int);
        proof {
            lemma_mul_upper_bound(diff as int, u64::MAX as int, w as int, u64::MAX as int);
        }
        let q: u128 = (diff * (w as u128)) / (t as u128);
        proof {
            lemma_scaled_quotient_bounds(diff as int, w as int, t as int);
        }
        let r: i128 = (b as i128) - (q as i128);
        r as i64
    }
}

/// The blend of two transforms at `d` nanoseconds past the older stamp out
/// of a bracket `t` nanoseconds wide, componentwise over translation and
/// rotation. The weight convention follows the stamps: at `d == 0` the
/// result is `t1`, at `d == t` it is `t2`.
pub fn interpolate(t1: &Transform, t2: &Transform, d: u64, t: u64) -> (r: Transform)
    requires
        0 < t,
        d <= t,
    ensures
        r == interpolate_spec(*t1, *t2, d as int, t as int),
{
    Transform {
        translation: Vector3 {
            x: lerp_component(t1.translation.x, t2.translation.x, d, t),
            y: lerp_component(t1.translation.y, t2.translation.y, d, t),
            z: lerp_component(t1.translation.z, t2.translation.z, d, t),
        },
        rotation: Quaternion {
            x: lerp_component(t1.rotation.x, t2.rotation.x, d, t),
            y: lerp_component(t1.rotation.y, t2.rotation.y, d, t),
            z: lerp_component(t1.rotation.z, t2.rotation.z, d, t),
            w: lerp_component(t1.rotation.w, t2.rotation.w, d, t),
        },
    }
}

} // verus!
