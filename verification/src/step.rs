//! Bit-exact stepping to the adjacent representable floating-point value.
//!
//! `next_f32_up` returns the pattern of the smallest representable value
//! strictly greater than its argument, `next_f32_down` the largest strictly
//! smaller one, with two deliberate policies at the edges: an infinity
//! saturates in its own direction, and stepping across the signed-zero
//! boundary only changes the sign representation. `next_f64_up` and
//! `next_f64_down` are the same functions at double precision.
//!
//! On the ordering key of the model this is exact: away from the handled
//! edges, stepping up adds one to the key and stepping down subtracts one,
//! which is what makes the result the nearest neighbor.

use vstd::prelude::*;

use crate::bits::F32_NEG_INF;
use crate::bits::F32_NEG_ZERO;
use crate::bits::F32_POS_INF;
use crate::bits::F32_POS_ZERO;
use crate::bits::F64_NEG_INF;
use crate::bits::F64_NEG_ZERO;
use crate::bits::F64_POS_INF;
use crate::bits::F64_POS_ZERO;
use crate::bits::is_finite32;
use crate::bits::is_finite64;
use crate::bits::is_nan32;
use crate::bits::is_nan64;
use crate::bits::key32;
use crate::bits::key64;
use crate::bits::mag32;
use crate::bits::mag64;

verus! {

/// The pattern one step up from `b`: positive infinity saturates, negative
/// zero crosses to positive zero, and otherwise the pattern moves one ulp away
/// from zero when non-negative, one ulp toward zero when negative.
pub open spec fn next_up32(b: u32) -> u32 {
    if b == F32_POS_INF {
        b
    } else if b == F32_NEG_ZERO {
        F32_POS_ZERO
    } else if b < 0x8000_0000 {
        (b + 1) as u32
    } else {
        (b - 1) as u32
    }
}

/// The pattern one step down from `b`: negative infinity saturates, positive
/// zero crosses to negative zero, and otherwise the pattern moves one ulp away
/// from zero when negative, one ulp toward zero when positive. Decrementing
/// from the all-ones NaN pattern wraps, as the unsigned decrement does.
pub open spec fn next_down32(b: u32) -> u32 {
    if b == F32_NEG_INF {
        b
    } else if b == F32_POS_ZERO {
        F32_NEG_ZERO
    } else if b >= 0x8000_0000 {
        if b == 0xFFFF_FFFF {
            0
        } else {
            (b + 1) as u32
        }
    } else {
        (b - 1) as u32
    }
}

/// Double-precision counterpart of `next_up32`.
pub open spec fn next_up64(b: u64) -> u64 {
    if b == F64_POS_INF {
        b
    } else if b == F64_NEG_ZERO {
        F64_POS_ZERO
    } else if b < 0x8000_0000_0000_0000 {
        (b + 1) as u64
    } else {
        (b - 1) as u64
    }
}

/// Double-precision counterpart of `next_down32`.
pub open spec fn next_down64(b: u64) -> u64 {
    if b == F64_NEG_INF {
        b
    } else if b == F64_POS_ZERO {
        F64_NEG_ZERO
    } else if b >= 0x8000_0000_0000_0000 {
        if b == 0xFFFF_FFFF_FFFF_FFFF {
            0
        } else {
            (b + 1) as u64
        }
    } else {
        (b - 1) as u64
    }
}

/// The smallest representable single-precision value strictly greater than
/// the argument, as bit patterns; positive infinity saturates and negative
/// zero steps to positive zero.
pub fn next_f32_up(b: u32) -> (r: u32)
    ensures
        r == next_up32(b),
        b == F32_POS_INF ==> r == b,
        b == F32_NEG_ZERO ==> r == F32_POS_ZERO,
        !is_nan32(b) && b != F32_POS_INF && b != F32_NEG_ZERO ==> key32(r) == key32(b) + 1,
        !is_nan32(b) ==> !is_nan32(r),
{
    if b == F32_POS_INF {
        b
    } else if b == F32_NEG_ZERO {
        F32_POS_ZERO
    } else if b < 0x8000_0000 {
        b + 1
    } else {
        b - 1
    }
}

/// The largest representable single-precision value strictly smaller than the
/// argument, as bit patterns; negative infinity saturates and positive zero
/// steps to negative zero.
pub fn next_f32_down(b: u32) -> (r: u32)
    ensures
        r == next_down32(b),
        b == F32_NEG_INF ==> r == b,
        b == F32_POS_ZERO ==> r == F32_NEG_ZERO,
        !is_nan32(b) && b != F32_NEG_INF && b != F32_POS_ZERO ==> key32(r) == key32(b) - 1,
        !is_nan32(b) ==> !is_nan32(r),
{
    if b == F32_NEG_INF {
        b
    } else if b == F32_POS_ZERO {
        F32_NEG_ZERO
    } else if b >= 0x8000_0000 {
        if b == 0xFFFF_FFFF {
            0
        } else {
            b + 1
        }
    } else {
        b - 1
    }
}

/// The smallest representable double-precision value strictly greater than
/// the argument, as bit patterns.
pub fn next_f64_up(b: u64) -> (r: u64)
    ensures
        r == next_up64(b),
        b == F64_POS_INF ==> r == b,
        b == F64_NEG_ZERO ==> r == F64_POS_ZERO,
        !is_nan64(b) && b != F64_POS_INF && b != F64_NEG_ZERO ==> key64(r) == key64(b) + 1,
        !is_nan64(b) ==> !is_nan64(r),
{
    if b == F64_POS_INF {
        b
    } else if b == F64_NEG_ZERO {
        F64_POS_ZERO
    } else if b < 0x8000_0000_0000_0000 {
        b + 1
    } else {
        b - 1
    }
}

/// The largest representable double-precision value strictly smaller than the
/// argument, as bit patterns.
pub fn next_f64_down(b: u64) -> (r: u64)
    ensures
        r == next_down64(b),
        b == F64_NEG_INF ==> r == b,
        b == F64_POS_ZERO ==> r == F64_NEG_ZERO,
        !is_nan64(b) && b != F64_NEG_INF && b != F64_POS_ZERO ==> key64(r) == key64(b) - 1,
        !is_nan64(b) ==> !is_nan64(r),
{
    if b == F64_NEG_INF {
        b
    } else if b == F64_POS_ZERO {
        F64_NEG_ZERO
    } else if b >= 0x8000_0000_0000_0000 {
        if b == 0xFFFF_FFFF_FFFF_FFFF {
            0
        } else {
            b + 1
        }
    } else {
        b - 1
    }
}

/// Stepping up and stepping down are inverse to each other on every finite
/// non-zero single-precision pattern.
pub proof fn lemma_step_round_trip_32(b: u32)
    requires
        is_finite32(b),
        mag32(b) != 0,
    ensures
        next_down32(next_up32(b)) == b,
        next_up32(next_down32(b)) == b,
{
}

/// Stepping up and stepping down are inverse to each other on every finite
/// non-zero double-precision pattern.
pub proof fn lemma_step_round_trip_64(b: u64)
    requires
        is_finite64(b),
        mag64(b) != 0,
    ensures
        next_down64(next_up64(b)) == b,
        next_up64(next_down64(b)) == b,
{
}

/// Stepping across the signed-zero boundary is bit-exact: up from negative
/// zero gives positive zero, down from positive zero gives negative zero.
pub proof fn lemma_zero_boundary_32()
    ensures
        next_up32(F32_NEG_ZERO) == F32_POS_ZERO,
        next_down32(F32_POS_ZERO) == F32_NEG_ZERO,
{
}

/// Double-precision counterpart of `lemma_zero_boundary_32`.
pub proof fn lemma_zero_boundary_64()
    ensures
        next_up64(F64_NEG_ZERO) == F64_POS_ZERO,
        next_down64(F64_POS_ZERO) == F64_NEG_ZERO,
{
}

/// Each infinity saturates when stepped further in its own direction.
pub proof fn lemma_infinity_saturation_32()
    ensures
        next_up32(F32_POS_INF) == F32_POS_INF,
        next_down32(F32_NEG_INF) == F32_NEG_INF,
{
}

/// Double-precision counterpart of `lemma_infinity_saturation_32`.
pub proof fn lemma_infinity_saturation_64()
    ensures
        next_up64(F64_POS_INF) == F64_POS_INF,
        next_down64(F64_NEG_INF) == F64_NEG_INF,
{
}

/// Stepping down never raises the key of a non-NaN pattern, and never turns
/// it into a NaN.
pub proof fn lemma_next_down_le_32(b: u32)
    requires
        !is_nan32(b),
    ensures
        !is_nan32(next_down32(b)),
        key32(next_down32(b)) <= key32(b),
{
}

/// Stepping up never lowers the key of a non-NaN pattern, and never turns it
/// into a NaN.
pub proof fn lemma_next_up_ge_32(b: u32)
    requires
        !is_nan32(b),
    ensures
        !is_nan32(next_up32(b)),
        key32(b) <= key32(next_up32(b)),
{
}

} // verus!
