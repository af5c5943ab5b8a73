//! The bit-pattern model of IEEE-754 values.
//!
//! Every floating-point value in this crate is carried as its bit pattern: a
//! `u32` for single precision, a `u64` for double precision. A pattern splits
//! into a sign (the top bit) and a magnitude (the rest). The magnitude tells
//! the class of the value: below the infinity pattern it is finite, equal to
//! it an infinity, above it a NaN.
//!
//! Ordering of non-NaN values is captured by an integer *key*: the magnitude,
//! negated when the sign bit is set. Two patterns compare (as the floats they
//! encode) exactly as their keys compare; both zeros have key `0`, so they
//! compare equal. Stepping to an adjacent representable value moves the key by
//! exactly one.

use vstd::prelude::*;

use vstd::arithmetic::power2::lemma2_to64;
use vstd::arithmetic::power2::lemma_pow2_strictly_increases;
use vstd::arithmetic::power2::lemma_pow2_unfold;
use vstd::arithmetic::power2::pow2;

verus! {

/// Bit pattern of `+0.0f32`.
pub const F32_POS_ZERO: u32 = 0x0000_0000;

/// Bit pattern of `-0.0f32`.
pub const F32_NEG_ZERO: u32 = 0x8000_0000;

/// Bit pattern of `f32::INFINITY`.
pub const F32_POS_INF: u32 = 0x7F80_0000;

/// Bit pattern of `f32::NEG_INFINITY`.
pub const F32_NEG_INF: u32 = 0xFF80_0000;

/// Bit pattern of the canonical quiet `f32` NaN.
pub const F32_QNAN: u32 = 0x7FC0_0000;

/// Bit pattern of `1.0f32`.
pub const F32_ONE: u32 = 0x3F80_0000;

/// Bit pattern of `-1.0f32`.
pub const F32_NEG_ONE: u32 = 0xBF80_0000;

/// Bit pattern of `+0.0f64`.
pub const F64_POS_ZERO: u64 = 0x0000_0000_0000_0000;

/// Bit pattern of `-0.0f64`.
pub const F64_NEG_ZERO: u64 = 0x8000_0000_0000_0000;

/// Bit pattern of `f64::INFINITY`.
pub const F64_POS_INF: u64 = 0x7FF0_0000_0000_0000;

/// Bit pattern of `f64::NEG_INFINITY`.
pub const F64_NEG_INF: u64 = 0xFFF0_0000_0000_0000;

/// Bit pattern of the canonical quiet `f64` NaN.
pub const F64_QNAN: u64 = 0x7FF8_0000_0000_0000;

/// Bit pattern of `1.0f64`.
pub const F64_ONE: u64 = 0x3FF0_0000_0000_0000;

/// Bit pattern of `-1.0f64`.
pub const F64_NEG_ONE: u64 = 0xBFF0_0000_0000_0000;

/// Whether the sign bit of a single-precision pattern is set.
pub open spec fn sign32(b: u32) -> bool {
    b >= 0x8000_0000
}

/// The magnitude of a single-precision pattern: the pattern with its sign bit
/// cleared.
pub open spec fn mag32(b: u32) -> u32 {
    if b >= 0x8000_0000 {
        (b - 0x8000_0000) as u32
    } else {
        b
    }
}

/// The ordering key of a single-precision pattern: non-NaN patterns compare,
/// as floating-point values, exactly as their keys compare. Both zeros have
/// key `0`.
pub open spec fn key32(b: u32) -> int {
    if sign32(b) {
        -(mag32(b) as int)
    } else {
        mag32(b) as int
    }
}

/// Whether a single-precision pattern encodes a NaN.
pub open spec fn is_nan32(b: u32) -> bool {
    mag32(b) > F32_POS_INF
}

/// Whether a single-precision pattern encodes an infinity.
pub open spec fn is_inf32(b: u32) -> bool {
    mag32(b) == F32_POS_INF
}

/// Whether a single-precision pattern encodes a finite value.
pub open spec fn is_finite32(b: u32) -> bool {
    mag32(b) < F32_POS_INF
}

/// The IEEE-754 `<=` on single-precision patterns: false when either side is
/// a NaN, otherwise the key comparison.
pub open spec fn float_le32(a: u32, b: u32) -> bool {
    !is_nan32(a) && !is_nan32(b) && key32(a) <= key32(b)
}

/// The IEEE-754 `<` on single-precision patterns.
pub open spec fn float_lt32(a: u32, b: u32) -> bool {
    !is_nan32(a) && !is_nan32(b) && key32(a) < key32(b)
}

/// The IEEE-754 `==` on single-precision patterns: both zeros are equal, a
/// NaN equals nothing.
pub open spec fn float_eq32(a: u32, b: u32) -> bool {
    !is_nan32(a) && !is_nan32(b) && key32(a) == key32(b)
}

/// The smaller of two single-precision patterns, ignoring NaN operands, with
/// ties resolved toward the first operand.
pub open spec fn min_bits32(a: u32, b: u32) -> u32 {
    if is_nan32(a) {
        b
    } else if is_nan32(b) {
        a
    } else if key32(b) < key32(a) {
        b
    } else {
        a
    }
}

/// The larger of two single-precision patterns, ignoring NaN operands, with
/// ties resolved toward the first operand.
pub open spec fn max_bits32(a: u32, b: u32) -> u32 {
    if is_nan32(a) {
        b
    } else if is_nan32(b) {
        a
    } else if key32(b) > key32(a) {
        b
    } else {
        a
    }
}

/// The sign of a single-precision pattern as the pattern of `-1.0` or `1.0`,
/// with NaN mapped to the canonical quiet NaN. Both infinities and both
/// zeros have a sign, so only a NaN input yields a NaN.
pub open spec fn signum_bits32(b: u32) -> u32 {
    if is_nan32(b) {
        F32_QNAN
    } else if sign32(b) {
        F32_NEG_ONE
    } else {
        F32_ONE
    }
}

/// The single-precision pattern with the sign bit toggled: IEEE-754 negation.
pub open spec fn flip_sign32(b: u32) -> u32 {
    if b >= 0x8000_0000 {
        (b - 0x8000_0000) as u32
    } else {
        (b + 0x8000_0000) as u32
    }
}

/// Whether the sign bit of a double-precision pattern is set.
pub open spec fn sign64(b: u64) -> bool {
    b >= 0x8000_0000_0000_0000
}

/// The magnitude of a double-precision pattern.
pub open spec fn mag64(b: u64) -> u64 {
    if b >= 0x8000_0000_0000_0000 {
        (b - 0x8000_0000_0000_0000) as u64
    } else {
        b
    }
}

/// The ordering key of a double-precision pattern.
pub open spec fn key64(b: u64) -> int {
    if sign64(b) {
        -(mag64(b) as int)
    } else {
        mag64(b) as int
    }
}

/// Whether a double-precision pattern encodes a NaN.
pub open spec fn is_nan64(b: u64) -> bool {
    mag64(b) > F64_POS_INF
}

/// Whether a double-precision pattern encodes a finite value.
pub open spec fn is_finite64(b: u64) -> bool {
    mag64(b) < F64_POS_INF
}

/// The IEEE-754 `<=` on double-precision patterns.
pub open spec fn float_le64(a: u64, b: u64) -> bool {
    !is_nan64(a) && !is_nan64(b) && key64(a) <= key64(b)
}

/// Double-precision counterpart of `signum_bits32`.
pub open spec fn signum_bits64(b: u64) -> u64 {
    if is_nan64(b) {
        F64_QNAN
    } else if sign64(b) {
        F64_NEG_ONE
    } else {
        F64_ONE
    }
}

/// The double-precision pattern with the sign bit toggled.
pub open spec fn flip_sign64(b: u64) -> u64 {
    if b >= 0x8000_0000_0000_0000 {
        (b - 0x8000_0000_0000_0000) as u64
    } else {
        (b + 0x8000_0000_0000_0000) as u64
    }
}

/// The number of doublings that bring a positive single-precision magnitude
/// below the implicit-bit position up into `[2^23, 2^24)` — the
/// normalization count of a subnormal fraction.
pub open spec fn norm_shifts(m: u32) -> nat
    decreases 0x0100_0000 - m,
{
    if m == 0 || m >= 0x0080_0000 {
        0
    } else {
        1 + norm_shifts((m * 2) as u32)
    }
}

/// The magnitude after those doublings: in `[2^23, 2^24)` for a positive
/// below-implicit-bit input.
pub open spec fn norm_mag(m: u32) -> u32
    decreases 0x0100_0000 - m,
{
    if m == 0 || m >= 0x0080_0000 {
        m
    } else {
        norm_mag((m * 2) as u32)
    }
}

/// The magnitude of the double-precision pattern that encodes the same value
/// as a single-precision magnitude. A subnormal is normalized, losing one
/// exponent step per doubling below the bias difference; a normal value is
/// re-biased (1023 - 127 = 896) with its fraction moved up 29 bits; the
/// infinity magnitude maps to the infinity magnitude; any NaN magnitude maps
/// to the canonical quiet NaN magnitude.
pub open spec fn wide_mag64(m: u32) -> int {
    if m == 0 {
        0
    } else if m < 0x0080_0000 {
        (897 - norm_shifts(m)) * 0x10_0000_0000_0000 + (norm_mag(m) - 0x0080_0000) * 0x2000_0000
    } else if m < 0x7F80_0000 {
        896 * 0x10_0000_0000_0000 + m * 0x2000_0000
    } else if m == 0x7F80_0000 {
        0x7FF0_0000_0000_0000
    } else {
        0x7FF8_0000_0000_0000
    }
}

/// The double-precision pattern that encodes the same value as a
/// single-precision pattern: the IEEE-754 widening conversion, which is
/// exact, with any NaN mapped to the canonical quiet NaN of its sign.
pub open spec fn wide64(b: u32) -> u64 {
    if sign32(b) {
        (0x8000_0000_0000_0000 + wide_mag64(mag32(b))) as u64
    } else {
        wide_mag64(mag32(b)) as u64
    }
}

/// Normalization really is repeated doubling: the normalized magnitude is
/// the input scaled by two to the shift count, it lands in `[2^23, 2^24)`,
/// and at most 23 doublings are ever needed.
proof fn lemma_norm_props(m: u32)
    requires
        0 < m < 0x0080_0000,
    ensures
        0x0080_0000 <= norm_mag(m) < 0x0100_0000,
        norm_mag(m) == m * pow2(norm_shifts(m)),
        norm_shifts(m) <= 23,
    decreases 0x0100_0000 - m,
{
    lemma2_to64();
    if m * 2 >= 0x0080_0000 {
        assert(norm_shifts((m * 2) as u32) == 0);
        assert(norm_mag((m * 2) as u32) == (m * 2) as u32);
        assert(norm_shifts(m) == 1);
        assert(norm_mag(m) == m * 2);
        assert(m * 2 == m * pow2(1));
    } else {
        let m2: u32 = (m * 2) as u32;
        lemma_norm_props(m2);
        let s2 = norm_shifts(m2);
        lemma_pow2_unfold(s2 + 1);
        assert(norm_mag(m) == m2 * pow2(s2));
        assert(m2 * pow2(s2) == m * (2 * pow2(s2))) by (nonlinear_arith)
            requires
                m2 == m * 2,
        ;
        assert(norm_mag(m) == m * pow2(norm_shifts(m)));
        if norm_shifts(m) > 23 {
            if norm_shifts(m) > 24 {
                lemma_pow2_strictly_increases(24, norm_shifts(m));
            }
            assert(pow2(norm_shifts(m)) >= 0x0100_0000);
            assert(pow2(norm_shifts(m)) <= m * pow2(norm_shifts(m))) by (nonlinear_arith)
                requires
                    m >= 1,
            ;
        }
    }
}

/// Widening preserves the sign and the class of a pattern: its magnitude is
/// `wide_mag64` of the single-precision magnitude, NaNs map to NaNs, finite
/// values to finite values, and zeros to zeros.
pub proof fn lemma_wide64_class(b: u32)
    ensures
        sign64(wide64(b)) == sign32(b),
        mag64(wide64(b)) == wide_mag64(mag32(b)),
        is_nan64(wide64(b)) == is_nan32(b),
        is_finite64(wide64(b)) == is_finite32(b),
        (mag64(wide64(b)) == 0) == (mag32(b) == 0),
{
    if 0 < mag32(b) < 0x0080_0000 {
        lemma_norm_props(mag32(b));
    }
}

/// `wide_mag64` is strictly increasing on non-NaN magnitudes: a wider
/// exponent range and a longer fraction leave the relative order of encoded
/// magnitudes unchanged.
proof fn lemma_wide_mag64_increases(m1: u32, m2: u32)
    requires
        m1 < m2,
        m2 <= 0x7F80_0000,
    ensures
        wide_mag64(m1) < wide_mag64(m2),
{
    vstd::arithmetic::power2::lemma_pow2_pos(0);
    if 0 < m1 < 0x0080_0000 {
        lemma_norm_props(m1);
        vstd::arithmetic::power2::lemma_pow2_pos(norm_shifts(m1));
    }
    if 0 < m2 < 0x0080_0000 {
        lemma_norm_props(m2);
        vstd::arithmetic::power2::lemma_pow2_pos(norm_shifts(m2));
    }
    if 0 < m1 < 0x0080_0000 && 0 < m2 < 0x0080_0000 {
        let n1 = norm_shifts(m1);
        let n2 = norm_shifts(m2);
        if n1 < n2 {
            // Impossible: the larger magnitude cannot need more doublings.
            lemma_pow2_unfold(n1 + 1);
            if n1 + 1 < n2 {
                lemma_pow2_strictly_increases(n1 + 1, n2);
            }
            assert(m2 * pow2(n2) >= 0x0100_0000) by (nonlinear_arith)
                requires
                    pow2(n2) >= 2 * pow2(n1),
                    m1 * pow2(n1) >= 0x0080_0000,
                    m2 >= m1,
                    pow2(n1) >= 1,
            ;
        } else if n1 == n2 {
            assert(m1 * pow2(n1) < m2 * pow2(n1)) by (nonlinear_arith)
                requires
                    m1 < m2,
                    pow2(n1) >= 1,
            ;
        }
        // With n1 > n2 the exponent brackets are disjoint:
        // wide_mag64(m1) < (898 - n1) * 2^52 <= (897 - n2) * 2^52 <= wide_mag64(m2).
    }
}

/// Widening preserves the IEEE-754 order: two non-NaN single-precision
/// patterns compare exactly as their widened double-precision patterns do.
pub proof fn lemma_wide64_le(a: u32, b: u32)
    requires
        !is_nan32(a),
        !is_nan32(b),
    ensures
        float_le64(wide64(a), wide64(b)) == float_le32(a, b),
{
    lemma_wide64_class(a);
    lemma_wide64_class(b);
    if mag32(a) < mag32(b) {
        lemma_wide_mag64_increases(mag32(a), mag32(b));
    } else if mag32(b) < mag32(a) {
        lemma_wide_mag64_increases(mag32(b), mag32(a));
    }
}

/// Widening commutes with toggling the sign bit.
pub proof fn lemma_wide64_flip(b: u32)
    ensures
        wide64(flip_sign32(b)) == flip_sign64(wide64(b)),
{
    lemma_flip_sign32(b);
    lemma_wide64_class(b);
}

/// Executable widening of a single-precision pattern to the double-precision
/// pattern with the same value. Widening is exact, so it is computed here
/// from the sign, exponent and fraction fields, with no machine conversion
/// handed in; a subnormal fraction is normalized by a doubling loop.
pub fn f32_widen(b: u32) -> (r: u64)
    ensures
        r == wide64(b),
{
    let m: u32 = f32_mag(b);
    let s: u64 = if b >= 0x8000_0000 {
        0x8000_0000_0000_0000
    } else {
        0
    };
    let wm: u64 = if m == 0 {
        0
    } else if m < 0x0080_0000 {
        proof {
            lemma_norm_props(m);
        }
        let mut mm: u32 = m;
        let mut n: u32 = 0;
        while mm < 0x0080_0000
            invariant
                0 < mm < 0x0100_0000,
                norm_mag(mm) == norm_mag(m),
                norm_shifts(m) == n + norm_shifts(mm),
                norm_shifts(m) <= 23,
            decreases 0x0100_0000 - mm,
        {
            mm = mm * 2;
            n = n + 1;
        }
        ((897 - n) as u64) * 0x10_0000_0000_0000 + ((mm - 0x0080_0000) as u64) * 0x2000_0000
    } else if m < 0x7F80_0000 {
        896 * 0x10_0000_0000_0000 + (m as u64) * 0x2000_0000
    } else if m == 0x7F80_0000 {
        0x7FF0_0000_0000_0000
    } else {
        0x7FF8_0000_0000_0000
    };
    s + wm
}

/// Toggling the sign bit negates the key and keeps the magnitude, so it maps
/// each class of pattern (finite, infinite, NaN) to itself.
pub proof fn lemma_flip_sign32(b: u32)
    ensures
        mag32(flip_sign32(b)) == mag32(b),
        key32(flip_sign32(b)) == -key32(b),
        is_nan32(flip_sign32(b)) == is_nan32(b),
        flip_sign32(flip_sign32(b)) == b,
{
}

/// Double-precision counterpart of `lemma_flip_sign32`.
pub proof fn lemma_flip_sign64(b: u64)
    ensures
        mag64(flip_sign64(b)) == mag64(b),
        key64(flip_sign64(b)) == -key64(b),
        is_nan64(flip_sign64(b)) == is_nan64(b),
        flip_sign64(flip_sign64(b)) == b,
{
}

/// `min_bits32` returns a pattern no greater than each non-NaN operand, and
/// is itself non-NaN as soon as one operand is.
pub proof fn lemma_min_bits32(a: u32, b: u32)
    ensures
        !is_nan32(a) ==> float_le32(min_bits32(a, b), a),
        !is_nan32(b) ==> float_le32(min_bits32(a, b), b),
        min_bits32(a, b) == a || min_bits32(a, b) == b,
{
}

/// `max_bits32` returns a pattern no smaller than each non-NaN operand, and
/// is itself non-NaN as soon as one operand is.
pub proof fn lemma_max_bits32(a: u32, b: u32)
    ensures
        !is_nan32(a) ==> float_le32(a, max_bits32(a, b)),
        !is_nan32(b) ==> float_le32(b, max_bits32(a, b)),
        max_bits32(a, b) == a || max_bits32(a, b) == b,
{
}

/// Executable NaN test on a single-precision pattern.
pub fn f32_is_nan(b: u32) -> (r: bool)
    ensures
        r == is_nan32(b),
{
    let m: u32 = if b >= 0x8000_0000 {
        b - 0x8000_0000
    } else {
        b
    };
    m > F32_POS_INF
}

/// Executable infinity test on a single-precision pattern.
pub fn f32_is_inf(b: u32) -> (r: bool)
    ensures
        r == is_inf32(b),
{
    let m: u32 = if b >= 0x8000_0000 {
        b - 0x8000_0000
    } else {
        b
    };
    m == F32_POS_INF
}

/// Executable finiteness test on a single-precision pattern.
pub fn f32_is_finite(b: u32) -> (r: bool)
    ensures
        r == is_finite32(b),
{
    let m: u32 = if b >= 0x8000_0000 {
        b - 0x8000_0000
    } else {
        b
    };
    m < F32_POS_INF
}

/// The ordering key of a single-precision pattern, as a machine integer.
fn f32_key(b: u32) -> (k: i64)
    ensures
        k == key32(b),
{
    if b >= 0x8000_0000 {
        let m: u32 = b - 0x8000_0000;
        -(m as i64)
    } else {
        b as i64
    }
}

/// Executable IEEE-754 `<=` on single-precision patterns.
pub fn f32_le(a: u32, b: u32) -> (r: bool)
    ensures
        r == float_le32(a, b),
{
    if f32_is_nan(a) || f32_is_nan(b) {
        false
    } else {
        f32_key(a) <= f32_key(b)
    }
}

/// Executable IEEE-754 `<` on single-precision patterns.
pub fn f32_lt(a: u32, b: u32) -> (r: bool)
    ensures
        r == float_lt32(a, b),
{
    if f32_is_nan(a) || f32_is_nan(b) {
        false
    } else {
        f32_key(a) < f32_key(b)
    }
}

/// Executable IEEE-754 `==` on single-precision patterns.
pub fn f32_eq(a: u32, b: u32) -> (r: bool)
    ensures
        r == float_eq32(a, b),
{
    if f32_is_nan(a) || f32_is_nan(b) {
        false
    } else {
        f32_key(a) == f32_key(b)
    }
}

/// Executable NaN-ignoring minimum of two single-precision patterns.
pub fn f32_min(a: u32, b: u32) -> (r: u32)
    ensures
        r == min_bits32(a, b),
{
    if f32_is_nan(a) {
        b
    } else if f32_is_nan(b) {
        a
    } else if f32_key(b) < f32_key(a) {
        b
    } else {
        a
    }
}

/// Executable NaN-ignoring maximum of two single-precision patterns.
pub fn f32_max(a: u32, b: u32) -> (r: u32)
    ensures
        r == max_bits32(a, b),
{
    if f32_is_nan(a) {
        b
    } else if f32_is_nan(b) {
        a
    } else if f32_key(b) > f32_key(a) {
        b
    } else {
        a
    }
}

/// Executable sign-bit toggle of a single-precision pattern.
pub fn f32_flip_sign(b: u32) -> (r: u32)
    ensures
        r == flip_sign32(b),
{
    if b >= 0x8000_0000 {
        b - 0x8000_0000
    } else {
        b + 0x8000_0000
    }
}

/// Executable magnitude of a single-precision pattern.
pub fn f32_mag(b: u32) -> (r: u32)
    ensures
        r == mag32(b),
{
    if b >= 0x8000_0000 {
        b - 0x8000_0000
    } else {
        b
    }
}

/// Executable sign-bit test of a single-precision pattern.
pub fn f32_sign(b: u32) -> (r: bool)
    ensures
        r == sign32(b),
{
    b >= 0x8000_0000
}

/// Executable sign extraction of a single-precision pattern.
pub fn f32_signum(b: u32) -> (r: u32)
    ensures
        r == signum_bits32(b),
{
    if f32_is_nan(b) {
        F32_QNAN
    } else if b >= 0x8000_0000 {
        F32_NEG_ONE
    } else {
        F32_ONE
    }
}

/// Executable sign extraction of a double-precision pattern.
pub fn f64_signum(b: u64) -> (r: u64)
    ensures
        r == signum_bits64(b),
{
    if f64_is_nan(b) {
        F64_QNAN
    } else if b >= 0x8000_0000_0000_0000 {
        F64_NEG_ONE
    } else {
        F64_ONE
    }
}

/// Executable NaN test on a double-precision pattern.
pub fn f64_is_nan(b: u64) -> (r: bool)
    ensures
        r == is_nan64(b),
{
    let m: u64 = if b >= 0x8000_0000_0000_0000 {
        b - 0x8000_0000_0000_0000
    } else {
        b
    };
    m > F64_POS_INF
}

/// The ordering key of a double-precision pattern, as a machine integer. The
/// magnitude never exceeds `i64::MAX`, so the key always fits.
fn f64_key(b: u64) -> (k: i64)
    ensures
        k == key64(b),
{
    if b >= 0x8000_0000_0000_0000 {
        let m: u64 = b - 0x8000_0000_0000_0000;
        -(m as i64)
    } else {
        b as i64
    }
}

/// Executable IEEE-754 `<=` on double-precision patterns.
pub fn f64_le(a: u64, b: u64) -> (r: bool)
    ensures
        r == float_le64(a, b),
{
    if f64_is_nan(a) || f64_is_nan(b) {
        false
    } else {
        f64_key(a) <= f64_key(b)
    }
}

/// Executable sign-bit toggle of a double-precision pattern.
pub fn f64_flip_sign(b: u64) -> (r: u64)
    ensures
        r == flip_sign64(b),
{
    if b >= 0x8000_0000_0000_0000 {
        b - 0x8000_0000_0000_0000
    } else {
        b + 0x8000_0000_0000_0000
    }
}

/// Executable magnitude of a double-precision pattern.
pub fn f64_mag(b: u64) -> (r: u64)
    ensures
        r == mag64(b),
{
    if b >= 0x8000_0000_0000_0000 {
        b - 0x8000_0000_0000_0000
    } else {
        b
    }
}

} // verus!
