//! A single-precision value that remembers how far off it might be.
//!
//! An `EFloat32` carries a best-estimate value together with a conservative
//! interval `[low, high]` meant to contain the true mathematical result of
//! the chain of operations that produced it, and a double-precision shadow
//! value used to validate the interval logic. All four fields are IEEE-754
//! bit patterns.
//!
//! What is exact is computed and verified here: negation, absolute value,
//! signum, the widening of a bound to double precision, every comparison,
//! and the invariant check. The machine's rounded floating-point arithmetic
//! cannot run inside the verified crate, so each rounded operation is split
//! in two: the caller performs the raw pointwise operations (sums, corner
//! products, square roots, ...) and hands their bit patterns in, and the
//! verified combinators here apply the interval policy — which corners to
//! keep, NaN-aware minima and maxima, the straddling-zero escape, and the
//! outward rounding of the final bounds — and pin the result down exactly in
//! their contracts.

use vstd::prelude::*;

use core::cmp::Ordering;

use crate::bits::F32_NEG_INF;
use crate::bits::F32_ONE;
use crate::bits::F32_POS_INF;
use crate::bits::F32_POS_ZERO;
use crate::bits::f32_eq;
use crate::bits::f32_flip_sign;
use crate::bits::f32_is_finite;
use crate::bits::f32_is_inf;
use crate::bits::f32_is_nan;
use crate::bits::f32_le;
use crate::bits::f32_lt;
use crate::bits::f32_mag;
use crate::bits::f32_max;
use crate::bits::f32_min;
use crate::bits::f32_signum;
use crate::bits::f32_widen;
use crate::bits::f64_flip_sign;
use crate::bits::f64_le;
use crate::bits::f64_mag;
use crate::bits::f64_signum;
use crate::bits::flip_sign32;
use crate::bits::flip_sign64;
use crate::bits::float_eq32;
use crate::bits::float_le32;
use crate::bits::float_le64;
use crate::bits::float_lt32;
use crate::bits::is_finite32;
use crate::bits::is_inf32;
use crate::bits::is_nan32;
use crate::bits::key32;
use crate::bits::lemma_flip_sign32;
use crate::bits::lemma_flip_sign64;
use crate::bits::lemma_max_bits32;
use crate::bits::lemma_min_bits32;
use crate::bits::lemma_wide64_class;
use crate::bits::lemma_wide64_flip;
use crate::bits::lemma_wide64_le;
use crate::bits::mag32;
use crate::bits::mag64;
use crate::bits::max_bits32;
use crate::bits::min_bits32;
use crate::bits::signum_bits32;
use crate::bits::signum_bits64;
use crate::bits::wide64;
use crate::step::lemma_next_down_le_32;
use crate::step::lemma_next_up_ge_32;
use crate::step::next_down32;
use crate::step::next_f32_down;
use crate::step::next_f32_up;
use crate::step::next_up32;

verus! {

/// A best-estimate single-precision value with a containment interval and a
/// double-precision shadow, all held as IEEE-754 bit patterns.
#[derive(Clone, Copy, Debug)]
pub struct EFloat32 {
    /// The best-estimate value, as ordinary arithmetic would compute it.
    pub v: u32,
    /// The conservative lower bound of the containment interval.
    pub low: u32,
    /// The conservative upper bound of the containment interval.
    pub high: u32,
    /// The double-precision shadow value, tracked to validate the interval.
    pub precise: u64,
}

/// The NaN-ignoring minimum of four patterns, grouped as the corner products
/// of two intervals are reduced.
pub open spec fn min4_bits32(p1: u32, p2: u32, p3: u32, p4: u32) -> u32 {
    min_bits32(min_bits32(p1, p2), min_bits32(p3, p4))
}

/// The NaN-ignoring maximum of four patterns.
pub open spec fn max4_bits32(p1: u32, p2: u32, p3: u32, p4: u32) -> u32 {
    max_bits32(max_bits32(p1, p2), max_bits32(p3, p4))
}

/// The NaN-ignoring minimum of eight patterns, reduced as the fused
/// multiply-add corners are.
pub open spec fn min8_bits32(
    c1: u32,
    c2: u32,
    c3: u32,
    c4: u32,
    c5: u32,
    c6: u32,
    c7: u32,
    c8: u32,
) -> u32 {
    min_bits32(
        min_bits32(min_bits32(min_bits32(c1, c2), min_bits32(c3, c4)), min_bits32(c5, c6)),
        min_bits32(c7, c8),
    )
}

/// The NaN-ignoring maximum of eight patterns.
pub open spec fn max8_bits32(
    c1: u32,
    c2: u32,
    c3: u32,
    c4: u32,
    c5: u32,
    c6: u32,
    c7: u32,
    c8: u32,
) -> u32 {
    max_bits32(
        max_bits32(max_bits32(max_bits32(c1, c2), max_bits32(c3, c4)), max_bits32(c5, c6)),
        max_bits32(c7, c8),
    )
}

impl EFloat32 {
    /// The interval bounds are ordered, unless one of them is infinite or a
    /// NaN, where the check is deliberately relaxed.
    pub open spec fn bounds_ordered(self) -> bool {
        (!is_inf32(self.low) && !is_nan32(self.low) && !is_inf32(self.high) && !is_nan32(
            self.high,
        )) ==> float_le32(self.low, self.high)
    }

    /// The shadow value lies between the bounds, widened to double
    /// precision, whenever the best-estimate value is finite.
    pub open spec fn shadow_contained(self) -> bool {
        is_finite32(self.v) ==> (float_le64(wide64(self.low), self.precise) && float_le64(
            self.precise,
            wide64(self.high),
        ))
    }

    /// The full well-formedness invariant: ordered bounds and a contained
    /// shadow value.
    pub open spec fn wf(self) -> bool {
        self.bounds_ordered() && self.shadow_contained()
    }

    /// An exact value: a zero-width interval around `v`, with the shadow set
    /// to `v` widened to double precision. Fully well-formed.
    pub fn new(v: u32) -> (r: EFloat32)
        ensures
            r == (EFloat32 { v, low: v, high: v, precise: wide64(v) }),
            r.wf(),
    {
        proof {
            lemma_wide64_class(v);
        }
        EFloat32 { v, low: v, high: v, precise: f32_widen(v) }
    }

    /// A value with an explicit absolute error bound. The caller supplies the
    /// machine differences `v - err` and `v + err` (as `v_minus_err` and
    /// `v_plus_err`); each bound is then rounded outward one step, so that the
    /// rounding of the bound computation itself can never exclude the true
    /// value. The shadow is `v` widened to double precision.
    pub fn new_with_err(v: u32, v_minus_err: u32, v_plus_err: u32) -> (r: EFloat32)
        ensures
            r.v == v,
            r.low == next_down32(v_minus_err),
            r.high == next_up32(v_plus_err),
            r.precise == wide64(v),
    {
        EFloat32 {
            v,
            low: next_f32_down(v_minus_err),
            high: next_f32_up(v_plus_err),
            precise: f32_widen(v),
        }
    }

    /// As `new_with_err`, but with the shadow value overridden by a
    /// caller-supplied exact reference — for harnesses that know the true
    /// mathematical answer.
    pub fn new_with_precise_err(v: u32, precise: u64, v_minus_err: u32, v_plus_err: u32) -> (r:
        EFloat32)
        ensures
            r.v == v,
            r.low == next_down32(v_minus_err),
            r.high == next_up32(v_plus_err),
            r.precise == precise,
    {
        EFloat32 {
            v,
            low: next_f32_down(v_minus_err),
            high: next_f32_up(v_plus_err),
            precise,
        }
    }

    /// Evaluates the well-formedness invariant: the bounds are ordered (with
    /// the comparison skipped when a bound is infinite or NaN), and, when the
    /// best-estimate value is finite, the shadow value lies between the
    /// bounds widened to double precision.
    pub fn check(&self) -> (ok: bool)
        ensures
            ok == self.wf(),
    {
        let bounds_ok: bool = if !f32_is_inf(self.low) && !f32_is_nan(self.low) && !f32_is_inf(
            self.high,
        ) && !f32_is_nan(self.high) {
            f32_le(self.low, self.high)
        } else {
            true
        };
        let shadow_ok: bool = if f32_is_finite(self.v) {
            let low_wide: u64 = f32_widen(self.low);
            let high_wide: u64 = f32_widen(self.high);
            f64_le(low_wide, self.precise) && f64_le(self.precise, high_wide)
        } else {
            true
        };
        bounds_ok && shadow_ok
    }

    /// The best-estimate value.
    pub fn value(&self) -> (r: u32)
        ensures
            r == self.v,
    {
        self.v
    }

    /// The upper bound of the containment interval.
    pub fn upper_bound(&self) -> (r: u32)
        ensures
            r == self.high,
    {
        self.high
    }

    /// The lower bound of the containment interval.
    pub fn lower_bound(&self) -> (r: u32)
        ensures
            r == self.low,
    {
        self.low
    }

    /// The double-precision shadow value.
    pub fn precise(&self) -> (r: u64)
        ensures
            r == self.precise,
    {
        self.precise
    }

    /// Whether the interval admits zero: `low <= 0.0 <= high`.
    pub fn is_zero(&self) -> (r: bool)
        ensures
            r == (float_le32(self.low, F32_POS_ZERO) && float_le32(F32_POS_ZERO, self.high)),
    {
        f32_le(self.low, F32_POS_ZERO) && f32_le(F32_POS_ZERO, self.high)
    }

    /// Whether the interval admits one: `low <= 1.0 <= high`.
    pub fn is_one(&self) -> (r: bool)
        ensures
            r == (float_le32(self.low, F32_ONE) && float_le32(F32_ONE, self.high)),
    {
        f32_le(self.low, F32_ONE) && f32_le(F32_ONE, self.high)
    }

    /// Whether the best-estimate value has a clear sign bit. An interval has
    /// no single sign, so only the best estimate is consulted.
    pub fn is_sign_positive(&self) -> (r: bool)
        ensures
            r == !crate::bits::sign32(self.v),
    {
        !crate::bits::f32_sign(self.v)
    }

    /// Whether the best-estimate value has a set sign bit.
    pub fn is_sign_negative(&self) -> (r: bool)
        ensures
            r == crate::bits::sign32(self.v),
    {
        crate::bits::f32_sign(self.v)
    }

    /// The negation of `self`, as a spec value: every field's sign bit is
    /// toggled and the bounds swap roles. Negation is exact, so no outward
    /// rounding is needed.
    pub open spec fn neg_spec(self) -> EFloat32 {
        EFloat32 {
            v: flip_sign32(self.v),
            low: flip_sign32(self.high),
            high: flip_sign32(self.low),
            precise: flip_sign64(self.precise),
        }
    }

    /// Negation: flips the sign bit of every field and swaps the bounds.
    /// IEEE-754 negation is a pure sign-bit operation, so this is computed
    /// here, bit-exactly, with no machine arithmetic handed in.
    pub fn neg(&self) -> (r: EFloat32)
        ensures
            r == self.neg_spec(),
    {
        EFloat32 {
            v: f32_flip_sign(self.v),
            low: f32_flip_sign(self.high),
            high: f32_flip_sign(self.low),
            precise: f64_flip_sign(self.precise),
        }
    }

    /// The absolute value of `self`, as a spec value. Three cases: an
    /// interval entirely at or above zero is unchanged; one entirely at or
    /// below zero is negated with the bounds swapped; one straddling zero
    /// gets lower bound zero and, as upper bound, the larger magnitude of the
    /// two bounds.
    pub open spec fn abs_spec(self) -> EFloat32 {
        if float_le32(F32_POS_ZERO, self.low) {
            self
        } else if float_le32(self.high, F32_POS_ZERO) {
            self.neg_spec()
        } else {
            EFloat32 {
                v: mag32(self.v),
                low: F32_POS_ZERO,
                high: max_bits32(flip_sign32(self.low), self.high),
                precise: mag64(self.precise),
            }
        }
    }

    /// Absolute value. Sign-bit manipulation and comparisons suffice, so this
    /// is computed here with no machine arithmetic handed in. The lower bound
    /// of the result is never below zero and never a NaN.
    pub fn abs(&self) -> (r: EFloat32)
        ensures
            r == self.abs_spec(),
            !is_nan32(r.low),
            key32(r.low) >= 0,
    {
        if f32_le(F32_POS_ZERO, self.low) {
            *self
        } else if f32_le(self.high, F32_POS_ZERO) {
            proof {
                lemma_flip_sign32(self.high);
            }
            self.neg()
        } else {
            proof {
                lemma_flip_sign32(self.low);
                lemma_max_bits32(flip_sign32(self.low), self.high);
            }
            EFloat32 {
                v: f32_mag(self.v),
                low: F32_POS_ZERO,
                high: f32_max(f32_flip_sign(self.low), self.high),
                precise: f64_mag(self.precise),
            }
        }
    }

    /// The sign of every field, pointwise, with no widening: `1.0` for a
    /// clear sign bit, `-1.0` for a set one, the canonical quiet NaN for a
    /// NaN. A pure sign-bit operation, computed here.
    pub fn signum(&self) -> (r: EFloat32)
        ensures
            r.v == signum_bits32(self.v),
            r.low == signum_bits32(self.low),
            r.high == signum_bits32(self.high),
            r.precise == signum_bits64(self.precise),
    {
        EFloat32 {
            v: f32_signum(self.v),
            low: f32_signum(self.low),
            high: f32_signum(self.high),
            precise: f64_signum(self.precise),
        }
    }

    /// Interval addition. The caller supplies the machine sums: `value_sum`
    /// of the best estimates, `low_sum` of the lower bounds, `high_sum` of
    /// the upper bounds, and `precise_sum` of the shadows in double
    /// precision. Both bounds are rounded outward one step.
    pub fn add(value_sum: u32, low_sum: u32, high_sum: u32, precise_sum: u64) -> (r: EFloat32)
        ensures
            r.v == value_sum,
            r.low == next_down32(low_sum),
            r.high == next_up32(high_sum),
            r.precise == precise_sum,
    {
        EFloat32 {
            v: value_sum,
            low: next_f32_down(low_sum),
            high: next_f32_up(high_sum),
            precise: precise_sum,
        }
    }

    /// Interval subtraction. The caller supplies the machine differences:
    /// `value_diff` of the best estimates, `low_diff` of this interval's
    /// lower bound minus the other's upper bound, `high_diff` of this
    /// interval's upper bound minus the other's lower bound, and
    /// `precise_diff` of the shadows. Both bounds are rounded outward.
    pub fn sub(value_diff: u32, low_diff: u32, high_diff: u32, precise_diff: u64) -> (r: EFloat32)
        ensures
            r.v == value_diff,
            r.low == next_down32(low_diff),
            r.high == next_up32(high_diff),
            r.precise == precise_diff,
    {
        EFloat32 {
            v: value_diff,
            low: next_f32_down(low_diff),
            high: next_f32_up(high_diff),
            precise: precise_diff,
        }
    }

    /// Interval multiplication. The caller supplies the machine products:
    /// `value_prod` of the best estimates, the four corner products of the
    /// bounds (`p_ll` low×low, `p_hl` high×low, `p_lh` low×high, `p_hh`
    /// high×high), and `precise_prod` of the shadows. The result interval is
    /// the outward-rounded hull of the corners, so it contains every non-NaN
    /// corner.
    pub fn mul(value_prod: u32, p_ll: u32, p_hl: u32, p_lh: u32, p_hh: u32, precise_prod: u64) -> (
        r: EFloat32)
        ensures
            r.v == value_prod,
            r.low == next_down32(min4_bits32(p_ll, p_hl, p_lh, p_hh)),
            r.high == next_up32(max4_bits32(p_ll, p_hl, p_lh, p_hh)),
            r.precise == precise_prod,
            !is_nan32(p_ll) ==> float_le32(r.low, p_ll) && float_le32(p_ll, r.high),
            !is_nan32(p_hl) ==> float_le32(r.low, p_hl) && float_le32(p_hl, r.high),
            !is_nan32(p_lh) ==> float_le32(r.low, p_lh) && float_le32(p_lh, r.high),
            !is_nan32(p_hh) ==> float_le32(r.low, p_hh) && float_le32(p_hh, r.high),
    {
        proof {
            lemma_hull_contains_corners(p_ll, p_hl, p_lh, p_hh);
        }
        let m: u32 = f32_min(f32_min(p_ll, p_hl), f32_min(p_lh, p_hh));
        let x: u32 = f32_max(f32_max(p_ll, p_hl), f32_max(p_lh, p_hh));
        EFloat32 {
            v: value_prod,
            low: next_f32_down(m),
            high: next_f32_up(x),
            precise: precise_prod,
        }
    }

    /// Interval division. When the divisor interval straddles zero the
    /// quotient cannot be soundly narrowed, so the result interval widens to
    /// all of the real line; otherwise the result is the outward-rounded hull
    /// of the four corner quotients (`q_ll` low/low, `q_hl` high/low, `q_lh`
    /// low/high, `q_hh` high/high), which the caller supplies along with the
    /// machine quotients `value_quot` of the best estimates and
    /// `precise_quot` of the shadows.
    pub fn div(
        divisor: EFloat32,
        value_quot: u32,
        q_ll: u32,
        q_hl: u32,
        q_lh: u32,
        q_hh: u32,
        precise_quot: u64,
    ) -> (r: EFloat32)
        ensures
            r.v == value_quot,
            r.precise == precise_quot,
            float_lt32(divisor.low, F32_POS_ZERO) && float_lt32(F32_POS_ZERO, divisor.high)
                ==> r.low == F32_NEG_INF && r.high == F32_POS_INF,
            !(float_lt32(divisor.low, F32_POS_ZERO) && float_lt32(F32_POS_ZERO, divisor.high)) ==> {
                &&& r.low == next_down32(min4_bits32(q_ll, q_hl, q_lh, q_hh))
                &&& r.high == next_up32(max4_bits32(q_ll, q_hl, q_lh, q_hh))
                &&& !is_nan32(q_ll) ==> float_le32(r.low, q_ll) && float_le32(q_ll, r.high)
                &&& !is_nan32(q_hl) ==> float_le32(r.low, q_hl) && float_le32(q_hl, r.high)
                &&& !is_nan32(q_lh) ==> float_le32(r.low, q_lh) && float_le32(q_lh, r.high)
                &&& !is_nan32(q_hh) ==> float_le32(r.low, q_hh) && float_le32(q_hh, r.high)
            },
    {
        if f32_lt(divisor.low, F32_POS_ZERO) && f32_lt(F32_POS_ZERO, divisor.high) {
            EFloat32 {
                v: value_quot,
                low: F32_NEG_INF,
                high: F32_POS_INF,
                precise: precise_quot,
            }
        } else {
            proof {
                lemma_hull_contains_corners(q_ll, q_hl, q_lh, q_hh);
            }
            let m: u32 = f32_min(f32_min(q_ll, q_hl), f32_min(q_lh, q_hh));
            let x: u32 = f32_max(f32_max(q_ll, q_hl), f32_max(q_lh, q_hh));
            EFloat32 {
                v: value_quot,
                low: next_f32_down(m),
                high: next_f32_up(x),
                precise: precise_quot,
            }
        }
    }

    /// Interval modulo. Like division: a divisor interval straddling zero
    /// widens the result to all of the real line; otherwise the result is the
    /// outward-rounded hull of the four corner remainders, supplied by the
    /// caller along with the machine remainders of the best estimates and of
    /// the shadows.
    pub fn rem(
        divisor: EFloat32,
        value_rem: u32,
        m_ll: u32,
        m_hl: u32,
        m_lh: u32,
        m_hh: u32,
        precise_rem: u64,
    ) -> (r: EFloat32)
        ensures
            r.v == value_rem,
            r.precise == precise_rem,
            float_lt32(divisor.low, F32_POS_ZERO) && float_lt32(F32_POS_ZERO, divisor.high)
                ==> r.low == F32_NEG_INF && r.high == F32_POS_INF,
            !(float_lt32(divisor.low, F32_POS_ZERO) && float_lt32(F32_POS_ZERO, divisor.high)) ==> {
                &&& r.low == next_down32(min4_bits32(m_ll, m_hl, m_lh, m_hh))
                &&& r.high == next_up32(max4_bits32(m_ll, m_hl, m_lh, m_hh))
            },
    {
        if f32_lt(divisor.low, F32_POS_ZERO) && f32_lt(F32_POS_ZERO, divisor.high) {
            EFloat32 {
                v: value_rem,
                low: F32_NEG_INF,
                high: F32_POS_INF,
                precise: precise_rem,
            }
        } else {
            let m: u32 = f32_min(f32_min(m_ll, m_hl), f32_min(m_lh, m_hh));
            let x: u32 = f32_max(f32_max(m_ll, m_hl), f32_max(m_lh, m_hh));
            EFloat32 {
                v: value_rem,
                low: next_f32_down(m),
                high: next_f32_up(x),
                precise: precise_rem,
            }
        }
    }

    /// Interval square root. The square root is monotonic, so no corner
    /// evaluation is needed: the caller supplies the machine square roots of
    /// the best estimate, of each bound, and of the shadow, and the bounds
    /// are rounded outward.
    pub fn sqrt(value_root: u32, low_root: u32, high_root: u32, precise_root: u64) -> (r: EFloat32)
        ensures
            r.v == value_root,
            r.low == next_down32(low_root),
            r.high == next_up32(high_root),
            r.precise == precise_root,
    {
        EFloat32 {
            v: value_root,
            low: next_f32_down(low_root),
            high: next_f32_up(high_root),
            precise: precise_root,
        }
    }

    /// Pointwise application of a monotonic rounding function (floor, ceil,
    /// round, or truncate): the caller supplies the function's machine value
    /// on the best estimate, on each bound, and on the shadow, and the bounds
    /// are rounded outward one step.
    pub fn rounded_pointwise(value_r: u32, low_r: u32, high_r: u32, precise_r: u64) -> (r: EFloat32)
        ensures
            r.v == value_r,
            r.low == next_down32(low_r),
            r.high == next_up32(high_r),
            r.precise == precise_r,
    {
        EFloat32 {
            v: value_r,
            low: next_f32_down(low_r),
            high: next_f32_up(high_r),
            precise: precise_r,
        }
    }

    /// Interval fractional part. The caller supplies the machine truncations
    /// of the two bounds (`low_trunc`, `high_trunc`), the machine fractional
    /// parts of the best estimate, of each bound, and of the shadow. When the
    /// truncated bounds differ, the interval crosses an integer boundary and
    /// the true fractional-part range wraps, so the result widens to
    /// `[0, just-below-1]`; otherwise the fractional part applies pointwise.
    pub fn fract(
        value_fract: u32,
        low_trunc: u32,
        high_trunc: u32,
        low_fract: u32,
        high_fract: u32,
        precise_fract: u64,
    ) -> (r: EFloat32)
        ensures
            r.v == value_fract,
            r.precise == precise_fract,
            !float_eq32(low_trunc, high_trunc) ==> r.low == F32_POS_ZERO && r.high == next_down32(
                F32_ONE,
            ),
            float_eq32(low_trunc, high_trunc) ==> r.low == low_fract && r.high == high_fract,
    {
        if !f32_eq(low_trunc, high_trunc) {
            EFloat32 {
                v: value_fract,
                low: F32_POS_ZERO,
                high: next_f32_down(F32_ONE),
                precise: precise_fract,
            }
        } else {
            EFloat32 {
                v: value_fract,
                low: low_fract,
                high: high_fract,
                precise: precise_fract,
            }
        }
    }

    /// Interval reciprocal. The caller supplies the machine reciprocals of
    /// the best estimate, of each bound, and of the shadow; the result takes
    /// the outward-rounded hull of the two bound reciprocals. As with
    /// division, an interval straddling zero makes the enclosure degenerate;
    /// the hull of the supplied reciprocals is all this states.
    pub fn recip(value_recip: u32, low_recip: u32, high_recip: u32, precise_recip: u64) -> (r:
        EFloat32)
        ensures
            r.v == value_recip,
            r.low == next_down32(min_bits32(low_recip, high_recip)),
            r.high == next_up32(max_bits32(low_recip, high_recip)),
            r.precise == precise_recip,
    {
        EFloat32 {
            v: value_recip,
            low: next_f32_down(f32_min(low_recip, high_recip)),
            high: next_f32_up(f32_max(low_recip, high_recip)),
            precise: precise_recip,
        }
    }

    /// Fused multiply-add over intervals. The caller supplies the machine
    /// fused results: `value_fma` on the best estimates and the eight corner
    /// combinations of the two factor intervals' bounds with the addend
    /// interval's bounds, plus `precise_fma` on the shadows. The result is
    /// the outward-rounded hull of the eight corners.
    pub fn mul_add(
        value_fma: u32,
        c1: u32,
        c2: u32,
        c3: u32,
        c4: u32,
        c5: u32,
        c6: u32,
        c7: u32,
        c8: u32,
        precise_fma: u64,
    ) -> (r: EFloat32)
        ensures
            r.v == value_fma,
            r.precise == precise_fma,
            r.low == next_down32(min8_bits32(c1, c2, c3, c4, c5, c6, c7, c8)),
            r.high == next_up32(max8_bits32(c1, c2, c3, c4, c5, c6, c7, c8)),
            !is_nan32(c1) ==> float_le32(r.low, c1) && float_le32(c1, r.high),
            !is_nan32(c2) ==> float_le32(r.low, c2) && float_le32(c2, r.high),
            !is_nan32(c3) ==> float_le32(r.low, c3) && float_le32(c3, r.high),
            !is_nan32(c4) ==> float_le32(r.low, c4) && float_le32(c4, r.high),
            !is_nan32(c5) ==> float_le32(r.low, c5) && float_le32(c5, r.high),
            !is_nan32(c6) ==> float_le32(r.low, c6) && float_le32(c6, r.high),
            !is_nan32(c7) ==> float_le32(r.low, c7) && float_le32(c7, r.high),
            !is_nan32(c8) ==> float_le32(r.low, c8) && float_le32(c8, r.high),
    {
        proof {
            lemma_hull8_contains_corners(c1, c2, c3, c4, c5, c6, c7, c8);
        }
        let m: u32 = f32_min(
            f32_min(f32_min(f32_min(c1, c2), f32_min(c3, c4)), f32_min(c5, c6)),
            f32_min(c7, c8),
        );
        let x: u32 = f32_max(
            f32_max(f32_max(f32_max(c1, c2), f32_max(c3, c4)), f32_max(c5, c6)),
            f32_max(c7, c8),
        );
        EFloat32 {
            v: value_fma,
            low: next_f32_down(m),
            high: next_f32_up(x),
            precise: precise_fma,
        }
    }
}

/// The outward-rounded hull of four corner patterns contains every non-NaN
/// corner: the lower edge steps down from the NaN-ignoring minimum, the upper
/// edge steps up from the maximum.
pub proof fn lemma_hull_contains_corners(p1: u32, p2: u32, p3: u32, p4: u32)
    ensures
        !is_nan32(p1) ==> float_le32(next_down32(min4_bits32(p1, p2, p3, p4)), p1) && float_le32(
            p1,
            next_up32(max4_bits32(p1, p2, p3, p4)),
        ),
        !is_nan32(p2) ==> float_le32(next_down32(min4_bits32(p1, p2, p3, p4)), p2) && float_le32(
            p2,
            next_up32(max4_bits32(p1, p2, p3, p4)),
        ),
        !is_nan32(p3) ==> float_le32(next_down32(min4_bits32(p1, p2, p3, p4)), p3) && float_le32(
            p3,
            next_up32(max4_bits32(p1, p2, p3, p4)),
        ),
        !is_nan32(p4) ==> float_le32(next_down32(min4_bits32(p1, p2, p3, p4)), p4) && float_le32(
            p4,
            next_up32(max4_bits32(p1, p2, p3, p4)),
        ),
{
    lemma_min_bits32(p1, p2);
    lemma_min_bits32(p3, p4);
    lemma_min_bits32(min_bits32(p1, p2), min_bits32(p3, p4));
    lemma_max_bits32(p1, p2);
    lemma_max_bits32(p3, p4);
    lemma_max_bits32(max_bits32(p1, p2), max_bits32(p3, p4));
    if !is_nan32(min4_bits32(p1, p2, p3, p4)) {
        lemma_next_down_le_32(min4_bits32(p1, p2, p3, p4));
    }
    if !is_nan32(max4_bits32(p1, p2, p3, p4)) {
        lemma_next_up_ge_32(max4_bits32(p1, p2, p3, p4));
    }
}

/// The outward-rounded hull of eight corner patterns contains every non-NaN
/// corner.
pub proof fn lemma_hull8_contains_corners(
    c1: u32,
    c2: u32,
    c3: u32,
    c4: u32,
    c5: u32,
    c6: u32,
    c7: u32,
    c8: u32,
)
    ensures
        forall|c: u32|
            (c == c1 || c == c2 || c == c3 || c == c4 || c == c5 || c == c6 || c == c7 || c == c8)
                && !is_nan32(c) ==> float_le32(
                next_down32(#[trigger] min8_bits32(c1, c2, c3, c4, c5, c6, c7, c8)),
                c,
            ) && float_le32(c, next_up32(max8_bits32(c1, c2, c3, c4, c5, c6, c7, c8))),
{
    lemma_min_bits32(c1, c2);
    lemma_min_bits32(c3, c4);
    lemma_min_bits32(c5, c6);
    lemma_min_bits32(c7, c8);
    lemma_min_bits32(min_bits32(c1, c2), min_bits32(c3, c4));
    lemma_min_bits32(min_bits32(min_bits32(c1, c2), min_bits32(c3, c4)), min_bits32(c5, c6));
    lemma_min_bits32(
        min_bits32(min_bits32(min_bits32(c1, c2), min_bits32(c3, c4)), min_bits32(c5, c6)),
        min_bits32(c7, c8),
    );
    lemma_max_bits32(c1, c2);
    lemma_max_bits32(c3, c4);
    lemma_max_bits32(c5, c6);
    lemma_max_bits32(c7, c8);
    lemma_max_bits32(max_bits32(c1, c2), max_bits32(c3, c4));
    lemma_max_bits32(max_bits32(max_bits32(c1, c2), max_bits32(c3, c4)), max_bits32(c5, c6));
    lemma_max_bits32(
        max_bits32(max_bits32(max_bits32(c1, c2), max_bits32(c3, c4)), max_bits32(c5, c6)),
        max_bits32(c7, c8),
    );
    if !is_nan32(min8_bits32(c1, c2, c3, c4, c5, c6, c7, c8)) {
        lemma_next_down_le_32(min8_bits32(c1, c2, c3, c4, c5, c6, c7, c8));
    }
    if !is_nan32(max8_bits32(c1, c2, c3, c4, c5, c6, c7, c8)) {
        lemma_next_up_ge_32(max8_bits32(c1, c2, c3, c4, c5, c6, c7, c8));
    }
}

/// Negation maps ordered bounds to ordered bounds: the interval is mirrored
/// exactly, with no rounding.
pub proof fn lemma_neg_preserves_bounds(x: EFloat32)
    requires
        x.bounds_ordered(),
    ensures
        x.neg_spec().bounds_ordered(),
{
    lemma_flip_sign32(x.low);
    lemma_flip_sign32(x.high);
}

/// Negation preserves the full invariant. Negation is exact: it toggles
/// sign bits and swaps the bounds, and widening to double precision commutes
/// with the sign toggle, so the negated shadow lies between the negated,
/// swapped bounds.
pub proof fn lemma_neg_preserves_wf(x: EFloat32)
    requires
        x.wf(),
    ensures
        x.neg_spec().wf(),
{
    lemma_neg_preserves_bounds(x);
    lemma_flip_sign32(x.v);
    lemma_flip_sign64(x.precise);
    lemma_wide64_flip(x.low);
    lemma_wide64_flip(x.high);
    lemma_flip_sign64(wide64(x.low));
    lemma_flip_sign64(wide64(x.high));
}

/// Absolute value maps ordered bounds to ordered bounds, and its lower bound
/// never drops below zero.
pub proof fn lemma_abs_preserves_bounds(x: EFloat32)
    requires
        x.bounds_ordered(),
    ensures
        x.abs_spec().bounds_ordered(),
        !is_nan32(x.abs_spec().low),
        key32(x.abs_spec().low) >= 0,
{
    lemma_flip_sign32(x.low);
    lemma_flip_sign32(x.high);
    if !(float_le32(F32_POS_ZERO, x.low)) && !(float_le32(x.high, F32_POS_ZERO)) {
        lemma_max_bits32(flip_sign32(x.low), x.high);
    }
}

/// Absolute value preserves the full invariant. An interval entirely on one
/// side of zero is unchanged or mirrored exactly; a straddling interval
/// keeps the shadow because the shadow's magnitude is bounded by the
/// magnitude of whichever bound lies farther from zero, and widening
/// preserves that order.
pub proof fn lemma_abs_preserves_wf(x: EFloat32)
    requires
        x.wf(),
    ensures
        x.abs_spec().wf(),
{
    lemma_abs_preserves_bounds(x);
    if float_le32(F32_POS_ZERO, x.low) {
    } else if float_le32(x.high, F32_POS_ZERO) {
        lemma_neg_preserves_wf(x);
    } else if is_finite32(x.v) {
        lemma_wide64_class(x.low);
        lemma_wide64_class(x.high);
        let a = flip_sign32(x.low);
        lemma_flip_sign32(x.low);
        lemma_wide64_flip(x.low);
        lemma_flip_sign64(wide64(x.low));
        let mx = max_bits32(a, x.high);
        lemma_max_bits32(a, x.high);
        lemma_wide64_le(a, mx);
        lemma_wide64_le(x.high, mx);
        lemma_wide64_class(mx);
        lemma_wide64_class(F32_POS_ZERO);
    }
}

impl PartialEq for EFloat32 {
    /// Equality compares only the best-estimate values, with IEEE-754
    /// semantics: intervals and shadows are deliberately ignored.
    fn eq(&self, other: &EFloat32) -> (r: bool) {
        f32_eq(self.v, other.v)
    }
}

impl vstd::std_specs::cmp::PartialEqSpecImpl for EFloat32 {
    open spec fn obeys_eq_spec() -> bool {
        true
    }

    open spec fn eq_spec(&self, other: &EFloat32) -> bool {
        float_eq32(self.v, other.v)
    }
}

impl PartialOrd for EFloat32 {
    /// Ordering compares only the best-estimate values, with IEEE-754
    /// semantics: incomparable when either is NaN.
    fn partial_cmp(&self, other: &EFloat32) -> (r: Option<Ordering>) {
        if f32_is_nan(self.v) || f32_is_nan(other.v) {
            None
        } else if f32_lt(self.v, other.v) {
            Some(Ordering::Less)
        } else if f32_lt(other.v, self.v) {
            Some(Ordering::Greater)
        } else {
            Some(Ordering::Equal)
        }
    }
}

impl vstd::std_specs::cmp::PartialOrdSpecImpl for EFloat32 {
    open spec fn obeys_partial_cmp_spec() -> bool {
        true
    }

    open spec fn partial_cmp_spec(&self, other: &EFloat32) -> Option<Ordering> {
        if is_nan32(self.v) || is_nan32(other.v) {
            None
        } else if key32(self.v) < key32(other.v) {
            Some(Ordering::Less)
        } else if key32(other.v) < key32(self.v) {
            Some(Ordering::Greater)
        } else {
            Some(Ordering::Equal)
        }
    }
}

} // verus!
