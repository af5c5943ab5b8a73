use std::cmp::Ordering;

use efloat::EFloat32;
use efloat::next_f32_down;
use efloat::next_f32_up;

/// An exact point value: the shadow is the value widened to double precision.
fn ef(v: f32) -> EFloat32 {
    EFloat32::new(v.to_bits())
}

/// A value with an explicit absolute error bound.
fn ef_err(v: f32, err: f32) -> EFloat32 {
    EFloat32::new_with_err(v.to_bits(), (v - err).to_bits(), (v + err).to_bits())
}

/// An interval built directly from its parts.
fn interval(v: f32, low: f32, high: f32, precise: f64) -> EFloat32 {
    EFloat32 { v: v.to_bits(), low: low.to_bits(), high: high.to_bits(), precise: precise.to_bits() }
}

fn value(x: &EFloat32) -> f32 {
    f32::from_bits(x.value())
}

fn low(x: &EFloat32) -> f32 {
    f32::from_bits(x.lower_bound())
}

fn high(x: &EFloat32) -> f32 {
    f32::from_bits(x.upper_bound())
}

fn precise(x: &EFloat32) -> f64 {
    f64::from_bits(x.precise())
}

/// Runs the library's invariant check.
fn checked(x: &EFloat32) -> bool {
    x.check()
}

fn add(a: EFloat32, b: EFloat32) -> EFloat32 {
    EFloat32::add(
        (value(&a) + value(&b)).to_bits(),
        (low(&a) + low(&b)).to_bits(),
        (high(&a) + high(&b)).to_bits(),
        (precise(&a) + precise(&b)).to_bits(),
    )
}

fn sub(a: EFloat32, b: EFloat32) -> EFloat32 {
    EFloat32::sub(
        (value(&a) - value(&b)).to_bits(),
        (low(&a) - high(&b)).to_bits(),
        (high(&a) - low(&b)).to_bits(),
        (precise(&a) - precise(&b)).to_bits(),
    )
}

fn mul(a: EFloat32, b: EFloat32) -> EFloat32 {
    EFloat32::mul(
        (value(&a) * value(&b)).to_bits(),
        (low(&a) * low(&b)).to_bits(),
        (high(&a) * low(&b)).to_bits(),
        (low(&a) * high(&b)).to_bits(),
        (high(&a) * high(&b)).to_bits(),
        (precise(&a) * precise(&b)).to_bits(),
    )
}

fn div(a: EFloat32, b: EFloat32) -> EFloat32 {
    EFloat32::div(
        b,
        (value(&a) / value(&b)).to_bits(),
        (low(&a) / low(&b)).to_bits(),
        (high(&a) / low(&b)).to_bits(),
        (low(&a) / high(&b)).to_bits(),
        (high(&a) / high(&b)).to_bits(),
        (precise(&a) / precise(&b)).to_bits(),
    )
}

fn rem(a: EFloat32, b: EFloat32) -> EFloat32 {
    EFloat32::rem(
        b,
        (value(&a) % value(&b)).to_bits(),
        (low(&a) % low(&b)).to_bits(),
        (high(&a) % low(&b)).to_bits(),
        (low(&a) % high(&b)).to_bits(),
        (high(&a) % high(&b)).to_bits(),
        (precise(&a) % precise(&b)).to_bits(),
    )
}

fn sqrt(a: EFloat32) -> EFloat32 {
    EFloat32::sqrt(
        value(&a).sqrt().to_bits(),
        low(&a).sqrt().to_bits(),
        high(&a).sqrt().to_bits(),
        precise(&a).sqrt().to_bits(),
    )
}

fn contains(x: &EFloat32, p: f64) -> bool {
    (low(x) as f64) <= p && p <= (high(x) as f64)
}

#[test]
fn test1() {
    let x = ef(0.87234);
    let y = ef(0.2348709);
    let z = mul(x, y);
    let w = sub(ef(1.0), z);
    let absolute_error = high(&w) - low(&w);
    let relative_error = ((precise(&w) - value(&w) as f64) / precise(&w)).abs() as f32;
    println!(
        "value={} upper={} lower={} absolute_error={} relative_error={} precise={}",
        value(&w),
        high(&w),
        low(&w),
        absolute_error,
        relative_error,
        precise(&w)
    );
}

#[test]
fn test_new_exact_point() {
    let x = ef(1.5);
    assert_eq!(value(&x), 1.5);
    assert_eq!(low(&x), 1.5);
    assert_eq!(high(&x), 1.5);
    assert_eq!(precise(&x), 1.5);
    assert!(checked(&x));
}

#[test]
fn test_new_with_err_outward() {
    let x = ef_err(1.0, 0.001);
    // The bounds must lie outside [0.999, 1.001] by at least one ulp.
    assert!(low(&x) <= 0.999);
    assert!(high(&x) >= 1.001);
    assert!((low(&x) as f64) < 0.999);
    assert!((high(&x) as f64) > 1.001);
    assert!(low(&x) < 1.0 - 0.001f32);
    assert!(high(&x) > 1.0 + 0.001f32);
    assert_eq!(x.lower_bound(), next_f32_down((1.0f32 - 0.001).to_bits()));
    assert_eq!(x.upper_bound(), next_f32_up((1.0f32 + 0.001).to_bits()));
    assert!(checked(&x));
}

#[test]
fn test_new_with_precise_err() {
    // The shadow is overridden by a caller-supplied exact reference.
    let x = EFloat32::new_with_precise_err(
        1.0f32.to_bits(),
        0.9999f64.to_bits(),
        (1.0f32 - 0.001).to_bits(),
        (1.0f32 + 0.001).to_bits(),
    );
    assert_eq!(precise(&x), 0.9999);
    assert_eq!(value(&x), 1.0);
    assert_eq!(x.lower_bound(), next_f32_down((1.0f32 - 0.001).to_bits()));
    assert_eq!(x.upper_bound(), next_f32_up((1.0f32 + 0.001).to_bits()));
    assert!(checked(&x));
}

#[test]
fn test_add_concrete() {
    let r = add(ef(1.0), ef(2.0));
    assert_eq!(value(&r), 3.0);
    assert_eq!(r.lower_bound(), next_f32_down(3.0f32.to_bits()));
    assert_eq!(r.upper_bound(), next_f32_up(3.0f32.to_bits()));
    assert!(contains(&r, 3.0));
    assert!(checked(&r));
}

#[test]
fn test_sub_concrete() {
    let r = sub(ef(1.0), ef(0.25));
    assert_eq!(value(&r), 0.75);
    assert_eq!(r.lower_bound(), next_f32_down(0.75f32.to_bits()));
    assert_eq!(r.upper_bound(), next_f32_up(0.75f32.to_bits()));
    assert!(contains(&r, 0.75));
    assert!(checked(&r));
}

#[test]
fn test_mul_concrete() {
    let r = mul(ef(3.0), ef(0.5));
    assert_eq!(value(&r), 1.5);
    assert_eq!(r.lower_bound(), next_f32_down(1.5f32.to_bits()));
    assert_eq!(r.upper_bound(), next_f32_up(1.5f32.to_bits()));
    assert!(checked(&r));
}

#[test]
fn test_mul_contains_corners() {
    let a = interval(2.0, 1.5, 2.5, 2.0);
    let b = interval(-3.0, -3.5, -2.5, -3.0);
    let r = mul(a, b);
    for pa in [low(&a), high(&a)] {
        for pb in [low(&b), high(&b)] {
            assert!(contains(&r, (pa * pb) as f64));
        }
    }
    assert!(checked(&r));
}

#[test]
fn test_div_contains_corners() {
    let a = interval(2.0, 1.5, 2.5, 2.0);
    let b = interval(4.0, 3.5, 4.5, 4.0);
    let r = div(a, b);
    for pa in [low(&a), high(&a)] {
        for pb in [low(&b), high(&b)] {
            assert!(contains(&r, (pa / pb) as f64));
        }
    }
    assert!(checked(&r));
}

#[test]
fn test_div_straddling_zero_widens() {
    let a = ef(1.0);
    let b = interval(1.0, -1.0, 2.0, 1.0);
    let r = div(a, b);
    assert_eq!(low(&r), f32::NEG_INFINITY);
    assert_eq!(high(&r), f32::INFINITY);
    assert!(checked(&r));
}

#[test]
fn test_rem_straddling_zero_widens() {
    let a = ef(7.0);
    let b = interval(1.0, -0.5, 3.0, 1.0);
    let r = rem(a, b);
    assert_eq!(low(&r), f32::NEG_INFINITY);
    assert_eq!(high(&r), f32::INFINITY);
}

#[test]
fn test_rem_concrete() {
    let a = interval(7.5, 7.0, 8.0, 7.5);
    let b = interval(3.25, 3.0, 3.5, 3.25);
    let r = rem(a, b);
    // Corner remainders: 7%3=1, 8%3=2, 7%3.5=0, 8%3.5=1.
    assert_eq!(r.lower_bound(), next_f32_down(0.0f32.to_bits()));
    assert_eq!(r.upper_bound(), next_f32_up(2.0f32.to_bits()));
    assert_eq!(value(&r), 7.5 % 3.25);
}

#[test]
fn test_sqrt_concrete() {
    let a = interval(6.25, 4.0, 9.0, 6.25);
    let r = sqrt(a);
    assert_eq!(value(&r), 2.5);
    assert_eq!(r.lower_bound(), next_f32_down(2.0f32.to_bits()));
    assert_eq!(r.upper_bound(), next_f32_up(3.0f32.to_bits()));
    assert!(checked(&r));
}

#[test]
fn test_neg_exact() {
    let a = interval(2.0, 1.5, 2.5, 2.0);
    let r = a.neg();
    assert_eq!(value(&r), -2.0);
    assert_eq!(low(&r), -2.5);
    assert_eq!(high(&r), -1.5);
    assert_eq!(precise(&r), -2.0);
    assert!(checked(&r));
    // Negation is bit-exact: negating twice restores the patterns.
    let back = r.neg();
    assert_eq!(back.value(), a.value());
    assert_eq!(back.lower_bound(), a.lower_bound());
    assert_eq!(back.upper_bound(), a.upper_bound());
}

#[test]
fn test_abs_straddling_zero() {
    let a = interval(0.5, -2.0, 3.0, 0.5);
    let r = a.abs();
    assert_eq!(r.lower_bound(), 0.0f32.to_bits());
    assert!(high(&r) >= 3.0);
    assert_eq!(high(&r), 3.0);
    assert!(checked(&r));
}

#[test]
fn test_abs_nonpositive_interval() {
    let a = interval(-2.5, -3.0, -2.0, -2.5);
    let r = a.abs();
    assert_eq!(value(&r), 2.5);
    assert_eq!(low(&r), 2.0);
    assert_eq!(high(&r), 3.0);
    assert_eq!(precise(&r), 2.5);
}

#[test]
fn test_abs_nonnegative_interval() {
    let a = interval(2.5, 2.0, 3.0, 2.5);
    let r = a.abs();
    assert_eq!(r.value(), a.value());
    assert_eq!(r.lower_bound(), a.lower_bound());
    assert_eq!(r.upper_bound(), a.upper_bound());
}

#[test]
fn test_fract_crossing_integer_boundary() {
    let a = interval(3.0, 2.5, 3.5, 3.0);
    let r = EFloat32::fract(
        value(&a).fract().to_bits(),
        low(&a).trunc().to_bits(),
        high(&a).trunc().to_bits(),
        low(&a).fract().to_bits(),
        high(&a).fract().to_bits(),
        precise(&a).fract().to_bits(),
    );
    // The interval crosses an integer boundary, so the result widens to
    // [0, just-below-1].
    assert_eq!(low(&r), 0.0);
    assert_eq!(r.upper_bound(), next_f32_down(1.0f32.to_bits()));
    assert!(high(&r) < 1.0);
    assert_eq!(next_f32_up(r.upper_bound()), 1.0f32.to_bits());
}

#[test]
fn test_fract_pointwise() {
    let a = interval(2.375, 2.25, 2.5, 2.375);
    let r = EFloat32::fract(
        value(&a).fract().to_bits(),
        low(&a).trunc().to_bits(),
        high(&a).trunc().to_bits(),
        low(&a).fract().to_bits(),
        high(&a).fract().to_bits(),
        precise(&a).fract().to_bits(),
    );
    assert_eq!(value(&r), 0.375);
    assert_eq!(low(&r), 0.25);
    assert_eq!(high(&r), 0.5);
}

#[test]
fn test_signum_pointwise() {
    let a = interval(0.5, -2.0, 3.0, 0.5);
    let r = a.signum();
    assert_eq!(value(&r), 1.0);
    assert_eq!(low(&r), -1.0);
    assert_eq!(high(&r), 1.0);
    assert_eq!(precise(&r), 1.0);
    // Signed zero keeps its sign's signum, as the machine's signum does.
    let z = interval(-0.0, -0.0, 0.0, -0.0);
    let rz = z.signum();
    assert_eq!(value(&rz), (-0.0f32).signum());
    assert_eq!(low(&rz), -1.0);
    assert_eq!(high(&rz), 1.0);
}

#[test]
fn test_recip_concrete() {
    let a = interval(3.0, 2.0, 4.0, 3.0);
    let r = EFloat32::recip(
        value(&a).recip().to_bits(),
        low(&a).recip().to_bits(),
        high(&a).recip().to_bits(),
        precise(&a).recip().to_bits(),
    );
    assert_eq!(r.lower_bound(), next_f32_down(0.25f32.to_bits()));
    assert_eq!(r.upper_bound(), next_f32_up(0.5f32.to_bits()));
    assert!(checked(&r));
}

#[test]
fn test_mul_add_concrete() {
    let a = interval(2.0, 1.5, 2.5, 2.0);
    let b = interval(3.0, 2.5, 3.5, 3.0);
    let c = interval(1.0, 0.5, 1.5, 1.0);
    let mut corners: [f32; 8] = [0.0; 8];
    let mut i: usize = 0;
    for pa in [low(&a), high(&a)] {
        for pb in [low(&b), high(&b)] {
            for pc in [low(&c), high(&c)] {
                corners[i] = pa.mul_add(pb, pc);
                i += 1;
            }
        }
    }
    let r = EFloat32::mul_add(
        value(&a).mul_add(value(&b), value(&c)).to_bits(),
        corners[0].to_bits(),
        corners[1].to_bits(),
        corners[2].to_bits(),
        corners[3].to_bits(),
        corners[4].to_bits(),
        corners[5].to_bits(),
        corners[6].to_bits(),
        corners[7].to_bits(),
        precise(&a).mul_add(precise(&b), precise(&c)).to_bits(),
    );
    assert_eq!(value(&r), 7.0);
    // Extremal corners: 1.5*2.5+0.5 = 4.25 and 2.5*3.5+1.5 = 10.25.
    assert_eq!(r.lower_bound(), next_f32_down(4.25f32.to_bits()));
    assert_eq!(r.upper_bound(), next_f32_up(10.25f32.to_bits()));
    for corner in corners {
        assert!(contains(&r, corner as f64));
    }
    assert!(checked(&r));
}

#[test]
fn test_rounded_pointwise_floor_ceil() {
    let a = interval(2.5, 2.3, 2.7, 2.5);
    let fl = EFloat32::rounded_pointwise(
        value(&a).floor().to_bits(),
        low(&a).floor().to_bits(),
        high(&a).floor().to_bits(),
        precise(&a).floor().to_bits(),
    );
    assert_eq!(value(&fl), 2.0);
    assert_eq!(fl.lower_bound(), next_f32_down(2.0f32.to_bits()));
    assert_eq!(fl.upper_bound(), next_f32_up(2.0f32.to_bits()));
    let ce = EFloat32::rounded_pointwise(
        value(&a).ceil().to_bits(),
        low(&a).ceil().to_bits(),
        high(&a).ceil().to_bits(),
        precise(&a).ceil().to_bits(),
    );
    assert_eq!(value(&ce), 3.0);
    assert_eq!(ce.lower_bound(), next_f32_down(3.0f32.to_bits()));
    assert_eq!(ce.upper_bound(), next_f32_up(3.0f32.to_bits()));
}

#[test]
fn test_containment_through_chain() {
    // The double-precision shadow stays inside the interval through a chain
    // of constructions and operations.
    let mut x = ef(0.1);
    assert!(checked(&x));
    x = add(x, ef(0.2));
    assert!(checked(&x));
    assert!(contains(&x, precise(&x)));
    x = mul(x, ef_err(7.25, 0.001));
    assert!(checked(&x));
    assert!(contains(&x, precise(&x)));
    x = sub(x, ef(1.0));
    assert!(checked(&x));
    assert!(contains(&x, precise(&x)));
    x = div(x, ef(3.0));
    assert!(checked(&x));
    assert!(contains(&x, precise(&x)));
    x = x.abs();
    assert!(checked(&x));
    assert!(contains(&x, precise(&x)));
    x = sqrt(x);
    assert!(checked(&x));
    assert!(contains(&x, precise(&x)));
    x = x.neg();
    assert!(checked(&x));
    assert!(contains(&x, precise(&x)));
}

#[test]
fn test_scenario_product_containment() {
    let x = ef(0.87234);
    let y = ef(0.2348709);
    let w = sub(ef(1.0), mul(x, y));
    let reference = 1.0f64 - (0.87234f32 as f64) * (0.2348709f32 as f64);
    assert!(contains(&w, reference));
    assert!(contains(&w, precise(&w)));
    assert!(checked(&w));
}

#[test]
fn test_check_rejects_crossed_bounds() {
    let bad = interval(1.0, 2.0, 1.0, 1.0);
    assert!(!checked(&bad));
    // A shadow outside the interval is caught too.
    let escaped = interval(1.0, 0.9, 1.1, 7.0);
    assert!(!checked(&escaped));
    // Infinite bounds relax the ordering check, and a NaN value relaxes the
    // shadow check.
    let wide = interval(f32::NAN, f32::INFINITY, f32::NEG_INFINITY, 1.0);
    assert!(wide.check());
}

#[test]
fn test_eq_compares_only_values() {
    let a = ef(1.5);
    let b = ef_err(1.5, 0.25);
    assert!(a == b);
    let c = ef(1.25);
    assert!(a != c);
    let n = ef(f32::NAN);
    assert!(n != n);
}

#[test]
fn test_partial_cmp_compares_only_values() {
    let a = ef(1.0);
    let b = ef_err(2.0, 0.5);
    assert_eq!(a.partial_cmp(&b), Some(Ordering::Less));
    assert_eq!(b.partial_cmp(&a), Some(Ordering::Greater));
    assert_eq!(a.partial_cmp(&ef(1.0)), Some(Ordering::Equal));
    assert_eq!(ef(0.0).partial_cmp(&ef(-0.0)), Some(Ordering::Equal));
    assert_eq!(a.partial_cmp(&ef(f32::NAN)), None);
    assert!(a < b);
}

#[test]
fn test_is_zero_is_one() {
    assert!(ef(0.0).is_zero());
    assert!(interval(0.001, -0.5, 0.5, 0.001).is_zero());
    assert!(!ef(1.0).is_zero());
    assert!(ef(1.0).is_one());
    assert!(interval(1.001, 0.5, 1.5, 1.001).is_one());
    assert!(!ef(0.0).is_one());
}

#[test]
fn test_sign_queries_use_value() {
    assert!(ef(1.0).is_sign_positive());
    assert!(ef(-1.0).is_sign_negative());
    assert!(ef(-0.0).is_sign_negative());
    assert!(ef(0.0).is_sign_positive());
    assert!(interval(1.0, -5.0, 5.0, 1.0).is_sign_positive());
}
