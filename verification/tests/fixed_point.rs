//! The fixed-point scalar and trigonometric layer: exact semantics at the
//! rails and numeric accuracy against 64-bit float references.

use astrodyn::fixed::{fp_add, fp_div, fp_from_int, fp_from_micro, fp_mul, fp_sqrt, FP_LIM, SCALE};
use astrodyn::trig::{acos_fp, asin_fp, atan2_fp, atan_fp, cos_fp, sin_fp, HALF_PI_FP, PI_FP};

fn fp(x: f64) -> i128 {
    (x * SCALE as f64).round() as i128
}

fn to_f(x: i128) -> f64 {
    x as f64 / SCALE as f64
}

#[test]
fn mul_is_exact_on_whole_numbers() {
    assert_eq!(fp_mul(3 * SCALE, 2 * SCALE), 6 * SCALE);
    assert_eq!(fp_mul(-3 * SCALE, 2 * SCALE), -6 * SCALE);
    assert_eq!(fp_mul(0, 123456789), 0);
}

#[test]
fn div_is_exact_on_whole_ratios() {
    assert_eq!(fp_div(6 * SCALE, 2 * SCALE), 3 * SCALE);
    assert_eq!(fp_div(-6 * SCALE, 2 * SCALE), -3 * SCALE);
    // 1/2 at Q40 is exactly half the scale.
    assert_eq!(fp_div(SCALE, 2 * SCALE), SCALE / 2);
}

#[test]
fn division_by_zero_saturates() {
    assert_eq!(fp_div(SCALE, 0), FP_LIM);
    assert_eq!(fp_div(-SCALE, 0), -FP_LIM);
    assert_eq!(fp_div(0, 0), 0);
}

#[test]
fn multiplication_saturates_at_the_rail() {
    assert_eq!(fp_mul(FP_LIM, FP_LIM), FP_LIM);
    assert_eq!(fp_mul(FP_LIM, -FP_LIM), -FP_LIM);
    assert_eq!(fp_add(FP_LIM, FP_LIM), FP_LIM);
}

#[test]
fn sqrt_is_exact_on_perfect_squares() {
    assert_eq!(fp_sqrt(4 * SCALE), 2 * SCALE);
    assert_eq!(fp_sqrt(fp(49000000.0)), fp(7000.0));
    assert_eq!(fp_sqrt(0), 0);
    assert_eq!(fp_sqrt(-5), 0);
}

#[test]
fn sqrt_matches_float_reference() {
    for &v in &[0.25f64, 2.0, 113.8858, 2.25e16, 4.9e7] {
        let r = to_f(fp_sqrt(fp(v)));
        assert!((r - v.sqrt()).abs() / v.sqrt() < 1e-9, "sqrt({v}) = {r}");
    }
}

#[test]
fn sine_and_cosine_match_float_reference() {
    let mut x = -7.0f64;
    while x < 7.0 {
        assert!((to_f(sin_fp(fp(x))) - x.sin()).abs() < 1e-9, "sin({x})");
        assert!((to_f(cos_fp(fp(x))) - x.cos()).abs() < 1e-9, "cos({x})");
        x += 0.13;
    }
}

#[test]
fn sine_of_zero_is_exactly_zero() {
    assert_eq!(sin_fp(0), 0);
    assert_eq!(cos_fp(0), SCALE);
}

#[test]
fn arctangent_matches_float_reference() {
    let mut t = -1.0f64;
    while t <= 1.0 {
        assert!((to_f(atan_fp(fp(t))) - t.atan()).abs() < 1e-9, "atan({t})");
        t += 0.07;
    }
}

#[test]
fn atan2_covers_all_quadrants() {
    let cases = [
        (1.0f64, 1.0f64),
        (1.0, -1.0),
        (-1.0, -1.0),
        (-1.0, 1.0),
        (0.4, 2.0),
        (2.0, 0.4),
        (-2.0, 0.3),
        (0.0, -1.0),
        (1.0, 0.0),
        (-1.0, 0.0),
    ];
    for &(y, x) in &cases {
        let r = to_f(atan2_fp(fp(y), fp(x)));
        assert!((r - y.atan2(x)).abs() < 1e-9, "atan2({y},{x}) = {r}");
    }
    assert_eq!(atan2_fp(0, 0), 0);
}

#[test]
fn arc_cosine_hits_the_endpoints_exactly() {
    assert_eq!(acos_fp(SCALE), 0);
    assert_eq!(acos_fp(-SCALE), PI_FP);
    // Arguments beyond the domain are clamped.
    assert_eq!(acos_fp(2 * SCALE), 0);
    assert_eq!(asin_fp(SCALE), HALF_PI_FP);
    assert_eq!(asin_fp(-SCALE), -HALF_PI_FP);
    let mut x = -0.99f64;
    while x < 1.0 {
        assert!((to_f(acos_fp(fp(x))) - x.acos()).abs() < 1e-9, "acos({x})");
        assert!((to_f(asin_fp(fp(x))) - x.asin()).abs() < 1e-9, "asin({x})");
        x += 0.083;
    }
}

#[test]
fn whole_and_micro_constructors_are_exact() {
    assert_eq!(fp_from_int(7000), 7000 * SCALE);
    assert_eq!(fp_from_int(-3), -3 * SCALE);
    // 1.5 and -0.5 are exactly representable at Q40.
    assert_eq!(fp_from_micro(1_500_000), SCALE + SCALE / 2);
    assert_eq!(fp_from_micro(-500_000), -(SCALE / 2));
    // Truncation toward zero, exactly as specified.
    assert_eq!(fp_from_micro(7_546_000), 7_546_000i128 * SCALE / 1_000_000);
}
