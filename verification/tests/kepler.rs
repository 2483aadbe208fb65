//! Orbital-element conversions and the Kepler's-equation solver: element
//! values, state round-trips for circular, elliptical and hyperbolic
//! orbits, orbit sampling, and solver convergence.

use astrodyn::bodies::BodyState;
use astrodyn::fixed::SCALE;
use astrodyn::keplerian::{
    eccentric_anomaly_from_mean, oe_from_rv, oe_to_vec, position_from_true_anomoly,
    true_anomoly_from_mean_anomaly, OE,
};
use astrodyn::vec3::V3;

const MU_EARTH: f64 = 398600.4418; // km^3/s^2

fn fp(x: f64) -> i128 {
    (x * SCALE as f64).round() as i128
}

fn to_f(x: i128) -> f64 {
    x as f64 / SCALE as f64
}

fn v3(x: f64, y: f64, z: f64) -> V3 {
    V3 { x: fp(x), y: fp(y), z: fp(z) }
}

/// Rotate a perifocal vector into the inertial frame (float reference).
fn rotate(lan: f64, w: f64, inc: f64, v: [f64; 3]) -> [f64; 3] {
    let (cl, sl) = (lan.cos(), lan.sin());
    let (cw, sw) = (w.cos(), w.sin());
    let (ci, si) = (inc.cos(), inc.sin());
    let m = [
        [cl * cw - sl * sw * ci, -cl * sw - sl * cw * ci, sl * si],
        [sl * cw + cl * sw * ci, -sl * sw + cl * cw * ci, -cl * si],
        [sw * si, cw * si, ci],
    ];
    let mut out = [0.0f64; 3];
    for r in 0..3 {
        out[r] = m[r][0] * v[0] + m[r][1] * v[1] + m[r][2] * v[2];
    }
    out
}

/// A state vector exactly consistent with the given elements (float
/// reference construction).
fn state_from_elements(a: f64, e: f64, inc: f64, lan: f64, w: f64, f: f64) -> (V3, V3) {
    let p = a * (1.0 - e * e);
    let r_mag = p / (1.0 + e * f.cos());
    let r_pqw = [r_mag * f.cos(), r_mag * f.sin(), 0.0];
    let k = (MU_EARTH / p).sqrt();
    let v_pqw = [-k * f.sin(), k * (e + f.cos()), 0.0];
    let r = rotate(lan, w, inc, r_pqw);
    let v = rotate(lan, w, inc, v_pqw);
    (v3(r[0], r[1], r[2]), v3(v[0], v[1], v[2]))
}

fn round_trip(a: f64, e: f64, inc: f64, lan: f64, w: f64, f: f64) {
    let (r, v) = state_from_elements(a, e, inc, lan, w, f);
    let oe = oe_from_rv(fp(MU_EARTH), &BodyState { r, v });
    let back = position_from_true_anomoly(&oe, oe.f);
    let expect = [to_f(r.x), to_f(r.y), to_f(r.z)];
    let got = [to_f(back.x), to_f(back.y), to_f(back.z)];
    let r_mag = (expect[0] * expect[0] + expect[1] * expect[1] + expect[2] * expect[2]).sqrt();
    for k in 0..3 {
        assert!(
            (got[k] - expect[k]).abs() / r_mag < 1e-6,
            "round trip a={a} e={e}: axis {k}: {} vs {}",
            got[k],
            expect[k]
        );
    }
}

#[test]
fn round_trip_circular() {
    round_trip(9000.0, 0.0, 0.7, 1.3, 0.0, 0.9);
}

#[test]
fn round_trip_elliptical() {
    round_trip(12000.0, 0.5, 0.6, 1.1, 2.2, 0.8);
}

#[test]
fn round_trip_hyperbolic() {
    round_trip(-20000.0, 1.5, 0.4, 0.9, 1.7, 0.5);
}

#[test]
fn elements_of_an_inclined_ellipse() {
    let (r, v) = state_from_elements(12000.0, 0.3, 0.6, 1.1, 2.2, 0.8);
    let oe = oe_from_rv(fp(MU_EARTH), &BodyState { r, v });
    assert!((to_f(oe.a) - 12000.0).abs() / 12000.0 < 1e-6, "a = {}", to_f(oe.a));
    assert!((to_f(oe.e) - 0.3).abs() < 1e-6, "e = {}", to_f(oe.e));
    assert!((to_f(oe.i) - 0.6).abs() < 1e-6, "i = {}", to_f(oe.i));
    assert!((to_f(oe.lan) - 1.1).abs() < 1e-6, "lan = {}", to_f(oe.lan));
    assert!((to_f(oe.arg_pe) - 2.2).abs() < 1e-6, "arg_pe = {}", to_f(oe.arg_pe));
    assert!((to_f(oe.f) - 0.8).abs() < 1e-6, "f = {}", to_f(oe.f));
}

#[test]
fn equatorial_orbit_gets_zero_node() {
    // Equatorial prograde circle: the node is undefined, the documented
    // policy sets the node longitude and argument of periapsis to zero.
    let r = v3(7000.0, 0.0, 0.0);
    let v = v3(0.0, (MU_EARTH / 7000.0).sqrt(), 0.0);
    let oe = oe_from_rv(fp(MU_EARTH), &BodyState { r, v });
    assert_eq!(oe.lan, 0);
    assert_eq!(oe.arg_pe, 0);
    assert!(to_f(oe.e) < 1e-6);
    assert!(to_f(oe.i).abs() < 1e-6);
}

#[test]
fn kepler_newton_circular_is_exact() {
    // With e == 0 the Newton stage returns the mean anomaly bit for bit.
    for &m in &[0.3f64, 1.7, 3.0, 5.9] {
        assert_eq!(eccentric_anomaly_from_mean(0, fp(m)), fp(m));
    }
}

#[test]
fn true_anomaly_circular_equals_mean_anomaly() {
    for &m in &[0.3f64, 1.7, 2.9] {
        let f = true_anomoly_from_mean_anomaly(0, fp(m));
        assert!((to_f(f) - m).abs() < 1e-9, "f({m}) = {}", to_f(f));
    }
}

#[test]
fn kepler_residual_below_threshold_at_high_eccentricity() {
    // e = 0.9: the fixed ten-iteration solve must leave a residual of
    // Kepler's equation below 1e-9.
    let e = 0.9f64;
    for &m in &[0.4f64, 1.7, 3.0, 5.0] {
        let ecc = to_f(eccentric_anomaly_from_mean(fp(e), fp(m)));
        let residual = (ecc - e * ecc.sin() - m).abs();
        assert!(residual < 1e-9, "residual at M={m} is {residual}");
    }
}

#[test]
fn true_anomaly_matches_float_reference() {
    let e = 0.9f64;
    let m = 1.7f64;
    let mut ecc = m;
    for _ in 0..50 {
        ecc = ecc - (ecc - e * ecc.sin() - m) / (1.0 - e * ecc.cos());
    }
    let expect =
        2.0 * ((1.0 + e).sqrt() * (ecc / 2.0).sin()).atan2((1.0 - e).sqrt() * (ecc / 2.0).cos());
    let f = to_f(true_anomoly_from_mean_anomaly(fp(e), fp(m)));
    assert!((f - expect).abs() < 1e-8, "f = {f}, expect {expect}");
}

#[test]
fn orbit_sampling_counts() {
    let (r, v) = state_from_elements(12000.0, 0.3, 0.6, 1.1, 2.2, 0.8);
    let oe = oe_from_rv(fp(MU_EARTH), &BodyState { r, v });
    let pts = oe_to_vec(&oe);
    assert_eq!(pts.len(), 3600);
    // The first sample sits at true anomaly zero: the periapsis.
    let p0 = position_from_true_anomoly(&oe, 0);
    assert_eq!(pts[0], p0);

    let (rh, vh) = state_from_elements(-20000.0, 1.5, 0.4, 0.9, 1.7, 0.5);
    let oeh = oe_from_rv(fp(MU_EARTH), &BodyState { r: rh, v: vh });
    assert!(oeh.a < 0);
    let pts_h = oe_to_vec(&oeh);
    // Hyperbolic sampling trims ten samples at each end of 3600.
    assert_eq!(pts_h.len(), 3580);
}

#[test]
fn empty_elements_are_zero() {
    let oe = OE::empty();
    assert_eq!(oe.a, 0);
    assert_eq!(oe.e, 0);
    assert_eq!(oe.i, 0);
    assert_eq!(oe.f, 0);
    assert_eq!(oe.arg_pe, 0);
    assert_eq!(oe.lan, 0);
}

#[test]
fn position_on_a_plain_circle() {
    // A circular equatorial orbit of 7000 km: a quarter turn from
    // periapsis sits on the +y axis.
    let oe = OE { a: fp(7000.0), e: 0, i: 0, f: 0, arg_pe: 0, lan: 0 };
    let p = position_from_true_anomoly(&oe, fp(std::f64::consts::FRAC_PI_2));
    assert!(to_f(p.x).abs() < 1e-6, "x = {}", to_f(p.x));
    assert!((to_f(p.y) - 7000.0).abs() < 1e-5, "y = {}", to_f(p.y));
    assert!(to_f(p.z).abs() < 1e-6, "z = {}", to_f(p.z));
}
