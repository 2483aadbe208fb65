//! The transfer designer, fed by the outside boundary-value (Lambert)
//! solver: a heliocentric transfer between two circular planet orbits,
//! explicit failure on degenerate geometry, and the per-departure
//! transfer list.

use astrodyn::archive::{CoreError, StateArchive};
use astrodyn::bodies::{BodyInfo, BodyState};
use astrodyn::fixed::SCALE;
use astrodyn::interplanetary::{
    interplanetary, solve_euler_angles_from_u_inf, solve_interplanetaries_for_departure_step,
    TransferCandidate,
};
use astrodyn::vec3::V3;

const MU_SUN: f64 = 1.32712440018e11; // km^3/s^2
const MU_EARTH: f64 = 398600.4418;
const MU_MARS: f64 = 42828.37;

fn fp(x: f64) -> i128 {
    (x * SCALE as f64).round() as i128
}

fn to_f(x: i128) -> f64 {
    x as f64 / SCALE as f64
}

fn v3(x: f64, y: f64, z: f64) -> V3 {
    V3 { x: fp(x), y: fp(y), z: fp(z) }
}

fn body(name: &str, mu: f64, affects: bool, affected: bool) -> BodyInfo {
    BodyInfo {
        name: name.to_string(),
        mu: fp(mu),
        radius: fp(6000.0),
        j2: 0,
        rotational_rate: 0,
        tilt: V3 { x: 0, y: 0, z: SCALE },
        affected,
        affects,
        kepler_parent: 0,
        display_as_keplerian: true,
    }
}

/// Sun at the origin; a planet on the +x axis and another at its transfer
/// arrival point on the -x axis, both on circular heliocentric orbits.
fn transfer_setup() -> (Vec<BodyInfo>, StateArchive, f64) {
    let infos = vec![
        body("Star", MU_SUN, true, false),
        body("Home", MU_EARTH, false, true),
        body("Target", MU_MARS, false, true),
    ];
    let r1 = 1.496e8f64;
    let r2 = 2.28e8f64;
    let v1 = (MU_SUN / r1).sqrt();
    let v2 = (MU_SUN / r2).sqrt();
    let states = vec![
        BodyState { r: V3 { x: 0, y: 0, z: 0 }, v: V3 { x: 0, y: 0, z: 0 } },
        BodyState { r: v3(r1, 0.0, 0.0), v: v3(0.0, v1, 0.0) },
        // Already at the arrival geometry: the -x axis, slightly off
        // plane so the endpoints are not colinear with the sun.
        BodyState { r: v3(-r2, 1000.0, 0.0), v: v3(0.0, -v2, 0.0) },
    ];
    let archive = StateArchive::new(states, 100 * SCALE);
    (infos, archive, 22372602.0)
}

/// The Lambert velocities for the setup above, from the outside solver.
fn lambert_pair(
    archive: &StateArchive,
    b1: usize,
    b2: usize,
    tof: f64,
    short: bool,
) -> Option<(V3, V3)> {
    let s1 = archive.get(0, b1).unwrap();
    let s2 = archive.get(0, b2).unwrap();
    let r1 = [to_f(s1.r.x), to_f(s1.r.y), to_f(s1.r.z)];
    let r2 = [to_f(s2.r.x), to_f(s2.r.y), to_f(s2.r.z)];
    match lambert_bate::get_velocities(r1, r2, tof, MU_SUN, short, 1e-7, 100) {
        Ok((w1, w2)) => Some((v3(w1[0], w1[1], w1[2]), v3(w2[0], w2[1], w2[2]))),
        Err(_) => None,
    }
}

#[test]
fn designs_a_heliocentric_transfer() {
    let (infos, archive, tof) = transfer_setup();
    let lv = lambert_pair(&archive, 1, 2, tof, true);
    assert!(lv.is_some(), "the Lambert solve should succeed");
    let ip = interplanetary(&archive, &infos, 0, 0, 1, 2, lv).unwrap();
    assert_eq!(ip.body0, 0);
    assert_eq!(ip.body1, 1);
    assert_eq!(ip.body2, 2);
    // The transfer leg's semi-major axis matches the float vis-viva value
    // computed from the departure state.
    let (v1, _) = lv.unwrap();
    let r = 1.496e8f64;
    let speed2 = to_f(v1.x).powi(2) + to_f(v1.y).powi(2) + to_f(v1.z).powi(2);
    let a_expect = 1.0 / (2.0 / r - speed2 / MU_SUN);
    let a_got = to_f(ip.oe0.a);
    assert!(
        (a_got - a_expect).abs() / a_expect < 1e-5,
        "transfer a: {a_got} vs {a_expect}"
    );
    // The delta-v at each end matches the float reference formula
    // |sqrt(|v_inf|^2 + 2 mu / rp) - sqrt(mu / rp)| with rp = 7000 km.
    let (_, v2t) = lv.unwrap();
    let s1 = archive.get(0, 1).unwrap();
    let s2 = archive.get(0, 2).unwrap();
    let vinf1 = [
        to_f(v1.x) - to_f(s1.v.x),
        to_f(v1.y) - to_f(s1.v.y),
        to_f(v1.z) - to_f(s1.v.z),
    ];
    let vinf2 = [
        to_f(v2t.x) - to_f(s2.v.x),
        to_f(v2t.y) - to_f(s2.v.y),
        to_f(v2t.z) - to_f(s2.v.z),
    ];
    let rp = 7000.0f64;
    let expect_dv = |vinf: [f64; 3], mu: f64| {
        let vi2 = vinf[0] * vinf[0] + vinf[1] * vinf[1] + vinf[2] * vinf[2];
        ((vi2 + 2.0 * mu / rp).sqrt() - (mu / rp).sqrt()).abs()
    };
    let dv1 = to_f(ip.dv1);
    let dv2 = to_f(ip.dv2);
    let e1 = expect_dv(vinf1, MU_EARTH);
    let e2 = expect_dv(vinf2, MU_MARS);
    assert!((dv1 - e1).abs() / e1 < 1e-6, "dv1 = {dv1}, expect {e1}");
    assert!((dv2 - e2).abs() / e2 < 1e-6, "dv2 = {dv2}, expect {e2}");
}

#[test]
fn degenerate_geometry_fails_explicitly() {
    // Departure and arrival at the same archived position with a nonzero
    // time of flight: the designer must report no solution, never NaN-like
    // velocities, whatever the solver returned.
    let (infos, archive, _) = transfer_setup();
    let junk = Some((v3(1.0, 2.0, 3.0), v3(4.0, 5.0, 6.0)));
    let r = interplanetary(&archive, &infos, 0, 0, 1, 1, junk);
    assert_eq!(r, Err(CoreError::NoTransferSolution));
}

#[test]
fn missing_lambert_solution_fails_explicitly() {
    let (infos, archive, _) = transfer_setup();
    let r = interplanetary(&archive, &infos, 0, 0, 1, 2, None);
    assert_eq!(r, Err(CoreError::NoTransferSolution));
}

#[test]
fn singular_orientation_candidate_is_rejected() {
    // With the rotated asymptote direction's y component at zero, the
    // candidate is singular and must be refused.
    let p = v3(-1.0, 0.0, 0.0);
    let u = v3(0.0, 0.0, 1.0);
    assert!(solve_euler_angles_from_u_inf(&p, &u, 0).is_none());
    // A generic candidate is accepted.
    let p2 = v3(-0.6, 0.8, 0.0);
    assert!(solve_euler_angles_from_u_inf(&p2, &u, fp(0.5)).is_some());
}

#[test]
fn transfer_list_keeps_the_cheaper_branch() {
    let (infos, archive, tof) = transfer_setup();
    let short = lambert_pair(&archive, 1, 2, tof, true);
    let long = lambert_pair(&archive, 1, 2, tof, false);
    let candidates = vec![
        TransferCandidate { arrival_step: 0, v_short: short, v_long: long },
        // A candidate with no solutions at all is skipped.
        TransferCandidate { arrival_step: 0, v_short: None, v_long: None },
    ];
    let list =
        solve_interplanetaries_for_departure_step(&archive, &infos, 0, 1, 2, &candidates);
    assert_eq!(list.len(), 1);
    let picked = &list[0].1;
    let ip_short = interplanetary(&archive, &infos, 0, 0, 1, 2, short).unwrap();
    let ip_long = interplanetary(&archive, &infos, 0, 0, 1, 2, long).unwrap();
    let sum_short = to_f(ip_short.dv1) + to_f(ip_short.dv2);
    let sum_long = to_f(ip_long.dv1) + to_f(ip_long.dv2);
    let sum_picked = to_f(picked.dv1) + to_f(picked.dv2);
    assert!((sum_picked - sum_short.min(sum_long)).abs() < 1e-12);
}
