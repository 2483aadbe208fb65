//! Propagation: the end-to-end closed-orbit scenario, conservation of
//! the orbit constants, bit-exact determinism, the archive's append-only
//! queries, and the initialization catalog.

use astrodyn::archive::{CoreError, StateArchive};
use astrodyn::bodies::{planets_info, BodyInfo, BodyState};
use astrodyn::fixed::SCALE;
use astrodyn::keplerian::oe_from_rv;
use astrodyn::nbody::rk4_step;
use astrodyn::vec3::{v3_cross, v3_norm, V3};

const MU: f64 = 398600.0; // km^3/s^2: 3.986e14 m^3/s^2

fn fp(x: f64) -> i128 {
    (x * SCALE as f64).round() as i128
}

fn to_f(x: i128) -> f64 {
    x as f64 / SCALE as f64
}

/// A massive central body that nothing moves, plus one satellite of
/// negligible mass at 7000 km and 7.546 km/s.
fn two_body_setup() -> (Vec<BodyInfo>, Vec<BodyState>) {
    let zero = V3 { x: 0, y: 0, z: 0 };
    let pole = V3 { x: 0, y: 0, z: SCALE };
    let central = BodyInfo {
        name: "Primary".to_string(),
        mu: fp(MU),
        radius: fp(6378.0),
        j2: 0,
        rotational_rate: 0,
        tilt: pole,
        affected: false,
        affects: true,
        kepler_parent: 0,
        display_as_keplerian: false,
    };
    let sat = BodyInfo {
        name: "Probe".to_string(),
        mu: fp(1e-9),
        radius: fp(0.001),
        j2: 0,
        rotational_rate: 0,
        tilt: pole,
        affected: true,
        affects: false,
        kepler_parent: 0,
        display_as_keplerian: true,
    };
    let states = vec![
        BodyState { r: zero, v: zero },
        BodyState { r: V3 { x: fp(7000.0), y: 0, z: 0 }, v: V3 { x: 0, y: fp(7.546), z: 0 } },
    ];
    (vec![central, sat], states)
}

/// Orbital period of the test satellite, from the vis-viva energy.
fn period() -> f64 {
    let a = 1.0 / (2.0 / 7000.0 - 7.546 * 7.546 / MU);
    2.0 * std::f64::consts::PI * (a * a * a / MU).sqrt()
}

#[test]
fn one_period_returns_to_start() {
    // Propagate one full orbital period at dt = 10 s: whole steps first,
    // then the fractional remainder as one short step. The final position
    // must come back to within 1 km of the start.
    let (infos, states) = two_body_setup();
    let t = period();
    let whole = (t / 10.0).floor() as usize;
    let mut archive = StateArchive::new(states, 10 * SCALE);
    archive.propagate_steps(&infos, whole);
    let last = archive.last_computed_step();
    let final_snap = rk4_step(
        &infos,
        &archive.snaps[last],
        fp(t - 10.0 * whole as f64),
    );
    let r = final_snap[1].r;
    let dx = to_f(r.x) - 7000.0;
    let dy = to_f(r.y);
    let dz = to_f(r.z);
    let dist = (dx * dx + dy * dy + dz * dz).sqrt();
    assert!(dist < 1.0, "distance from start after one period: {dist} km");
}

#[test]
fn orbit_constants_are_conserved() {
    // Semi-major axis and angular-momentum magnitude from the elements
    // agree before and after a period's worth of steps, within 1e-6
    // relative.
    let (infos, states) = two_body_setup();
    let n = (period() / 10.0).round() as usize;
    let h0 = to_f(v3_norm(&v3_cross(&states[1].r, &states[1].v)));
    let oe0 = oe_from_rv(fp(MU), &states[1]);
    let mut archive = StateArchive::new(states, 10 * SCALE);
    archive.propagate_steps(&infos, n);
    let last = archive.last_computed_step();
    let end = archive.get(last, 1).unwrap();
    let h1 = to_f(v3_norm(&v3_cross(&end.r, &end.v)));
    let oe1 = oe_from_rv(fp(MU), &end);
    assert!((h1 - h0).abs() / h0 < 1e-6, "h: {h0} -> {h1}");
    let a0 = to_f(oe0.a);
    let a1 = to_f(oe1.a);
    assert!((a1 - a0).abs() / a0 < 1e-6, "a: {a0} -> {a1}");
}

#[test]
fn propagation_is_bit_identical_across_budgets() {
    // Two runs from the same catalog, epoch and dt: one advances 10 steps
    // in one call, the other in budgets of 4, 3 and 3. Every snapshot
    // matches bit for bit.
    let (infos, states) = two_body_setup();
    let mut a = StateArchive::new(states.clone(), 10 * SCALE);
    let mut b = StateArchive::new(states, 10 * SCALE);
    a.propagate_steps(&infos, 10);
    b.propagate_steps(&infos, 4);
    b.propagate_steps(&infos, 3);
    b.propagate_steps(&infos, 3);
    assert_eq!(a.snaps.len(), b.snaps.len());
    for k in 0..a.snaps.len() {
        assert_eq!(a.snaps[k], b.snaps[k], "snapshot {k} differs");
    }
}

#[test]
fn unaffected_central_body_stays_frozen() {
    let (infos, states) = two_body_setup();
    let mut archive = StateArchive::new(states, 10 * SCALE);
    archive.propagate_steps(&infos, 25);
    for k in 0..archive.snaps.len() {
        let central = archive.get(k, 0).unwrap();
        assert_eq!(central.r, V3 { x: 0, y: 0, z: 0 });
        assert_eq!(central.v, V3 { x: 0, y: 0, z: 0 });
    }
}

#[test]
fn archive_queries_fail_fast() {
    let (infos, states) = two_body_setup();
    let mut archive = StateArchive::new(states, 10 * SCALE);
    archive.propagate_steps(&infos, 2);
    assert_eq!(archive.last_computed_step(), 2);
    assert!(archive.get(2, 1).is_ok());
    assert_eq!(archive.get(3, 1), Err(CoreError::StepNotYetComputed));
    assert_eq!(archive.get(0, 5), Err(CoreError::UnknownBody));
}

#[test]
fn catalog_holds_the_solar_system() {
    let bodies = planets_info();
    assert_eq!(bodies.len(), 12);
    let sun = &bodies[0].1;
    assert_eq!(sun.name, "Sun");
    assert!(!sun.affected);
    assert!(sun.affects);
    assert!((to_f(sun.mu) - 1.327124400189e11).abs() / 1.327124400189e11 < 1e-9);
    let earth = &bodies[3].1;
    assert_eq!(earth.name, "Earth");
    assert!((to_f(earth.mu) - 398600.435507).abs() / 398600.0 < 1e-3);
    assert_eq!(earth.kepler_parent, 0);
    // The moon orbits the earth.
    let luna = &bodies[9].1;
    assert_eq!(luna.name, "Luna");
    assert_eq!(luna.kepler_parent, 3);
    for (state, info) in &bodies {
        assert!(info.mu > 0);
        assert!((info.kepler_parent as usize) < bodies.len());
        // Positions stay within the outer solar system.
        assert!(to_f(state.r.x).abs() < 5e9);
        assert!(to_f(state.r.y).abs() < 5e9);
        assert!(to_f(state.r.z).abs() < 5e9);
    }
}

#[test]
fn relative_elements_of_the_moon() {
    // The moon's orbit about the earth, queried straight from the
    // initialization catalog at the epoch.
    let bodies = planets_info();
    let mut epoch: Vec<BodyState> = Vec::new();
    let mut infos: Vec<BodyInfo> = Vec::new();
    for (state, info) in bodies {
        epoch.push(state);
        infos.push(info);
    }
    let archive = StateArchive::new(epoch, 100 * SCALE);
    let oe = astrodyn::keplerian::oe_relative(&archive, &infos, 0, 9, 3).unwrap();
    let a = to_f(oe.a);
    assert!(
        (a - 388808.43).abs() / 388808.43 < 1e-4,
        "moon semi-major axis: {a} km"
    );
    assert!(to_f(oe.e) > 0.0 && to_f(oe.e) < 0.2, "moon eccentricity: {}", to_f(oe.e));
    // Out-of-range queries fail fast.
    assert_eq!(
        astrodyn::keplerian::oe_relative(&archive, &infos, 3, 9, 3),
        Err(CoreError::StepNotYetComputed)
    );
    assert_eq!(
        astrodyn::keplerian::oe_relative(&archive, &infos, 0, 30, 3),
        Err(CoreError::UnknownBody)
    );
}
