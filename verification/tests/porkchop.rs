//! The window search: the recorded global-minimum cell of a porkchop
//! grid equals what an independent brute-force scan finds, its
//! coordinates point at a cell holding that value, and cells the solver
//! cannot serve cost `INF_COST`.

use astrodyn::archive::StateArchive;
use astrodyn::bodies::{BodyInfo, BodyState};
use astrodyn::fixed::SCALE;
use astrodyn::porkchop::{make_porkchop_grid, scan_min, PorkchopCell, INF_COST};
use astrodyn::vec3::V3;

const MU_SUN: f64 = 1.32712440018e11; // km^3/s^2

fn fp(x: f64) -> i128 {
    (x * SCALE as f64).round() as i128
}

fn to_f(x: i128) -> f64 {
    x as f64 / SCALE as f64
}

fn v3(x: f64, y: f64, z: f64) -> V3 {
    V3 { x: fp(x), y: fp(y), z: fp(z) }
}

fn body(name: &str, mu: f64, affects: bool, affected: bool) -> BodyInfo {
    BodyInfo {
        name: name.to_string(),
        mu: fp(mu),
        radius: fp(6000.0),
        j2: 0,
        rotational_rate: 0,
        tilt: V3 { x: 0, y: 0, z: SCALE },
        affected,
        affects,
        kepler_parent: 0,
        display_as_keplerian: true,
    }
}

/// Sun plus two planets on circular orbits, propagated a few coarse steps
/// so different grid cells see different geometry.
fn setup() -> (Vec<BodyInfo>, StateArchive) {
    let infos = vec![
        body("Star", MU_SUN, true, false),
        body("Home", 398600.4418, false, true),
        body("Target", 42828.37, false, true),
    ];
    let r1 = 1.496e8f64;
    let r2 = 2.28e8f64;
    let v1 = (MU_SUN / r1).sqrt();
    let v2 = (MU_SUN / r2).sqrt();
    let states = vec![
        BodyState { r: V3 { x: 0, y: 0, z: 0 }, v: V3 { x: 0, y: 0, z: 0 } },
        BodyState { r: v3(r1, 0.0, 0.0), v: v3(0.0, v1, 0.0) },
        BodyState { r: v3(-0.2 * r2, 0.98 * r2, 1000.0), v: v3(-0.98 * v2, -0.2 * v2, 0.0) },
    ];
    // One step is a million seconds: coarse, but the window search only
    // needs distinct snapshots.
    let dt = 1000000.0f64;
    let mut archive = StateArchive::new(states, fp(dt));
    archive.propagate_steps(&infos, 24);
    (infos, archive)
}

fn lambert_cell(
    archive: &StateArchive,
    depart_step: usize,
    arrival_step: usize,
) -> PorkchopCell {
    let s1 = archive.get(depart_step, 1).unwrap();
    let s2 = archive.get(arrival_step, 2).unwrap();
    let r1 = [to_f(s1.r.x), to_f(s1.r.y), to_f(s1.r.z)];
    let r2 = [to_f(s2.r.x), to_f(s2.r.y), to_f(s2.r.z)];
    let tof = 1000000.0 * (arrival_step - depart_step) as f64;
    let solve = |short: bool| match lambert_bate::get_velocities(
        r1, r2, tof, MU_SUN, short, 1e-7, 100,
    ) {
        Ok((w1, w2)) => Some((v3(w1[0], w1[1], w1[2]), v3(w2[0], w2[1], w2[2]))),
        Err(_) => None,
    };
    PorkchopCell { depart_step, arrival_step, v_short: solve(true), v_long: solve(false) }
}

#[test]
fn recorded_minimum_equals_brute_force_scan() {
    let (infos, archive) = setup();
    let mut cells: Vec<Vec<PorkchopCell>> = Vec::new();
    for travel in [14usize, 18, 22] {
        let mut row = Vec::new();
        for depart in [0usize, 1, 2] {
            row.push(lambert_cell(&archive, depart, depart + travel));
        }
        cells.push(row);
    }
    let g = make_porkchop_grid(&archive, &infos, 1, 2, &cells);
    assert_eq!(g.rows.len(), 3);
    for row in &g.rows {
        assert_eq!(row.len(), 3);
    }
    // The recorded minimum equals an independent brute-force scan.
    assert_eq!(g.min_value, scan_min(&g.rows));
    let mut brute = INF_COST;
    for row in &g.rows {
        for &c in row {
            if c < brute {
                brute = c;
            }
        }
    }
    assert_eq!(g.min_value, brute);
    // The recorded coordinates hold the minimum.
    assert!(g.min_value < INF_COST, "at least one cell should succeed");
    assert_eq!(g.rows[g.min_travel][g.min_depart], g.min_value);
}

#[test]
fn unreachable_cells_cost_infinity() {
    let (infos, archive) = setup();
    let dead = PorkchopCell { depart_step: 0, arrival_step: 5, v_short: None, v_long: None };
    let cells = vec![vec![dead]];
    let g = make_porkchop_grid(&archive, &infos, 1, 2, &cells);
    assert_eq!(g.rows[0][0], INF_COST);
    assert_eq!(g.min_value, INF_COST);
    assert_eq!(scan_min(&g.rows), INF_COST);
}

#[test]
fn empty_grid_minimum_is_infinity() {
    let (infos, archive) = setup();
    let cells: Vec<Vec<PorkchopCell>> = Vec::new();
    let g = make_porkchop_grid(&archive, &infos, 1, 2, &cells);
    assert_eq!(g.min_value, INF_COST);
    assert_eq!(scan_min(&g.rows), INF_COST);
}
