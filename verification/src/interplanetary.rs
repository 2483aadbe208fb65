//! The transfer designer: given the archived states of a departure and an
//! arrival body and the velocities of a heliocentric Lambert arc between
//! them, compute the transfer leg's elements, the hyperbolic departure and
//! arrival geometry (orientation search over candidate arguments of
//! periapsis), and the two delta-v magnitudes.
//!
//! The boundary-value (Lambert) solve itself is an outside capability that
//! works in floating point; callers hand its two velocity vectors in, or
//! `None` when it found no solution. Degenerate geometry (equal endpoint
//! positions) is rejected explicitly before any velocity is used, and an
//! orientation search that accepts no candidate fails explicitly instead
//! of returning a zero-valued default.

use vstd::prelude::*;

verus! {

use crate::fixed::{
    SCALE,
    FP_LIM,
    fp_mag,
    fp_clip,
    fp_add_s,
    fp_sub_s,
    fp_mul_s,
    fp_div_s,
    fp_sqrt_s,
    fp_add,
    fp_sub,
    fp_mul,
    fp_div,
    fp_sqrt,
    fp_abs,
};
use crate::trig::{sin_s, cos_s, asin_s, atan2_s, sin_fp, cos_fp, asin_fp, atan2_fp, DEG_FP};
use crate::vec3::{V3, V3s, v3_sub_s, v3_norm_s, v3_sub, v3_norm};
use crate::bodies::{BodyState, BodyStateS, BodyInfo};
use crate::archive::{StateArchive, CoreError};
use crate::keplerian::{
    OE,
    OEs,
    M3,
    oe_from_rv,
    oe_from_rv_s,
    pqw_to_inertial_rot,
    pqw_rot_s,
    m3_apply,
    m3_apply_s,
};

/// Near-zero threshold of the orientation search: 1e-6 at Q40.
pub const ORIENT_EPS: i128 = 1099512;

/// The target of the orientation search (a fixed design choice): 90 at
/// Q40, approximating a launch-site-constrained departure.
pub const TARGET_INCL_FP: i128 = 98956046499840;

/// Initial best distance of the orientation search: 1e5 at Q40.
pub const ORIENT_MIN0_FP: i128 = 109951162777600000;

/// Periapsis radius used for both hyperbolas, km at Q40 (7000 km).
pub const HYPERBOLA_RP_FP: i128 = 7696581394432000;

/// A designed transfer: the two endpoint bodies, the central body, the
/// elements of the heliocentric leg and of the two hyperbolas, and the
/// delta-v magnitude at each end.
#[derive(Clone, Copy, PartialEq, Eq, Structural, Debug)]
pub struct Interplanetary {
    pub body0: usize,
    pub body1: usize,
    pub body2: usize,
    pub oe0: OE,
    pub oe1: OE,
    pub oe2: OE,
    pub dv1: i128,
    pub dv2: i128,
}

/// The mathematical value of an `Interplanetary`.
pub struct InterplanetaryS {
    pub body0: int,
    pub body1: int,
    pub body2: int,
    pub oe0: OEs,
    pub oe1: OEs,
    pub oe2: OEs,
    pub dv1: int,
    pub dv2: int,
}

impl View for Interplanetary {
    type V = InterplanetaryS;

    open spec fn view(&self) -> InterplanetaryS {
        InterplanetaryS {
            body0: self.body0 as int,
            body1: self.body1 as int,
            body2: self.body2 as int,
            oe0: self.oe0@,
            oe1: self.oe1@,
            oe2: self.oe2@,
            dv1: self.dv1 as int,
            dv2: self.dv2 as int,
        }
    }
}

/// What `solve_euler_angles_from_u_inf` returns: rotate the perifocal
/// asymptote direction about z by minus the candidate argument of
/// periapsis; reject the candidate when the resulting y component is
/// nearly zero, else solve for the node longitude and the inclination
/// parameter consistent with the inertial asymptote direction.
#[verifier::opaque]
pub open spec fn euler_angles_s(p: V3s, u: V3s, w: int) -> Option<(int, int)> {
    let ax = fp_add_s(fp_mul_s(cos_s(w), p.x), fp_mul_s(sin_s(w), p.y));
    let ay = fp_sub_s(fp_mul_s(cos_s(w), p.y), fp_mul_s(sin_s(w), p.x));
    if fp_mag(fp_clip(ay)) < ORIENT_EPS {
        None
    } else {
        let inc = fp_div_s(u.z, ay);
        let lan = atan2_s(
            fp_sub_s(fp_mul_s(u.x, ax), fp_mul_s(u.y, ax)),
            fp_add_s(fp_mul_s(u.x, ax), fp_mul_s(fp_mul_s(u.y, ay), cos_s(inc))),
        );
        Some((lan, inc))
    }
}

/// Candidate Euler angles for one argument of periapsis, or `None` when
/// the intermediate rotation is singular there.
pub fn solve_euler_angles_from_u_inf(u_inf_pqw: &V3, u_inf: &V3, w: i128) -> (r: Option<
    (i128, i128),
>)
    ensures
        match r {
            Some(pair) => euler_angles_s(u_inf_pqw@, u_inf@, w as int) == Some(
                (pair.0 as int, pair.1 as int),
            ),
            None => euler_angles_s(u_inf_pqw@, u_inf@, w as int) is None,
        },
{
    proof {
        reveal(euler_angles_s);
    }
    let cw: i128 = cos_fp(w);
    let sw: i128 = sin_fp(w);
    let ax: i128 = fp_add(fp_mul(cw, u_inf_pqw.x), fp_mul(sw, u_inf_pqw.y));
    let ay: i128 = fp_sub(fp_mul(cw, u_inf_pqw.y), fp_mul(sw, u_inf_pqw.x));
    if fp_abs(ay) < ORIENT_EPS {
        return None;
    }
    let inc: i128 = fp_div(u_inf.z, ay);
    let lan: i128 = atan2_fp(
        fp_sub(fp_mul(u_inf.x, ax), fp_mul(u_inf.y, ax)),
        fp_add(fp_mul(u_inf.x, ax), fp_mul(fp_mul(u_inf.y, ay), cos_fp(inc))),
    );
    Some((lan, inc))
}

/// The orientation search over the candidate arguments of periapsis
/// `0, 1, ..., n-1` degrees: the accepted candidate whose inclination
/// parameter lies closest to the target, with the distance reached.
pub open spec fn orient_search_s(p: V3s, u: V3s, n: nat) -> (Option<(int, int, int)>, int)
    decreases n,
{
    if n == 0 {
        (None::<(int, int, int)>, ORIENT_MIN0_FP as int)
    } else {
        let prev = orient_search_s(p, u, (n - 1) as nat);
        let w = (n - 1) * DEG_FP;
        match euler_angles_s(p, u, w) {
            Some(pair) => {
                let d = fp_mag(fp_clip(fp_sub_s(TARGET_INCL_FP as int, pair.1)));
                if d < prev.1 {
                    (Some((pair.0, pair.1, w)), d)
                } else {
                    prev
                }
            },
            None => prev,
        }
    }
}


/// One more candidate never worsens the reached distance of the
/// orientation search.
pub proof fn lemma_orient_search_monotone(p: V3s, u: V3s, n: nat)
    requires
        n > 0,
    ensures
        orient_search_s(p, u, n).1 <= orient_search_s(p, u, (n - 1) as nat).1,
{
}

/// The orientation search is optimal: no accepted candidate argument of
/// periapsis below `n` degrees lies closer to the target inclination
/// than the distance the search reached.
pub proof fn lemma_orient_search_least(p: V3s, u: V3s, n: nat, k: int)
    requires
        0 <= k < n,
    ensures
        match euler_angles_s(p, u, k * DEG_FP) {
            Some(pair) => orient_search_s(p, u, n).1 <= fp_mag(
                fp_clip(fp_sub_s(TARGET_INCL_FP as int, pair.1)),
            ),
            None => true,
        },
    decreases n,
{
    if k < n - 1 {
        lemma_orient_search_least(p, u, (n - 1) as nat, k);
        lemma_orient_search_monotone(p, u, n);
    }
}

fn orient_search(p: &V3, u: &V3) -> (r: Option<(i128, i128, i128)>)
    ensures
        match r {
            Some(t) => orient_search_s(p@, u@, 360).0 == Some(
                (t.0 as int, t.1 as int, t.2 as int),
            ),
            None => orient_search_s(p@, u@, 360).0 is None,
        },
{
    let mut best: Option<(i128, i128, i128)> = None;
    let mut best_d: i128 = ORIENT_MIN0_FP;
    let mut z: usize = 0;
    while z < 360
        invariant
            z <= 360,
            best_d == orient_search_s(p@, u@, z as nat).1,
            match best {
                Some(t) => orient_search_s(p@, u@, z as nat).0 == Some(
                    (t.0 as int, t.1 as int, t.2 as int),
                ),
                None => orient_search_s(p@, u@, z as nat).0 is None,
            },
        decreases 360 - z,
    {
        let w: i128 = (z as i128) * DEG_FP;
        match solve_euler_angles_from_u_inf(p, u, w) {
            Some(pair) => {
                let d: i128 = fp_abs(fp_sub(TARGET_INCL_FP, pair.1));
                if d < best_d {
                    best = Some((pair.0, pair.1, w));
                    best_d = d;
                }
            },
            None => {},
        }
        z = z + 1;
    }
    best
}

/// The perifocal-frame periapsis state of a hyperbola with periapsis
/// radius `rp` and periapsis speed `vp`, rotated inertial with the given
/// Euler angles, as (position, velocity).
pub open spec fn hyperbola_state_s(lan: int, inc: int, w: int, rp: int, vp: int) -> BodyStateS {
    let rot = pqw_rot_s(lan, w, inc);
    BodyStateS {
        r: m3_apply_s(rot, V3s { x: rp, y: 0int, z: 0int }),
        v: m3_apply_s(rot, V3s { x: 0int, y: vp, z: 0int }),
    }
}

/// What one end's hyperbola computation yields, before orientation:
/// periapsis speed `sqrt(|v_inf|^2 + 2 mu / rp)`, eccentricity
/// `1 + rp |v_inf|^2 / mu`, turning angle `2 asin(1/e)`, and the
/// perifocal asymptote direction `(-cos(delta/2), sin(delta/2), 0)`.
pub open spec fn hyperbola_vp_s(v_inf: V3s, mu: int, rp: int) -> int {
    let vi = v3_norm_s(v_inf);
    fp_sqrt_s(fp_add_s(fp_mul_s(vi, vi), fp_div_s(fp_mul_s(2 * SCALE, mu), rp)))
}

/// Hyperbola eccentricity at one end.
pub open spec fn hyperbola_e_s(v_inf: V3s, mu: int, rp: int) -> int {
    let vi = v3_norm_s(v_inf);
    fp_add_s(SCALE as int, fp_div_s(fp_mul_s(rp, fp_mul_s(vi, vi)), mu))
}

/// Perifocal asymptote direction of a hyperbola with eccentricity `e`.
pub open spec fn hyperbola_u_pqw_s(e: int) -> V3s {
    let delta = fp_mul_s(2 * SCALE, asin_s(fp_div_s(SCALE as int, e)));
    let half = fp_div_s(delta, 2 * SCALE);
    V3s { x: -cos_s(half), y: sin_s(half), z: 0int }
}

/// The unit direction of `v`, `v / |v|`.
pub open spec fn unit_s(v: V3s) -> V3s {
    let n = v3_norm_s(v);
    V3s { x: fp_div_s(v.x, n), y: fp_div_s(v.y, n), z: fp_div_s(v.z, n) }
}

fn unit(v: &V3) -> (r: V3)
    ensures
        r@ == unit_s(v@),
{
    let n: i128 = v3_norm(v);
    V3 { x: fp_div(v.x, n), y: fp_div(v.y, n), z: fp_div(v.z, n) }
}

/// One end of the transfer, solved: the oriented hyperbola's elements and
/// its periapsis speed, or `SingularOrientation` when no candidate was
/// accepted.
pub open spec fn hyperbola_end_s(v_inf: V3s, mu: int, rp: int) -> Result<(OEs, int), CoreError> {
    let vp = hyperbola_vp_s(v_inf, mu, rp);
    let e = hyperbola_e_s(v_inf, mu, rp);
    let u_pqw = hyperbola_u_pqw_s(e);
    match orient_search_s(u_pqw, unit_s(v_inf), 360).0 {
        Some(t) => {
            let st = hyperbola_state_s(t.0, t.1, t.2, rp, vp);
            Ok((oe_from_rv_s(mu, st), v3_norm_s(st.v)))
        },
        None => Err(CoreError::SingularOrientation),
    }
}

fn hyperbola_end(v_inf: &V3, mu: i128, rp: i128) -> (r: Result<(OE, i128), CoreError>)
    ensures
        match r {
            Ok(pair) => hyperbola_end_s(v_inf@, mu as int, rp as int) == Ok::<(OEs, int), CoreError>(
                (pair.0@, pair.1 as int),
            ),
            Err(e) => hyperbola_end_s(v_inf@, mu as int, rp as int) == Err::<(OEs, int), CoreError>(
                e,
            ),
        },
{
    let vi: i128 = v3_norm(v_inf);
    let vp: i128 = fp_sqrt(fp_add(fp_mul(vi, vi), fp_div(fp_mul(2 * SCALE, mu), rp)));
    let e: i128 = fp_add(SCALE, fp_div(fp_mul(rp, fp_mul(vi, vi)), mu));
    let delta: i128 = fp_mul(2 * SCALE, asin_fp(fp_div(SCALE, e)));
    let half: i128 = fp_div(delta, 2 * SCALE);
    let u_pqw = V3 { x: -cos_fp(half), y: sin_fp(half), z: 0 };
    let u: V3 = unit(v_inf);
    match orient_search(&u_pqw, &u) {
        Some(t) => {
            let rot: M3 = pqw_to_inertial_rot(t.0, t.2, t.1);
            let rp_vec: V3 = m3_apply(&rot, &V3 { x: rp, y: 0, z: 0 });
            let vp_vec: V3 = m3_apply(&rot, &V3 { x: 0, y: vp, z: 0 });
            let st = BodyState { r: rp_vec, v: vp_vec };
            let oe: OE = oe_from_rv(mu, &st);
            Ok((oe, v3_norm(&vp_vec)))
        },
        None => Err(CoreError::SingularOrientation),
    }
}

/// What `solve_interplanetary_hyperbolas` returns over the two ends.
pub open spec fn hyperbolas_s(
    st1: BodyStateS,
    st2: BodyStateS,
    v1: V3s,
    v2: V3s,
    mu1: int,
    mu2: int,
    rp1: int,
    rp2: int,
) -> Result<(OEs, OEs, int, int), CoreError> {
    let v_inf1 = v3_sub_s(v1, st1.v);
    let v_inf2 = v3_sub_s(v2, st2.v);
    match hyperbola_end_s(v_inf1, mu1, rp1) {
        Ok(end1) => match hyperbola_end_s(v_inf2, mu2, rp2) {
            Ok(end2) => Ok((end1.0, end2.0, end1.1, end2.1)),
            Err(e) => Err(e),
        },
        Err(e) => Err(e),
    }
}

/// Solve the hyperbolic departure and arrival geometry: subtract each
/// body's own velocity to get the hyperbolic excess velocity, size each
/// hyperbola from its body's gravitational parameter and the periapsis
/// radius, orient it so its asymptote matches the excess-velocity
/// direction, and return each end's elements and periapsis speed.
pub fn solve_interplanetary_hyperbolas(
    archive: &StateArchive,
    infos: &Vec<BodyInfo>,
    departure_step: usize,
    arrival_step: usize,
    body1: usize,
    body2: usize,
    v1: &V3,
    v2: &V3,
    rp1: i128,
    rp2: i128,
) -> (r: Result<(OE, OE, i128, i128), CoreError>)
    requires
        archive.wf(),
        departure_step < archive.snaps@.len(),
        arrival_step < archive.snaps@.len(),
        body1 < archive.n_bodies(),
        body2 < archive.n_bodies(),
        infos@.len() == archive.n_bodies(),
    ensures
        match r {
            Ok(t) => hyperbolas_s(
                archive.snaps@[departure_step as int]@[body1 as int]@,
                archive.snaps@[arrival_step as int]@[body2 as int]@,
                v1@,
                v2@,
                infos@[body1 as int].mu as int,
                infos@[body2 as int].mu as int,
                rp1 as int,
                rp2 as int,
            ) == Ok::<(OEs, OEs, int, int), CoreError>((t.0@, t.1@, t.2 as int, t.3 as int)),
            Err(e) => hyperbolas_s(
                archive.snaps@[departure_step as int]@[body1 as int]@,
                archive.snaps@[arrival_step as int]@[body2 as int]@,
                v1@,
                v2@,
                infos@[body1 as int].mu as int,
                infos@[body2 as int].mu as int,
                rp1 as int,
                rp2 as int,
            ) == Err::<(OEs, OEs, int, int), CoreError>(e),
        },
{
    let st1: BodyState = archive.snaps[departure_step][body1];
    let st2: BodyState = archive.snaps[arrival_step][body2];
    let v_inf1: V3 = v3_sub(v1, &st1.v);
    let v_inf2: V3 = v3_sub(v2, &st2.v);
    let end1 = hyperbola_end(&v_inf1, infos[body1].mu, rp1);
    match end1 {
        Ok(e1) => {
            let end2 = hyperbola_end(&v_inf2, infos[body2].mu, rp2);
            match end2 {
                Ok(e2) => Ok((e1.0, e2.0, e1.1, e2.1)),
                Err(err) => Err(err),
            }
        },
        Err(err) => Err(err),
    }
}

/// What `interplanetary` returns.
#[verifier::opaque]
pub open spec fn interplanetary_s(
    st1: BodyStateS,
    st2: BodyStateS,
    mu0: int,
    mu1: int,
    mu2: int,
    body1: int,
    body2: int,
    lambert_v: Option<(V3s, V3s)>,
) -> Result<InterplanetaryS, CoreError> {
    if st1.r == st2.r {
        Err(CoreError::NoTransferSolution)
    } else {
        match lambert_v {
            None => Err(CoreError::NoTransferSolution),
            Some(vs) => {
                let oe0 = oe_from_rv_s(mu0, BodyStateS { r: st1.r, v: vs.0 });
                match hyperbolas_s(
                    st1,
                    st2,
                    vs.0,
                    vs.1,
                    mu1,
                    mu2,
                    HYPERBOLA_RP_FP as int,
                    HYPERBOLA_RP_FP as int,
                ) {
                    Err(e) => Err(e),
                    Ok(t) => {
                        let v_circ_1 = fp_sqrt_s(fp_div_s(mu1, HYPERBOLA_RP_FP as int));
                        let v_circ_2 = fp_sqrt_s(fp_div_s(mu2, HYPERBOLA_RP_FP as int));
                        Ok(
                            InterplanetaryS {
                                body0: 0int,
                                body1: body1,
                                body2: body2,
                                oe0: oe0,
                                oe1: t.0,
                                oe2: t.1,
                                dv1: fp_mag(fp_clip(fp_sub_s(t.2, v_circ_1))),
                                dv2: fp_mag(fp_clip(fp_sub_s(t.3, v_circ_2))),
                            },
                        )
                    },
                }
            },
        }
    }
}

/// Design the transfer between `body1` at `departure_step` and `body2` at
/// `arrival_step` around central body 0, from the Lambert velocities
/// `lambert_v` (`None` when the boundary-value solve failed).
///
/// Degenerate geometry fails explicitly: when the two endpoint positions
/// coincide, the result is `NoTransferSolution` whatever `lambert_v`
/// holds, so a degenerate boundary-value request never yields velocities.
#[verifier::rlimit(100)]
pub fn interplanetary(
    archive: &StateArchive,
    infos: &Vec<BodyInfo>,
    departure_step: usize,
    arrival_step: usize,
    body1: usize,
    body2: usize,
    lambert_v: Option<(V3, V3)>,
) -> (r: Result<Interplanetary, CoreError>)
    requires
        archive.wf(),
        departure_step < archive.snaps@.len(),
        arrival_step < archive.snaps@.len(),
        body1 < archive.n_bodies(),
        body2 < archive.n_bodies(),
        infos@.len() == archive.n_bodies(),
        infos@.len() > 0,
    ensures
        match r {
            Ok(ip) => interplanetary_s(
                archive.snaps@[departure_step as int]@[body1 as int]@,
                archive.snaps@[arrival_step as int]@[body2 as int]@,
                infos@[0].mu as int,
                infos@[body1 as int].mu as int,
                infos@[body2 as int].mu as int,
                body1 as int,
                body2 as int,
                lambert_view(lambert_v),
            ) == Ok::<InterplanetaryS, CoreError>(ip@),
            Err(e) => interplanetary_s(
                archive.snaps@[departure_step as int]@[body1 as int]@,
                archive.snaps@[arrival_step as int]@[body2 as int]@,
                infos@[0].mu as int,
                infos@[body1 as int].mu as int,
                infos@[body2 as int].mu as int,
                body1 as int,
                body2 as int,
                lambert_view(lambert_v),
            ) == Err::<InterplanetaryS, CoreError>(e),
        },
        archive.snaps@[departure_step as int]@[body1 as int]@.r
            == archive.snaps@[arrival_step as int]@[body2 as int]@.r ==> r == Err::<
            Interplanetary,
            CoreError,
        >(CoreError::NoTransferSolution),
{
    proof {
        reveal(interplanetary_s);
    }
    let st1: BodyState = archive.snaps[departure_step][body1];
    let st2: BodyState = archive.snaps[arrival_step][body2];
    if st1.r == st2.r {
        return Err(CoreError::NoTransferSolution);
    }
    match lambert_v {
        None => Err(CoreError::NoTransferSolution),
        Some(vs) => {
            let oe0: OE = oe_from_rv(infos[0].mu, &BodyState { r: st1.r, v: vs.0 });
            let ends = solve_interplanetary_hyperbolas(
                archive,
                infos,
                departure_step,
                arrival_step,
                body1,
                body2,
                &vs.0,
                &vs.1,
                HYPERBOLA_RP_FP,
                HYPERBOLA_RP_FP,
            );
            match ends {
                Err(e) => Err(e),
                Ok(t) => {
                    let v_circ_1: i128 = fp_sqrt(fp_div(infos[body1].mu, HYPERBOLA_RP_FP));
                    let v_circ_2: i128 = fp_sqrt(fp_div(infos[body2].mu, HYPERBOLA_RP_FP));
                    let dv1: i128 = fp_abs(fp_sub(t.2, v_circ_1));
                    let dv2: i128 = fp_abs(fp_sub(t.3, v_circ_2));
                    Ok(
                        Interplanetary {
                            body0: 0,
                            body1,
                            body2,
                            oe0,
                            oe1: t.0,
                            oe2: t.1,
                            dv1,
                            dv2,
                        },
                    )
                },
            }
        },
    }
}

/// The mathematical value of an optional Lambert velocity pair.
pub open spec fn lambert_view(v: Option<(V3, V3)>) -> Option<(V3s, V3s)> {
    match v {
        None => None::<(V3s, V3s)>,
        Some(p) => Some((p.0@, p.1@)),
    }
}

/// Lambert velocities for one arrival step, one pair per branch choice
/// (`None` where the boundary-value solve failed).
pub struct TransferCandidate {
    pub arrival_step: usize,
    pub v_short: Option<(V3, V3)>,
    pub v_long: Option<(V3, V3)>,
}

/// The branch kept for one candidate: the long-way and short-way designs
/// are compared by total delta-v and the cheaper one wins, the short way
/// on a tie; a candidate neither of whose branches yields a design is
/// dropped.
pub open spec fn chosen_transfer_s(
    st1: BodyStateS,
    st2: BodyStateS,
    mu0: int,
    mu1: int,
    mu2: int,
    body1: int,
    body2: int,
    v_short: Option<(V3s, V3s)>,
    v_long: Option<(V3s, V3s)>,
) -> Option<InterplanetaryS> {
    let long = interplanetary_s(st1, st2, mu0, mu1, mu2, body1, body2, v_long);
    let short = interplanetary_s(st1, st2, mu0, mu1, mu2, body1, body2, v_short);
    match long {
        Ok(l) => match short {
            Ok(s) => if fp_add_s(l.dv1, l.dv2) < fp_add_s(s.dv1, s.dv2) {
                Some(l)
            } else {
                Some(s)
            },
            Err(_) => Some(l),
        },
        Err(_) => match short {
            Ok(s) => Some(s),
            Err(_) => None,
        },
    }
}

/// The transfer list over the first `k` candidates.
pub open spec fn transfer_list_s(
    snaps: Seq<Vec<BodyState>>,
    infos: Seq<BodyInfo>,
    departure_step: int,
    body1: int,
    body2: int,
    cands: Seq<TransferCandidate>,
    k: nat,
) -> Seq<(int, InterplanetaryS)>
    decreases k,
{
    if k == 0 {
        Seq::empty()
    } else {
        let prev = transfer_list_s(snaps, infos, departure_step, body1, body2, cands, (k - 1) as nat);
        let c = cands[k - 1];
        let st1 = snaps[departure_step]@[body1]@;
        let st2 = snaps[c.arrival_step as int]@[body2]@;
        match chosen_transfer_s(
            st1,
            st2,
            infos[0].mu as int,
            infos[body1].mu as int,
            infos[body2].mu as int,
            body1,
            body2,
            lambert_view(c.v_short),
            lambert_view(c.v_long),
        ) {
            Some(ip) => prev.push((c.arrival_step as int, ip)),
            None => prev,
        }
    }
}

/// The mathematical value of a transfer list.
pub open spec fn transfer_list_view(out: Seq<(usize, Interplanetary)>) -> Seq<
    (int, InterplanetaryS),
> {
    out.map_values(|p: (usize, Interplanetary)| (p.0 as int, p.1@))
}

/// Design one transfer per candidate arrival step out of `departure_step`
/// and keep, for each, the cheaper of the two Lambert branches; arrival
/// steps where neither branch yields a design are skipped.
#[verifier::rlimit(100)]
pub fn solve_interplanetaries_for_departure_step(
    archive: &StateArchive,
    infos: &Vec<BodyInfo>,
    departure_step: usize,
    body1: usize,
    body2: usize,
    candidates: &Vec<TransferCandidate>,
) -> (out: Vec<(usize, Interplanetary)>)
    requires
        archive.wf(),
        departure_step < archive.snaps@.len(),
        body1 < archive.n_bodies(),
        body2 < archive.n_bodies(),
        infos@.len() == archive.n_bodies(),
        infos@.len() > 0,
        forall|k: int|
            0 <= k < candidates@.len() ==> (#[trigger] candidates@[k]).arrival_step
                < archive.snaps@.len(),
    ensures
        transfer_list_view(out@) == transfer_list_s(
            archive.snaps@,
            infos@,
            departure_step as int,
            body1 as int,
            body2 as int,
            candidates@,
            candidates@.len() as nat,
        ),
{
    let mut out: Vec<(usize, Interplanetary)> = Vec::new();
    let mut k: usize = 0;
    while k < candidates.len()
        invariant
            archive.wf(),
            departure_step < archive.snaps@.len(),
            body1 < archive.n_bodies(),
            body2 < archive.n_bodies(),
            infos@.len() == archive.n_bodies(),
            infos@.len() > 0,
            forall|j: int|
                0 <= j < candidates@.len() ==> (#[trigger] candidates@[j]).arrival_step
                    < archive.snaps@.len(),
            k <= candidates@.len(),
            transfer_list_view(out@) == transfer_list_s(
                archive.snaps@,
                infos@,
                departure_step as int,
                body1 as int,
                body2 as int,
                candidates@,
                k as nat,
            ),
        decreases candidates@.len() - k,
    {
        let c = &candidates[k];
        let ip_long = interplanetary(
            archive,
            infos,
            departure_step,
            c.arrival_step,
            body1,
            body2,
            c.v_long,
        );
        let ip_short = interplanetary(
            archive,
            infos,
            departure_step,
            c.arrival_step,
            body1,
            body2,
            c.v_short,
        );
        let picked: Option<Interplanetary> = match ip_long {
            Ok(l) => match ip_short {
                Ok(s) => if fp_add(l.dv1, l.dv2) < fp_add(s.dv1, s.dv2) {
                    Some(l)
                } else {
                    Some(s)
                },
                Err(_) => Some(l),
            },
            Err(_) => match ip_short {
                Ok(s) => Some(s),
                Err(_) => None,
            },
        };
        match picked {
            Some(ip) => {
                out.push((c.arrival_step, ip));
            },
            None => {},
        }
        proof {
            assert(transfer_list_view(out@) =~= transfer_list_s(
                archive.snaps@,
                infos@,
                departure_step as int,
                body1 as int,
                body2 as int,
                candidates@,
                (k + 1) as nat,
            ));
        }
        k = k + 1;
    }
    out
}

} // verus!
