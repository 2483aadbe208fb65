//! Classical orbital elements: state-vector conversion, orbit-curve
//! sampling and Kepler's-equation solving.
//!
//! Angles are radians at Q40; the degenerate-case policy of the
//! state-to-elements conversion uses a threshold of 1e-10 on vector
//! magnitudes, and every arccosine argument is clamped into `[-1, 1]`.
//! All functions are total: where the floating-point formulation would
//! produce an infinity or a NaN (a zero divisor on a radical or parabolic
//! state), the fixed-point operations saturate deterministically instead.

use vstd::prelude::*;

verus! {

use crate::fixed::{
    SCALE,
    FP_LIM,
    fp_add_s,
    fp_sub_s,
    fp_neg_s,
    fp_mul_s,
    fp_div_s,
    fp_sqrt_s,
    fp_add,
    fp_sub,
    fp_neg,
    fp_mul,
    fp_div,
    fp_sqrt,
};
use crate::trig::{sin_s, cos_s, acos_s, atan2_s, sin_fp, cos_fp, acos_fp, atan2_fp, PI_FP};
use crate::vec3::{
    V3,
    V3s,
    v3_sub_s,
    v3_div_s,
    v3_dot_s,
    v3_cross_s,
    v3_norm_s,
    v3_sub,
    v3_div,
    v3_dot,
    v3_cross,
    v3_norm,
};
use crate::bodies::{BodyState, BodyStateS};

/// Degeneracy threshold: 1e-10 at Q40.
pub const OE_EPS: i128 = 110;

/// One half at Q40.
pub const HALF_FP: i128 = 549755813888;

/// A tenth of a degree in radians at Q40: the orbit-sampling resolution.
pub const DEG_TENTH_FP: i128 = 1919009807;

/// Classical orbital elements, relative to a caller-supplied mu and a
/// fixed inertial reference plane. `a` is negative for hyperbolic orbits.
#[derive(Clone, Copy, PartialEq, Eq, Structural, Debug)]
pub struct OE {
    /// Semi-major axis, km.
    pub a: i128,
    /// Eccentricity.
    pub e: i128,
    /// Inclination, radians in `[0, pi]`.
    pub i: i128,
    /// True anomaly, radians.
    pub f: i128,
    /// Argument of periapsis, radians.
    pub arg_pe: i128,
    /// Longitude of the ascending node, radians.
    pub lan: i128,
}

/// The mathematical value of an `OE`.
pub struct OEs {
    pub a: int,
    pub e: int,
    pub i: int,
    pub f: int,
    pub arg_pe: int,
    pub lan: int,
}

impl View for OE {
    type V = OEs;

    open spec fn view(&self) -> OEs {
        OEs {
            a: self.a as int,
            e: self.e as int,
            i: self.i as int,
            f: self.f as int,
            arg_pe: self.arg_pe as int,
            lan: self.lan as int,
        }
    }
}

impl OE {
    /// All-zero elements.
    pub fn empty() -> (r: OE)
        ensures
            r.a == 0 && r.e == 0 && r.i == 0 && r.f == 0 && r.arg_pe == 0 && r.lan == 0,
    {
        OE { a: 0, e: 0, i: 0, f: 0, arg_pe: 0, lan: 0 }
    }
}

/// A 3x3 rotation matrix held as three column vectors.
#[derive(Clone, Copy, PartialEq, Eq, Structural, Debug)]
pub struct M3 {
    pub c0: V3,
    pub c1: V3,
    pub c2: V3,
}

/// The mathematical value of an `M3`.
pub struct M3s {
    pub c0: V3s,
    pub c1: V3s,
    pub c2: V3s,
}

impl View for M3 {
    type V = M3s;

    open spec fn view(&self) -> M3s {
        M3s { c0: self.c0@, c1: self.c1@, c2: self.c2@ }
    }
}

/// Matrix-vector product.
pub open spec fn m3_apply_s(m: M3s, p: V3s) -> V3s {
    V3s {
        x: fp_add_s(fp_add_s(fp_mul_s(m.c0.x, p.x), fp_mul_s(m.c1.x, p.y)), fp_mul_s(m.c2.x, p.z)),
        y: fp_add_s(fp_add_s(fp_mul_s(m.c0.y, p.x), fp_mul_s(m.c1.y, p.y)), fp_mul_s(m.c2.y, p.z)),
        z: fp_add_s(fp_add_s(fp_mul_s(m.c0.z, p.x), fp_mul_s(m.c1.z, p.y)), fp_mul_s(m.c2.z, p.z)),
    }
}

/// Matrix-vector product.
pub fn m3_apply(m: &M3, p: &V3) -> (r: V3)
    ensures
        r@ == m3_apply_s(m@, p@),
{
    V3 {
        x: fp_add(fp_add(fp_mul(m.c0.x, p.x), fp_mul(m.c1.x, p.y)), fp_mul(m.c2.x, p.z)),
        y: fp_add(fp_add(fp_mul(m.c0.y, p.x), fp_mul(m.c1.y, p.y)), fp_mul(m.c2.y, p.z)),
        z: fp_add(fp_add(fp_mul(m.c0.z, p.x), fp_mul(m.c1.z, p.y)), fp_mul(m.c2.z, p.z)),
    }
}

/// What `pqw_to_inertial_rot` returns: the perifocal-to-inertial rotation
/// built from the node longitude, argument of periapsis and inclination.
#[verifier::opaque]
pub open spec fn pqw_rot_s(lan: int, arg_pe: int, inc: int) -> M3s {
    let cl = cos_s(lan);
    let sl = sin_s(lan);
    let cw = cos_s(arg_pe);
    let sw = sin_s(arg_pe);
    let ci = cos_s(inc);
    let si = sin_s(inc);
    M3s {
        c0: V3s {
            x: fp_sub_s(fp_mul_s(cl, cw), fp_mul_s(sl, fp_mul_s(sw, ci))),
            y: fp_add_s(fp_mul_s(sl, cw), fp_mul_s(cl, fp_mul_s(sw, ci))),
            z: fp_mul_s(sw, si),
        },
        c1: V3s {
            x: fp_sub_s(fp_neg_s(fp_mul_s(cl, sw)), fp_mul_s(sl, fp_mul_s(cw, ci))),
            y: fp_add_s(fp_neg_s(fp_mul_s(sl, sw)), fp_mul_s(cl, fp_mul_s(cw, ci))),
            z: fp_mul_s(cw, si),
        },
        c2: V3s { x: fp_mul_s(sl, si), y: fp_neg_s(fp_mul_s(cl, si)), z: ci },
    }
}

/// The perifocal-to-inertial rotation: rotate about z by the node
/// longitude, about x by the inclination, then about z by the argument of
/// periapsis, composed as one matrix.
pub fn pqw_to_inertial_rot(lan: i128, arg_pe: i128, inc: i128) -> (m: M3)
    ensures
        m@ == pqw_rot_s(lan as int, arg_pe as int, inc as int),
{
    proof {
        reveal(pqw_rot_s);
    }
    let cl: i128 = cos_fp(lan);
    let sl: i128 = sin_fp(lan);
    let cw: i128 = cos_fp(arg_pe);
    let sw: i128 = sin_fp(arg_pe);
    let ci: i128 = cos_fp(inc);
    let si: i128 = sin_fp(inc);
    M3 {
        c0: V3 {
            x: fp_sub(fp_mul(cl, cw), fp_mul(sl, fp_mul(sw, ci))),
            y: fp_add(fp_mul(sl, cw), fp_mul(cl, fp_mul(sw, ci))),
            z: fp_mul(sw, si),
        },
        c1: V3 {
            x: fp_sub(fp_neg(fp_mul(cl, sw)), fp_mul(sl, fp_mul(cw, ci))),
            y: fp_add(fp_neg(fp_mul(sl, sw)), fp_mul(cl, fp_mul(cw, ci))),
            z: fp_mul(cw, si),
        },
        c2: V3 { x: fp_mul(sl, si), y: fp_neg(fp_mul(cl, si)), z: ci },
    }
}

/// What `position_from_true_anomoly` returns: the conic radius at true
/// anomaly `f`, placed in the perifocal frame and rotated inertial.
#[verifier::opaque]
pub open spec fn position_from_true_anomoly_s(oe: OEs, f: int) -> V3s {
    let r_mag = fp_div_s(
        fp_mul_s(oe.a, fp_sub_s(SCALE as int, fp_mul_s(oe.e, oe.e))),
        fp_add_s(SCALE as int, fp_mul_s(oe.e, cos_s(f))),
    );
    let r_pqw = V3s { x: fp_mul_s(r_mag, cos_s(f)), y: fp_mul_s(r_mag, sin_s(f)), z: 0int };
    m3_apply_s(pqw_rot_s(oe.lan, oe.arg_pe, oe.i), r_pqw)
}

/// Position on the orbit `oe` at true anomaly `f` (km, inertial frame):
/// `r = a(1-e^2) / (1 + e cos f)` rotated out of the perifocal frame.
pub fn position_from_true_anomoly(oe: &OE, f: i128) -> (r: V3)
    ensures
        r@ == position_from_true_anomoly_s(oe@, f as int),
{
    proof {
        reveal(position_from_true_anomoly_s);
    }
    let cf: i128 = cos_fp(f);
    let r_mag: i128 = fp_div(
        fp_mul(oe.a, fp_sub(SCALE, fp_mul(oe.e, oe.e))),
        fp_add(SCALE, fp_mul(oe.e, cf)),
    );
    let r_pqw = V3 { x: fp_mul(r_mag, cf), y: fp_mul(r_mag, sin_fp(f)), z: 0 };
    let rot: M3 = pqw_to_inertial_rot(oe.lan, oe.arg_pe, oe.i);
    m3_apply(&rot, &r_pqw)
}

/// `n` Newton iterations on Kepler's equation `E - e sin E = M`, started
/// at `ecc0`.
pub open spec fn kepler_newton_s(e: int, m: int, ecc0: int, n: nat) -> int
    decreases n,
{
    if n == 0 {
        ecc0
    } else {
        let prev = kepler_newton_s(e, m, ecc0, (n - 1) as nat);
        let fe = fp_sub_s(fp_sub_s(prev, fp_mul_s(e, sin_s(prev))), m);
        let fpe = fp_sub_s(SCALE as int, fp_mul_s(e, cos_s(prev)));
        fp_sub_s(prev, fp_div_s(fe, fpe))
    }
}

/// What `eccentric_anomaly_from_mean` returns: ten Newton iterations
/// started at the mean anomaly.
pub open spec fn eccentric_anomaly_s(e: int, m: int) -> int {
    kepler_newton_s(e, m, m, 10)
}

/// Eccentric anomaly from mean anomaly: a fixed ten-iteration
/// Newton-Raphson solve of Kepler's equation.
pub fn eccentric_anomaly_from_mean(e: i128, m: i128) -> (ecc: i128)
    ensures
        ecc == eccentric_anomaly_s(e as int, m as int),
{
    let mut ecc: i128 = m;
    let mut k: usize = 0;
    while k < 10
        invariant
            k <= 10,
            ecc == kepler_newton_s(e as int, m as int, m as int, k as nat),
        decreases 10 - k,
    {
        let fe: i128 = fp_sub(fp_sub(ecc, fp_mul(e, sin_fp(ecc))), m);
        let fpe: i128 = fp_sub(SCALE, fp_mul(e, cos_fp(ecc)));
        ecc = fp_sub(ecc, fp_div(fe, fpe));
        k = k + 1;
    }
    ecc
}

/// What `true_anomoly_from_mean_anomaly` returns: the Newton solve
/// followed by the half-angle identity
/// `f = 2 atan2(sqrt(1+e) sin(E/2), sqrt(1-e) cos(E/2))`.
#[verifier::opaque]
pub open spec fn true_anomaly_s(e: int, m: int) -> int {
    let ecc = eccentric_anomaly_s(e, m);
    let half_e = fp_div_s(ecc, 2 * SCALE);
    let sy = fp_mul_s(fp_sqrt_s(fp_add_s(SCALE as int, e)), sin_s(half_e));
    let cy = fp_mul_s(fp_sqrt_s(fp_sub_s(SCALE as int, e)), cos_s(half_e));
    fp_mul_s(2 * SCALE, atan2_s(sy, cy))
}

/// True anomaly from mean anomaly: ten Newton iterations on the eccentric
/// anomaly, then the half-angle conversion.
pub fn true_anomoly_from_mean_anomaly(e: i128, m: i128) -> (f: i128)
    ensures
        f == true_anomaly_s(e as int, m as int),
{
    proof {
        reveal(true_anomaly_s);
    }
    let ecc: i128 = eccentric_anomaly_from_mean(e, m);
    let half_e: i128 = fp_div(ecc, 2 * SCALE);
    let sy: i128 = fp_mul(fp_sqrt(fp_add(SCALE, e)), sin_fp(half_e));
    let cy: i128 = fp_mul(fp_sqrt(fp_sub(SCALE, e)), cos_fp(half_e));
    fp_mul(2 * SCALE, atan2_fp(sy, cy))
}

/// For a circular orbit the Newton stage is exact: with `e == 0` every
/// iteration carries the mean anomaly through unchanged, so the solved
/// eccentric anomaly equals the mean anomaly, bit for bit.
#[verifier::rlimit(60)]
pub proof fn lemma_kepler_newton_circular(m: i128, n: nat)
    requires
        -FP_LIM <= m <= FP_LIM,
    ensures
        kepler_newton_s(0, m as int, m as int, n) == m as int,
    decreases n,
{
    if n > 0 {
        lemma_kepler_newton_circular(m, (n - 1) as nat);
        let prev = kepler_newton_s(0, m as int, m as int, (n - 1) as nat);
        crate::fixed::lemma_fp_mul_zero(sin_s(prev));
        crate::fixed::lemma_fp_mul_zero(cos_s(prev));
        assert(fp_sub_s(fp_sub_s(prev, 0), m as int) == 0);
        assert(fp_sub_s(SCALE as int, 0) == SCALE);
        assert(fp_div_s(0, SCALE as int) == 0);
        assert(fp_sub_s(prev, 0) == prev);
    }
}

/// What `oe_from_rv` returns, following the documented degenerate-case
/// policy with threshold `OE_EPS` exactly.
#[verifier::opaque]
pub open spec fn oe_from_rv_s(mu: int, st: BodyStateS) -> OEs {
    let r = st.r;
    let v = st.v;
    let r_mag = v3_norm_s(r);
    let v_mag = v3_norm_s(v);
    let h = v3_cross_s(r, v);
    let h_mag = v3_norm_s(h);
    let energy = fp_sub_s(fp_mul_s(HALF_FP as int, fp_mul_s(v_mag, v_mag)), fp_div_s(mu, r_mag));
    let a = fp_neg_s(fp_div_s(mu, fp_mul_s(2 * SCALE, energy)));
    let e_vec = v3_sub_s(v3_div_s(v3_cross_s(v, h), mu), v3_div_s(r, r_mag));
    let e = v3_norm_s(e_vec);
    let inc = acos_s(fp_div_s(h.z, h_mag));
    let zhat = V3s { x: 0int, y: 0int, z: SCALE as int };
    let n = v3_cross_s(zhat, h);
    let n_mag = v3_norm_s(n);
    let lan = if n_mag > OE_EPS {
        let l0 = acos_s(fp_div_s(n.x, n_mag));
        if n.y < 0 {
            fp_sub_s(2 * PI_FP, l0)
        } else {
            l0
        }
    } else {
        0int
    };
    let arg_pe = if n_mag > OE_EPS && e > OE_EPS {
        let w0 = acos_s(fp_div_s(fp_div_s(v3_dot_s(n, e_vec), n_mag), e));
        if e_vec.z < 0 {
            fp_sub_s(2 * PI_FP, w0)
        } else {
            w0
        }
    } else {
        0int
    };
    let f = if e > OE_EPS {
        let f0 = acos_s(fp_div_s(fp_div_s(v3_dot_s(e_vec, r), e), r_mag));
        if v3_dot_s(r, v) < 0 {
            fp_sub_s(2 * PI_FP, f0)
        } else {
            f0
        }
    } else {
        let f0 = acos_s(fp_div_s(fp_div_s(v3_dot_s(n, r), n_mag), r_mag));
        if r.z < 0 {
            fp_sub_s(2 * PI_FP, f0)
        } else {
            f0
        }
    };
    OEs { a, e, i: inc, f, arg_pe, lan }
}

/// State vector to classical orbital elements, for the given
/// gravitational parameter. Degenerate cases (equatorial and/or circular)
/// follow the documented epsilon policy; arccosine arguments are clamped.
pub fn oe_from_rv(mu: i128, body_state: &BodyState) -> (oe: OE)
    ensures
        oe@ == oe_from_rv_s(mu as int, body_state@),
{
    proof {
        reveal(oe_from_rv_s);
    }
    let r: V3 = body_state.r;
    let v: V3 = body_state.v;
    let r_mag: i128 = v3_norm(&r);
    let v_mag: i128 = v3_norm(&v);
    let h: V3 = v3_cross(&r, &v);
    let h_mag: i128 = v3_norm(&h);
    let energy: i128 = fp_sub(fp_mul(HALF_FP, fp_mul(v_mag, v_mag)), fp_div(mu, r_mag));
    let a: i128 = fp_neg(fp_div(mu, fp_mul(2 * SCALE, energy)));
    let e_vec: V3 = v3_sub(&v3_div(&v3_cross(&v, &h), mu), &v3_div(&r, r_mag));
    let e: i128 = v3_norm(&e_vec);
    let inc: i128 = acos_fp(fp_div(h.z, h_mag));
    let zhat = V3 { x: 0, y: 0, z: SCALE };
    let n: V3 = v3_cross(&zhat, &h);
    let n_mag: i128 = v3_norm(&n);
    let lan: i128 = if n_mag > OE_EPS {
        let l0: i128 = acos_fp(fp_div(n.x, n_mag));
        if n.y < 0 {
            fp_sub(2 * PI_FP, l0)
        } else {
            l0
        }
    } else {
        0
    };
    let arg_pe: i128 = if n_mag > OE_EPS && e > OE_EPS {
        let w0: i128 = acos_fp(fp_div(fp_div(v3_dot(&n, &e_vec), n_mag), e));
        if e_vec.z < 0 {
            fp_sub(2 * PI_FP, w0)
        } else {
            w0
        }
    } else {
        0
    };
    let f: i128 = if e > OE_EPS {
        let f0: i128 = acos_fp(fp_div(fp_div(v3_dot(&e_vec, &r), e), r_mag));
        if v3_dot(&r, &v) < 0 {
            fp_sub(2 * PI_FP, f0)
        } else {
            f0
        }
    } else {
        let f0: i128 = acos_fp(fp_div(fp_div(v3_dot(&n, &r), n_mag), r_mag));
        if r.z < 0 {
            fp_sub(2 * PI_FP, f0)
        } else {
            f0
        }
    };
    OE { a, e, i: inc, f, arg_pe, lan }
}

/// The orbit-sampling sequence: for an elliptical orbit, 3600 samples a
/// tenth of a degree apart; for a hyperbolic orbit, the same resolution
/// over the open true-anomaly range `(-theta_limit, theta_limit)` with
/// `theta_limit = acos(-1/e)`, trimming ten samples at each end.
pub open spec fn oe_to_vec_s(oe: OEs) -> Seq<V3s> {
    if oe.a >= 0 {
        Seq::new(3600, |i: int| position_from_true_anomoly_s(oe, i * DEG_TENTH_FP))
    } else {
        let tl = acos_s(fp_div_s(-(SCALE as int), oe.e));
        let dth = fp_div_s(fp_mul_s(2 * SCALE, tl), 3600 * SCALE);
        Seq::new(
            3580,
            |i: int|
                position_from_true_anomoly_s(
                    oe,
                    fp_add_s(fp_neg_s(tl), fp_mul_s((i + 10) * SCALE, dth)),
                ),
        )
    }
}

/// The mathematical values of a vector of positions.
pub open spec fn vv(ps: Seq<V3>) -> Seq<V3s> {
    ps.map_values(|p: V3| p@)
}

/// Sample the orbit curve as a sequence of inertial positions.
pub fn oe_to_vec(oe: &OE) -> (out: Vec<V3>)
    ensures
        vv(out@) == oe_to_vec_s(oe@),
{
    let mut out: Vec<V3> = Vec::new();
    if oe.a >= 0 {
        let mut i: usize = 0;
        while i < 3600
            invariant
                i <= 3600,
                out@.len() == i,
                oe.a >= 0,
                forall|k: int| 0 <= k < i ==> (#[trigger] out@[k])@ == oe_to_vec_s(oe@)[k],
            decreases 3600 - i,
        {
            let theta: i128 = (i as i128) * DEG_TENTH_FP;
            let p: V3 = position_from_true_anomoly(oe, theta);
            out.push(p);
            i = i + 1;
        }
    } else {
        let tl: i128 = acos_fp(fp_div(-SCALE, oe.e));
        let dth: i128 = fp_div(fp_mul(2 * SCALE, tl), 3600 * SCALE);
        let mut i: usize = 10;
        while i < 3590
            invariant
                10 <= i <= 3590,
                out@.len() == i - 10,
                oe.a < 0,
                tl == acos_s(fp_div_s(-(SCALE as int), oe@.e)),
                dth == fp_div_s(fp_mul_s(2 * SCALE, tl as int), 3600 * SCALE),
                forall|k: int| 0 <= k < i - 10 ==> (#[trigger] out@[k])@ == oe_to_vec_s(oe@)[k],
            decreases 3590 - i,
        {
            let theta: i128 = fp_add(fp_neg(tl), fp_mul((i as i128) * SCALE, dth));
            let p: V3 = position_from_true_anomoly(oe, theta);
            out.push(p);
            i = i + 1;
        }
    }
    proof {
        assert(vv(out@) =~= oe_to_vec_s(oe@));
    }
    out
}


/// The classical elements of `body`'s orbit about `reference` at `step`:
/// the relative state vector converted with the reference body's
/// gravitational parameter. Derived on demand, never cached; a step that
/// has not been propagated or a body id outside the catalog fails fast.
pub fn oe_relative(
    archive: &crate::archive::StateArchive,
    infos: &Vec<crate::bodies::BodyInfo>,
    step: usize,
    body: usize,
    reference: usize,
) -> (r: Result<OE, crate::archive::CoreError>)
    requires
        archive.wf(),
        infos@.len() == archive.n_bodies(),
    ensures
        match r {
            Ok(oe) => step < archive.snaps@.len() && body < archive.n_bodies() && reference
                < archive.n_bodies() && oe@ == oe_from_rv_s(
                infos@[reference as int].mu as int,
                crate::bodies::sub_body_state_s(
                    archive.snaps@[step as int]@[body as int]@,
                    archive.snaps@[step as int]@[reference as int]@,
                ),
            ),
            Err(e) => if step >= archive.snaps@.len() {
                e == crate::archive::CoreError::StepNotYetComputed
            } else {
                (body >= archive.n_bodies() || reference >= archive.n_bodies()) && e
                    == crate::archive::CoreError::UnknownBody
            },
        },
        r is Ok <==> step < archive.snaps@.len() && body < archive.n_bodies() && reference
            < archive.n_bodies(),
{
    if step >= archive.snaps.len() {
        return Err(crate::archive::CoreError::StepNotYetComputed);
    }
    if body >= infos.len() || reference >= infos.len() {
        return Err(crate::archive::CoreError::UnknownBody);
    }
    let sb: BodyState = archive.snaps[step][body];
    let sr: BodyState = archive.snaps[step][reference];
    let rel: BodyState = crate::bodies::sub_body_state(&sb, &sr);
    Ok(oe_from_rv(infos[reference].mu, &rel))
}

} // verus!
