//! Fixed-step n-body propagation: pairwise Newtonian point-mass gravity
//! integrated with the classical 4-stage Runge-Kutta scheme.
//!
//! A snapshot is a dense vector of `BodyState`, indexed by body id. The
//! derivative of a snapshot pairs each body's velocity with its summed
//! acceleration; bodies whose `affected` flag is off are kinematically
//! frozen, bodies whose `affects` flag is off pull on nobody. Source
//! bodies are always summed in catalog order, so a step is a pure integer
//! function of catalog, snapshot and time step.

use vstd::prelude::*;

verus! {

use crate::fixed::{SCALE, fp_mul_s, fp_div_s, fp_sqrt_s, fp_mul, fp_div, fp_sqrt};
use crate::vec3::{
    V3,
    V3s,
    v3_add_s,
    v3_sub_s,
    v3_scale_s,
    v3_dot_s,
    v3_add,
    v3_sub,
    v3_scale,
    v3_dot,
};
use crate::bodies::{BodyState, BodyStateS, BodyInfo};

/// The mathematical value of a snapshot.
pub open spec fn sv(states: Seq<BodyState>) -> Seq<BodyStateS> {
    states.map_values(|b: BodyState| b@)
}

/// Point-mass gravitational acceleration exerted on a body at offset `rel`
/// from the source, with source gravitational parameter `mu`:
/// `-mu * rel / |rel|^3`, evaluated as `-((mu*rel_k / rel.rel) / |rel|)`.
pub open spec fn grav_accel_s(rel: V3s, mu: int) -> V3s {
    let r2 = v3_dot_s(rel, rel);
    let rmag = fp_sqrt_s(r2);
    V3s {
        x: -fp_div_s(fp_div_s(fp_mul_s(mu, rel.x), r2), rmag),
        y: -fp_div_s(fp_div_s(fp_mul_s(mu, rel.y), r2), rmag),
        z: -fp_div_s(fp_div_s(fp_mul_s(mu, rel.z), r2), rmag),
    }
}

/// Acceleration on body `i` from the sources with index below `k`, summed
/// in catalog order.
pub open spec fn accel_prefix_s(infos: Seq<BodyInfo>, s: Seq<BodyStateS>, i: int, k: int) -> V3s
    decreases k,
{
    if k <= 0 {
        V3s { x: 0int, y: 0int, z: 0int }
    } else {
        let prev = accel_prefix_s(infos, s, i, k - 1);
        if k - 1 != i && infos[k - 1].affects {
            v3_add_s(prev, grav_accel_s(v3_sub_s(s[i].r, s[k - 1].r), infos[k - 1].mu as int))
        } else {
            prev
        }
    }
}

/// The derivative of body `i`: its velocity, and its total acceleration
/// (zero when the body is not `affected`).
pub open spec fn deriv_one_s(infos: Seq<BodyInfo>, s: Seq<BodyStateS>, i: int) -> BodyStateS {
    BodyStateS {
        r: s[i].v,
        v: if infos[i].affected {
            accel_prefix_s(infos, s, i, s.len() as int)
        } else {
            V3s { x: 0int, y: 0int, z: 0int }
        },
    }
}

/// The derivative of a whole snapshot.
pub open spec fn derivs_s(infos: Seq<BodyInfo>, s: Seq<BodyStateS>) -> Seq<BodyStateS> {
    Seq::new(s.len(), |i: int| deriv_one_s(infos, s, i))
}

/// `s1 + factor * s2`, componentwise over a snapshot.
pub open spec fn add_scaled_s(s1: Seq<BodyStateS>, s2: Seq<BodyStateS>, factor: int) -> Seq<
    BodyStateS,
> {
    Seq::new(
        s1.len(),
        |i: int|
            BodyStateS {
                r: v3_add_s(s1[i].r, v3_scale_s(s2[i].r, factor)),
                v: v3_add_s(s1[i].v, v3_scale_s(s2[i].v, factor)),
            },
    )
}

/// One RK4 step of the whole snapshot: four derivative stages combined as
/// `s + dt/6 * (k1 + 2*k2 + 2*k3 + k4)`.
pub open spec fn rk4_s(infos: Seq<BodyInfo>, s: Seq<BodyStateS>, dt: int) -> Seq<BodyStateS> {
    let half = fp_div_s(dt, 2 * SCALE);
    let sixth = fp_div_s(dt, 6 * SCALE);
    let two = 2 * SCALE;
    let k1 = derivs_s(infos, s);
    let k2 = derivs_s(infos, add_scaled_s(s, k1, half));
    let k3 = derivs_s(infos, add_scaled_s(s, k2, half));
    let k4 = derivs_s(infos, add_scaled_s(s, k3, dt));
    Seq::new(
        s.len(),
        |i: int|
            BodyStateS {
                r: v3_add_s(
                    s[i].r,
                    v3_scale_s(
                        v3_add_s(
                            v3_add_s(
                                v3_add_s(k1[i].r, v3_scale_s(k2[i].r, two as int)),
                                v3_scale_s(k3[i].r, two as int),
                            ),
                            k4[i].r,
                        ),
                        sixth,
                    ),
                ),
                v: v3_add_s(
                    s[i].v,
                    v3_scale_s(
                        v3_add_s(
                            v3_add_s(
                                v3_add_s(k1[i].v, v3_scale_s(k2[i].v, two as int)),
                                v3_scale_s(k3[i].v, two as int),
                            ),
                            k4[i].v,
                        ),
                        sixth,
                    ),
                ),
            },
    )
}

fn gravitational_acceleration(rel: &V3, mu: i128) -> (a: V3)
    ensures
        a@ == grav_accel_s(rel@, mu as int),
{
    // The oblateness (J2) correction is disabled by configuration; only the
    // point-mass term acts.
    let r2: i128 = v3_dot(rel, rel);
    let rmag: i128 = fp_sqrt(r2);
    V3 {
        x: -fp_div(fp_div(fp_mul(mu, rel.x), r2), rmag),
        y: -fp_div(fp_div(fp_mul(mu, rel.y), r2), rmag),
        z: -fp_div(fp_div(fp_mul(mu, rel.z), r2), rmag),
    }
}

fn compute_derivatives(infos: &Vec<BodyInfo>, states: &Vec<BodyState>) -> (out: Vec<BodyState>)
    requires
        infos@.len() == states@.len(),
    ensures
        sv(out@) == derivs_s(infos@, sv(states@)),
        out@.len() == states@.len(),
{
    let n: usize = states.len();
    let mut out: Vec<BodyState> = Vec::new();
    let mut i: usize = 0;
    while i < n
        invariant
            n == states@.len(),
            infos@.len() == n,
            i <= n,
            out@.len() == i,
            forall|k: int| 0 <= k < i ==> (#[trigger] out@[k])@ == deriv_one_s(
                infos@,
                sv(states@),
                k,
            ),
        decreases n - i,
    {
        let vel: V3 = states[i].v;
        if infos[i].affected {
            let mut acc: V3 = V3 { x: 0, y: 0, z: 0 };
            let mut j: usize = 0;
            while j < n
                invariant
                    n == states@.len(),
                    infos@.len() == n,
                    i < n,
                    j <= n,
                    acc@ == accel_prefix_s(infos@, sv(states@), i as int, j as int),
                decreases n - j,
            {
                if j != i && infos[j].affects {
                    let rel: V3 = v3_sub(&states[i].r, &states[j].r);
                    let g: V3 = gravitational_acceleration(&rel, infos[j].mu);
                    acc = v3_add(&acc, &g);
                }
                j = j + 1;
            }
            out.push(BodyState { r: vel, v: acc });
        } else {
            out.push(BodyState { r: vel, v: V3 { x: 0, y: 0, z: 0 } });
        }
        i = i + 1;
    }
    proof {
        assert(sv(out@) =~= derivs_s(infos@, sv(states@)));
    }
    out
}

fn add_scaled_body_states(s1: &Vec<BodyState>, s2: &Vec<BodyState>, factor: i128) -> (out: Vec<
    BodyState,
>)
    requires
        s1@.len() == s2@.len(),
    ensures
        sv(out@) == add_scaled_s(sv(s1@), sv(s2@), factor as int),
        out@.len() == s1@.len(),
{
    let n: usize = s1.len();
    let mut out: Vec<BodyState> = Vec::new();
    let mut i: usize = 0;
    while i < n
        invariant
            n == s1@.len(),
            s2@.len() == n,
            i <= n,
            out@.len() == i,
            forall|k: int| 0 <= k < i ==> (#[trigger] out@[k])@ == (add_scaled_s(
                sv(s1@),
                sv(s2@),
                factor as int,
            ))[k],
        decreases n - i,
    {
        let nr: V3 = v3_add(&s1[i].r, &v3_scale(&s2[i].r, factor));
        let nv: V3 = v3_add(&s1[i].v, &v3_scale(&s2[i].v, factor));
        out.push(BodyState { r: nr, v: nv });
        i = i + 1;
    }
    proof {
        assert(sv(out@) =~= add_scaled_s(sv(s1@), sv(s2@), factor as int));
    }
    out
}

/// One RK4 step: advance every body of `state` by `dt` seconds under the
/// catalog's gravity. Deterministic: the result is exactly `rk4_s` of the
/// inputs.
pub fn rk4_step(infos: &Vec<BodyInfo>, state: &Vec<BodyState>, dt: i128) -> (out: Vec<BodyState>)
    requires
        infos@.len() == state@.len(),
    ensures
        sv(out@) == rk4_s(infos@, sv(state@), dt as int),
        out@.len() == state@.len(),
{
    let half: i128 = fp_div(dt, 2 * SCALE);
    let sixth: i128 = fp_div(dt, 6 * SCALE);
    let two: i128 = 2 * SCALE;
    let k1: Vec<BodyState> = compute_derivatives(infos, state);
    let state_k2: Vec<BodyState> = add_scaled_body_states(state, &k1, half);
    let k2: Vec<BodyState> = compute_derivatives(infos, &state_k2);
    let state_k3: Vec<BodyState> = add_scaled_body_states(state, &k2, half);
    let k3: Vec<BodyState> = compute_derivatives(infos, &state_k3);
    let state_k4: Vec<BodyState> = add_scaled_body_states(state, &k3, dt);
    let k4: Vec<BodyState> = compute_derivatives(infos, &state_k4);
    let n: usize = state.len();
    let mut out: Vec<BodyState> = Vec::new();
    let mut i: usize = 0;
    while i < n
        invariant
            n == state@.len(),
            infos@.len() == n,
            k1@.len() == n,
            k2@.len() == n,
            k3@.len() == n,
            k4@.len() == n,
            sv(k1@) == derivs_s(infos@, sv(state@)),
            sv(k2@) == derivs_s(infos@, add_scaled_s(sv(state@), sv(k1@), fp_div_s(dt as int, 2 * SCALE))),
            sv(k3@) == derivs_s(infos@, add_scaled_s(sv(state@), sv(k2@), fp_div_s(dt as int, 2 * SCALE))),
            sv(k4@) == derivs_s(infos@, add_scaled_s(sv(state@), sv(k3@), dt as int)),
            half == fp_div_s(dt as int, 2 * SCALE),
            sixth == fp_div_s(dt as int, 6 * SCALE),
            two == 2 * SCALE,
            i <= n,
            out@.len() == i,
            forall|k: int| 0 <= k < i ==> (#[trigger] out@[k])@ == (rk4_s(
                infos@,
                sv(state@),
                dt as int,
            ))[k],
        decreases n - i,
    {
        let dr: V3 = v3_add(
            &v3_add(&v3_add(&k1[i].r, &v3_scale(&k2[i].r, two)), &v3_scale(&k3[i].r, two)),
            &k4[i].r,
        );
        let dv: V3 = v3_add(
            &v3_add(&v3_add(&k1[i].v, &v3_scale(&k2[i].v, two)), &v3_scale(&k3[i].v, two)),
            &k4[i].v,
        );
        let nr: V3 = v3_add(&state[i].r, &v3_scale(&dr, sixth));
        let nv: V3 = v3_add(&state[i].v, &v3_scale(&dv, sixth));
        out.push(BodyState { r: nr, v: nv });
        i = i + 1;
    }
    proof {
        assert(sv(out@) =~= rk4_s(infos@, sv(state@), dt as int));
    }
    out
}

} // verus!
