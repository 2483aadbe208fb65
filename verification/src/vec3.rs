//! Three-component vectors of Q40 fixed-point scalars.

use vstd::prelude::*;

verus! {

use crate::fixed::{
    FP_LIM,
    fp_add_s,
    fp_sub_s,
    fp_mul_s,
    fp_div_s,
    fp_sqrt_s,
    fp_add,
    fp_sub,
    fp_mul,
    fp_div,
    fp_sqrt,
};

/// A vector of three Q40 scalars (position in km, velocity in km/s, ...).
#[derive(Clone, Copy, PartialEq, Eq, Structural, Debug)]
pub struct V3 {
    pub x: i128,
    pub y: i128,
    pub z: i128,
}

/// The mathematical value of a `V3`: three unbounded integers.
pub struct V3s {
    pub x: int,
    pub y: int,
    pub z: int,
}

impl View for V3 {
    type V = V3s;

    open spec fn view(&self) -> V3s {
        V3s { x: self.x as int, y: self.y as int, z: self.z as int }
    }
}

/// Componentwise sum.
pub open spec fn v3_add_s(a: V3s, b: V3s) -> V3s {
    V3s { x: fp_add_s(a.x, b.x), y: fp_add_s(a.y, b.y), z: fp_add_s(a.z, b.z) }
}

/// Componentwise difference.
pub open spec fn v3_sub_s(a: V3s, b: V3s) -> V3s {
    V3s { x: fp_sub_s(a.x, b.x), y: fp_sub_s(a.y, b.y), z: fp_sub_s(a.z, b.z) }
}

/// The vector scaled by `k`.
pub open spec fn v3_scale_s(a: V3s, k: int) -> V3s {
    V3s { x: fp_mul_s(a.x, k), y: fp_mul_s(a.y, k), z: fp_mul_s(a.z, k) }
}

/// The vector divided by `k`.
pub open spec fn v3_div_s(a: V3s, k: int) -> V3s {
    V3s { x: fp_div_s(a.x, k), y: fp_div_s(a.y, k), z: fp_div_s(a.z, k) }
}

/// Dot product.
pub open spec fn v3_dot_s(a: V3s, b: V3s) -> int {
    fp_add_s(fp_add_s(fp_mul_s(a.x, b.x), fp_mul_s(a.y, b.y)), fp_mul_s(a.z, b.z))
}

/// Cross product.
pub open spec fn v3_cross_s(a: V3s, b: V3s) -> V3s {
    V3s {
        x: fp_sub_s(fp_mul_s(a.y, b.z), fp_mul_s(a.z, b.y)),
        y: fp_sub_s(fp_mul_s(a.z, b.x), fp_mul_s(a.x, b.z)),
        z: fp_sub_s(fp_mul_s(a.x, b.y), fp_mul_s(a.y, b.x)),
    }
}

/// Euclidean norm.
pub open spec fn v3_norm_s(a: V3s) -> int {
    fp_sqrt_s(v3_dot_s(a, a))
}

/// Componentwise sum.
pub fn v3_add(a: &V3, b: &V3) -> (r: V3)
    ensures
        r@ == v3_add_s(a@, b@),
{
    V3 { x: fp_add(a.x, b.x), y: fp_add(a.y, b.y), z: fp_add(a.z, b.z) }
}

/// Componentwise difference.
pub fn v3_sub(a: &V3, b: &V3) -> (r: V3)
    ensures
        r@ == v3_sub_s(a@, b@),
{
    V3 { x: fp_sub(a.x, b.x), y: fp_sub(a.y, b.y), z: fp_sub(a.z, b.z) }
}

/// The vector scaled by `k`.
pub fn v3_scale(a: &V3, k: i128) -> (r: V3)
    ensures
        r@ == v3_scale_s(a@, k as int),
{
    V3 { x: fp_mul(a.x, k), y: fp_mul(a.y, k), z: fp_mul(a.z, k) }
}

/// The vector divided by `k`.
pub fn v3_div(a: &V3, k: i128) -> (r: V3)
    ensures
        r@ == v3_div_s(a@, k as int),
{
    V3 { x: fp_div(a.x, k), y: fp_div(a.y, k), z: fp_div(a.z, k) }
}

/// Dot product.
pub fn v3_dot(a: &V3, b: &V3) -> (r: i128)
    ensures
        r == v3_dot_s(a@, b@),
        -FP_LIM <= r <= FP_LIM,
{
    fp_add(fp_add(fp_mul(a.x, b.x), fp_mul(a.y, b.y)), fp_mul(a.z, b.z))
}

/// Cross product.
pub fn v3_cross(a: &V3, b: &V3) -> (r: V3)
    ensures
        r@ == v3_cross_s(a@, b@),
{
    V3 {
        x: fp_sub(fp_mul(a.y, b.z), fp_mul(a.z, b.y)),
        y: fp_sub(fp_mul(a.z, b.x), fp_mul(a.x, b.z)),
        z: fp_sub(fp_mul(a.x, b.y), fp_mul(a.y, b.x)),
    }
}

/// Euclidean norm.
pub fn v3_norm(a: &V3) -> (r: i128)
    ensures
        r == v3_norm_s(a@),
        r >= 0,
{
    fp_sqrt(v3_dot(a, a))
}

} // verus!
