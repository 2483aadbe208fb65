//! Small astronomy helpers.

use vstd::prelude::*;

verus! {

use crate::fixed::{fp_mul_s, fp_mul};
use crate::trig::{sin_s, cos_s, sin_fp, cos_fp, DEG_FP};
use crate::vec3::{V3, V3s};

/// What `ra_dec_to_vec` returns: the unit direction at the given right
/// ascension and declination, both in degrees.
pub open spec fn ra_dec_to_vec_s(ra: int, dec: int) -> V3s {
    let ra_r = fp_mul_s(ra, DEG_FP as int);
    let dec_r = fp_mul_s(dec, DEG_FP as int);
    V3s {
        x: fp_mul_s(cos_s(dec_r), cos_s(ra_r)),
        y: fp_mul_s(cos_s(dec_r), sin_s(ra_r)),
        z: sin_s(dec_r),
    }
}

/// The unit direction at right ascension `ra` and declination `dec`,
/// both Q40 degrees.
pub fn ra_dec_to_vec(ra: i128, dec: i128) -> (r: V3)
    ensures
        r@ == ra_dec_to_vec_s(ra as int, dec as int),
{
    let ra_r: i128 = fp_mul(ra, DEG_FP);
    let dec_r: i128 = fp_mul(dec, DEG_FP);
    V3 {
        x: fp_mul(cos_fp(dec_r), cos_fp(ra_r)),
        y: fp_mul(cos_fp(dec_r), sin_fp(ra_r)),
        z: sin_fp(dec_r),
    }
}

} // verus!
