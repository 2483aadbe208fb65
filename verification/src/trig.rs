//! Trigonometric functions on Q40 fixed-point angles (radians).
//!
//! Sine and cosine reduce the angle into `[0, 2*pi)`, pick a quadrant and
//! evaluate a Taylor polynomial on `[0, pi/4]`; the arc functions go through
//! a twice-halved arctangent series. Like the scalar operations they build
//! on, all of these are total, and each one returns exactly the value of its
//! specification mirror.

use vstd::prelude::*;

verus! {

use crate::fixed::{
    SCALE,
    FP_LIM,
    fp_add_s,
    fp_sub_s,
    fp_mul_s,
    fp_div_s,
    fp_sqrt_s,
    fp_clip,
    fp_add,
    fp_sub,
    fp_mul,
    fp_div,
    fp_sqrt,
};

/// Pi at Q40.
pub const PI_FP: i128 = 3454217652358;

/// 2*pi at Q40.
pub const TWO_PI_FP: i128 = 6908435304715;

/// Pi/2 at Q40.
pub const HALF_PI_FP: i128 = 1727108826179;

/// Pi/4 at Q40.
pub const QUARTER_PI_FP: i128 = 863554413089;

/// One degree in radians at Q40.
pub const DEG_FP: i128 = 19190098069;

// Taylor coefficients of sine at Q40: -1/3!, 1/5!, -1/7!, 1/9!, -1/11!.
pub const SIN_C3: i128 = -183251937963;
pub const SIN_C5: i128 = 9162596898;
pub const SIN_C7: i128 = -218157069;
pub const SIN_C9: i128 = 3029959;
pub const SIN_C11: i128 = -27545;

// Taylor coefficients of cosine at Q40: -1/2!, 1/4!, ..., 1/12!.
pub const COS_C2: i128 = -549755813888;
pub const COS_C4: i128 = 45812984491;
pub const COS_C6: i128 = -1527099483;
pub const COS_C8: i128 = 27269634;
pub const COS_C10: i128 = -302996;
pub const COS_C12: i128 = 2295;

// Taylor coefficients of arctangent at Q40: -1/3, 1/5, ..., -1/15.
pub const ATAN_A3: i128 = -366503875925;
pub const ATAN_A5: i128 = 219902325555;
pub const ATAN_A7: i128 = -157073089682;
pub const ATAN_A9: i128 = 122167958642;
pub const ATAN_A11: i128 = -99955602525;
pub const ATAN_A13: i128 = 84577817521;
pub const ATAN_A15: i128 = -73300775185;

/// The angle `x`, brought into `[0, 2*pi)`.
pub open spec fn angle_norm_s(x: int) -> int {
    let c = fp_clip(x);
    if c >= 0 {
        c % (TWO_PI_FP as int)
    } else {
        let m = (-c) % (TWO_PI_FP as int);
        if m == 0 {
            0int
        } else {
            TWO_PI_FP - m
        }
    }
}

/// Sine Taylor polynomial, for arguments in `[0, pi/4]`.
pub open spec fn sin_poly_s(m: int) -> int {
    let u = fp_mul_s(m, m);
    let p1 = SIN_C9 + fp_mul_s(u, SIN_C11 as int);
    let p2 = SIN_C7 + fp_mul_s(u, p1);
    let p3 = SIN_C5 + fp_mul_s(u, p2);
    let p4 = SIN_C3 + fp_mul_s(u, p3);
    fp_mul_s(m, SCALE + fp_mul_s(u, p4))
}

/// Cosine Taylor polynomial, for arguments in `[0, pi/4]`.
pub open spec fn cos_poly_s(m: int) -> int {
    let u = fp_mul_s(m, m);
    let q1 = COS_C10 + fp_mul_s(u, COS_C12 as int);
    let q2 = COS_C8 + fp_mul_s(u, q1);
    let q3 = COS_C6 + fp_mul_s(u, q2);
    let q4 = COS_C4 + fp_mul_s(u, q3);
    let q5 = COS_C2 + fp_mul_s(u, q4);
    SCALE + fp_mul_s(u, q5)
}

/// What `sin_fp` returns.
#[verifier::opaque]
pub open spec fn sin_s(x: int) -> int {
    let r = angle_norm_s(x);
    let q = r / (HALF_PI_FP as int);
    let m = r - q * HALF_PI_FP;
    let base = if q == 0 || q == 2 {
        if m <= QUARTER_PI_FP {
            sin_poly_s(m)
        } else {
            cos_poly_s(HALF_PI_FP - m)
        }
    } else {
        if m <= QUARTER_PI_FP {
            cos_poly_s(m)
        } else {
            sin_poly_s(HALF_PI_FP - m)
        }
    };
    if q >= 2 {
        -base
    } else {
        base
    }
}

/// What `cos_fp` returns: the sine of `x + pi/2`.
#[verifier::opaque]
pub open spec fn cos_s(x: int) -> int {
    sin_s(fp_add_s(x, HALF_PI_FP as int))
}

/// Arctangent Taylor polynomial, for small arguments.
pub open spec fn atan_poly_s(t: int) -> int {
    let w = fp_mul_s(t, t);
    let a1 = ATAN_A13 + fp_mul_s(w, ATAN_A15 as int);
    let a2 = ATAN_A11 + fp_mul_s(w, a1);
    let a3 = ATAN_A9 + fp_mul_s(w, a2);
    let a4 = ATAN_A7 + fp_mul_s(w, a3);
    let a5 = ATAN_A5 + fp_mul_s(w, a4);
    let a6 = ATAN_A3 + fp_mul_s(w, a5);
    fp_mul_s(t, SCALE + fp_mul_s(w, a6))
}

/// One argument-halving step: `atan(t) = 2 * atan(t / (1 + sqrt(1 + t^2)))`.
pub open spec fn atan_half_s(t: int) -> int {
    fp_div_s(t, SCALE + fp_sqrt_s(fp_add_s(SCALE as int, fp_mul_s(t, t))))
}

/// What `atan_fp` returns.
#[verifier::opaque]
pub open spec fn atan_s(t: int) -> int {
    let t2 = atan_half_s(atan_half_s(t));
    fp_mul_s(4 * SCALE, atan_poly_s(t2))
}

/// What `atan2_fp` returns: the angle of the point `(x, y)`, in `(-pi, pi]`,
/// with `atan2_s(0, 0) == 0`.
#[verifier::opaque]
pub open spec fn atan2_s(y: int, x: int) -> int {
    let ya = fp_clip(y);
    let xa = fp_clip(x);
    let ym = if ya < 0 {
        -ya
    } else {
        ya
    };
    let xm = if xa < 0 {
        -xa
    } else {
        xa
    };
    if ym == 0 && xm == 0 {
        0int
    } else if ym <= xm {
        let base = atan_s(fp_div_s(ya, xa));
        if xa > 0 {
            base
        } else if ya >= 0 {
            base + PI_FP
        } else {
            base - PI_FP
        }
    } else {
        let base = atan_s(fp_div_s(xa, ya));
        if ya > 0 {
            HALF_PI_FP - base
        } else {
            -(HALF_PI_FP as int) - base
        }
    }
}

/// Clamp into `[-1, 1]` at Q40, as the arc functions require.
pub open spec fn clamp_unit_s(x: int) -> int {
    let c = fp_clip(x);
    if c > SCALE {
        SCALE as int
    } else if c < -(SCALE as int) {
        -(SCALE as int)
    } else {
        c
    }
}

/// What `acos_fp` returns: `atan2(sqrt(1 - x^2), x)` on the clamped argument.
#[verifier::opaque]
pub open spec fn acos_s(x: int) -> int {
    let c = clamp_unit_s(x);
    atan2_s(fp_sqrt_s(fp_sub_s(SCALE as int, fp_mul_s(c, c))), c)
}

/// What `asin_fp` returns: `atan2(x, sqrt(1 - x^2))` on the clamped argument.
#[verifier::opaque]
pub open spec fn asin_s(x: int) -> int {
    let c = clamp_unit_s(x);
    atan2_s(c, fp_sqrt_s(fp_sub_s(SCALE as int, fp_mul_s(c, c))))
}

fn angle_norm(x: i128) -> (r: i128)
    ensures
        r == angle_norm_s(x as int),
        0 <= r < TWO_PI_FP,
{
    let c: i128 = if x > FP_LIM {
        FP_LIM
    } else if x < -FP_LIM {
        -FP_LIM
    } else {
        x
    };
    if c >= 0 {
        let m: u128 = (c as u128) % (TWO_PI_FP as u128);
        m as i128
    } else {
        let m: u128 = ((-c) as u128) % (TWO_PI_FP as u128);
        if m == 0 {
            0
        } else {
            TWO_PI_FP - (m as i128)
        }
    }
}

/// Sine of a Q40 angle in radians.
pub fn sin_fp(x: i128) -> (r: i128)
    ensures
        r == sin_s(x as int),
        -2 * FP_LIM <= r <= 2 * FP_LIM,
{
    proof {
        reveal(sin_s);
    }
    let red: i128 = angle_norm(x);
    let ru: u128 = red as u128;
    let q: u128 = ru / (HALF_PI_FP as u128);
    let m: i128 = (ru % (HALF_PI_FP as u128)) as i128;
    proof {
        vstd::arithmetic::div_mod::lemma_fundamental_div_mod(ru as int, HALF_PI_FP as int);
        vstd::arithmetic::div_mod::lemma_multiply_divide_lt(ru as int, HALF_PI_FP as int, 4);
        vstd::arithmetic::div_mod::lemma_mod_division_less_than_divisor(
            ru as int,
            HALF_PI_FP as int,
        );
    }
    let base: i128 = if q == 0 || q == 2 {
        if m <= QUARTER_PI_FP {
            sin_poly(m)
        } else {
            cos_poly(HALF_PI_FP - m)
        }
    } else {
        if m <= QUARTER_PI_FP {
            cos_poly(m)
        } else {
            sin_poly(HALF_PI_FP - m)
        }
    };
    if q >= 2 {
        -base
    } else {
        base
    }
}

/// Cosine of a Q40 angle in radians.
pub fn cos_fp(x: i128) -> (r: i128)
    ensures
        r == cos_s(x as int),
        -2 * FP_LIM <= r <= 2 * FP_LIM,
{
    proof {
        reveal(cos_s);
    }
    sin_fp(fp_add(x, HALF_PI_FP))
}

fn sin_poly(m: i128) -> (r: i128)
    ensures
        r == sin_poly_s(m as int),
        -FP_LIM <= r <= FP_LIM,
{
    let u: i128 = fp_mul(m, m);
    let p1: i128 = SIN_C9 + fp_mul(u, SIN_C11);
    let p2: i128 = SIN_C7 + fp_mul(u, p1);
    let p3: i128 = SIN_C5 + fp_mul(u, p2);
    let p4: i128 = SIN_C3 + fp_mul(u, p3);
    fp_mul(m, SCALE + fp_mul(u, p4))
}

fn cos_poly(m: i128) -> (r: i128)
    ensures
        r == cos_poly_s(m as int),
        -2 * FP_LIM <= r <= 2 * FP_LIM,
{
    let u: i128 = fp_mul(m, m);
    let q1: i128 = COS_C10 + fp_mul(u, COS_C12);
    let q2: i128 = COS_C8 + fp_mul(u, q1);
    let q3: i128 = COS_C6 + fp_mul(u, q2);
    let q4: i128 = COS_C4 + fp_mul(u, q3);
    let q5: i128 = COS_C2 + fp_mul(u, q4);
    SCALE + fp_mul(u, q5)
}

fn atan_poly(t: i128) -> (r: i128)
    ensures
        r == atan_poly_s(t as int),
        -FP_LIM <= r <= FP_LIM,
{
    let w: i128 = fp_mul(t, t);
    let a1: i128 = ATAN_A13 + fp_mul(w, ATAN_A15);
    let a2: i128 = ATAN_A11 + fp_mul(w, a1);
    let a3: i128 = ATAN_A9 + fp_mul(w, a2);
    let a4: i128 = ATAN_A7 + fp_mul(w, a3);
    let a5: i128 = ATAN_A5 + fp_mul(w, a4);
    let a6: i128 = ATAN_A3 + fp_mul(w, a5);
    fp_mul(t, SCALE + fp_mul(w, a6))
}

fn atan_half(t: i128) -> (r: i128)
    ensures
        r == atan_half_s(t as int),
        -FP_LIM <= r <= FP_LIM,
{
    fp_div(t, SCALE + fp_sqrt(fp_add(SCALE, fp_mul(t, t))))
}

/// Arctangent of a Q40 value, in `(-pi/2, pi/2)`.
pub fn atan_fp(t: i128) -> (r: i128)
    ensures
        r == atan_s(t as int),
        -FP_LIM <= r <= FP_LIM,
{
    proof {
        reveal(atan_s);
    }
    let t2: i128 = atan_half(atan_half(t));
    fp_mul(4 * SCALE, atan_poly(t2))
}

/// Quadrant-aware arctangent of `y/x` at Q40, in `(-pi, pi]`.
pub fn atan2_fp(y: i128, x: i128) -> (r: i128)
    ensures
        r == atan2_s(y as int, x as int),
        -2 * FP_LIM <= r <= 2 * FP_LIM,
{
    proof {
        reveal(atan2_s);
    }
    let ya: i128 = if y > FP_LIM {
        FP_LIM
    } else if y < -FP_LIM {
        -FP_LIM
    } else {
        y
    };
    let xa: i128 = if x > FP_LIM {
        FP_LIM
    } else if x < -FP_LIM {
        -FP_LIM
    } else {
        x
    };
    let ym: i128 = if ya < 0 {
        -ya
    } else {
        ya
    };
    let xm: i128 = if xa < 0 {
        -xa
    } else {
        xa
    };
    if ym == 0 && xm == 0 {
        0
    } else if ym <= xm {
        let base: i128 = atan_fp(fp_div(ya, xa));
        if xa > 0 {
            base
        } else if ya >= 0 {
            base + PI_FP
        } else {
            base - PI_FP
        }
    } else {
        let base: i128 = atan_fp(fp_div(xa, ya));
        if ya > 0 {
            HALF_PI_FP - base
        } else {
            -HALF_PI_FP - base
        }
    }
}

fn clamp_unit(x: i128) -> (r: i128)
    ensures
        r == clamp_unit_s(x as int),
        -SCALE <= r <= SCALE,
{
    let c: i128 = if x > FP_LIM {
        FP_LIM
    } else if x < -FP_LIM {
        -FP_LIM
    } else {
        x
    };
    if c > SCALE {
        SCALE
    } else if c < -SCALE {
        -SCALE
    } else {
        c
    }
}

/// Arccosine of a Q40 value (clamped into `[-1, 1]`), in `[0, pi]`.
pub fn acos_fp(x: i128) -> (r: i128)
    ensures
        r == acos_s(x as int),
        -2 * FP_LIM <= r <= 2 * FP_LIM,
{
    proof {
        reveal(acos_s);
    }
    let c: i128 = clamp_unit(x);
    atan2_fp(fp_sqrt(fp_sub(SCALE, fp_mul(c, c))), c)
}

/// Arcsine of a Q40 value (clamped into `[-1, 1]`), in `[-pi/2, pi/2]`.
pub fn asin_fp(x: i128) -> (r: i128)
    ensures
        r == asin_s(x as int),
        -2 * FP_LIM <= r <= 2 * FP_LIM,
{
    proof {
        reveal(asin_s);
    }
    let c: i128 = clamp_unit(x);
    atan2_fp(c, fp_sqrt(fp_sub(SCALE, fp_mul(c, c))))
}

} // verus!
