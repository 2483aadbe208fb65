//! Signed Q40 fixed-point scalars held in `i128`.
//!
//! A value `x` stands for the real number `x / SCALE` with `SCALE = 2^40`.
//! Every operation is total: operands are first clipped into
//! `[-FP_LIM, FP_LIM]` and results saturate at that rail, which lies far
//! outside the physical range of the simulation (kilometre-based units keep
//! every intermediate product well inside it). Each executable operation
//! returns exactly the value of its specification mirror, so computations
//! built from these operations are pure integer functions of their inputs.

use vstd::prelude::*;

verus! {

use vstd::arithmetic::div_mod::{
    lemma_fundamental_div_mod,
    lemma_mod_division_less_than_divisor,
    lemma_div_multiples_vanish_fancy,
    lemma_div_is_ordered,
};
use vstd::arithmetic::mul::{
    lemma_mul_inequality,
    lemma_mul_upper_bound,
    lemma_mul_is_distributive_add,
    lemma_mul_nonnegative,
};

/// Raw units per 1.0: 2^40.
pub const SCALE: i128 = 1099511627776;

/// Square root of `SCALE`: 2^20.
pub const SCALE_ROOT: i128 = 1048576;

/// Saturation rail: 2^110 raw, about 1.2e21 in value.
pub const FP_LIM: i128 = 1298074214633706907132624082305024;

/// Magnitude above which division and square root switch to their coarse
/// branch: 2^87 raw, about 1.4e14 in value.
pub const FP_WIDE: i128 = 154742504910672534362390528;

const SCALE_U: u128 = 1099511627776;
const SCALE_ROOT_U: u128 = 1048576;
const FP_LIM_U: u128 = 1298074214633706907132624082305024;
const FP_WIDE_U: u128 = 154742504910672534362390528;
// 2^86: quotients above this saturate a division.
const DIV_Q_CAP_U: u128 = 77371252455336267181195264;
// 2^87: cap on the product of the two high halves in a multiplication.
const MUL_HI_CAP_U: u128 = 154742504910672534362390528;
// 2^64.
const TWO64_U: u128 = 18446744073709551616;

/// Magnitude of an integer.
pub open spec fn fp_mag(x: int) -> int {
    if x < 0 {
        -x
    } else {
        x
    }
}

/// Clip a nonnegative value at the saturation rail.
pub open spec fn fp_cap(x: int) -> int {
    if x > FP_LIM {
        FP_LIM as int
    } else {
        x
    }
}

/// Clip a value into `[-FP_LIM, FP_LIM]`.
pub open spec fn fp_clip(x: int) -> int {
    if x > FP_LIM {
        FP_LIM as int
    } else if x < -(FP_LIM as int) {
        -(FP_LIM as int)
    } else {
        x
    }
}

/// Attach a sign to a magnitude.
pub open spec fn fp_signed(neg: bool, m: int) -> int {
    if neg {
        -m
    } else {
        m
    }
}

/// What `fp_add` returns.
pub open spec fn fp_add_s(a: int, b: int) -> int {
    fp_clip(fp_clip(a) + fp_clip(b))
}

/// What `fp_sub` returns.
pub open spec fn fp_sub_s(a: int, b: int) -> int {
    fp_clip(fp_clip(a) - fp_clip(b))
}

/// What `fp_neg` returns.
pub open spec fn fp_neg_s(a: int) -> int {
    -fp_clip(a)
}

/// What `fp_mul` returns: the Q40 product, truncated toward zero and
/// saturated at the rail.
pub open spec fn fp_mul_s(a: int, b: int) -> int {
    let au = fp_mag(fp_clip(a));
    let bu = fp_mag(fp_clip(b));
    fp_signed((a < 0) != (b < 0), fp_cap(au * bu / (SCALE as int)))
}

/// What `fp_div` returns: the Q40 quotient, truncated toward zero and
/// saturated at the rail. A zero divisor saturates; a divisor wider than
/// `FP_WIDE` loses its fractional part first.
pub open spec fn fp_div_s(a: int, b: int) -> int {
    let au = fp_mag(fp_clip(a));
    let bu = fp_mag(fp_clip(b));
    let m = if bu == 0 {
        if au == 0 {
            0int
        } else {
            FP_LIM as int
        }
    } else if bu > FP_WIDE {
        au / (bu / (SCALE as int))
    } else {
        fp_cap(au * (SCALE as int) / bu)
    };
    fp_signed((a < 0) != (b < 0), m)
}

/// Integer square root: the unique `r` with `r^2 <= n < (r+1)^2`.
pub open spec fn isqrt_s(n: nat) -> nat
    decreases n,
{
    if n == 0 {
        0
    } else {
        let r = isqrt_s((n - 1) as nat);
        if (r + 1) * (r + 1) <= n {
            r + 1
        } else {
            r
        }
    }
}

/// What `fp_sqrt` returns: 0 for nonpositive inputs; otherwise the floor
/// square root at Q40, computed at full precision below `FP_WIDE` and at
/// 2^-20 granularity above it.
pub open spec fn fp_sqrt_s(x: int) -> int {
    if x <= 0 {
        0int
    } else {
        let au = fp_cap(x);
        if au <= FP_WIDE {
            isqrt_s((au * (SCALE as int)) as nat) as int
        } else {
            (isqrt_s(au as nat) as int) * (SCALE_ROOT as int)
        }
    }
}

proof fn lemma_isqrt_bracket(n: nat)
    ensures
        isqrt_s(n) * isqrt_s(n) <= n,
        (isqrt_s(n) + 1) * (isqrt_s(n) + 1) > n,
    decreases n,
{
    if n == 0 {
        assert(isqrt_s(0) == 0);
        assert((isqrt_s(n) + 1) * (isqrt_s(n) + 1) == 1) by (nonlinear_arith)
            requires
                isqrt_s(n) == 0,
        ;
    } else {
        lemma_isqrt_bracket((n - 1) as nat);
        let r = isqrt_s((n - 1) as nat);
        assert(r * r <= n - 1);
        assert((r + 1) * (r + 1) > n - 1);
        if (r + 1) * (r + 1) <= n {
            assert(isqrt_s(n) == r + 1);
            let s = (r + 1) as int;
            assert((s + 1) * (s + 1) > s * s) by (nonlinear_arith)
                requires
                    s >= 0,
            ;
            assert((s + 1) * (s + 1) > n);
            assert((isqrt_s(n) + 1) * (isqrt_s(n) + 1) > n);
        } else {
            assert(isqrt_s(n) == r);
            assert((isqrt_s(n) + 1) * (isqrt_s(n) + 1) > n);
        }
    }
}

proof fn lemma_isqrt_unique(n: nat, r: nat)
    requires
        r * r <= n,
        (r + 1) * (r + 1) > n,
    ensures
        r == isqrt_s(n),
{
    lemma_isqrt_bracket(n);
    let s = isqrt_s(n);
    assert(r <= s && s <= r) by (nonlinear_arith)
        requires
            r * r <= n,
            (r + 1) * (r + 1) > n,
            s * s <= n,
            (s + 1) * (s + 1) > n,
    ;
}

/// `(d*x + c) / d == x + c/d` for a positive divisor and nonnegative `c`.
proof fn lemma_hoist_div(x: int, c: int, d: int)
    requires
        d > 0,
        c >= 0,
    ensures
        (d * x + c) / d == x + c / d,
{
    lemma_fundamental_div_mod(c, d);
    lemma_mod_division_less_than_divisor(c, d);
    assert(d * x + c == d * (x + c / d) + c % d) by {
        lemma_mul_is_distributive_add(d, x, c / d);
    }
    lemma_div_multiples_vanish_fancy(x + c / d, c % d, d);
}


/// Multiplying by zero yields zero.
pub proof fn lemma_fp_mul_zero(b: int)
    ensures
        fp_mul_s(0, b) == 0,
{
    assert(0int * fp_mag(fp_clip(b)) == 0) by (nonlinear_arith);
}

fn clip(a: i128) -> (r: i128)
    ensures
        r == fp_clip(a as int),
        -FP_LIM <= r <= FP_LIM,
{
    if a > FP_LIM {
        FP_LIM
    } else if a < -FP_LIM {
        -FP_LIM
    } else {
        a
    }
}

fn mag_clip(a: i128) -> (r: u128)
    ensures
        r == fp_mag(fp_clip(a as int)),
        r <= FP_LIM_U,
{
    if a > FP_LIM {
        FP_LIM_U
    } else if a < -FP_LIM {
        FP_LIM_U
    } else if a < 0 {
        (-a) as u128
    } else {
        a as u128
    }
}

fn sign_mag(neg: bool, m: u128) -> (r: i128)
    requires
        m <= FP_LIM_U,
    ensures
        r == fp_signed(neg, m as int),
{
    if neg {
        -(m as i128)
    } else {
        m as i128
    }
}

/// Saturating addition.
pub fn fp_add(a: i128, b: i128) -> (r: i128)
    ensures
        r == fp_add_s(a as int, b as int),
        -FP_LIM <= r <= FP_LIM,
{
    let ca: i128 = clip(a);
    let cb: i128 = clip(b);
    clip(ca + cb)
}

/// Saturating subtraction.
pub fn fp_sub(a: i128, b: i128) -> (r: i128)
    ensures
        r == fp_sub_s(a as int, b as int),
        -FP_LIM <= r <= FP_LIM,
{
    let ca: i128 = clip(a);
    let cb: i128 = clip(b);
    clip(ca - cb)
}

/// Saturating negation.
pub fn fp_neg(a: i128) -> (r: i128)
    ensures
        r == fp_neg_s(a as int),
        -FP_LIM <= r <= FP_LIM,
{
    let ca: i128 = clip(a);
    -ca
}

/// Magnitude, after clipping.
pub fn fp_abs(a: i128) -> (r: i128)
    ensures
        r == fp_mag(fp_clip(a as int)),
        -FP_LIM <= r <= FP_LIM,
{
    let ca: i128 = clip(a);
    if ca < 0 {
        -ca
    } else {
        ca
    }
}

/// Saturating Q40 multiplication, truncated toward zero.
pub fn fp_mul(a: i128, b: i128) -> (r: i128)
    ensures
        r == fp_mul_s(a as int, b as int),
        -FP_LIM <= r <= FP_LIM,
{
    let neg: bool = (a < 0) != (b < 0);
    let au: u128 = mag_clip(a);
    let bu: u128 = mag_clip(b);
    let a1: u128 = au / SCALE_U;
    let a0: u128 = au % SCALE_U;
    let b1: u128 = bu / SCALE_U;
    let b0: u128 = bu % SCALE_U;
    proof {
        lemma_fundamental_div_mod(au as int, SCALE_U as int);
        lemma_fundamental_div_mod(bu as int, SCALE_U as int);
        lemma_mod_division_less_than_divisor(au as int, SCALE_U as int);
        lemma_mod_division_less_than_divisor(bu as int, SCALE_U as int);
        lemma_div_is_ordered(au as int, FP_LIM_U as int, SCALE_U as int);
        lemma_div_is_ordered(bu as int, FP_LIM_U as int, SCALE_U as int);
    }
    if a1 > 0 && b1 > MUL_HI_CAP_U / a1 {
        proof {
            // The true product magnitude is far beyond the rail.
            lemma_fundamental_div_mod(MUL_HI_CAP_U as int, a1 as int);
            lemma_mod_division_less_than_divisor(MUL_HI_CAP_U as int, a1 as int);
            assert(a1 * b1 > MUL_HI_CAP_U) by (nonlinear_arith)
                requires
                    a1 > 0,
                    b1 >= MUL_HI_CAP_U / a1 + 1,
                    MUL_HI_CAP_U == a1 * (MUL_HI_CAP_U / a1) + (MUL_HI_CAP_U as int) % (a1 as int),
                    (MUL_HI_CAP_U as int) % (a1 as int) < a1,
            ;
            assert(au * bu >= (SCALE_U * SCALE_U) * (a1 * b1)) by (nonlinear_arith)
                requires
                    au >= SCALE_U * a1,
                    bu >= SCALE_U * b1,
                    a1 >= 0,
                    b1 >= 0,
            ;
            assert((SCALE_U * SCALE_U) * (a1 * b1) >= (SCALE_U * SCALE_U) * (
            MUL_HI_CAP_U + 1)) by (nonlinear_arith)
                requires
                    a1 * b1 >= MUL_HI_CAP_U + 1,
            ;
            lemma_div_is_ordered(
                (SCALE_U * SCALE_U) * (MUL_HI_CAP_U + 1) as int,
                (au * bu) as int,
                SCALE_U as int,
            );
            assert(((SCALE_U * SCALE_U) * (MUL_HI_CAP_U + 1)) / (SCALE_U as int) == SCALE_U * (
            MUL_HI_CAP_U + 1)) by {
                lemma_hoist_div(SCALE_U * (MUL_HI_CAP_U + 1), 0, SCALE_U as int);
                assert((SCALE_U * SCALE_U) * (MUL_HI_CAP_U + 1) == SCALE_U * (SCALE_U * (
                MUL_HI_CAP_U + 1))) by (nonlinear_arith);
            }
        }
        return sign_mag(neg, FP_LIM_U);
    }
    proof {
        if a1 > 0 {
            lemma_fundamental_div_mod(MUL_HI_CAP_U as int, a1 as int);
            assert(a1 * b1 <= MUL_HI_CAP_U) by (nonlinear_arith)
                requires
                    a1 > 0,
                    b1 <= MUL_HI_CAP_U / a1,
                    MUL_HI_CAP_U == a1 * (MUL_HI_CAP_U / a1) + (MUL_HI_CAP_U as int) % (a1 as int),
                    (MUL_HI_CAP_U as int) % (a1 as int) >= 0,
            ;
        } else {
            assert(a1 * b1 == 0) by (nonlinear_arith)
                requires
                    a1 == 0,
            ;
        }
        lemma_mul_inequality(a1 * b1, MUL_HI_CAP_U as int, SCALE_U as int);
        lemma_mul_upper_bound(a1 as int, (FP_LIM_U / SCALE_U) as int, b0 as int, SCALE_U as int);
        lemma_mul_upper_bound(a0 as int, SCALE_U as int, b1 as int, (FP_LIM_U / SCALE_U) as int);
        lemma_mul_upper_bound(a0 as int, SCALE_U as int, b0 as int, SCALE_U as int);
        lemma_mul_nonnegative(a1 as int, b1 as int);
        lemma_mul_nonnegative(a1 as int, b0 as int);
        lemma_mul_nonnegative(a0 as int, b1 as int);
        lemma_mul_nonnegative(a0 as int, b0 as int);
    }
    let hi: u128 = a1 * b1 * SCALE_U;
    let mid1: u128 = a1 * b0;
    let mid2: u128 = a0 * b1;
    let low: u128 = a0 * b0 / SCALE_U;
    let p: u128 = hi + mid1 + mid2 + low;
    proof {
        // p == au * bu / SCALE, exactly.
        assert(au * bu == SCALE_U * ((a1 * b1 * SCALE_U + a1 * b0 + a0 * b1) as int) + a0 * b0)
            by (nonlinear_arith)
            requires
                au == SCALE_U * a1 + a0,
                bu == SCALE_U * b1 + b0,
        ;
        lemma_hoist_div((a1 * b1 * SCALE_U + a1 * b0 + a0 * b1) as int, (a0 * b0) as int, SCALE_U as int);
    }
    let m: u128 = if p > FP_LIM_U {
        FP_LIM_U
    } else {
        p
    };
    sign_mag(neg, m)
}

/// Saturating Q40 division, truncated toward zero.
pub fn fp_div(a: i128, b: i128) -> (r: i128)
    ensures
        r == fp_div_s(a as int, b as int),
        -FP_LIM <= r <= FP_LIM,
{
    let neg: bool = (a < 0) != (b < 0);
    let au: u128 = mag_clip(a);
    let bu: u128 = mag_clip(b);
    if bu == 0 {
        if au == 0 {
            return 0;
        }
        return sign_mag(neg, FP_LIM_U);
    }
    if bu > FP_WIDE_U {
        let d: u128 = bu / SCALE_U;
        let q: u128 = au / d;
        proof {
            assert(d >= FP_WIDE_U / SCALE_U) by {
                lemma_div_is_ordered(FP_WIDE_U as int, bu as int, SCALE_U as int);
            }
            lemma_div_is_ordered(au as int, FP_LIM_U as int, d as int);
            vstd::arithmetic::div_mod::lemma_div_is_ordered_by_denominator(
                FP_LIM_U as int,
                (FP_WIDE_U / SCALE_U) as int,
                d as int,
            );
        }
        return sign_mag(neg, q);
    }
    let q1: u128 = au / bu;
    let rem: u128 = au % bu;
    proof {
        lemma_fundamental_div_mod(au as int, bu as int);
        lemma_mod_division_less_than_divisor(au as int, bu as int);
        lemma_mul_nonnegative(rem as int, SCALE_U as int);
    }
    if q1 > DIV_Q_CAP_U {
        proof {
            // The true quotient is beyond the rail.
            assert(au * SCALE_U >= (bu * q1) * SCALE_U) by (nonlinear_arith)
                requires
                    au == bu * q1 + rem,
                    rem >= 0,
                    SCALE_U > 0,
            ;
            assert((bu * q1) * SCALE_U == bu * (q1 * SCALE_U)) by (nonlinear_arith);
            lemma_div_is_ordered((bu * (q1 * SCALE_U)) as int, (au * SCALE_U) as int, bu as int);
            lemma_hoist_div((q1 * SCALE_U) as int, 0, bu as int);
            assert(q1 * SCALE_U >= (DIV_Q_CAP_U + 1) * SCALE_U) by (nonlinear_arith)
                requires
                    q1 >= DIV_Q_CAP_U + 1,
            ;
        }
        return sign_mag(neg, FP_LIM_U);
    }
    proof {
        lemma_mul_inequality(q1 as int, DIV_Q_CAP_U as int, SCALE_U as int);
        assert(rem * SCALE_U < bu * SCALE_U) by (nonlinear_arith)
            requires
                rem < bu,
                SCALE_U > 0,
        ;
        lemma_mul_inequality(bu as int, FP_WIDE_U as int, SCALE_U as int);
        lemma_div_is_ordered((rem * SCALE_U) as int, (bu * SCALE_U) as int, bu as int);
        lemma_hoist_div(SCALE_U as int, 0, bu as int);
    }
    let frac: u128 = rem * SCALE_U / bu;
    let q: u128 = q1 * SCALE_U + frac;
    proof {
        // q == au * SCALE / bu, exactly.
        assert(au * SCALE_U == bu * ((q1 * SCALE_U) as int) + rem * SCALE_U) by (nonlinear_arith)
            requires
                au == bu * q1 + rem,
        ;
        lemma_hoist_div((q1 * SCALE_U) as int, (rem * SCALE_U) as int, bu as int);
    }
    let m: u128 = if q > FP_LIM_U {
        FP_LIM_U
    } else {
        q
    };
    sign_mag(neg, m)
}

fn isqrt_u128(n: u128) -> (r: u128)
    ensures
        r * r <= n,
        (r + 1) * (r + 1) > n,
        r < TWO64_U,
{
    let mut lo: u128 = 0;
    let mut hi: u128 = TWO64_U;
    proof {
        assert((TWO64_U as int) * (TWO64_U as int) > n as int) by (nonlinear_arith)
            requires
                n < TWO64_U * TWO64_U,
        ;
    }
    while lo + 1 < hi
        invariant
            lo < hi <= TWO64_U,
            lo * lo <= n,
            hi * hi > n,
        decreases hi - lo,
    {
        let mid: u128 = lo + (hi - lo) / 2;
        proof {
            lemma_mul_upper_bound(mid as int, (TWO64_U - 1) as int, mid as int, (TWO64_U - 1) as int);
        }
        if mid * mid <= n {
            lo = mid;
        } else {
            hi = mid;
        }
    }
    lo
}

/// Saturating Q40 square root (0 on nonpositive inputs).
pub fn fp_sqrt(x: i128) -> (r: i128)
    ensures
        r == fp_sqrt_s(x as int),
        -FP_LIM <= r <= FP_LIM,
{
    if x <= 0 {
        return 0;
    }
    let au: u128 = if x > FP_LIM {
        FP_LIM_U
    } else {
        x as u128
    };
    if au <= FP_WIDE_U {
        proof {
            lemma_mul_upper_bound(au as int, FP_WIDE_U as int, SCALE_U as int, SCALE_U as int);
        }
        let n: u128 = au * SCALE_U;
        let r: u128 = isqrt_u128(n);
        proof {
            lemma_isqrt_unique(n as nat, r as nat);
        }
        r as i128
    } else {
        let r: u128 = isqrt_u128(au);
        proof {
            lemma_isqrt_unique(au as nat, r as nat);
            // r^2 <= 2^110, so r <= 2^55.
            assert(r <= 36028797018963968u128) by (nonlinear_arith)
                requires
                    r * r <= FP_LIM_U,
            ;
        }
        (r * SCALE_ROOT_U) as i128
    }
}

/// A whole number as a Q40 value.
pub fn fp_from_int(v: i64) -> (r: i128)
    ensures
        r == v * SCALE,
        -FP_LIM <= r <= FP_LIM,
{
    proof {
        lemma_mul_upper_bound(fp_mag(v as int), 0x8000000000000000, SCALE as int, SCALE as int);
        lemma_mul_inequality(-0x8000000000000000, v as int, SCALE as int);
        lemma_mul_inequality(v as int, 0x8000000000000000, SCALE as int);
    }
    (v as i128) * SCALE
}

/// `v` millionths as a Q40 value, truncated toward zero.
pub fn fp_from_micro(v: i64) -> (r: i128)
    ensures
        r == fp_signed(v < 0, fp_mag(v as int) * SCALE / 1000000),
        -FP_LIM <= r <= FP_LIM,
{
    let m: i128 = v as i128;
    proof {
        lemma_mul_upper_bound(fp_mag(v as int), 0x8000000000000000, SCALE as int, SCALE as int);
        lemma_mul_nonnegative(fp_mag(v as int), SCALE as int);
        lemma_div_is_ordered(0, fp_mag(v as int) * SCALE, 1000000);
        lemma_div_is_ordered(
            fp_mag(v as int) * SCALE,
            0x8000000000000000 * SCALE,
            1000000,
        );
    }
    if m < 0 {
        -(((-m) * SCALE) / 1000000)
    } else {
        (m * SCALE) / 1000000
    }
}

} // verus!
