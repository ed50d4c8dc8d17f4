//! Fixed-point scalar arithmetic.
//!
//! A scalar is an `i64` holding a real value scaled by [`UNIT`]: the stored
//! number is `round_toward_zero(value * UNIT)`. Products and quotients are
//! computed exactly in 128-bit intermediates, rounded toward zero, and then
//! saturated to the `i64` range; saturation plays the role that infinities
//! play for floating-point numbers, so every operation is total.

use vstd::prelude::*;
use vstd::arithmetic::div_mod::lemma_div_multiples_vanish;
use vstd::arithmetic::mul::lemma_mul_is_commutative;

verus! {

/// Number of fixed-point steps that make up the real value 1.0.
pub const UNIT: i64 = 1_000_000;

/// Fixed-point rendering of pi.
pub const PI_FP: i64 = 3_141_592;

/// Fixed-point rendering of pi / 2 (exactly half of `PI_FP`).
pub const HALF_PI_FP: i64 = 1_570_796;

/// Fixed-point rendering of 2 * pi (exactly twice `PI_FP`).
pub const TWO_PI_FP: i64 = 6_283_184;

/// Two whole units: the factor 2 of the elastic collision formula.
pub const TWO_UNIT: i64 = 2_000_000;

/// Four whole units; scale factor of the sine half-wave arch.
pub const FOUR_UNIT: i64 = 4_000_000;

/// Magnitude of a mathematical integer.
pub open spec fn abs_val(x: int) -> int {
    if x < 0 {
        -x
    } else {
        x
    }
}

/// Saturate a mathematical integer to the `i64` range.
pub open spec fn clip(x: int) -> int {
    if x > i64::MAX {
        i64::MAX as int
    } else if x < i64::MIN {
        i64::MIN as int
    } else {
        x
    }
}

/// Division rounded toward zero, as the hardware divides; `b != 0` expected.
pub open spec fn quot(a: int, b: int) -> int {
    let q = abs_val(a) / abs_val(b);
    if (a < 0) != (b < 0) {
        -q
    } else {
        q
    }
}

/// Saturating sum.
pub open spec fn sat_add(a: int, b: int) -> int {
    clip(a + b)
}

/// Saturating difference.
pub open spec fn sat_sub(a: int, b: int) -> int {
    clip(a - b)
}

/// Fixed-point product: exact product, rescaled by `UNIT`, saturated.
pub open spec fn fp_mul(a: int, b: int) -> int {
    clip(quot(a * b, UNIT as int))
}

/// Fixed-point quotient: saturated, with a zero divisor saturating to the
/// signed extreme the way a float quotient runs to an infinity.
pub open spec fn fp_div(a: int, b: int) -> int {
    if b == 0 {
        if a > 0 {
            i64::MAX as int
        } else if a < 0 {
            i64::MIN as int
        } else {
            0
        }
    } else {
        clip(quot(a * (UNIT as int), b))
    }
}

/// `r` is the integer square root (rounded down) of `n`.
pub open spec fn is_sqrt_floor(n: int, r: int) -> bool {
    &&& 0 <= r
    &&& r * r <= n
    &&& n < (r + 1) * (r + 1)
}

/// The integer square root, rounded down, of a nonnegative integer.
pub open spec fn sqrt_floor(n: int) -> int {
    choose|r: int| is_sqrt_floor(n, r)
}

/// The magnitude of a product is the product of the magnitudes, and the
/// product is negative exactly when the factors' signs differ.
pub proof fn lemma_abs_mul(a: int, b: int)
    by (nonlinear_arith)
    ensures
        abs_val(a * b) == abs_val(a) * abs_val(b),
        (a * b < 0) <==> (((a < 0) != (b < 0)) && a != 0 && b != 0),
        (a * b == 0) <==> (a == 0 || b == 0),
{
}

/// Dividing an exact multiple of a nonzero number by that number gives the
/// other factor back: truncation loses nothing.
pub proof fn lemma_quot_of_multiple(c: int, d: int)
    requires
        d != 0,
    ensures
        quot(c * d, d) == c,
{
    lemma_abs_mul(c, d);
    lemma_mul_is_commutative(abs_val(d), abs_val(c));
    lemma_div_multiples_vanish(abs_val(c), abs_val(d));
}

/// Truncating division agrees with Euclidean division on exact multiples.
pub proof fn lemma_quot_divisible(a: int, b: int)
    requires
        b > 0,
        a % b == 0,
    ensures
        quot(a, b) == a / b,
        b * (a / b) == a,
{
    vstd::arithmetic::div_mod::lemma_fundamental_div_mod(a, b);
    if a >= 0 {
    } else {
        let q = a / b;
        assert(b * q == a);
        vstd::arithmetic::mul::lemma_mul_unary_negation(b, q);
        assert(-a == b * (-q));
        lemma_mul_is_commutative(b, -q);
        lemma_div_multiples_vanish(-q, b);
        assert((-a) / b == -q);
    }
}

/// Multiplying by one whole unit changes nothing but saturation.
pub proof fn lemma_fp_mul_unit(c: int)
    ensures
        fp_mul(UNIT as int, c) == clip(c),
{
    lemma_mul_is_commutative(UNIT as int, c);
    lemma_quot_of_multiple(c, UNIT as int);
}

/// Multiplying by zero gives exactly zero.
pub proof fn lemma_fp_mul_zero(c: int)
    ensures
        fp_mul(0, c) == 0,
        fp_mul(c, 0) == 0,
{
    lemma_abs_mul(0, c);
    lemma_abs_mul(c, 0);
}

/// Integer square roots are unique.
pub proof fn lemma_sqrt_floor_unique(n: int, r: int)
    requires
        is_sqrt_floor(n, r),
    ensures
        sqrt_floor(n) == r,
{
    let s = choose|s: int| is_sqrt_floor(n, s);
    assert(is_sqrt_floor(n, s));
    assert(s == r) by (nonlinear_arith)
        requires
            0 <= r,
            r * r <= n,
            n < (r + 1) * (r + 1),
            0 <= s,
            s * s <= n,
            n < (s + 1) * (s + 1),
    ;
}

/// Saturating sum of two scalars.
pub fn sat_add_i64(a: i64, b: i64) -> (r: i64)
    ensures
        r as int == sat_add(a as int, b as int),
{
    if b >= 0 {
        if a <= i64::MAX - b {
            a + b
        } else {
            i64::MAX
        }
    } else {
        if a >= i64::MIN - b {
            a + b
        } else {
            i64::MIN
        }
    }
}

/// Saturating difference of two scalars.
pub fn sat_sub_i64(a: i64, b: i64) -> (r: i64)
    ensures
        r as int == sat_sub(a as int, b as int),
{
    if b >= 0 {
        if a >= i64::MIN + b {
            a - b
        } else {
            i64::MIN
        }
    } else {
        if a <= i64::MAX + b {
            a - b
        } else {
            i64::MAX
        }
    }
}

/// Magnitude of a scalar, wide enough to hold `|i64::MIN|`.
fn abs_mag(a: i64) -> (r: u128)
    ensures
        r as int == abs_val(a as int),
{
    if a >= 0 {
        a as u128
    } else {
        (-(a as i128)) as u128
    }
}

/// Reassemble a signed scalar from a magnitude and a sign, saturating.
fn from_magnitude(q: u128, neg: bool) -> (r: i64)
    ensures
        r as int == clip(
            if neg {
                -(q as int)
            } else {
                q as int
            },
        ),
{
    if neg {
        if q >= 9_223_372_036_854_775_808u128 {
            i64::MIN
        } else {
            -(q as i64)
        }
    } else {
        if q > i64::MAX as u128 {
            i64::MAX
        } else {
            q as i64
        }
    }
}

/// Fixed-point product of two scalars.
pub fn fp_mul_i64(a: i64, b: i64) -> (r: i64)
    ensures
        r as int == fp_mul(a as int, b as int),
{
    let neg: bool = (a < 0) != (b < 0);
    let ma: u128 = abs_mag(a);
    let mb: u128 = abs_mag(b);
    proof {
        lemma_abs_mul(a as int, b as int);
        assert(ma * mb <= 0x8000000000000000 * 0x8000000000000000) by (nonlinear_arith)
            requires
                ma <= 0x8000000000000000,
                mb <= 0x8000000000000000,
        ;
    }
    let p: u128 = ma * mb;
    let q: u128 = p / (UNIT as u128);
    from_magnitude(q, neg)
}

/// Fixed-point quotient of two scalars.
pub fn fp_div_i64(a: i64, b: i64) -> (r: i64)
    ensures
        r as int == fp_div(a as int, b as int),
{
    if b == 0 {
        if a > 0 {
            i64::MAX
        } else if a < 0 {
            i64::MIN
        } else {
            0
        }
    } else {
        let neg: bool = (a < 0) != (b < 0);
        let ma: u128 = abs_mag(a);
        let mb: u128 = abs_mag(b);
        proof {
            lemma_abs_mul(a as int, UNIT as int);
        }
        let num: u128 = ma * (UNIT as u128);
        let q: u128 = num / mb;
        from_magnitude(q, neg)
    }
}

/// Integer square root, rounded down, by bisection.
pub fn isqrt_u128(n: u128) -> (r: u128)
    ensures
        is_sqrt_floor(n as int, r as int),
{
    let mut lo: u128 = 0;
    let mut hi: u128 = 0x10000000000000000u128;
    proof {
        assert(n < hi * hi) by (nonlinear_arith)
            requires
                n <= u128::MAX,
                hi == 0x10000000000000000u128,
        ;
    }
    while lo + 1 < hi
        invariant
            0 <= lo < hi <= 0x10000000000000000u128,
            lo * lo <= n,
            n < hi * hi,
        decreases hi - lo,
    {
        let mid: u128 = lo + (hi - lo) / 2;
        proof {
            assert(mid * mid <= u128::MAX) by (nonlinear_arith)
                requires
                    mid < 0x10000000000000000u128,
            ;
        }
        if mid * mid <= n {
            lo = mid;
        } else {
            hi = mid;
        }
    }
    lo
}

/// One arch of the sine wave: a parabola through `(0, 0)`, `(PI_FP, 0)` with
/// apex `(HALF_PI_FP, UNIT)`, evaluated in fixed point.
pub open spec fn half_wave(t: int) -> int {
    quot(quot(t * (PI_FP as int - t), PI_FP as int) * (FOUR_UNIT as int), PI_FP as int)
}

/// Fixed-point sine: the argument is reduced modulo `TWO_PI_FP` and the
/// half-wave arch is reflected for the odd symmetry.
pub open spec fn sine(theta: int) -> int {
    let m = abs_val(theta) % (TWO_PI_FP as int);
    let v = if m <= PI_FP as int {
        half_wave(m)
    } else {
        -half_wave(m - PI_FP as int)
    };
    if theta < 0 {
        -v
    } else {
        v
    }
}

/// Fixed-point cosine: sine shifted a quarter turn, saturating at the ends of
/// the scalar range.
pub open spec fn cosine(theta: int) -> int {
    sine(sat_add(theta, HALF_PI_FP as int))
}

fn half_wave_exec(t: i64) -> (r: i64)
    requires
        0 <= t <= PI_FP,
    ensures
        r as int == half_wave(t as int),
        0 <= r <= (FOUR_UNIT as int) * (PI_FP as int),
{
    proof {
        assert((t as int) * (PI_FP as int - t as int) <= 3_141_592int * 3_141_592 && (t as int) * (
        PI_FP as int - t as int) >= 0) by (nonlinear_arith)
            requires
                0 <= t as int <= 3_141_592,
                PI_FP as int == 3_141_592,
        ;
    }
    let a: u64 = (t as u64) * ((PI_FP - t) as u64);
    proof {
        assert(a as int == (t as int) * (PI_FP as int - t as int));
        assert(a <= 3_141_592u64 * 3_141_592);
    }
    let b: u64 = a / (PI_FP as u64);
    proof {
        vstd::arithmetic::div_mod::lemma_div_is_ordered(
            a as int,
            3_141_592int * 3_141_592,
            PI_FP as int,
        );
        vstd::arithmetic::div_mod::lemma_div_by_multiple(3_141_592int, 3_141_592int);
        assert(b <= 3_141_592u64);
        assert((b as int) * (FOUR_UNIT as u64 as int) <= 0xffffffffffffffff) by (nonlinear_arith)
            requires
                0 <= b as int <= 3_141_592,
                FOUR_UNIT as u64 as int == 4_000_000,
        ;
    }
    let c: u64 = b * (FOUR_UNIT as u64);
    let d: u64 = c / (PI_FP as u64);
    d as i64
}

/// Fixed-point sine of a scalar angle.
pub fn sine_fp(theta: i64) -> (r: i64)
    ensures
        r as int == sine(theta as int),
{
    let mag: u64 = if theta >= 0 {
        theta as u64
    } else {
        (-(theta as i128)) as u64
    };
    let m: u64 = mag % (TWO_PI_FP as u64);
    let v: i64 = if m <= PI_FP as u64 {
        half_wave_exec(m as i64)
    } else {
        -half_wave_exec((m as i64) - PI_FP)
    };
    if theta < 0 {
        -v
    } else {
        v
    }
}

/// Fixed-point cosine of a scalar angle.
pub fn cosine_fp(theta: i64) -> (r: i64)
    ensures
        r as int == cosine(theta as int),
{
    sine_fp(sat_add_i64(theta, HALF_PI_FP))
}

/// A zero angle has sine exactly zero and cosine exactly one unit.
pub proof fn lemma_trig_at_zero()
    ensures
        sine(0) == 0,
        cosine(0) == UNIT as int,
{
    assert(abs_val(0) % (TWO_PI_FP as int) == 0);
    assert(half_wave(0) == 0);
    assert(sine(0) == 0);
    assert(sat_add(0, HALF_PI_FP as int) == HALF_PI_FP as int);
    assert(abs_val(HALF_PI_FP as int) % (TWO_PI_FP as int) == 1_570_796int % 6_283_184);
    assert(1_570_796int % 6_283_184 == 1_570_796);
    assert(half_wave(1_570_796) == UNIT as int) by {
        assert(1_570_796int * (3_141_592 - 1_570_796) == 2_467_400_073_616);
        assert(quot(2_467_400_073_616, 3_141_592) == 785_398);
        assert(785_398int * 4_000_000 == 3_141_592_000_000);
        assert(quot(3_141_592_000_000, 3_141_592) == 1_000_000);
    }
}

} // verus!
