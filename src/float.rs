//! Doubles held as their IEEE-754 bit patterns, with the few operations the
//! bucketing kernel needs, each proved against an integer model.
use vstd::prelude::*;
use vstd::arithmetic::power2::{
    pow2, lemma2_to64, lemma_pow2_adds, lemma_pow2_pos, lemma_pow2_strictly_increases,
    lemma_pow2_unfold,
};

verus! {

/// 2^52: one unit of the biased exponent field.
pub const EXP_UNIT: u64 = 0x0010_0000_0000_0000;

/// The sign bit.
pub const SIGN_BIT: u64 = 0x8000_0000_0000_0000;

/// The bits of 0.5.
pub const HALF: u64 = 0x3fe0_0000_0000_0000;

/// The bits of 1.0.
pub const ONE: u64 = 0x3ff0_0000_0000_0000;

/// The bits of the largest double below one.
pub const LARGEST_FRACTION: u64 = 0x3fef_ffff_ffff_ffff;

/// The bits of the largest finite double.
pub const MAX_FINITE: u64 = 0x7fef_ffff_ffff_ffff;

/// The bits of positive infinity.
pub const INFINITY: u64 = 0x7ff0_0000_0000_0000;

/// The bits of 2^-128, the default zero threshold.
pub const ZERO_THRESHOLD: u64 = 0x37f0_0000_0000_0000;

/// Whether the sign bit is set.
pub open spec fn is_negative(b: u64) -> bool {
    b >= SIGN_BIT
}

/// The bits of |b|.
pub open spec fn abs_bits(b: u64) -> u64 {
    if is_negative(b) {
        (b - SIGN_BIT) as u64
    } else {
        b
    }
}

/// The biased exponent field of a non-negative double.
pub open spec fn biased_exp(b: u64) -> int {
    b as int / EXP_UNIT as int
}

/// The stored fraction field of a double.
pub open spec fn fraction_field(b: u64) -> int {
    b as int % EXP_UNIT as int
}

/// The 53-bit significand of a normal double, hidden bit included.
pub open spec fn significand(b: u64) -> int {
    EXP_UNIT as int + fraction_field(b)
}

/// A positive normal double: its value is `significand(b) * 2^(biased_exp(b) - 1075)`.
pub open spec fn is_pos_normal(b: u64) -> bool {
    1 <= biased_exp(b) <= 2046
}

/// A positive finite double, zero and subnormals included.
pub open spec fn is_pos_finite(b: u64) -> bool {
    b < INFINITY
}

/// The bits of the positive normal double with the given significand and biased exponent.
pub open spec fn compose(sig: int, exp: int) -> int {
    exp * EXP_UNIT as int + (sig - EXP_UNIT as int)
}

/// How many doublings bring a positive integer below 2^52 to at least 2^52.
pub open spec fn norm_shift(m: int) -> nat
    decreases (if 0 < m < 0x10_0000_0000_0000 {
        0x10_0000_0000_0000 - m
    } else {
        0
    }),
{
    if 0 < m < 0x10_0000_0000_0000 {
        1 + norm_shift(2 * m)
    } else {
        0
    }
}

proof fn lemma_pow2_53()
    ensures
        pow2(53) == 0x20_0000_0000_0000,
{
    lemma2_to64();
    vstd::arithmetic::power2::lemma_pow2_adds(21, 32);
}

/// Doubling a subnormal's stored fraction `norm_shift` times makes it a
/// 53-bit significand.
pub proof fn lemma_norm_shift(m: int)
    requires
        0 < m < 0x20_0000_0000_0000,
    ensures
        0x10_0000_0000_0000 <= m * pow2(norm_shift(m)) < 0x20_0000_0000_0000,
        norm_shift(m) <= 52,
        m < 0x10_0000_0000_0000 ==> 1 <= norm_shift(m),
    decreases (if m < 0x10_0000_0000_0000 {
        0x10_0000_0000_0000 - m
    } else {
        0
    }),
{
    if m < 0x10_0000_0000_0000 {
        lemma_norm_shift(2 * m);
        let n = norm_shift(2 * m);
        lemma_pow2_unfold(n + 1);
        assert(m * pow2(n + 1) == 2 * m * pow2(n)) by (nonlinear_arith)
            requires
                pow2(n + 1) == 2 * pow2(n),
        ;
        assert(norm_shift(m) == n + 1);
        lemma2_to64();
    } else {
        lemma2_to64();
    }
    if norm_shift(m) > 52 {
        let k = norm_shift(m);
        lemma_pow2_53();
        if k > 53 {
            lemma_pow2_strictly_increases(53, k);
        } else {
            assert(k == 53);
            assert(pow2(k) == pow2(53));
        }
        let q = pow2(norm_shift(m)) as int;
        assert(q >= 0x20_0000_0000_0000);
        assert(m * q >= q) by (nonlinear_arith)
            requires
                m >= 1,
                q >= 0,
        ;
        assert(false);
    }
}

/// Splits the bits of a positive finite double into those of a fraction in
/// [0.5, 1) and the power of two that scales it back. A normal double keeps
/// its significand; a subnormal one has its stored fraction doubled up to a
/// full significand, the exponent going down by as much. Zero splits into
/// zero and exponent zero.
pub open spec fn split_spec(b: u64) -> (u64, int) {
    if b == 0 {
        (0, 0)
    } else if biased_exp(b) == 0 {
        let n = norm_shift(fraction_field(b));
        ((compose(fraction_field(b) * pow2(n), 1022)) as u64, -1021 - n)
    } else {
        ((compose(significand(b), 1022)) as u64, biased_exp(b) - 1022)
    }
}

proof fn lemma_bits_decompose(y: u64)
    requires
        y < SIGN_BIT,
    ensures
        ((y >> 52u64) & 0x7ffu64) as int == biased_exp(y),
        ((y & 0x800f_ffff_ffff_ffffu64) | 0x3fe0_0000_0000_0000u64) as int == compose(
            significand(y),
            1022,
        ),
{
    assert((y >> 52u64) & 0x7ffu64 == y / 0x0010_0000_0000_0000u64) by (bit_vector)
        requires
            y < 0x8000_0000_0000_0000u64,
    ;
    assert((y & 0x800f_ffff_ffff_ffffu64) | 0x3fe0_0000_0000_0000u64 == 0x3fe0_0000_0000_0000u64
        + y % 0x0010_0000_0000_0000u64) by (bit_vector)
        requires
            y < 0x8000_0000_0000_0000u64,
    ;
}

/// The fraction of a split lies in [0.5, 1), and the exponent of a positive
/// double lies in [-1073, 1025].
pub proof fn lemma_split_range(b: u64)
    requires
        0 < b < SIGN_BIT,
    ensures
        biased_exp(split_spec(b).0) == 1022,
        split_spec(b).0 < SIGN_BIT,
        -1073 <= split_spec(b).1 <= 1025,
{
    if biased_exp(b) == 0 {
        lemma_norm_shift(fraction_field(b));
        lemma_compose(fraction_field(b) * pow2(norm_shift(fraction_field(b))), 1022);
    } else {
        lemma_compose(significand(b), 1022);
    }
}

/// Splits a non-negative finite double into a fraction in [0.5, 1) and an
/// exponent, with `x == fraction * 2^exponent`: a normal `x` keeps its
/// significand, a subnormal one is normalised. Zero gives zero and exponent
/// zero.
pub fn frexp(x: u64) -> (r: (u64, i32))
    requires
        x < SIGN_BIT,
    ensures
        r.0 == split_spec(x).0,
        r.1 as int == split_spec(x).1,
        x == 0 ==> r == (0u64, 0i32),
        x > 0 ==> biased_exp(r.0) == 1022,
        x >= EXP_UNIT ==> significand(r.0) == significand(x) && r.1 as int == biased_exp(x) - 1022,
        0 < x < EXP_UNIT ==> 1 <= norm_shift(fraction_field(x)) <= 52 && significand(r.0)
            == fraction_field(x) * pow2(norm_shift(fraction_field(x))) && r.1 as int == -1021
            - norm_shift(fraction_field(x)),
{
    proof {
        lemma_bits_decompose(x);
        lemma_compose(significand(x), 1022);
    }
    let ee = ((x >> 52u64) & 0x7ffu64) as i32;
    if ee == 0 {
        if x == 0 {
            return (0, 0);
        }
        let mut m: u64 = x;
        let mut n: i32 = 0;
        proof {
            lemma_norm_shift(x as int);
            lemma2_to64();
            assert(x < EXP_UNIT);
            assert(x * pow2(0nat) == x);
        }
        while m < EXP_UNIT
            invariant
                0 < x < EXP_UNIT,
                0 < m < 0x20_0000_0000_0000,
                m == x * pow2(n as nat),
                0 <= n,
                norm_shift(x as int) == n + norm_shift(m as int),
                norm_shift(x as int) <= 52,
            decreases norm_shift(m as int),
        {
            proof {
                lemma_pow2_unfold((n + 1) as nat);
                assert(x * pow2((n + 1) as nat) == 2 * (x * pow2(n as nat))) by (nonlinear_arith)
                    requires
                        pow2((n + 1) as nat) == 2 * pow2(n as nat),
                ;
            }
            m = m * 2;
            n = n + 1;
        }
        proof {
            lemma_compose(m as int, 1022);
        }
        return (HALF + (m - EXP_UNIT), -1021 - n);
    }
    let e = ee - 0x3fe;
    let y = (x & 0x800f_ffff_ffff_ffffu64) | 0x3fe0_0000_0000_0000u64;
    (y, e)
}

/// The next double below a positive one: its bit pattern minus one.
pub fn prev_float(x: u64) -> (r: u64)
    ensures
        r == if x == 0 { 0 } else { (x - 1) as u64 },
{
    x.saturating_sub(1)
}

/// Rounds `q + r / (2 * half)` to an integer, ties to even, where `r < 2 * half`.
pub open spec fn round_half_even(q: int, r: int, half: int) -> int {
    if r > half || (r == half && q % 2 == 1) {
        q + 1
    } else {
        q
    }
}

/// Significand and biased exponent of the product of two positive normal
/// doubles, rounded to nearest with ties to even as IEEE-754 prescribes.
pub open spec fn product_parts(a: u64, b: u64) -> (int, int) {
    let p = significand(a) * significand(b);
    let e = biased_exp(a) + biased_exp(b) - 1075;
    let (q, e1) = if p >= 0x200_0000_0000_0000_0000_0000_0000 {
        (
            round_half_even(p / 0x20_0000_0000_0000, p % 0x20_0000_0000_0000, 0x10_0000_0000_0000),
            e + 53,
        )
    } else {
        (
            round_half_even(p / 0x10_0000_0000_0000, p % 0x10_0000_0000_0000, 0x8_0000_0000_0000),
            e + 52,
        )
    };
    if q == 0x20_0000_0000_0000 {
        (0x10_0000_0000_0000, e1 + 1)
    } else {
        (q, e1)
    }
}

/// Both factors are positive normal doubles and so is their rounded product.
pub open spec fn mul_in_range(a: u64, b: u64) -> bool {
    is_pos_normal(a) && is_pos_normal(b) && 1 <= product_parts(a, b).1 <= 2046
}

/// The bits of the rounded product.
pub open spec fn mul_spec(a: u64, b: u64) -> u64 {
    compose(product_parts(a, b).0, product_parts(a, b).1) as u64
}

proof fn lemma_compose(sig: int, exp: int)
    requires
        0x10_0000_0000_0000 <= sig < 0x20_0000_0000_0000,
        1 <= exp <= 2046,
    ensures
        0 <= compose(sig, exp) < INFINITY,
        biased_exp(compose(sig, exp) as u64) == exp,
        significand(compose(sig, exp) as u64) == sig,
{
    assert(0 <= compose(sig, exp) < INFINITY) by (nonlinear_arith)
        requires
            0x10_0000_0000_0000 <= sig < 0x20_0000_0000_0000,
            1 <= exp <= 2046,
            compose(sig, exp) == exp * 0x10_0000_0000_0000 + (sig - 0x10_0000_0000_0000),
    ;
    let c = compose(sig, exp);
    assert(c / 0x10_0000_0000_0000 == exp && c % 0x10_0000_0000_0000 == sig
        - 0x10_0000_0000_0000) by (nonlinear_arith)
        requires
            0x10_0000_0000_0000 <= sig < 0x20_0000_0000_0000,
            c == exp * 0x10_0000_0000_0000 + (sig - 0x10_0000_0000_0000),
    ;
}

pub proof fn lemma_product_parts(a: u64, b: u64)
    requires
        is_pos_normal(a),
        is_pos_normal(b),
    ensures
        0x10_0000_0000_0000 <= product_parts(a, b).0 < 0x20_0000_0000_0000,
        biased_exp(a) + biased_exp(b) - 1023 <= product_parts(a, b).1 <= biased_exp(a)
            + biased_exp(b) - 1021,
{
    let sa = significand(a);
    let sb = significand(b);
    let p = sa * sb;
    assert(0x100_0000_0000_0000_0000_0000_0000 <= p < 0x400_0000_0000_0000_0000_0000_0000)
        by (nonlinear_arith)
        requires
            0x10_0000_0000_0000 <= sa < 0x20_0000_0000_0000,
            0x10_0000_0000_0000 <= sb < 0x20_0000_0000_0000,
            p == sa * sb,
    ;
    if p >= 0x200_0000_0000_0000_0000_0000_0000 {
        assert(0x10_0000_0000_0000 <= p / 0x20_0000_0000_0000 < 0x20_0000_0000_0000);
    } else {
        assert(0x10_0000_0000_0000 <= p / 0x10_0000_0000_0000 < 0x20_0000_0000_0000);
    }
}

/// A positive normal result of a product of positive normal doubles.
pub proof fn lemma_mul_normal(a: u64, b: u64)
    requires
        mul_in_range(a, b),
    ensures
        is_pos_normal(mul_spec(a, b)),
        is_pos_finite(mul_spec(a, b)),
        biased_exp(mul_spec(a, b)) == product_parts(a, b).1,
        biased_exp(a) + biased_exp(b) - 1023 <= biased_exp(mul_spec(a, b)) <= biased_exp(a)
            + biased_exp(b) - 1021,
{
    lemma_product_parts(a, b);
    lemma_compose(product_parts(a, b).0, product_parts(a, b).1);
}

/// The rounded significand and biased exponent of the product of two
/// positive normal doubles, before any check of the exponent's range.
fn round_product(a: u64, b: u64) -> (r: (u64, i64))
    requires
        is_pos_normal(a),
        is_pos_normal(b),
    ensures
        r.0 as int == product_parts(a, b).0,
        r.1 as int == product_parts(a, b).1,
{
    proof {
        lemma_product_parts(a, b);
    }
    let sa: u128 = (a % EXP_UNIT + EXP_UNIT) as u128;
    let sb: u128 = (b % EXP_UNIT + EXP_UNIT) as u128;
    assert(sa * sb < 0x400_0000_0000_0000_0000_0000_0000) by (nonlinear_arith)
        requires
            sa < 0x20_0000_0000_0000,
            sb < 0x20_0000_0000_0000,
    ;
    let p: u128 = sa * sb;
    let e: i64 = (a / EXP_UNIT) as i64 + (b / EXP_UNIT) as i64 - 1075;
    let (q, e1): (u128, i64) = if p >= 0x200_0000_0000_0000_0000_0000_0000u128 {
        let q0 = p / 0x20_0000_0000_0000u128;
        let rem = p % 0x20_0000_0000_0000u128;
        let up = rem > 0x10_0000_0000_0000u128 || (rem == 0x10_0000_0000_0000u128 && q0 % 2
            == 1);
        (if up {
            q0 + 1
        } else {
            q0
        }, e + 53)
    } else {
        let q0 = p / 0x10_0000_0000_0000u128;
        let rem = p % 0x10_0000_0000_0000u128;
        let up = rem > 0x8_0000_0000_0000u128 || (rem == 0x8_0000_0000_0000u128 && q0 % 2 == 1);
        (if up {
            q0 + 1
        } else {
            q0
        }, e + 52)
    };
    let (q, e1): (u128, i64) = if q == 0x20_0000_0000_0000u128 {
        (0x10_0000_0000_0000u128, e1 + 1)
    } else {
        (q, e1)
    };
    (q as u64, e1)
}


/// Multiplies two positive doubles, rounding to nearest with ties to even.
pub fn fmul(a: u64, b: u64) -> (r: u64)
    requires
        mul_in_range(a, b),
    ensures
        r == mul_spec(a, b),
{
    proof {
        lemma_product_parts(a, b);
        lemma_compose(product_parts(a, b).0, product_parts(a, b).1);
    }
    let (q, e) = round_product(a, b);
    (e as u64) * EXP_UNIT + (q - EXP_UNIT)
}

/// The exponent of the square of a positive normal double before rounding
/// can carry into it: below one, the square is subnormal or zero.
pub open spec fn square_exponent(x: u64) -> int {
    let p = significand(x) * significand(x);
    2 * biased_exp(x) - 1075 + if p >= 0x200_0000_0000_0000_0000_0000_0000 {
        53int
    } else {
        52int
    }
}

/// The bits of the square of a non-negative double, rounded to nearest with
/// ties to even as IEEE-754 prescribes: infinity stays infinite, a square too
/// large for a finite double is infinite, and one below the normal range is
/// rounded to a multiple of the smallest subnormal, 2^-1074, which is zero
/// for every subnormal input.
pub open spec fn square_spec(x: u64) -> u64 {
    if x >= INFINITY {
        INFINITY
    } else if biased_exp(x) == 0 {
        0
    } else if square_exponent(x) >= 1 {
        if product_parts(x, x).1 > 2046 {
            INFINITY
        } else {
            mul_spec(x, x)
        }
    } else {
        let p = significand(x) * significand(x);
        let d = pow2((1076 - 2 * biased_exp(x)) as nat) as int;
        round_half_even(p / d, p % d, d / 2) as u64
    }
}

/// Where the square of a positive normal double keeps a normal exponent, it
/// is the rounded product.
pub proof fn lemma_square_normal(x: u64)
    requires
        mul_in_range(x, x),
        square_exponent(x) >= 1,
    ensures
        square_spec(x) == mul_spec(x, x),
{
}

/// Squares a non-negative double, rounding to nearest with ties to even.
pub fn fsquare(x: u64) -> (r: u64)
    requires
        x <= INFINITY,
    ensures
        r == square_spec(x),
        r <= INFINITY,
{
    if x == INFINITY {
        return INFINITY;
    }
    let b: u64 = x / EXP_UNIT;
    if b == 0 {
        return 0;
    }
    let sx: u128 = (x % EXP_UNIT + EXP_UNIT) as u128;
    assert(sx * sx < 0x400_0000_0000_0000_0000_0000_0000 && sx * sx >= 0x100_0000_0000_0000_0000_0000_0000) by (nonlinear_arith)
        requires
            0x10_0000_0000_0000 <= sx < 0x20_0000_0000_0000,
    ;
    let p: u128 = sx * sx;
    let shift: i64 = if p >= 0x200_0000_0000_0000_0000_0000_0000u128 {
        53
    } else {
        52
    };
    if 2 * (b as i64) - 1075 + shift >= 1 {
        let (q, e) = round_product(x, x);
        proof {
            lemma_product_parts(x, x);
        }
        if e > 2046 {
            return INFINITY;
        }
        proof {
            lemma_compose(product_parts(x, x).0, product_parts(x, x).1);
        }
        return (e as u64) * EXP_UNIT + (q - EXP_UNIT);
    }
    let t: u64 = 1076 - 2 * b;
    proof {
        lemma2_to64();
        lemma_pow2_53();
    }
    if t >= 107 {
        proof {
            lemma_pow2_adds(32, 32);
            lemma_pow2_adds(64, 32);
            lemma_pow2_adds(96, 10);
            lemma_pow2_strictly_increases(106, (t - 1) as nat);
            lemma_pow2_unfold(t as nat);
            let d = pow2(t as nat) as int;
            assert(p < d / 2);
            vstd::arithmetic::div_mod::lemma_basic_div(p as int, d);
            vstd::arithmetic::div_mod::lemma_small_mod(p as nat, d as nat);
        }
        return 0;
    }
    proof {
        vstd::bits::lemma_u64_pow2_no_overflow((t - 54) as nat);
        vstd::bits::lemma_u64_shl_is_mul(1, (t - 54) as u64);
        lemma_pow2_adds(22, 32);
        lemma_pow2_adds((t - 54) as nat, 54);
        lemma_pow2_strictly_increases((t - 54) as nat, 64);
        lemma_pow2_pos(t as nat);
    }
    let d: u128 = ((1u64 << (t - 54)) as u128) * 0x40_0000_0000_0000u128;
    let q0: u128 = p / d;
    let rem: u128 = p % d;
    let half: u128 = d / 2;
    proof {
        assert(q0 <= p);
        assert(q0 as int * 0x40_0000_0000_0000 <= p) by (nonlinear_arith)
            requires
                q0 == p / d,
                d >= 0x40_0000_0000_0000,
        ;
    }
    let q: u128 = if rem > half || (rem == half && q0 % 2 == 1) {
        q0 + 1
    } else {
        q0
    };
    q as u64
}

/// Rounding to a multiple of `d` is monotone.
proof fn lemma_round_monotone(p1: int, p2: int, d: int)
    requires
        0 <= p1 <= p2,
        2 <= d,
        d % 2 == 0,
    ensures
        round_half_even(p1 / d, p1 % d, d / 2) <= round_half_even(p2 / d, p2 % d, d / 2),
{
    vstd::arithmetic::div_mod::lemma_div_is_ordered(p1, p2, d);
    vstd::arithmetic::div_mod::lemma_fundamental_div_mod(p1, d);
    vstd::arithmetic::div_mod::lemma_fundamental_div_mod(p2, d);
    if p1 / d == p2 / d {
        assert(p1 % d <= p2 % d);
    }
}

/// Bits of positive normal doubles are ordered by exponent, then significand.
proof fn lemma_compose_order(s1: int, e1: int, s2: int, e2: int)
    requires
        0x10_0000_0000_0000 <= s1 < 0x20_0000_0000_0000,
        0x10_0000_0000_0000 <= s2 < 0x20_0000_0000_0000,
        e1 < e2 || (e1 == e2 && s1 <= s2),
    ensures
        compose(s1, e1) <= compose(s2, e2),
{
    if e1 < e2 {
        assert(e1 * 0x10_0000_0000_0000 + 0x10_0000_0000_0000 <= e2 * 0x10_0000_0000_0000)
            by (nonlinear_arith)
            requires
                e1 < e2,
        ;
    }
}

/// Rounded squaring is monotone on positive normal doubles.
pub proof fn lemma_square_monotone(x: u64, y: u64)
    requires
        mul_in_range(x, x),
        mul_in_range(y, y),
        x <= y,
    ensures
        mul_spec(x, x) <= mul_spec(y, y),
{
    lemma_product_parts(x, x);
    lemma_product_parts(y, y);
    let sx = significand(x);
    let sy = significand(y);
    let ex = biased_exp(x);
    let ey = biased_exp(y);
    let px = sx * sx;
    let py = sy * sy;
    assert(x == ex * 0x10_0000_0000_0000 + fraction_field(x));
    assert(y == ey * 0x10_0000_0000_0000 + fraction_field(y));
    assert(ex <= ey) by {
        vstd::arithmetic::div_mod::lemma_div_is_ordered(x as int, y as int, 0x10_0000_0000_0000);
    }
    if ex == ey {
        assert(sx <= sy);
        assert(px <= py && py < 0x400_0000_0000_0000_0000_0000_0000) by (nonlinear_arith)
            requires
                0 <= sx <= sy < 0x20_0000_0000_0000,
                px == sx * sx,
                py == sy * sy,
        ;
        lemma_round_monotone(px, py, 0x20_0000_0000_0000);
        lemma_round_monotone(px, py, 0x10_0000_0000_0000);
        assert(px / 0x20_0000_0000_0000 < 0x20_0000_0000_0000);
        assert(py / 0x20_0000_0000_0000 < 0x20_0000_0000_0000);
    }
    lemma_compose_order(
        product_parts(x, x).0,
        product_parts(x, x).1,
        product_parts(y, y).0,
        product_parts(y, y).1,
    );
}
} // verus!
