//! Ways of raising a fraction to the power 2^schema, all with the same result.
use vstd::prelude::*;
use vstd::arithmetic::power2::{pow2, lemma2_to64, lemma_pow2_unfold};
use vstd::bits::lemma_u32_shl_is_mul;
use crate::float::{
    biased_exp, fmul, fsquare, is_pos_normal, lemma_mul_normal, lemma_product_parts, mul_in_range,
    mul_spec, square_spec, INFINITY, ONE,
};

verus! {

/// A positive double in [0.5, 1): its biased exponent is that of 0.5.
pub open spec fn is_fraction(f: u64) -> bool {
    biased_exp(f) == 1022
}

/// `f` squared `k` times over, each square rounded: `f^(2^k)`.
pub open spec fn square_n(f: u64, k: nat) -> u64
    decreases k,
{
    if k == 0 {
        f
    } else {
        square_spec(square_n(f, (k - 1) as nat))
    }
}

/// Each squaring squares the previous power.
pub proof fn lemma_square_n_unfold(f: u64)
    ensures
        square_n(f, 0) == f,
        forall|k: nat| k > 0 ==> #[trigger] square_n(f, k) == square_spec(square_n(f, (k - 1) as nat)),
{
}

/// Up to eight squarings of a fraction stay normal, with an exponent that at
/// most doubles its distance from that of one each time.
pub proof fn lemma_square_n_range(f: u64, k: nat)
    requires
        is_fraction(f),
        k <= 8,
    ensures
        is_pos_normal(square_n(f, k)),
        1023 - pow2(k) <= biased_exp(square_n(f, k)) <= 1021 + 2 * pow2(k),
    decreases k,
{
    lemma2_to64();
    if k > 0 {
        let g = square_n(f, (k - 1) as nat);
        lemma_square_n_range(f, (k - 1) as nat);
        lemma_pow2_unfold(k);
        lemma_product_parts(g, g);
        lemma2_to64();
        assert(pow2(k) < 512) by {
            vstd::arithmetic::power2::lemma_pow2_strictly_increases(k, 9);
        }
        lemma_mul_normal(g, g);
        crate::float::lemma_square_normal(g);
    }
}

/// Each of the first eight squarings of a fraction is a product in range.
pub proof fn lemma_square_step(f: u64, k: nat)
    requires
        is_fraction(f),
        k < 8,
    ensures
        mul_in_range(square_n(f, k), square_n(f, k)),
        is_pos_normal(square_n(f, k)),
        square_n(f, k + 1) == mul_spec(square_n(f, k), square_n(f, k)),
{
    lemma_square_n_range(f, k);
    lemma_square_n_range(f, k + 1);
    let g = square_n(f, k);
    lemma_product_parts(g, g);
    lemma2_to64();
    assert(pow2(k) < 256) by {
        vstd::arithmetic::power2::lemma_pow2_strictly_increases(k, 8);
    }
    crate::float::lemma_square_normal(g);
}

/// Up to eight squarings keep the order of two fractions.
pub proof fn lemma_square_n_monotone(f: u64, g: u64, k: nat)
    requires
        is_fraction(f),
        is_fraction(g),
        f <= g,
        k <= 8,
    ensures
        square_n(f, k) <= square_n(g, k),
    decreases k,
{
    if k > 0 {
        lemma_square_n_monotone(f, g, (k - 1) as nat);
        lemma_square_step(f, (k - 1) as nat);
        lemma_square_step(g, (k - 1) as nat);
        crate::float::lemma_square_monotone(
            square_n(f, (k - 1) as nat),
            square_n(g, (k - 1) as nat),
        );
    }
}

/// Raises a non-negative double to the power 2^schema by repeated rounded
/// squaring.
pub trait Strategy {
    fn powi(f: u64, schema: isize) -> (r: u64)
        requires
            f <= INFINITY,
            0 <= schema <= 8,
        ensures
            r == square_n(f, schema as nat),
    ;
}

/// Multiplies the running product of a power by a factor: one times any
/// double is that double, else the rounded product.
fn times(r: u64, a: u64) -> (res: u64)
    requires
        r == ONE || mul_in_range(r, a),
    ensures
        r == ONE ==> res == a,
        r != ONE ==> res == mul_spec(r, a),
{
    if r == ONE {
        a
    } else {
        fmul(r, a)
    }
}

/// Raises a non-negative double to the power `n == 2^s` by binary
/// exponentiation: the running product starts at one and takes each squared
/// factor whose bit is set in `n`.
fn powi_int(f: u64, n: u32, Ghost(s): Ghost<nat>) -> (r: u64)
    requires
        f <= INFINITY,
        s <= 8,
        n == pow2(s),
    ensures
        r == square_n(f, s),
{
    let mut r: u64 = ONE;
    let mut a: u64 = f;
    let mut n: u32 = n;
    let ghost mut i: nat = 0;
    proof {
        vstd::arithmetic::power2::lemma_pow2_pos(s);
    }
    while n > 0
        invariant
            s <= 8,
            i <= s,
            a <= INFINITY,
            n > 0 ==> (n == pow2((s - i) as nat) && a == square_n(f, i) && r == ONE),
            n == 0 ==> r == square_n(f, s),
        decreases n,
    {
        proof {
            if i < s {
                lemma_pow2_unfold((s - i) as nat);
            } else {
                lemma2_to64();
            }
        }
        if n % 2 == 1 {
            r = times(r, a);
        }
        n = n / 2;
        if n > 0 {
            proof {
                assert((s - (i + 1)) as nat + 1 == (s - i) as nat);
            }
            a = fsquare(a);
            proof {
                i = i + 1;
            }
        }
    }
    r
}

/// Computes the power with a general integer-power routine.
pub struct Naive;

impl Strategy for Naive {
    fn powi(f: u64, schema: isize) -> (r: u64) {
        proof {
            lemma2_to64();
            lemma_u32_shl_is_mul(1, schema as u32);
        }
        powi_int(f, 1u32 << (schema as u32), Ghost(schema as nat))
    }
}

/// Computes the power with the general routine, its exponent fixed in each arm.
pub struct Match;

impl Strategy for Match {
    fn powi(f: u64, schema: isize) -> (r: u64) {
        proof {
            lemma2_to64();
        }
        match schema {
            0 => powi_int(f, 1, Ghost(0)),
            1 => powi_int(f, 2, Ghost(1)),
            2 => powi_int(f, 4, Ghost(2)),
            3 => powi_int(f, 8, Ghost(3)),
            4 => powi_int(f, 16, Ghost(4)),
            5 => powi_int(f, 32, Ghost(5)),
            6 => powi_int(f, 64, Ghost(6)),
            7 => powi_int(f, 128, Ghost(7)),
            _ => powi_int(f, 256, Ghost(8)),
        }
    }
}

/// Squares `schema` times in a loop.
pub struct Loop;

impl Strategy for Loop {
    fn powi(f: u64, schema: isize) -> (r: u64) {
        let mut g: u64 = f;
        let mut i: isize = 0;
        while i < schema
            invariant
                0 <= i <= schema <= 8,
                g == square_n(f, i as nat),
                g <= INFINITY,
            decreases schema - i,
        {
            g = fsquare(g);
            i = i + 1;
        }
        g
    }
}

/// Squares in a loop, after checking that the schema is at most eight.
pub struct BoundedLoop;

impl Strategy for BoundedLoop {
    fn powi(f: u64, schema: isize) -> (r: u64) {
        assert(schema <= 8);
        let mut g: u64 = f;
        let mut i: isize = 0;
        while i < schema
            invariant
                0 <= i <= schema <= 8,
                g == square_n(f, i as nat),
                g <= INFINITY,
            decreases schema - i,
        {
            g = fsquare(g);
            i = i + 1;
        }
        g
    }
}

/// Squares with the loop written out, returning once `schema` squarings are done.
pub struct UnrolledLoop;

impl Strategy for UnrolledLoop {
    fn powi(f: u64, schema: isize) -> (r: u64) {
        proof {
            lemma_square_n_unfold(f);
        }
        let mut g: u64 = f;
        if schema == 0 {
            return g;
        }
        g = fsquare(g);
        if schema == 1 {
            return g;
        }
        g = fsquare(g);
        if schema == 2 {
            return g;
        }
        g = fsquare(g);
        if schema == 3 {
            return g;
        }
        g = fsquare(g);
        if schema == 4 {
            return g;
        }
        g = fsquare(g);
        if schema == 5 {
            return g;
        }
        g = fsquare(g);
        if schema == 6 {
            return g;
        }
        g = fsquare(g);
        if schema == 7 {
            return g;
        }
        fsquare(g)
    }
}

/// Squares inside eight nested loops, each run at most once: the schema
/// picks the loop to leave first, and every loop left adds one squaring.
pub struct NestedLoops;

impl Strategy for NestedLoops {
    fn powi(f: u64, schema: isize) -> (r: u64) {
        proof {
            lemma_square_n_unfold(f);
        }
        let mut g: u64 = f;
        'l0: loop
            invariant_except_break
                g == f,
                f <= INFINITY,
                0 <= schema <= 8,
            ensures
                0 <= schema,
                g == square_n(f, (schema - 0) as nat),
                g <= INFINITY,
            decreases 0int,
        {
            'l1: loop
                invariant_except_break
                    g == f,
                    f <= INFINITY,
                    0 <= schema <= 8,
                ensures
                    1 <= schema,
                    g == square_n(f, (schema - 1) as nat),
                    g <= INFINITY,
                decreases 0int,
            {
                'l2: loop
                    invariant_except_break
                        g == f,
                        f <= INFINITY,
                            0 <= schema <= 8,
                    ensures
                        2 <= schema,
                        g == square_n(f, (schema - 2) as nat),
                        g <= INFINITY,
                    decreases 0int,
                {
                    'l3: loop
                        invariant_except_break
                            g == f,
                            f <= INFINITY,
                                    0 <= schema <= 8,
                        ensures
                            3 <= schema,
                            g == square_n(f, (schema - 3) as nat),
                            g <= INFINITY,
                        decreases 0int,
                    {
                        'l4: loop
                            invariant_except_break
                                g == f,
                                f <= INFINITY,
                                            0 <= schema <= 8,
                            ensures
                                4 <= schema,
                                g == square_n(f, (schema - 4) as nat),
                                g <= INFINITY,
                            decreases 0int,
                        {
                            'l5: loop
                                invariant_except_break
                                    g == f,
                                    f <= INFINITY,
                                                    0 <= schema <= 8,
                                ensures
                                    5 <= schema,
                                    g == square_n(f, (schema - 5) as nat),
                                    g <= INFINITY,
                                decreases 0int,
                            {
                                'l6: loop
                                    invariant_except_break
                                        g == f,
                                        f <= INFINITY,
                                                            0 <= schema <= 8,
                                    ensures
                                        6 <= schema,
                                        g == square_n(f, (schema - 6) as nat),
                                        g <= INFINITY,
                                    decreases 0int,
                                {
                                    'l7: loop
                                        invariant_except_break
                                            g == f,
                                            f <= INFINITY,
                                                                    0 <= schema <= 8,
                                        ensures
                                            7 <= schema,
                                            g == square_n(f, (schema - 7) as nat),
                                            g <= INFINITY,
                                        decreases 0int,
                                    {
                                        match schema {
                                            0 => break 'l0,
                                            1 => break 'l1,
                                            2 => break 'l2,
                                            3 => break 'l3,
                                            4 => break 'l4,
                                            5 => break 'l5,
                                            6 => break 'l6,
                                            7 => break 'l7,
                                            _ => {},
                                        }
                                        proof {
                                            lemma_square_n_unfold(f);
                                        }
                                        g = fsquare(g);
                                        break;
                                    }
                                    g = fsquare(g);
                                    break;
                                }
                                g = fsquare(g);
                                break;
                            }
                            g = fsquare(g);
                            break;
                        }
                        g = fsquare(g);
                        break;
                    }
                    g = fsquare(g);
                    break;
                }
                g = fsquare(g);
                break;
            }
            g = fsquare(g);
            break;
        }
        g
    }
}

/// Every strategy raises a non-negative double to the same power, bit for bit.
pub proof fn lemma_powi_strategies_agree<A: Strategy, B: Strategy>(
    f: u64,
    schema: isize,
    ra: u64,
    rb: u64,
)
    requires
        f <= INFINITY,
        0 <= schema <= 8,
        call_ensures(A::powi, (f, schema), ra),
        call_ensures(B::powi, (f, schema), rb),
    ensures
        ra == rb,
{
}

} // verus!
