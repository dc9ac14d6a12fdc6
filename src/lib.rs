//! Bucket indices of exponential ("native") histograms: which bucket, and on
//! which side of zero, a double falls into at a given resolution. Doubles are
//! held as their IEEE-754 bit patterns.
use vstd::prelude::*;
use vstd::arithmetic::power2::{pow2, lemma2_to64};
use vstd::bits::lemma_u32_shl_is_mul;

pub mod bounds;
pub mod float;
pub mod laws;
pub mod powi;
pub mod schema;
pub mod search;

pub use float::ZERO_THRESHOLD;

use bounds::bounds_table;
use float::{abs_bits, is_negative, split_spec, HALF, INFINITY, MAX_FINITE, SIGN_BIT};
use powi::square_n;
use search::is_lower_bound;
use schema::Schema;

verus! {

/// `f64::MAX_EXP`: the exponent just past that of the largest finite double.
pub const MAX_EXP: i32 = 1024;

/// Not a NaN: its magnitude is finite or infinite.
pub open spec fn is_number(v: u64) -> bool {
    abs_bits(v) <= INFINITY
}

/// The index of the merged-octave bucket (2^(2^k (i-1)), 2^(2^k i)] holding a
/// value whose exponent is `exp`, for a schema of `-k`.
pub open spec fn merged_index(exp: int, k: nat) -> int {
    (exp + pow2(k) - 1) / (pow2(k) as int)
}

/// The index one past the last finite bucket of a schema, given to infinities.
pub open spec fn overflow_index(schema: int) -> int {
    if schema < 0 {
        1024int / (pow2((-schema) as nat) as int) + 1
    } else {
        1024int * (pow2(schema as nat) as int) + 1
    }
}

/// The bucket index of a positive finite double (bits `a`, not zero) found by
/// decomposing its predecessor, so that a value on a boundary belongs to the
/// bucket below it.
pub open spec fn power_index(schema: int, a: u64) -> int {
    let (frac, exp) = split_spec((a - 1) as u64);
    if schema > 0 {
        split_spec(square_n(frac, schema as nat)).1 + exp * pow2(schema as nat)
    } else {
        merged_index(exp, (-schema) as nat)
    }
}

/// The bucket of `v`: none when its magnitude is at most the zero threshold,
/// else its index and whether it is positive.
pub open spec fn find_bucket_spec(schema: int, zero_threshold: u64, v: u64) -> Option<(int, bool)> {
    let a = abs_bits(v);
    if a <= zero_threshold {
        None
    } else if a == INFINITY {
        Some((overflow_index(schema), !is_negative(v)))
    } else {
        Some((power_index(schema, a), !is_negative(v)))
    }
}

/// A bucket result as mathematical integers.
pub open spec fn bucket_view(r: Option<(i32, bool)>) -> Option<(int, bool)> {
    match r {
        Some((i, p)) => Some((i as int, p)),
        None => None,
    }
}

/// The index of the merged-octave bucket for exponent `exp` at schema `-k`.
fn merged_bucket(exp: i32, k: u32) -> (r: i32)
    requires
        -1100 <= exp <= 1100,
        k <= 4,
    ensures
        r as int == merged_index(exp as int, k as nat),
{
    proof {
        lemma2_to64();
        lemma_u32_shl_is_mul(1, k);
    }
    let d: u32 = 1u32 << k;
    assert(d == 1 || d == 2 || d == 4 || d == 8 || d == 16);
    let shifted: u32 = (exp + 2048 + (d as i32) - 1) as u32;
    let q: i32 = (shifted / d) as i32 - (2048 / d) as i32;
    assert(q as int == merged_index(exp as int, k as nat)) by (nonlinear_arith)
        requires
            d as int == pow2(k as nat),
            d == 1 || d == 2 || d == 4 || d == 8 || d == 16,
            shifted as int == exp + 2048 + d - 1,
            q as int == shifted as int / (d as int) - 2048int / (d as int),
            merged_index(exp as int, k as nat) == (exp + pow2(k as nat) - 1) / (pow2(k as nat) as int),
    ;
    q
}

/// The bucket of `value` by exponent decomposition, raising the fraction of
/// its predecessor to the power 2^schema with the strategy `P`.
pub fn find_bucket<P: powi::Strategy, S: Schema>(schema: S, zero_threshold: u64, value: u64) -> (r:
    Option<(i32, bool)>)
    requires
        schema::MIN_SCHEMA <= schema.spec_get() <= schema::MAX_SCHEMA,
        0 < zero_threshold < INFINITY,
        is_number(value),
    ensures
        bucket_view(r) == find_bucket_spec(schema.spec_get(), zero_threshold, value),
{
    let abs = if value >= SIGN_BIT {
        value - SIGN_BIT
    } else {
        value
    };
    if abs <= zero_threshold {
        return None;
    }
    let schema = schema.get();
    let positive = value < SIGN_BIT;
    proof {
        lemma2_to64();
    }
    if abs == INFINITY {
        let max_key: i32 = if schema < 0 {
            proof {
                lemma_u32_shl_is_mul(1, (-schema) as u32);
            }
            MAX_EXP / ((1u32 << ((-schema) as u32)) as i32)
        } else {
            proof {
                lemma_u32_shl_is_mul(1, schema as u32);
            }
            MAX_EXP * ((1u32 << (schema as u32)) as i32)
        };
        return Some((max_key + 1, positive));
    }
    let (frac, exp) = float::frexp(float::prev_float(abs));
    proof {
        float::lemma_split_range((abs - 1) as u64);
    }
    if schema > 0 {
        let p = P::powi(frac, schema);
        proof {
            powi::lemma_square_n_range(frac, schema as nat);
            float::lemma_split_range(p);
            lemma_u32_shl_is_mul(1, schema as u32);
        }
        let (_, sub) = float::frexp(p);
        let m: i32 = (1u32 << (schema as u32)) as i32;
        assert(-1073 * 256 <= exp * m <= 1025 * 256) by (nonlinear_arith)
            requires
                -1073 <= exp <= 1025,
                1 <= m <= 256,
        ;
        Some((sub + exp * m, positive))
    } else {
        Some((merged_bucket(exp, (-schema) as u32), positive))
    }
}

/// The position of `x` among the ascending entries of `s`.
pub open spec fn lower_bound(s: Seq<u64>, x: u64) -> int {
    choose|p: int| is_lower_bound(s, x, p)
}

/// The bucket index of a positive finite double (bits `a`) found by locating
/// its fraction among the boundaries of its octave; at schemas up to zero an
/// exact power of two is moved down one octave, into the bucket it closes.
pub open spec fn search_index(schema: int, a: u64) -> int {
    let (frac, exp) = split_spec(a);
    if schema > 0 {
        lower_bound(bounds_table(schema), frac) + (exp - 1) * pow2(schema as nat)
    } else {
        merged_index(
            if frac == HALF {
                exp - 1
            } else {
                exp
            },
            (-schema) as nat,
        )
    }
}

/// The bucket of `v` by boundary search: an infinity is taken as the largest
/// finite double of its sign and given the next index; a magnitude at most the
/// zero threshold has no bucket.
pub open spec fn go_find_bucket_spec(schema: int, zero_threshold: u64, v: u64) -> Option<(int, bool)> {
    let a = abs_bits(v);
    let (c, bump) = if a == INFINITY {
        (MAX_FINITE, 1int)
    } else {
        (a, 0int)
    };
    if c <= zero_threshold {
        None
    } else {
        Some((search_index(schema, c) + bump, !is_negative(v)))
    }
}

/// The bucket of `value` by searching the boundary table of the schema with
/// the strategy `Q`.
pub fn go_find_bucket<Q: search::Strategy, S: Schema>(schema: S, zero_threshold: u64, value: u64) -> (r:
    Option<(i32, bool)>)
    requires
        schema::MIN_SCHEMA <= schema.spec_get() <= schema::MAX_SCHEMA,
        zero_threshold < INFINITY,
        is_number(value),
    ensures
        bucket_view(r) == go_find_bucket_spec(schema.spec_get(), zero_threshold, value),
{
    let schema = schema.get();
    let positive = value < SIGN_BIT;
    let mut abs = if positive {
        value
    } else {
        value - SIGN_BIT
    };
    let mut is_inf = false;
    if abs == INFINITY {
        abs = MAX_FINITE;
        is_inf = true;
    }
    let (frac, exp) = float::frexp(abs);
    proof {
        if abs > 0 {
            float::lemma_split_range(abs);
        }
        lemma2_to64();
    }
    let mut key: i32 = if schema > 0 {
        let bounds = bounds::native_histogram_bounds(schema);
        proof {
            bounds::lemma_bounds_table(schema as int);
            lemma_u32_shl_is_mul(1, schema as u32);
        }
        let pos = Q::search(bounds.as_slice(), frac);
        proof {
            search::lemma_lower_bound_unique(bounds@, frac, pos as int, lower_bound(bounds@, frac));
        }
        let n: i32 = bounds.len() as i32;
        assert(-1074 * 256 <= (exp - 1) * n <= 1024 * 256) by (nonlinear_arith)
            requires
                -1073 <= exp <= 1025,
                1 <= n <= 256,
        ;
        pos as i32 + (exp - 1) * n
    } else {
        let mut k = exp;
        if frac == HALF {
            k = k - 1;
        }
        merged_bucket(k, (-schema) as u32)
    };
    if is_inf {
        key = key + 1;
    }
    if abs > zero_threshold {
        Some((key, positive))
    } else {
        None
    }
}

} // verus!
