//! What holds of the two bucketing algorithms together.
use vstd::prelude::*;
use vstd::arithmetic::power2::{pow2, lemma2_to64};
use crate::bounds::{bounds_table, lemma_bounds_table};
use crate::float::{
    abs_bits, biased_exp, compose, fraction_field, is_negative, significand, split_spec,
    EXP_UNIT, HALF, INFINITY, LARGEST_FRACTION, MAX_FINITE,
};
use crate::powi::{lemma_square_n_monotone, lemma_square_n_range, square_n};
use crate::search::{is_lower_bound, lemma_lower_bound_unique};
use crate::{
    find_bucket_spec, go_find_bucket_spec, lower_bound, merged_index, overflow_index, power_index,
};

verus! {

/// Squaring a fraction `c` units in the last place below one, for `c` from
/// 1 to 256, gives one `2c` units below it: the square's excess over that is
/// less than half a unit.
proof fn lemma_square_near_one(c: int)
    requires
        1 <= c <= 256,
    ensures
        crate::float::mul_spec((0x3ff0_0000_0000_0000 - c) as u64, (0x3ff0_0000_0000_0000 - c) as u64)
            == 0x3ff0_0000_0000_0000 - 2 * c,
{
    let x = (0x3ff0_0000_0000_0000 - c) as u64;
    assert(biased_exp(x) == 1022);
    assert(significand(x) == 0x20_0000_0000_0000 - c);
    let sg = 0x20_0000_0000_0000 - c;
    let p = sg * sg;
    assert(p >= 0x200_0000_0000_0000_0000_0000_0000 && p / 0x20_0000_0000_0000 == 0x20_0000_0000_0000
        - 2 * c && p % 0x20_0000_0000_0000 == c * c) by (nonlinear_arith)
        requires
            1 <= c <= 256,
            sg == 0x20_0000_0000_0000 - c,
            p == sg * sg,
    ;
    assert(c * c <= 0x10000) by (nonlinear_arith)
        requires
            1 <= c <= 256,
    ;
}

/// Squaring the largest fraction `k` times, for `k` up to eight, loses one
/// unit in the last place per doubling of the power and stays below one.
proof fn lemma_square_largest_fraction(k: nat)
    requires
        k <= 8,
    ensures
        square_n(LARGEST_FRACTION, k) == 0x3ff0_0000_0000_0000 - pow2(k),
    decreases k,
{
    lemma2_to64();
    if k > 0 {
        lemma_square_largest_fraction((k - 1) as nat);
        vstd::arithmetic::power2::lemma_pow2_unfold(k);
        vstd::arithmetic::power2::lemma_pow2_strictly_increases((k - 1) as nat, 8);
        lemma_square_near_one(pow2((k - 1) as nat) as int);
    }
}

/// The split of a power of two `e * 2^52` and of its predecessor.
proof fn lemma_split_power_of_two(e: int)
    requires
        2 <= e <= 2046,
    ensures
        split_spec((e * EXP_UNIT) as u64) == (HALF, e - 1022),
        split_spec((e * EXP_UNIT - 1) as u64) == (LARGEST_FRACTION, e - 1023),
{
    let a = e * 0x10_0000_0000_0000;
    assert(a / 0x10_0000_0000_0000 == e && a % 0x10_0000_0000_0000 == 0 && (a - 1)
        / 0x10_0000_0000_0000 == e - 1 && (a - 1) % 0x10_0000_0000_0000 == 0xf_ffff_ffff_ffff)
        by (nonlinear_arith)
        requires
            a == e * 0x10_0000_0000_0000,
            2 <= e,
    ;
    assert(a < 0x7ff0_0000_0000_0000) by (nonlinear_arith)
        requires
            a == e * 0x10_0000_0000_0000,
            e <= 2046,
    ;
}

/// At a positive schema the fraction 0.5 comes first in the table, and the
/// largest fraction last.
proof fn lemma_table_ends(schema: int)
    requires
        1 <= schema <= 8,
    ensures
        lower_bound(bounds_table(schema), HALF) == 0,
        lower_bound(bounds_table(schema), LARGEST_FRACTION) == bounds_table(schema).len(),
{
    lemma_bounds_table(schema);
    let t = bounds_table(schema);
    assert(is_lower_bound(t, HALF, 0));
    lemma_lower_bound_unique(t, HALF, 0, lower_bound(t, HALF));
    assert(is_lower_bound(t, LARGEST_FRACTION, t.len() as int));
    lemma_lower_bound_unique(t, LARGEST_FRACTION, t.len() as int, lower_bound(t, LARGEST_FRACTION));
}

/// A power of two 2^k closes its bucket: both algorithms give it the same
/// bucket, which at a schema of zero or more has the index k * 2^schema, so
/// that 2^k is that bucket's upper edge.
pub proof fn lemma_power_of_two_bucket(schema: int, zero_threshold: u64, k: int)
    requires
        crate::schema::MIN_SCHEMA <= schema <= crate::schema::MAX_SCHEMA,
        -1021 <= k <= 1023,
        zero_threshold < (k + 1023) * EXP_UNIT,
    ensures
        find_bucket_spec(schema, zero_threshold, ((k + 1023) * EXP_UNIT) as u64)
            == go_find_bucket_spec(schema, zero_threshold, ((k + 1023) * EXP_UNIT) as u64),
        schema >= 0 ==> find_bucket_spec(schema, zero_threshold, ((k + 1023) * EXP_UNIT) as u64)
            == Some((k * pow2(schema as nat), true)),
{
    let e = k + 1023;
    let a = (e * EXP_UNIT) as u64;
    lemma_split_power_of_two(e);
    lemma2_to64();
    assert(a as int == e * EXP_UNIT && a < INFINITY) by (nonlinear_arith)
        requires
            2 <= e <= 2046,
            a == (e * 0x10_0000_0000_0000) as u64,
    ;
    assert(abs_bits(a) == a);
    assert((a - 1) as u64 == (e * EXP_UNIT - 1) as u64);
    assert(split_spec((a - 1) as u64) == (LARGEST_FRACTION, e - 1023));
    if schema == 0 {
        assert(merged_index(e - 1023, 0) == e - 1023);
        assert(power_index(schema, a) == k);
    }
    if schema > 0 {
        lemma_square_largest_fraction(schema as nat);
        vstd::arithmetic::power2::lemma_pow2_strictly_increases(schema as nat, 9);
        assert(biased_exp(square_n(LARGEST_FRACTION, schema as nat)) == 1022);
        assert(split_spec(square_n(LARGEST_FRACTION, schema as nat)).1 == 0);
        lemma_table_ends(schema);
        lemma_bounds_table(schema);
    }
}

/// The last finite exponent falls in the last finite merged bucket.
proof fn lemma_merged_top(k: nat)
    requires
        k <= 4,
    ensures
        merged_index(1024, k) == 1024int / (pow2(k) as int),
{
    lemma2_to64();
    if k == 0 {
        assert(pow2(k) == 1);
        assert((1024int + 1 - 1) / 1 == 1024int / 1);
    } else if k == 1 {
        assert(pow2(k) == 2);
        assert((1024int + 2 - 1) / 2 == 1024int / 2);
    } else if k == 2 {
        assert(pow2(k) == 4);
        assert((1024int + 4 - 1) / 4 == 1024int / 4);
    } else if k == 3 {
        assert(pow2(k) == 8);
        assert((1024int + 8 - 1) / 8 == 1024int / 8);
    } else if k == 4 {
        assert(pow2(k) == 16);
        assert((1024int + 16 - 1) / 16 == 1024int / 16);
    }
}

/// Whatever the threshold, a magnitude at most the threshold has no bucket in
/// either algorithm, and one a unit in the last place above it has a bucket
/// carrying the sign of the value in both.
pub proof fn lemma_zero_threshold(schema: int, zero_threshold: u64, v: u64)
    requires
        crate::schema::MIN_SCHEMA <= schema <= crate::schema::MAX_SCHEMA,
        0 < zero_threshold < MAX_FINITE,
        crate::is_number(v),
    ensures
        abs_bits(v) <= zero_threshold ==> find_bucket_spec(schema, zero_threshold, v) is None
            && go_find_bucket_spec(schema, zero_threshold, v) is None,
        abs_bits(v) == zero_threshold + 1 ==> (find_bucket_spec(schema, zero_threshold, v) matches Some(
            (_, p),
        ) && p == !is_negative(v)) && (go_find_bucket_spec(schema, zero_threshold, v) matches Some(
            (_, q),
        ) && q == !is_negative(v)),
{
}

/// The exponent of the predecessor of a positive double drops by one exactly
/// when the double is a power of two, that is when its fraction is 0.5.
proof fn lemma_predecessor_exponent(a: u64)
    requires
        EXP_UNIT < a < INFINITY,
    ensures
        split_spec((a - 1) as u64).1 == split_spec(a).1 - (if split_spec(a).0 == HALF {
            1int
        } else {
            0int
        }),
{
    crate::float::lemma_split_range(a);
    let e = biased_exp(a);
    let f = fraction_field(a);
    assert(e >= 1 && biased_exp((a - 1) as u64) >= 1) by {
        vstd::arithmetic::div_mod::lemma_div_is_ordered(EXP_UNIT as int, (a - 1) as int, EXP_UNIT as int);
    }
    assert(a == e * 0x10_0000_0000_0000 + f);
    assert(split_spec(a).0 == HALF <==> f == 0) by {
        assert(compose(significand(a), 1022) == 1022 * 0x10_0000_0000_0000 + f);
    }
    if f == 0 {
        assert(e >= 1);
        assert((a - 1) as int == (e - 1) * 0x10_0000_0000_0000 + 0xf_ffff_ffff_ffff);
    } else {
        assert((a - 1) as int == e * 0x10_0000_0000_0000 + (f - 1));
    }
}

/// With a zero threshold of at least the smallest normal double, the two
/// algorithms give every double that is not a NaN the same bucket at every
/// schema up to zero. At every schema they agree on which values have no
/// bucket, on the sign of the others, and on infinities.
pub proof fn lemma_algorithms_agree(schema: int, zero_threshold: u64, v: u64)
    requires
        crate::schema::MIN_SCHEMA <= schema <= crate::schema::MAX_SCHEMA,
        EXP_UNIT <= zero_threshold < MAX_FINITE,
        crate::is_number(v),
    ensures
        find_bucket_spec(schema, zero_threshold, v) is None <==> go_find_bucket_spec(
            schema,
            zero_threshold,
            v,
        ) is None,
        find_bucket_spec(schema, zero_threshold, v) matches Some((_, p)) ==> (go_find_bucket_spec(
            schema,
            zero_threshold,
            v,
        ) matches Some((_, q)) && p == q),
        abs_bits(v) == INFINITY ==> find_bucket_spec(schema, zero_threshold, v)
            == go_find_bucket_spec(schema, zero_threshold, v),
        schema <= 0 ==> find_bucket_spec(schema, zero_threshold, v) == go_find_bucket_spec(
            schema,
            zero_threshold,
            v,
        ),
{
    lemma2_to64();
    let a = abs_bits(v);
    assert(split_spec(MAX_FINITE) == (LARGEST_FRACTION, 1024int));
    if a == INFINITY {
        if schema > 0 {
            lemma_table_ends(schema);
            lemma_bounds_table(schema);
            assert((bounds_table(schema).len() as int) + (1024 - 1) * pow2(schema as nat) == 1024
                * pow2(schema as nat));
        } else {
            let k = (-schema) as nat;
            lemma_merged_top(k);
            assert(overflow_index(schema) == 1024int / (pow2(k) as int) + 1);
        }
    } else if a > zero_threshold {
        lemma_predecessor_exponent(a);
    }
}

/// At a positive schema the index that exponent decomposition gives a value
/// lies in the octave of the exponent of its predecessor.
proof fn lemma_power_index_in_octave(schema: int, a: u64)
    requires
        1 <= schema <= 8,
        EXP_UNIT < a < INFINITY,
    ensures
        (split_spec((a - 1) as u64).1 - 1) * pow2(schema as nat) < power_index(schema, a)
            <= split_spec((a - 1) as u64).1 * pow2(schema as nat),
{
    let (frac, exp) = split_spec((a - 1) as u64);
    let k = schema as nat;
    crate::float::lemma_split_range((a - 1) as u64);
    assert(biased_exp((a - 1) as u64) >= 1) by {
        vstd::arithmetic::div_mod::lemma_div_is_ordered(EXP_UNIT as int, (a - 1) as int, EXP_UNIT as int);
    }
    lemma_square_n_range(frac, k);
    assert(frac <= LARGEST_FRACTION) by {
        assert(frac as int == 1022 * 0x10_0000_0000_0000 + fraction_field(frac));
    }
    lemma_square_n_monotone(frac, LARGEST_FRACTION, k);
    lemma_square_largest_fraction(k);
    vstd::arithmetic::power2::lemma_pow2_strictly_increases(k, 9);
    lemma2_to64();
    let sq = square_n(frac, k);
    assert(biased_exp(sq) <= 1022) by {
        vstd::arithmetic::div_mod::lemma_div_is_ordered(
            sq as int,
            0x3ff0_0000_0000_0000 - 1,
            0x10_0000_0000_0000,
        );
    }
    assert((exp - 1) * pow2(k) == exp * pow2(k) - pow2(k)) by (nonlinear_arith);
}

/// With a zero threshold of at least the smallest normal double, at a fixed
/// schema the bucket index never decreases as the magnitude of the value
/// grows; values of either sign with one magnitude share their index.
pub proof fn lemma_index_monotone(schema: int, zero_threshold: u64, v: u64, w: u64)
    requires
        crate::schema::MIN_SCHEMA <= schema <= crate::schema::MAX_SCHEMA,
        EXP_UNIT <= zero_threshold < INFINITY,
        crate::is_number(v),
        crate::is_number(w),
        abs_bits(v) <= abs_bits(w),
    ensures
        find_bucket_spec(schema, zero_threshold, v) matches Some((i, _)) ==> (find_bucket_spec(
            schema,
            zero_threshold,
            w,
        ) matches Some((j, _)) && i <= j),
        abs_bits(v) == abs_bits(w) ==> find_bucket_spec(schema, zero_threshold, v) is None
            == find_bucket_spec(schema, zero_threshold, w) is None,
        abs_bits(v) == abs_bits(w) ==> (find_bucket_spec(schema, zero_threshold, v) matches Some(
            (i, _),
        ) ==> (find_bucket_spec(schema, zero_threshold, w) matches Some((j, _)) && i == j)),
{
    let a = abs_bits(v);
    let b = abs_bits(w);
    lemma2_to64();
    if a > zero_threshold && a < INFINITY {
        let ea = split_spec((a - 1) as u64).1;
        let eb = split_spec((b - 1) as u64).1;
        crate::float::lemma_split_range((a - 1) as u64);
        crate::float::lemma_split_range((b - 1) as u64);
        assert(biased_exp((a - 1) as u64) >= 1 && biased_exp((b - 1) as u64) >= 1) by {
            vstd::arithmetic::div_mod::lemma_div_is_ordered(EXP_UNIT as int, (a - 1) as int, EXP_UNIT as int);
            vstd::arithmetic::div_mod::lemma_div_is_ordered(EXP_UNIT as int, (b - 1) as int, EXP_UNIT as int);
        }
        assert(ea <= eb) by {
            vstd::arithmetic::div_mod::lemma_div_is_ordered(
                (a - 1) as int,
                (b - 1) as int,
                0x10_0000_0000_0000,
            );
        }
        if schema > 0 {
            let n = pow2(schema as nat) as int;
            lemma_power_index_in_octave(schema, a);
            if b < INFINITY {
                lemma_power_index_in_octave(schema, b);
                if ea == eb {
                    let fa = split_spec((a - 1) as u64).0;
                    let fb = split_spec((b - 1) as u64).0;
                    let a1 = (a - 1) as u64;
                    let b1 = (b - 1) as u64;
                    assert(a1 == biased_exp(a1) * 0x10_0000_0000_0000 + fraction_field(a1));
                    assert(b1 == biased_exp(b1) * 0x10_0000_0000_0000 + fraction_field(b1));
                    assert(fraction_field(a1) <= fraction_field(b1));
                    assert(fa <= fb);
                    lemma_square_n_monotone(fa, fb, schema as nat);
                    lemma_square_n_range(fa, schema as nat);
                    lemma_square_n_range(fb, schema as nat);
                    crate::float::lemma_split_range(square_n(fa, schema as nat));
                    crate::float::lemma_split_range(square_n(fb, schema as nat));
                    vstd::arithmetic::div_mod::lemma_div_is_ordered(
                        square_n(fa, schema as nat) as int,
                        square_n(fb, schema as nat) as int,
                        0x10_0000_0000_0000,
                    );
                } else {
                    assert(ea * n <= (eb - 1) * n) by (nonlinear_arith)
                        requires
                            ea <= eb - 1,
                            n >= 1,
                    ;
                }
            } else {
                assert(ea * n <= 1024 * n) by (nonlinear_arith)
                    requires
                        ea <= 1024,
                        n >= 1,
                ;
            }
        } else {
            let k = (-schema) as nat;
            let d = pow2(k) as int;
            assert(d >= 1);
            let eb2 = if b < INFINITY { eb } else { 1024 };
            assert(ea <= eb2);
            vstd::arithmetic::div_mod::lemma_div_is_ordered(ea + d - 1, eb2 + d - 1, d);
            if b == INFINITY {
                lemma_merged_top(k);
            }
        }
    }
}
/// Every value has a lower bound among ascending entries.
proof fn lemma_lower_bound_exists(s: Seq<u64>, x: u64)
    requires
        crate::search::is_ascending(s),
    ensures
        is_lower_bound(s, x, lower_bound(s, x)),
    decreases s.len(),
{
    if s.len() == 0 {
        assert(is_lower_bound(s, x, 0));
    } else if s[s.len() - 1] < x {
        assert(is_lower_bound(s, x, s.len() as int));
    } else {
        let t = s.drop_last();
        lemma_lower_bound_exists(t, x);
        let p = lower_bound(t, x);
        assert forall|i: int| p <= i < s.len() implies x <= s[i] by {
            if i < s.len() - 1 {
                assert(t[i] == s[i]);
            }
        }
        assert forall|i: int| 0 <= i < p implies s[i] < x by {
            assert(t[i] == s[i]);
        }
        assert(is_lower_bound(s, x, p));
    }
}

/// Lower bounds never decrease as the value grows.
proof fn lemma_lower_bound_monotone(s: Seq<u64>, x: u64, y: u64)
    requires
        crate::search::is_ascending(s),
        x <= y,
    ensures
        lower_bound(s, x) <= lower_bound(s, y),
{
    lemma_lower_bound_exists(s, x);
    lemma_lower_bound_exists(s, y);
    let p = lower_bound(s, x);
    let q = lower_bound(s, y);
    if q < p {
        assert(s[q] < x);
    }
}

/// The same holds of the search-based algorithm: at a fixed schema its bucket
/// index never decreases as the magnitude of the value grows.
pub proof fn lemma_search_index_monotone(schema: int, zero_threshold: u64, v: u64, w: u64)
    requires
        crate::schema::MIN_SCHEMA <= schema <= crate::schema::MAX_SCHEMA,
        EXP_UNIT <= zero_threshold < MAX_FINITE,
        crate::is_number(v),
        crate::is_number(w),
        abs_bits(v) <= abs_bits(w),
    ensures
        go_find_bucket_spec(schema, zero_threshold, v) matches Some((i, _)) ==> (
        go_find_bucket_spec(schema, zero_threshold, w) matches Some((j, _)) && i <= j),
{
    let a = abs_bits(v);
    let b = abs_bits(w);
    let ca = if a == INFINITY { MAX_FINITE } else { a };
    let cb = if b == INFINITY { MAX_FINITE } else { b };
    lemma2_to64();
    if ca > zero_threshold {
        let (fa, ea) = split_spec(ca);
        let (fb, eb) = split_spec(cb);
        assert(biased_exp(ca) >= 1 && biased_exp(cb) >= 1) by {
            vstd::arithmetic::div_mod::lemma_div_is_ordered(EXP_UNIT as int, ca as int, EXP_UNIT as int);
            vstd::arithmetic::div_mod::lemma_div_is_ordered(EXP_UNIT as int, cb as int, EXP_UNIT as int);
        }
        assert(ea <= eb) by {
            vstd::arithmetic::div_mod::lemma_div_is_ordered(ca as int, cb as int, EXP_UNIT as int);
        }
        assert(ca == biased_exp(ca) * 0x10_0000_0000_0000 + fraction_field(ca));
        assert(cb == biased_exp(cb) * 0x10_0000_0000_0000 + fraction_field(cb));
        assert(fa == HALF <==> fraction_field(ca) == 0);
        assert(fb == HALF <==> fraction_field(cb) == 0);
        if schema > 0 {
            let t = bounds_table(schema);
            let n = pow2(schema as nat) as int;
            lemma_bounds_table(schema);
            lemma_lower_bound_exists(t, fa);
            lemma_lower_bound_exists(t, fb);
            if ea == eb {
                assert(fraction_field(ca) <= fraction_field(cb));
                lemma_lower_bound_monotone(t, fa, fb);
            } else {
                let pa = lower_bound(t, fa);
                assert(pa + (ea - 1) * n <= (eb - 1) * n) by (nonlinear_arith)
                    requires
                        pa <= n,
                        ea <= eb - 1,
                        n >= 1,
                ;
            }
        } else {
            let k = (-schema) as nat;
            let d = pow2(k) as int;
            let ha = if fa == HALF { ea - 1 } else { ea };
            let hb = if fb == HALF { eb - 1 } else { eb };
            if ea == eb {
                assert(fraction_field(ca) <= fraction_field(cb));
            }
            assert(ha <= hb);
            vstd::arithmetic::div_mod::lemma_div_is_ordered(ha + d - 1, hb + d - 1, d);
        }
    }
}

} // verus!
