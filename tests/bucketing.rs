use native_histogram::bounds::native_histogram_bounds;
use native_histogram::float::{frexp, prev_float};
use native_histogram::schema::BoundedSchema;
use native_histogram::powi::{
    BoundedLoop, Loop, Match, Naive, NestedLoops, Strategy as PowiStrategy, UnrolledLoop,
};
use native_histogram::search::{Binary, BinaryInlined, Hybrid, Linear, Strategy as SearchStrategy};
use native_histogram::{find_bucket, go_find_bucket, powi, search, ZERO_THRESHOLD};

fn next_up(x: f64) -> f64 {
    f64::from_bits(x.to_bits() + 1)
}

fn next_down(x: f64) -> f64 {
    f64::from_bits(x.to_bits() - 1)
}

fn test_values() -> Vec<f64> {
    let mut values = vec![
        0.0,
        0.5,
        2.0,
        next_up(0.25),
        next_down(0.25),
        next_up(4.0),
        next_down(4.0),
        f64::MIN,
        f64::MAX,
        f64::INFINITY,
        f64::NEG_INFINITY,
    ];
    for _ in 0..1000 {
        values.push(fastrand::f64());
    }
    values
}

fn by_power(schema: isize, value: f64) -> Option<(i32, bool)> {
    find_bucket::<powi::Naive, _>(schema, ZERO_THRESHOLD, value.to_bits())
}

fn by_search(schema: isize, value: f64) -> Option<(i32, bool)> {
    go_find_bucket::<search::Binary, _>(schema, ZERO_THRESHOLD, value.to_bits())
}

#[test]
fn same_results_as_go() {
    for schema in -4..=8 {
        for &value in &test_values() {
            assert_eq!(by_power(schema, value), by_search(schema, value));
        }
    }
}

#[test]
fn same_results_over_all_octaves() {
    for schema in -4..=8 {
        for _ in 0..3000 {
            let bits = fastrand::u64(0x0020_0000_0000_0000..0x7ff0_0000_0000_0000);
            let value = f64::from_bits(bits | (fastrand::u64(0..2) << 63));
            assert_eq!(by_power(schema, value), by_search(schema, value));
        }
    }
}

#[test]
fn same_results_on_every_boundary() {
    for schema in 1..=8isize {
        let bounds = native_histogram_bounds(schema);
        for &b in &bounds {
            for exp in [-300, -1, 0, 1, 7, 500] {
                let v = f64::from_bits(b) * 2f64.powi(exp);
                for value in [next_down(v), v, next_up(v), -v] {
                    assert_eq!(by_power(schema, value), by_search(schema, value));
                }
            }
        }
    }
}

fn fraction_of(value: f64) -> u64 {
    let bits = value.abs().to_bits();
    (bits & 0x800f_ffff_ffff_ffff) | 0x3fe0_0000_0000_0000
}

#[test]
fn powi_strategies() {
    for schema in 0..=8 {
        for &value in test_values().iter().filter(|v| v.is_sign_positive()) {
            let f = value.to_bits();
            let powi = Naive::powi(f, schema);
            assert_eq!(Match::powi(f, schema), powi);
            assert_eq!(Loop::powi(f, schema), powi);
            assert_eq!(BoundedLoop::powi(f, schema), powi);
            assert_eq!(UnrolledLoop::powi(f, schema), powi);
            assert_eq!(NestedLoops::powi(f, schema), powi);
        }
    }
}

#[test]
fn powi_on_fractions() {
    for schema in 0..=8 {
        for &value in &test_values() {
            let f = fraction_of(value);
            let powi = Naive::powi(f, schema);
            assert_eq!(Loop::powi(f, schema), powi);
            assert_eq!(NestedLoops::powi(f, schema), powi);
        }
    }
}

#[test]
fn powi_matches_hardware_squaring() {
    let mut values: Vec<f64> = test_values().into_iter().filter(|v| v.is_sign_positive()).collect();
    values.extend([1e-300, 3e-160, 1e-155, 2f64.powi(-1022), 5e-324, 1e300, 1.5e154, 2.0]);
    for schema in 0..=8isize {
        for &value in &values {
            let f = value.to_bits();
            let mut expected = value;
            for _ in 0..schema {
                expected *= expected;
            }
            assert_eq!(Naive::powi(f, schema), expected.to_bits());
            assert_eq!(UnrolledLoop::powi(f, schema), expected.to_bits());
        }
    }
    assert_eq!(Loop::powi(2.0f64.to_bits(), 3), 256.0f64.to_bits());
    assert_eq!(Loop::powi(f64::MAX.to_bits(), 1), f64::INFINITY.to_bits());
    assert_eq!(Loop::powi(f64::INFINITY.to_bits(), 8), f64::INFINITY.to_bits());
    assert_eq!(Loop::powi(0.0f64.to_bits(), 8), 0);
}

#[test]
fn square_rounds_like_hardware() {
    for _ in 0..20000 {
        let x = fastrand::u64(0..=0x7ff0_0000_0000_0000);
        let v = f64::from_bits(x);
        assert_eq!(native_histogram::float::fsquare(x), (v * v).to_bits());
    }
    for _ in 0..20000 {
        let x = fastrand::u64(0x1e00_0000_0000_0000..0x2100_0000_0000_0000);
        let v = f64::from_bits(x);
        assert_eq!(native_histogram::float::fsquare(x), (v * v).to_bits());
    }
}

#[test]
fn product_rounds_like_hardware() {
    for _ in 0..20000 {
        let a = fastrand::u64(0x3000_0000_0000_0000..0x4000_0000_0000_0000);
        let b = fastrand::u64(0x3000_0000_0000_0000..0x4000_0000_0000_0000);
        let expected = f64::from_bits(a) * f64::from_bits(b);
        assert_eq!(native_histogram::float::fmul(a, b), expected.to_bits());
    }
    assert_eq!(native_histogram::float::fmul(0x3ff0_0000_0000_0000, 2.5f64.to_bits()), 2.5f64.to_bits());
}

#[test]
fn search_strategies() {
    for schema in 1..=8isize {
        let bounds = native_histogram_bounds(schema);
        for &value in &test_values() {
            let f = fraction_of(value);
            let pos = Binary::search(&bounds, f);
            assert_eq!(Linear::search(&bounds, f), pos);
            assert_eq!(Hybrid::search(&bounds, f), pos);
            assert_eq!(BinaryInlined::search(&bounds, f), pos);
            assert_eq!(pos, bounds.iter().filter(|&&b| b < f).count());
        }
    }
}

#[test]
fn search_on_short_tables() {
    let table: Vec<u64> = vec![10, 20, 20, 30];
    for (x, expected) in [(5, 0), (10, 0), (11, 1), (20, 1), (25, 3), (30, 3), (31, 4)] {
        assert_eq!(Linear::search(&table, x), expected);
        assert_eq!(Binary::search(&table, x), expected);
        assert_eq!(Hybrid::search(&table, x), expected);
        assert_eq!(BinaryInlined::search(&table, x), expected);
    }
    let empty: Vec<u64> = Vec::new();
    assert_eq!(Binary::search(&empty, 7), 0);
    assert_eq!(BinaryInlined::search(&empty, 7), 0);
}

#[test]
fn bounds_tables_are_ascending_fractions() {
    for schema in 1..=8isize {
        let bounds = native_histogram_bounds(schema);
        assert_eq!(bounds.len(), 1 << schema);
        assert_eq!(f64::from_bits(bounds[0]), 0.5);
        for (j, pair) in bounds.windows(2).enumerate() {
            assert!(pair[0] < pair[1]);
            let exact = (2f64).powf((j + 1) as f64 / (1 << schema) as f64 - 1.0);
            assert!((f64::from_bits(pair[1]) - exact).abs() < 1e-15);
        }
    }
}

#[test]
fn concrete_scenarios_schema_zero() {
    for bucket in [by_power, by_search] {
        assert_eq!(bucket(0, 2.0), Some((1, true)));
        assert_eq!(bucket(0, 0.5), Some((-1, true)));
        assert_eq!(bucket(0, 0.0), None);
        assert_eq!(bucket(0, f64::INFINITY), Some((1025, true)));
        assert_eq!(bucket(0, f64::NEG_INFINITY), Some((1025, false)));
        assert_eq!(bucket(0, next_down(4.0)), Some((2, true)));
        assert_eq!(bucket(0, 4.0), Some((2, true)));
        assert_eq!(bucket(0, next_up(4.0)), Some((3, true)));
        assert_eq!(bucket(0, -3.0), Some((2, false)));
    }
}

#[test]
fn concrete_scenarios_other_schemas() {
    for bucket in [by_power, by_search] {
        assert_eq!(bucket(3, 2.0), Some((8, true)));
        assert_eq!(bucket(3, 3.0), Some((13, true)));
        assert_eq!(bucket(3, 0.5), Some((-8, true)));
        assert_eq!(bucket(3, f64::INFINITY), Some((8193, true)));
        assert_eq!(bucket(-2, 2.0), Some((1, true)));
        assert_eq!(bucket(-2, 0.5), Some((0, true)));
        assert_eq!(bucket(-2, f64::INFINITY), Some((257, true)));
        assert_eq!(bucket(-4, f64::NEG_INFINITY), Some((65, false)));
        assert_eq!(bucket(8, f64::INFINITY), Some((262145, true)));
    }
}

#[test]
fn zero_threshold_boundary() {
    let t = f64::from_bits(ZERO_THRESHOLD);
    assert_eq!(t, 2.938735877055719e-39);
    for schema in -4..=8 {
        for bucket in [by_power, by_search] {
            assert_eq!(bucket(schema, t), None);
            assert_eq!(bucket(schema, -t), None);
            assert_eq!(bucket(schema, next_down(t)), None);
            assert_eq!(bucket(schema, -0.0), None);
            assert!(matches!(bucket(schema, next_up(t)), Some((_, true))));
            assert!(matches!(bucket(schema, -next_up(t)), Some((_, false))));
        }
        assert_eq!(by_power(schema, next_up(t)), by_search(schema, next_up(t)));
    }
}

#[test]
fn index_grows_with_magnitude() {
    for schema in -4..=8 {
        let mut values: Vec<f64> = test_values().into_iter().filter(|v| *v > 1e-30).collect();
        values.sort_by(|a, b| a.partial_cmp(b).unwrap());
        let mut last = i32::MIN;
        for &v in &values {
            let (i, positive) = by_power(schema, v).unwrap();
            assert!(positive);
            assert!(i >= last);
            last = i;
            let (j, negative_positive) = by_power(schema, -v).unwrap();
            assert_eq!(j, i);
            assert!(!negative_positive);
        }
        let mut last = i32::MIN;
        for &v in &values {
            let (i, _) = by_search(schema, v).unwrap();
            assert!(i >= last);
            last = i;
        }
    }
}

#[test]
fn powers_of_two_close_their_bucket() {
    for schema in 0..=8isize {
        for k in [-100, -3, -1, 0, 1, 2, 10, 1000] {
            let v = 2f64.powi(k);
            let expected = k << schema;
            assert_eq!(by_power(schema, v), Some((expected, true)));
            assert_eq!(by_search(schema, v), Some((expected, true)));
            assert_eq!(by_power(schema, next_up(v)), Some((expected + 1, true)));
        }
    }
    for schema in -4..0isize {
        for k in [-8, -3, 0, 1, 16, 17] {
            let v = 2f64.powi(k);
            assert_eq!(by_power(schema, v), by_search(schema, v));
        }
    }
}

#[test]
fn bounded_schema_round_trip() {
    for value in -4..=8isize {
        let s = BoundedSchema::try_from(value).unwrap();
        assert_eq!(native_histogram::schema::Schema::get(&s), value);
    }
    for value in [-100, -5, 9, 10, isize::MIN, isize::MAX] {
        assert_eq!(BoundedSchema::try_from(value), Err(value));
        let converted: Result<BoundedSchema, isize> = value.try_into();
        assert_eq!(converted, Err(value));
    }
    let converted: Result<BoundedSchema, isize> = 5isize.try_into();
    assert_eq!(converted, Ok(BoundedSchema::Pos5));
}

#[test]
fn bounded_schema_buckets_like_integer_schema() {
    for value in -4..=8isize {
        let s = BoundedSchema::try_from(value).unwrap();
        for &v in &test_values() {
            let bits = v.to_bits();
            assert_eq!(
                find_bucket::<powi::Loop, _>(s, ZERO_THRESHOLD, bits),
                find_bucket::<powi::Loop, _>(value, ZERO_THRESHOLD, bits)
            );
            assert_eq!(
                go_find_bucket::<search::Hybrid, _>(s, ZERO_THRESHOLD, bits),
                go_find_bucket::<search::Linear, _>(value, ZERO_THRESHOLD, bits)
            );
        }
    }
}

#[test]
fn split_and_predecessor() {
    for (x, fraction, exponent) in [(8.0f64, 0.5f64, 4), (1.0, 0.5, 1), (0.75, 0.75, 0), (3.0, 0.75, 2)] {
        let (f, e) = frexp(x.to_bits());
        assert_eq!(f64::from_bits(f), fraction);
        assert_eq!(e, exponent);
    }
    let (f, e) = frexp(f64::MAX.to_bits());
    assert_eq!(f64::from_bits(f), next_down(1.0));
    assert_eq!(e, 1024);
    assert_eq!(prev_float(1.0f64.to_bits()), 0x3fef_ffff_ffff_ffff);
    assert_eq!(f64::from_bits(prev_float(4.0f64.to_bits())), next_down(4.0));
    assert_eq!(prev_float(0), 0);
    assert_eq!(frexp(0), (0, 0));
    for x in [5e-324f64, 1e-310, 2.2e-308, f64::from_bits(0x000f_ffff_ffff_ffff)] {
        let (f, e) = frexp(x.to_bits());
        let f = f64::from_bits(f);
        assert!((0.5..1.0).contains(&f));
        assert_eq!(f * 2f64.powi(e + 60) / 2f64.powi(60), x);
    }
    let (f, e) = frexp(1);
    assert_eq!((f64::from_bits(f), e), (0.5, -1073));
}
