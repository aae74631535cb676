use std::cmp::Ordering;

use tsi::units::order::{are_numbers, order_by_insertion, order_by_key};
use tsi::units::sorting::key_order;
use tsi::units::{Force, Isp, Mass, Ratio, Scalar, Time, Velocity};

fn s(x: f64) -> Scalar {
    Scalar::from_bits(x.to_bits())
}

fn samples() -> Vec<f64> {
    vec![
        0.0,
        -0.0,
        1.0,
        -1.0,
        0.5,
        1.2,
        0.08,
        1e-320,
        -1e-320,
        f64::MIN_POSITIVE,
        f64::MAX,
        f64::MIN,
        f64::INFINITY,
        f64::NEG_INFINITY,
        f64::NAN,
        -f64::NAN,
        9.80665,
        5000.0,
        -273.15,
        1e300,
        -1e300,
        3.0000000000000004,
        3.0,
    ]
}

#[test]
fn scalar_round_trips_bits() {
    for x in samples() {
        assert_eq!(s(x).to_bits(), x.to_bits());
    }
    assert_eq!(Scalar::zero().to_bits(), 0.0f64.to_bits());
    assert_eq!(Scalar::one().to_bits(), 1.0f64.to_bits());
}

#[test]
fn scalar_order_agrees_with_doubles() {
    for a in samples() {
        for b in samples() {
            assert_eq!(s(a).lt(s(b)), a < b, "{} < {}", a, b);
            assert_eq!(s(a).le(s(b)), a <= b, "{} <= {}", a, b);
            assert_eq!(s(a).gt(s(b)), a > b, "{} > {}", a, b);
            assert_eq!(s(a).ge(s(b)), a >= b, "{} >= {}", a, b);
            assert_eq!(s(a).equals(s(b)), a == b, "{} == {}", a, b);
        }
    }
}

#[test]
fn scalar_nan_is_unordered() {
    let nan = s(f64::NAN);
    assert!(nan.is_nan());
    assert!(!nan.lt(nan));
    assert!(!nan.le(nan));
    assert!(!nan.equals(nan));
    assert!(!s(1.0).is_nan());
    assert!(!s(f64::INFINITY).is_nan());
}

#[test]
fn scalar_zeros_are_equal() {
    assert!(s(0.0).equals(s(-0.0)));
    assert!(!s(-0.0).lt(s(0.0)));
    assert!(s(-0.0).le(s(0.0)));
    assert_ne!(s(0.0), s(-0.0));
}

#[test]
fn scalar_trichotomy_on_numbers() {
    for a in samples() {
        for b in samples() {
            if a.is_nan() || b.is_nan() {
                continue;
            }
            let holds = [s(a).lt(s(b)), s(a).equals(s(b)), s(a).gt(s(b))];
            assert_eq!(holds.iter().filter(|h| **h).count(), 1);
        }
    }
}

#[test]
fn order_by_key_is_a_stable_sort() {
    let keys = vec![s(3.0), s(1.0), s(2.0), s(1.0), s(-0.0), s(0.0), s(3.0)];
    assert_eq!(order_by_key(&keys, false), vec![4, 5, 1, 3, 2, 0, 6]);
    assert_eq!(order_by_key(&keys, true), vec![0, 6, 2, 1, 3, 4, 5]);
    assert_eq!(order_by_key(&Vec::new(), true), Vec::<usize>::new());
}

#[test]
fn order_by_key_matches_std_stable_sort() {
    let values: Vec<f64> = vec![9400.0, 9800.0, 9500.0, 9700.0, 9600.0, 9500.0, -1.0, 1e9];
    let keys: Vec<Scalar> = values.iter().map(|x| s(*x)).collect();
    let mut expected: Vec<usize> = (0..values.len()).collect();
    expected.sort_by(|a, b| values[*a].partial_cmp(&values[*b]).unwrap());
    assert_eq!(order_by_key(&keys, false), expected);
    let mut falling: Vec<usize> = (0..values.len()).collect();
    falling.sort_by(|a, b| values[*b].partial_cmp(&values[*a]).unwrap());
    assert_eq!(order_by_key(&keys, true), falling);
}

#[test]
fn order_by_key_agrees_with_insertion() {
    let mut seed: u64 = 0x2545_F491_4F6C_DD1D;
    for round in 0..50 {
        let mut keys: Vec<Scalar> = Vec::new();
        for _ in 0..(round * 3) {
            seed ^= seed << 13;
            seed ^= seed >> 7;
            seed ^= seed << 17;
            keys.push(s(((seed % 17) as f64) - 8.0));
        }
        for descending in [false, true] {
            let sorted = order_by_key(&keys, descending);
            assert_eq!(sorted, order_by_insertion(&keys, descending));
            let mut expected: Vec<usize> = (0..keys.len()).collect();
            expected.sort_by(|a, b| key_order(keys[*a], keys[*b], descending));
            assert_eq!(sorted, expected);
        }
    }
}

#[test]
fn order_by_key_takes_keys_that_are_no_numbers() {
    let keys = vec![s(3.0), s(f64::NAN), s(1.0), s(2.0), s(0.5)];
    assert!(!are_numbers(&keys));
    assert!(are_numbers(&vec![s(3.0), s(f64::INFINITY), s(-0.0)]));
    assert!(are_numbers(&vec![]));
    // nothing comes before a NaN, so what follows it stays behind it
    assert_eq!(order_by_key(&keys, false), vec![0, 1, 4, 2, 3]);
    assert_eq!(order_by_key(&keys, false), order_by_insertion(&keys, false));
    assert_eq!(order_by_key(&keys, true), order_by_insertion(&keys, true));
    let late = vec![s(3.0), s(1.0), s(2.0), s(f64::NAN)];
    assert_eq!(order_by_key(&late, false), vec![1, 2, 0, 3]);
}

#[test]
fn order_by_key_sorts_many_keys() {
    let keys: Vec<Scalar> = (0..200_000u64).map(|i| s(((i * 7919) % 100_003) as f64)).collect();
    let sorted = order_by_key(&keys, false);
    assert_eq!(sorted.len(), keys.len());
    for pair in sorted.windows(2) {
        let (a, b) = (keys[pair[0]], keys[pair[1]]);
        assert!(a.lt(b) || (a.equals(b) && pair[0] < pair[1]));
    }
}

#[test]
fn key_order_follows_the_direction() {
    assert_eq!(key_order(s(1.0), s(2.0), false), Ordering::Less);
    assert_eq!(key_order(s(1.0), s(2.0), true), Ordering::Greater);
    assert_eq!(key_order(s(2.0), s(1.0), false), Ordering::Greater);
    assert_eq!(key_order(s(2.0), s(1.0), true), Ordering::Less);
    assert_eq!(key_order(s(0.0), s(-0.0), false), Ordering::Equal);
    assert_eq!(key_order(s(f64::NAN), s(1.0), false), Ordering::Equal);
}

#[test]
fn mass_construction_kg() {
    let m = Mass::kg(s(1000.0));
    assert_eq!(f64::from_bits(m.as_kg().to_bits()), 1000.0);
}

#[test]
fn mass_zero() {
    let m = Mass::kg(s(0.0));
    assert_eq!(f64::from_bits(m.as_kg().to_bits()), 0.0);
}

#[test]
fn velocity_construction_mps() {
    let v = Velocity::mps(s(3000.0));
    assert_eq!(f64::from_bits(v.as_mps().to_bits()), 3000.0);
}

#[test]
fn force_construction_newtons() {
    let force = Force::newtons(s(1_000_000.0));
    assert_eq!(f64::from_bits(force.as_newtons().to_bits()), 1_000_000.0);
}

#[test]
fn isp_construction() {
    let isp = Isp::seconds(s(311.0));
    assert_eq!(f64::from_bits(isp.as_seconds().to_bits()), 311.0);
}

#[test]
fn isp_comparison() {
    let isp1 = Isp::seconds(s(282.0));
    let isp2 = Isp::seconds(s(311.0));
    assert!(isp2.as_seconds().gt(isp1.as_seconds()));
}

#[test]
fn isp_typical_values() {
    let merlin_sl = Isp::seconds(s(282.0));
    let merlin_vac = Isp::seconds(s(311.0));
    let raptor_vac = Isp::seconds(s(350.0));
    let rs25_vac = Isp::seconds(s(452.0));

    assert!(merlin_sl.as_seconds().lt(merlin_vac.as_seconds()));
    assert!(merlin_vac.as_seconds().lt(raptor_vac.as_seconds()));
    assert!(raptor_vac.as_seconds().lt(rs25_vac.as_seconds()));
}

#[test]
fn time_construction_seconds() {
    let t = Time::seconds(s(120.0));
    assert_eq!(f64::from_bits(t.as_seconds().to_bits()), 120.0);
}

#[test]
fn ratio_construction() {
    let r = Ratio::new(s(3.5));
    assert_eq!(f64::from_bits(r.as_f64().to_bits()), 3.5);
}
