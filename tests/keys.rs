use dent::key::{bits_of_key, ordered_key};
use dent::summary::OrderStats;

fn key(v: f64) -> u64 {
    ordered_key(v.to_bits())
}

fn value(k: u64) -> f64 {
    f64::from_bits(bits_of_key(k))
}

#[test]
fn keys_follow_the_order_of_values() {
    let values = [f64::NEG_INFINITY, -1e300, -2.5, -1.0, -1e-300, -0.0, 0.0, 1e-300, 1.0, 2.5, 1e300, f64::INFINITY];
    for w in values.windows(2) {
        assert!(key(w[0]) < key(w[1]), "{} {}", w[0], w[1]);
    }
}

#[test]
fn keys_decode_to_their_values() {
    for v in [-3.75f64, -0.0, 0.0, 42.0, 1e-10, f64::MAX, f64::MIN] {
        assert_eq!(value(key(v)).to_bits(), v.to_bits());
    }
    assert_eq!(ordered_key(0), 1u64 << 63);
    assert_eq!(bits_of_key(1u64 << 63), 0);
}

#[test]
fn median_of_real_values() {
    let sample = [2.0f64, 4.0, 4.0, 4.0, 5.0, 5.0, 7.0, 9.0];
    let keys: Vec<u64> = sample.iter().map(|v| key(*v)).collect();
    let s = OrderStats::from_keys(&keys).unwrap();
    assert_eq!(value(s.min), 2.0);
    assert_eq!(value(s.max), 9.0);
    assert_eq!((value(s.median_low) + value(s.median_high)) / 2.0, 4.5);
}

#[test]
fn negative_values_rank_below_positive() {
    let sample = [3.0f64, -7.5, 0.25, -0.5, 10.0];
    let keys: Vec<u64> = sample.iter().map(|v| key(*v)).collect();
    let s = OrderStats::from_keys(&keys).unwrap();
    assert_eq!(value(s.min), -7.5);
    assert_eq!(value(s.max), 10.0);
    assert_eq!(value(s.median_low), 0.25);
}
