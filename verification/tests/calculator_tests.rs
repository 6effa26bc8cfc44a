//! Metric-calculator tests: the conversion formulas on exact values and at
//! their zero edges.

use uncflow::calculator::MetricCalculator;
use uncflow::calculator::{ChaEventId, RawEventData};
use uncflow::cha_events::TransactionType;
use uncflow::cha_metrics::TransactionMetricType;
use uncflow::counters::counter_delta;
use uncflow::ratio::Ratio;

fn as_f64(r: Ratio) -> f64 {
    r.num as f64 / r.den as f64
}

#[test]
fn test_bandwidth_calculation() {
    let bw = MetricCalculator::calculate_bandwidth(1000, 1_000_000_000);
    // 1000 * 64 bytes / 1 second = 64000 bytes/s = 0.000064 GB/s
    assert!((as_f64(bw) - 0.000_064).abs() < 1e-9);
}

#[test]
fn test_hit_rate_calculation() {
    let hit_rate = MetricCalculator::calculate_hit_rate(800, 200);
    assert!((as_f64(hit_rate) - 0.8).abs() < 1e-9);
}

#[test]
fn test_occupancy_calculation() {
    let occ = MetricCalculator::calculate_occupancy(1000, 10000);
    assert!((as_f64(occ) - 0.1).abs() < 1e-9);
}

#[test]
fn test_bandwidth_zero_edges() {
    // No inserts give zero bandwidth for any elapsed time, and no elapsed
    // time gives zero bandwidth for any insert count.
    assert!(MetricCalculator::calculate_bandwidth(0, 123_456).num == 0);
    assert!(MetricCalculator::calculate_bandwidth(987_654, 0).num == 0);
}

#[test]
fn test_hit_rate_bounds() {
    let zero = MetricCalculator::calculate_hit_rate(0, 0);
    assert_eq!(zero.num, 0);
    for (h, m) in [(0u64, 5u64), (5, 0), (3, 7), (u64::MAX, u64::MAX)] {
        let r = MetricCalculator::calculate_hit_rate(h, m);
        assert!(r.num <= r.den);
        assert!(r.den > 0);
    }
}

#[test]
fn test_occupancy_ratio_edges() {
    assert_eq!(MetricCalculator::calculate_occupancy(42, 0).num, 0);
    let one = MetricCalculator::calculate_occupancy(1234, 1234);
    assert_eq!(one.num, one.den);
    assert!((as_f64(one) - 1.0).abs() < 1e-12);
}

#[test]
fn test_latency_zero_edges() {
    assert_eq!(MetricCalculator::calculate_latency(100, 0, 100, 100).num, 0);
    assert_eq!(MetricCalculator::calculate_latency(100, 100, 0, 100).num, 0);
    // Exact value: (occupancy / inserts) * (clockticks / elapsed_ns).
    let lat = MetricCalculator::calculate_latency(20_000_000, 1_000_000, 1_000_000_000, 1_000_000_000);
    assert!((as_f64(lat) - 20.0).abs() < 1e-9);
}

#[test]
fn test_frequency_calculation() {
    // 2.4e9 clockticks over one second is 2.4 GHz.
    let f = MetricCalculator::calculate_frequency(2_400_000_000, 1_000_000_000);
    assert!((as_f64(f) - 2.4).abs() < 1e-12);
    assert_eq!(MetricCalculator::calculate_frequency(5, 0).num, 0);
}

#[test]
fn test_ratio_construction() {
    let r = Ratio::of(3, 4);
    assert_eq!((r.num, r.den), (3, 4));
    assert!((as_f64(r) - 0.75).abs() < 1e-12);
    // A zero denominator denotes the zero value, in canonical form.
    let z = Ratio::of(7, 0);
    assert_eq!((z.num, z.den), (0, 1));
    assert_eq!(Ratio::zero(), z);
}

#[test]
fn test_counter_delta_wrap() {
    // A 48-bit counter that wrapped: delta(5, 2^48 - 1) == 6.
    let modulus = 0x1_0000_0000_0000u64;
    assert_eq!(counter_delta(5, modulus - 1, modulus), 6);
    assert_eq!(counter_delta(10, 4, modulus), 6);
    assert_eq!(counter_delta(7, 7, modulus), 0);
}

#[test]
fn test_store_and_transaction_metrics() {
    let mut calc = MetricCalculator::new();
    let hit = RawEventData {
        occupancy: 2_000,
        insert: 800,
        clockticks: 1_000_000,
        duration_ns: 1_000_000_000,
    };
    let miss = RawEventData {
        occupancy: 9_000,
        insert: 200,
        clockticks: 1_000_000,
        duration_ns: 1_000_000_000,
    };
    calc.store_event(ChaEventId::Transaction(TransactionType::PCIeRead, true), hit);
    calc.store_event(ChaEventId::Transaction(TransactionType::PCIeRead, false), miss);

    let metrics = calc.calculate_transaction_metrics(TransactionType::PCIeRead);
    assert_eq!(metrics.len(), 9);
    assert_eq!(metrics[5].0, TransactionMetricType::HitRate);
    assert!((as_f64(metrics[5].1) - 0.8).abs() < 1e-12);
    // Combined bandwidth counts both flavours' inserts.
    assert_eq!(metrics[0].0, TransactionMetricType::Bandwidth);
    assert!((as_f64(metrics[0].1) - 0.000_064).abs() < 1e-12);

    // A transaction with no stored measurements yields nothing.
    let empty = calc.calculate_transaction_metrics(TransactionType::RFO);
    assert_eq!(empty.len(), 0);
}
