//! CHA tests: the event catalog, the rotation scheduler with a fake clock,
//! the metric identifiers, and the monitor's rotation behaviour.

use uncflow::arch::CpuArchitecture;
use uncflow::cha_events::{ChaEventConfig, LLCLookupType, LLCState, TransactionType};
use uncflow::cha_metrics::{ChaMetric, TransactionMetricType};
use uncflow::cha_monitor::{ChaMonitor, ChaRawCounters, EventScheduler};

const SECOND_NS: u64 = 1_000_000_000;

#[test]
fn test_event_scheduler() {
    let mut scheduler = EventScheduler::new(SECOND_NS, 0);

    let config1 = ChaEventConfig::transaction(TransactionType::PCIeRead, true);
    let config2 = ChaEventConfig::transaction(TransactionType::PCIeRead, false);

    scheduler.add_event_group(config1);
    scheduler.add_event_group(config2);

    assert_eq!(scheduler.groups.len(), 2);
    assert_eq!(scheduler.current_index, 0);

    scheduler.rotate(SECOND_NS);
    assert_eq!(scheduler.current_group_index(), 1);

    scheduler.rotate(2 * SECOND_NS);
    assert_eq!(scheduler.current_group_index(), 0); // Wrap around
}

#[test]
fn test_event_group_count() {
    let configs = ChaEventConfig::all_transactions();
    // 11 transaction types x 2 (hit/miss) = 22 groups
    assert_eq!(configs.len(), 22);
}

#[test]
fn test_scheduler_current_group() {
    let mut scheduler = EventScheduler::new(SECOND_NS, 0);
    assert!(scheduler.get_current_group().is_none());
    scheduler.add_event_group(ChaEventConfig::transaction(TransactionType::RFO, true));
    let group = scheduler.get_current_group().unwrap();
    assert_eq!(group.config.transaction_type, Some(TransactionType::RFO));
    assert_eq!(group.counter_configs.len(), 4);
}

#[test]
fn test_scheduler_should_rotate() {
    let mut scheduler = EventScheduler::new(2 * SECOND_NS, 0);
    scheduler.add_event_group(ChaEventConfig::eviction());
    assert!(!scheduler.should_rotate(SECOND_NS));
    assert!(scheduler.should_rotate(2 * SECOND_NS));
    assert!(scheduler.should_rotate(3 * SECOND_NS));
}

#[test]
fn test_metric_count() {
    let all_metrics = ChaMetric::all();
    assert!(all_metrics.len() >= 137);
    println!("Total CHA metrics: {}", all_metrics.len());
}

#[test]
fn test_transaction_metrics() {
    let trans_type = TransactionType::PCIeRead;
    let metric_type = TransactionMetricType::HitBandwidth;
    let metric = ChaMetric::Transaction(trans_type, metric_type);

    assert_eq!(metric.name(), "PCIeReadHitBandwidth");
}

#[test]
fn test_llc_lookup_metrics() {
    let state = LLCState::M;
    let lookup_type = LLCLookupType::Read;
    let metric = ChaMetric::LLCLookup(state, lookup_type);

    assert_eq!(metric.name(), "LLCLookupMRead");
}

#[test]
fn test_llc_lookup_config() {
    let config = ChaEventConfig::llc_lookup(LLCState::M, LLCLookupType::Read);
    assert_eq!(config.events[0], (0x34, 0x03));
    assert_eq!(config.state, 0x40);
    assert_eq!(config.opc0, 0);
}

#[test]
fn test_all_llc_lookup_count() {
    // 7 states x 4 lookup types
    assert_eq!(ChaEventConfig::all_llc_lookups().len(), 28);
}

/// Over 44 seconds at one tick per second with a two-second rotation
/// interval and 22 groups, every group is the current group in exactly two
/// ticks; every rotation re-programs each box exactly once and clears the
/// previous-counter state.
#[test]
fn test_rotation_over_44_seconds() {
    let mut monitor = ChaMonitor::new(0, CpuArchitecture::Skylake, 0);
    let boxes = monitor.cha_count;
    assert_eq!(boxes, 14);
    let init_ops = monitor.initialize(0);
    assert_eq!(monitor.scheduler.groups.len(), 22);
    // A transaction group writes freeze, the opcode filter, two counter
    // controls and unfreeze to each box.
    assert_eq!(init_ops.len(), 5 * boxes);

    let readings = vec![ChaRawCounters::default(); boxes];
    let mut ticks_as_current = vec![0usize; 22];
    let mut rotations = 0usize;
    for tick in 1..=44u64 {
        let now = tick * SECOND_NS;
        ticks_as_current[monitor.scheduler.current_index] += 1;
        let ops = monitor.collect(now, &readings);
        if !ops.is_empty() {
            rotations += 1;
            // Re-programming touched every box exactly once: five writes
            // per box, and each box's freeze write appears once.
            assert_eq!(ops.len(), 5 * boxes);
            let freezes = ops
                .iter()
                .filter(|op| op.value == 0 && (op.addr - 0xE00) % 0x10 == 0)
                .count();
            assert_eq!(freezes, boxes);
            // Previous-counter state was dropped.
            assert!(monitor.prev_counters.iter().all(|p| p.is_none()));
        }
    }
    // Rotation fires every second tick: 22 rotations in 44 ticks, so each
    // of the 22 groups was current in exactly two ticks.
    assert_eq!(rotations, 22);
    for (group, &count) in ticks_as_current.iter().enumerate() {
        assert_eq!(count, 2, "group {group} was current {count} ticks");
    }
}

#[test]
fn test_collect_accumulates_deltas() {
    let mut monitor = ChaMonitor::new(0, CpuArchitecture::Broadwell, 0);
    let boxes = monitor.cha_count;
    assert_eq!(boxes, 14);
    monitor.initialize(0);
    // First tick establishes baselines from zero; all counters read 10.
    let readings = vec![
        ChaRawCounters { counter0: 10, counter1: 20, counter2: 30, counter3: 40 };
        boxes
    ];
    monitor.collect(SECOND_NS / 2, &readings);
    let data = &monitor.get_event_data()[0];
    assert_eq!(data.occupancy, 10 * boxes as u64);
    assert_eq!(data.insert, 20 * boxes as u64);
    assert_eq!(data.clockticks, 30 * boxes as u64);
    assert_eq!(data.duration_ns, SECOND_NS / 2);
}
