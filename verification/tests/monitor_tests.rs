//! Monitor tests: architecture detection, the dual-backend I/O-request
//! monitor, memory-controller counter wrap, power derivation, RMID pooling
//! and socket-aware collection, graceful I/O-bridge degradation, core
//! metrics, MCFG parsing and the collector facade.

use uncflow::arch::{detect_architecture, get_mbm_scaling_factor, CpuArchitecture};
use uncflow::calculator::MetricCalculator;
use uncflow::collector::{cha_gauge_values, imc_gauge_values, rapl_gauge_values, CollectorConfig, CollectorInit, MetricCollector};
use uncflow::config::ExportConfig;
use uncflow::core_monitor::{CoreMetrics, CoreMonitor};
use uncflow::error::UncflowError;
use uncflow::gauges::{GaugeBoard, GaugeKey, GaugeScope, MetricId};
use uncflow::iio_monitor::IioMonitor;
use uncflow::imc_monitor::{ImcCounters, ImcMonitor};
use uncflow::irp_monitor::{IrpBackend, IrpEvent, IrpMonitor};
use uncflow::mcfg::{candidate_buses, parse_mcfg, select_candidate, validate_pci_probe, Mcfg, McfgRecord, PciAddress, PciConfigAddress};
use uncflow::rapl_monitor::{RaplMonitor, RaplRawReadings};
use uncflow::ratio::Ratio;
use uncflow::rdt_monitor::{RdtMonitor, RMID_MAX};
use uncflow::unit_metrics::{CoreMetric, IioMetric, IrpMetric, RaplMetric, RdtMetric, ImcMetric};

const SECOND_NS: u64 = 1_000_000_000;

fn as_f64(r: Ratio) -> f64 {
    r.num as f64 / r.den as f64
}

/// The EAX word CPUID leaf 1 returns for a given family, model and stepping.
fn eax_for(family: u32, model: u32, stepping: u32) -> u32 {
    (stepping & 0xF)
        | ((model & 0xF) << 4)
        | ((family & 0xF) << 8)
        | (((model >> 4) & 0xF) << 16)
}

#[test]
fn test_architecture_detection() {
    // A family-6 server part must resolve to a named architecture.
    let arch = detect_architecture(eax_for(6, 0x55, 4));
    println!("Detected architecture: {arch:?}");
    assert_ne!(arch, CpuArchitecture::Unknown);
}

#[test]
fn test_architecture_features() {
    let skylake = CpuArchitecture::Skylake;
    assert!(skylake.supports_offcore_response());
    assert_eq!(skylake.cha_count(), Some(14));

    let events = skylake.l2_eviction_events();
    assert_eq!(events.len(), 2);
    assert_eq!(events[0].2, "L2OutSilent");
}

#[test]
fn test_architecture_table() {
    assert_eq!(detect_architecture(eax_for(6, 0x3F, 2)), CpuArchitecture::Haswell);
    assert_eq!(detect_architecture(eax_for(6, 0x4F, 1)), CpuArchitecture::Broadwell);
    assert_eq!(detect_architecture(eax_for(6, 0x55, 4)), CpuArchitecture::Skylake);
    assert_eq!(detect_architecture(eax_for(6, 0x55, 7)), CpuArchitecture::CascadeLake);
    assert_eq!(detect_architecture(eax_for(6, 0x6A, 6)), CpuArchitecture::IceLake);
    // Unknown newer models fall back to the closest compatible architecture.
    assert_eq!(detect_architecture(eax_for(6, 0x8F, 0)), CpuArchitecture::Skylake);
    // Non-Intel families are unknown.
    assert_eq!(detect_architecture(eax_for(0xF, 0x55, 0)), CpuArchitecture::Unknown);
    assert_eq!(get_mbm_scaling_factor(0), 1);
    assert_eq!(get_mbm_scaling_factor(64), 64);
}

/// Haswell selects the PCI backend, programs the catalog in pairs, and the
/// derived metrics take their documented values.
#[test]
fn test_haswell_irp_pci_mode() {
    let arch = detect_architecture(eax_for(6, 0x3F, 2));
    assert_eq!(arch, CpuArchitecture::Haswell);

    // Vendor 0x8086, device 0x6F39 confirms the unit.
    let probe = Some(0x6F39_8086u32);
    let mut monitor = IrpMonitor::new(0, arch, probe).unwrap();
    assert_eq!(monitor.backend, IrpBackend::Pci { socket: 0 });

    // Programming goes in pairs across the four counters.
    let ops = monitor.program_pci_pair(IrpEvent::All, IrpEvent::Clockticks);
    assert_eq!(ops.len(), 7);
    assert_eq!(ops[0].offset, 0xF4);
    assert_eq!(ops[2].offset, 0xD8);

    // clockticks = 1e9, all_inserts = 1e6, all_occupancy = 2e7, over 1 s.
    let first = monitor.ingest_event(IrpEvent::All, 20_000_000, 1_000_000, SECOND_NS);
    // Without clockticks yet, only the bandwidth is published.
    assert_eq!(first.len(), 1);
    assert_eq!(first[0].0, IrpMetric::IRPAllBandwidth);
    assert!((as_f64(first[0].1) - 0.064).abs() < 1e-12);

    let clk = monitor.ingest_event(IrpEvent::Clockticks, 123, 1_000_000_000, SECOND_NS);
    assert_eq!(clk.len(), 2);
    assert_eq!(clk[0].0, IrpMetric::IRPFrequency);
    assert!((as_f64(clk[0].1) - 1.0).abs() < 1e-12);
    assert_eq!(clk[1].0, IrpMetric::IRPAnyOccupancy);
    assert!((as_f64(clk[1].1) - 0.02).abs() < 1e-12);

    let again = monitor.ingest_event(IrpEvent::All, 20_000_000, 1_000_000, SECOND_NS);
    assert_eq!(again.len(), 2);
    assert_eq!(again[0].0, IrpMetric::IRPLatency);
    assert!((as_f64(again[0].1) - 20.0).abs() < 1e-12);
}

#[test]
fn test_irp_backend_errors() {
    // A Skylake part uses MSRs without probing.
    let msr = IrpMonitor::new(1, CpuArchitecture::Skylake, None).unwrap();
    assert_eq!(msr.backend, IrpBackend::Msr { core: 16 });
    let ops = msr.program_msr_event(IrpEvent::RFO);
    assert_eq!(ops.len(), 15); // five writes per unit, three units

    // A Haswell part with the wrong device fails its probe.
    let bad = IrpMonitor::new(0, CpuArchitecture::Haswell, Some(0x1234_8086));
    assert!(matches!(bad, Err(UncflowError::HwPci { .. })));
    let missing = IrpMonitor::new(0, CpuArchitecture::Haswell, None);
    assert!(matches!(missing, Err(UncflowError::HwPci { .. })));

    // An unknown architecture has no IRP units.
    let unknown = IrpMonitor::new(0, CpuArchitecture::Unknown, None);
    assert!(matches!(unknown, Err(UncflowError::HwUnsupported)));
}

/// A wrapped 48-bit CAS-read counter still yields the true increment, and
/// the increment feeds the bandwidth at 64 bytes per operation.
#[test]
fn test_imc_counter_wrap() {
    // Only channel 0 probes as an Intel device.
    let probes = vec![Some(0x2042_8086u32), None, None, None, None, None];
    let mut monitor = ImcMonitor::new(0, &probes);
    assert_eq!(monitor.channels, vec![0]);
    assert!(!monitor.fallback_assumed);

    let first = ImcCounters { read_count: 0xFFFF_FFFF_FFF6, ..Default::default() };
    monitor.collect(&vec![first], SECOND_NS);

    let second = ImcCounters { read_count: 5, ..Default::default() };
    let metrics = monitor.collect(&vec![second], SECOND_NS);

    // Delta is 15; contribution to read bandwidth is 15 * 64 = 960 bytes/s.
    assert!((as_f64(metrics.read_bandwidth) - 960.0).abs() < 1e-9);
    let rows = imc_gauge_values(&metrics);
    assert_eq!(rows.len(), 11);
    assert_eq!(rows[0].0, ImcMetric::MemoryReadBandwidth);
    assert!((as_f64(rows[0].1) - 960.0).abs() < 1e-9);
}

#[test]
fn test_imc_detection_fallback() {
    // With no channel probing as Intel, two channels are assumed.
    let probes = vec![None, None, None, None, None, None];
    let monitor = ImcMonitor::new(3, &probes);
    assert_eq!(monitor.channels, vec![0, 1]);
    assert!(monitor.fallback_assumed);
    // The programming sequence covers both assumed channels.
    let ops = monitor.initialize();
    assert_eq!(ops.len(), 14);
    assert_eq!(ops[0].offset, 0xF4);
    assert_eq!(ops[0].value, (1 << 8) | (1 << 16));
}

#[test]
fn test_imc_queue_heuristic() {
    let probes = vec![Some(0x2042_8086u32), None, None, None, None, None];
    let mut monitor = ImcMonitor::new(0, &probes);
    // Deltas: rpq occupancy 900 against 1000 memory clocks: the queue is
    // non-empty ninety percent of the time, so it counts as half full.
    let reading = ImcCounters {
        read_count: 0,
        write_count: 0,
        rpq_occupancy: 900,
        wpq_occupancy: 100,
        cycles: 1000,
    };
    let metrics = monitor.collect(&vec![reading], SECOND_NS);
    assert!((as_f64(metrics.rpq_non_empty) - 0.9).abs() < 1e-12);
    assert!((as_f64(metrics.rpq_full) - 0.45).abs() < 1e-12);
    // The write queue stays below the threshold, so it is not full at all.
    assert!((as_f64(metrics.wpq_non_empty) - 0.1).abs() < 1e-12);
    assert_eq!(metrics.wpq_full.num, 0);
}

/// A power-unit word of 0x000A0E03 gives an energy unit of 1/2^14 joules
/// per LSB; a package delta of 16384 units over one second is one joule per
/// second.
#[test]
fn test_rapl_energy_derivation() {
    let state = RaplMonitor::socket_state(
        0,
        0,
        0x000A_0E03,
        RaplRawReadings { pkg: 0, pp0: 0, dram: 0 },
    );
    assert_eq!(state.energy_exponent, 14);

    let mut monitor = RaplMonitor::new(vec![state]);
    let energy = monitor.get_current_energy(0, RaplRawReadings { pkg: 16384, pp0: 8192, dram: 0 });
    assert!((as_f64(energy.package_energy) - 1.0).abs() < 1e-12);
    assert!((as_f64(energy.core_energy) - 0.5).abs() < 1e-12);

    let power = monitor.get_power_consumption(
        0,
        RaplRawReadings { pkg: 16384, pp0: 0, dram: 0 },
        SECOND_NS,
    );
    assert!((as_f64(power.package_energy) - 1.0).abs() < 1e-12);

    let rows = rapl_gauge_values(&energy, &power);
    assert_eq!(rows.len(), 6);
    assert_eq!(rows[0].0, RaplMetric::PackageEnergy);
    assert_eq!(rows[3].0, RaplMetric::PackagePower);
}

#[test]
fn test_rapl_find_first_cpu() {
    let cores = vec![0u32, 1, 8, 9];
    let packages = vec![Some(0u32), Some(0), Some(1), Some(1)];
    assert_eq!(RaplMonitor::find_first_cpu_for_socket(&cores, &packages, 1), 8);
    assert_eq!(RaplMonitor::find_first_cpu_for_socket(&cores, &packages, 0), 0);
    // No match falls back to the first core.
    assert_eq!(RaplMonitor::find_first_cpu_for_socket(&cores, &packages, 7), 0);
}

/// Two sockets of four cores each: collection on socket 1 goes through a
/// representative core of socket 1, writing `(rmid << 32) | event`.
#[test]
fn test_rdt_numa_collection() {
    let cores = vec![0u32, 1, 2, 3, 8, 9, 10, 11];
    let packages = vec![0u32, 0, 0, 0, 1, 1, 1, 1];
    let mut monitor = RdtMonitor::new(cores, &packages, 1);
    assert_eq!(monitor.sockets.len(), 2);

    let assocs = vec![0u64; 8];
    let ops = monitor.initialize(&assocs).unwrap();
    assert_eq!(ops.len(), 8);
    // Core 8 is the fifth core, so it owns RMID 5.
    assert_eq!(ops[4].cpu, 8);
    assert_eq!(ops[4].value, 5);

    let requests = monitor.collection_requests(1);
    assert_eq!(requests.len(), 12);
    // Every request on socket 1 goes through its representative core 8.
    assert!(requests.iter().all(|rq| rq.monitor_cpu == 8));
    // The local-bandwidth request of core 8: (rmid_8 << 32) | 2.
    assert_eq!(requests[1].core, 8);
    assert_eq!(requests[1].evtsel, (5u64 << 32) | 2);

    // Counters flow back per core: occupancy, local, remote.
    monitor.apply_core_counters(8, 7, 100, 50);
    monitor.apply_core_counters(9, 3, 10, 5);
    monitor.apply_core_counters(10, 0, 0, 0);
    monitor.apply_core_counters(11, 0, 0, 0);
    monitor.update();
    let socket_rows = monitor.get_socket_metrics(1);
    assert_eq!(socket_rows.len(), 4);
    assert_eq!(socket_rows[0], (RdtMetric::LocalMemoryBandwidth, 110));
    assert_eq!(socket_rows[1], (RdtMetric::RemoteMemoryBandwidth, 55));
    assert_eq!(socket_rows[3], (RdtMetric::LlcOccupancy, 10));

    let core_rows = monitor.get_metrics(8);
    assert_eq!(core_rows[0], (RdtMetric::LocalMemoryBandwidth, 100));
    assert_eq!(core_rows[2], (RdtMetric::TotalMemoryBandwidth, 150));
    // A bandwidth counter that went backwards counts from zero again.
    monitor.apply_core_counters(8, 7, 40, 60);
    let core_rows2 = monitor.get_metrics(8);
    assert_eq!(core_rows2[0], (RdtMetric::LocalMemoryBandwidth, 40));
    assert_eq!(core_rows2[1], (RdtMetric::RemoteMemoryBandwidth, 10));
}

#[test]
fn test_rmid_pool() {
    let cores: Vec<u32> = (0..4).collect();
    let packages = vec![0u32; 4];
    let mut monitor = RdtMonitor::new(cores, &packages, 1);

    // Ids come out in order starting at one.
    for expected in 1..RMID_MAX as u32 {
        assert_eq!(monitor.allocate_rmid().unwrap(), expected);
    }
    // After RMID_MAX - 1 allocations the pool is exhausted.
    assert!(monitor.allocate_rmid().is_err());
    // Freeing makes an id re-issuable.
    monitor.free_rmid(42);
    assert_eq!(monitor.allocate_rmid().unwrap(), 42);
}

#[test]
fn test_rdt_release_all() {
    let cores = vec![0u32, 1, 2, 3];
    let packages = vec![0u32; 4];
    let mut monitor = RdtMonitor::new(cores, &packages, 1);
    let assocs = vec![0u64; 4];
    monitor.initialize(&assocs).unwrap();
    assert!(monitor.rmid_used[1] && monitor.rmid_used[4]);
    monitor.release_all();
    for id in 1..RMID_MAX {
        assert!(!monitor.rmid_used[id]);
    }
}

#[test]
fn test_rdt_refresh_and_exhaustion() {
    let cores = vec![0u32, 1];
    let packages = vec![0u32, 0];
    let mut monitor = RdtMonitor::new(cores, &packages, 1);
    let assocs = vec![0xABC0_0000_0000_0777u64, 0];
    monitor.initialize(&assocs).unwrap();
    let refreshed = monitor.refresh_rmids(&assocs);
    assert_eq!(refreshed.len(), 2);
    // The class-of-service bits stay; the low ten bits become the RMID.
    assert_eq!(refreshed[0].value, (0xABC0_0000_0000_0777u64 & !0x3FF) | 1);

    // More cores than the pool holds cannot all be initialized.
    let many: Vec<u32> = (0..300).collect();
    let many_packages = vec![0u32; 300];
    let mut big = RdtMonitor::new(many, &many_packages, 1);
    let big_assocs = vec![0u64; 300];
    assert!(matches!(big.initialize(&big_assocs), Err(UncflowError::HwConfig)));
}

/// When programming is refused the monitor warns exactly once, keeps the
/// programmable counters off for good, and still reports PCIe bandwidth.
#[test]
fn test_iio_graceful_degradation() {
    let mut monitor = IioMonitor::new(0);
    assert!(monitor.programmable_available());
    let ops = monitor.program_group(0);
    assert_eq!(ops.len(), 21); // seven writes per unit, three units

    // The kernel refused the write: warn once, then stay quiet.
    assert!(monitor.note_program_failure());
    assert!(!monitor.note_program_failure());
    assert!(!monitor.programmable_available());

    // PCIe bandwidth still flows: baseline, then one second of traffic.
    let baseline = vec![0u64; 24];
    let none = monitor.collect_pcie_bandwidth(baseline, 0);
    assert!(none.is_empty());
    let mut next = vec![0u64; 24];
    next[0] = 1_000_000; // stack 0, inbound port 0
    let rows = monitor.collect_pcie_bandwidth(next, SECOND_NS);
    assert_eq!(rows.len(), 24);
    assert_eq!(rows[0].0, IioMetric::PCIeInBandwidth(0, 0));
    assert!((as_f64(rows[0].1) - 0.064).abs() < 1e-12);
    assert_eq!(rows[4].0, IioMetric::PCIeOutBandwidth(0, 0));
    assert_eq!(rows[4].1.num, 0);
}

#[test]
fn test_iio_programmable_metrics() {
    let mut monitor = IioMonitor::new(0);
    // The TLB-miss group saw 5/1/2/3 per unit across three units.
    monitor.ingest_group(0, vec![[5, 1, 2, 3, 0]; 3]);
    // The occupancy group saw 600 occupancy against 2000 clockticks.
    monitor.ingest_group(2, vec![[200, 0, 0, 0, 1_000_000_000]; 2]);
    let rows = monitor.calculate_programmable_metrics();
    // Four TLB-miss rows plus frequency and occupancy; the unmeasured
    // TLB-hit group publishes nothing.
    assert_eq!(rows.len(), 6);
    assert_eq!(rows[0].0, IioMetric::IIOTLBMiss);
    assert_eq!(rows[0].1.num, 15);
    assert_eq!(rows[4].0, IioMetric::IIOFrequency);
    assert!((as_f64(rows[4].1) - 2.0).abs() < 1e-12);
    assert_eq!(rows[5].0, IioMetric::IIOOccupancy);
    assert!((as_f64(rows[5].1) - 0.0000002).abs() < 1e-15);

    // Once the counters are unavailable nothing is published at all.
    monitor.note_program_failure();
    assert!(monitor.calculate_programmable_metrics().is_empty());
}

#[test]
fn test_iio_pcie_wrap() {
    let mut monitor = IioMonitor::new(0);
    let mut first = vec![0u64; 24];
    first[3] = (1u64 << 36) - 10;
    monitor.collect_pcie_bandwidth(first, 0);
    let mut second = vec![0u64; 24];
    second[3] = 5;
    let rows = monitor.collect_pcie_bandwidth(second, SECOND_NS);
    // The 36-bit counter wrapped: delta 15, at 64 bytes per count.
    assert_eq!(rows[3].0, IioMetric::PCIeInBandwidth(0, 3));
    assert_eq!(rows[3].1.num, 15 * 64);
    assert_eq!(rows[3].1.den, SECOND_NS as u128);
}

#[test]
fn test_core_monitor_metrics() {
    // A platform-information ratio of 24 means 2.4 GHz.
    let platform_info = 24u64 << 8;
    let mut monitor = CoreMonitor::new(vec![0, 1], platform_info);
    assert_eq!(monitor.base_frequency_hz, 2_400_000_000);

    let init = monitor.initialize();
    assert_eq!(init.len(), 28); // fourteen writes per core
    assert_eq!(init[0].value, 0);
    assert_eq!(init[1].value, 0x333);
    assert_eq!(init[13].value, (0x7u64 << 32) | 0xF);

    monitor.ingest_core_counters(
        0,
        CoreMetrics {
            tsc: 1,
            instructions: 3_000,
            cycles: 1_500,
            ref_cycles: 2_400_000_000,
            llc_ref: 1_000,
            llc_miss: 250,
            l2_miss: 100,
            l2_ref: 400,
            ..Default::default()
        },
    );
    let rows = monitor.get_metrics(0);
    assert_eq!(rows.len(), 12);
    assert_eq!(rows[2].0, CoreMetric::IPC);
    assert!((as_f64(rows[2].1) - 2.0).abs() < 1e-12);
    assert_eq!(rows[5].0, CoreMetric::L3CacheHitRatio);
    assert!((as_f64(rows[5].1) - 0.75).abs() < 1e-12);
    assert_eq!(rows[11].0, CoreMetric::ElapsedTime);
    assert!((as_f64(rows[11].1) - 1.0).abs() < 1e-12);
    // The other core has no readings yet, so nothing is published for it.
    assert!(monitor.get_metrics(1).is_empty());

    let shutdown = monitor.shutdown_ops();
    assert_eq!(shutdown.len(), 2);
    assert_eq!(shutdown[0].value, 0);
}

/// A header declaring `44 + 16 k` bytes yields exactly `k` records; a
/// truncated file is rejected as malformed.
#[test]
fn test_mcfg_parsing() {
    let mut table = vec![0u8; 44 + 32];
    table[0..4].copy_from_slice(b"MCFG");
    let length = (44 + 32u32).to_le_bytes();
    table[4..8].copy_from_slice(&length);
    // Record 0: base 0xE0000000, segment 0, buses 0x00-0x3F.
    table[44..52].copy_from_slice(&0xE000_0000u64.to_le_bytes());
    table[52..54].copy_from_slice(&0u16.to_le_bytes());
    table[54] = 0x00;
    table[55] = 0x3F;
    // Record 1: base 0xF0000000, segment 1, buses 0x80-0x81.
    table[60..68].copy_from_slice(&0xF000_0000u64.to_le_bytes());
    table[68..70].copy_from_slice(&1u16.to_le_bytes());
    table[70] = 0x80;
    table[71] = 0x81;

    let records = parse_mcfg(&table).unwrap();
    assert_eq!(records.len(), 2);
    assert_eq!(records[0].base_address, 0xE000_0000);
    assert_eq!(records[0].start_bus, 0x00);
    assert_eq!(records[0].end_bus, 0x3F);
    assert_eq!(records[1].pci_segment_group, 1);

    // Truncated: the file is shorter than its declared length.
    let truncated = &table[..44 + 16];
    assert!(matches!(parse_mcfg(truncated), Err(UncflowError::Parse)));
    // Shorter than the header itself.
    assert!(matches!(parse_mcfg(&table[..10]), Err(UncflowError::Parse)));
}

#[test]
fn test_pci_resolution() {
    let records = vec![
        McfgRecord { base_address: 0, pci_segment_group: 0, start_bus: 0, end_bus: 2 },
        McfgRecord { base_address: 0, pci_segment_group: 1, start_bus: 5, end_bus: 5 },
    ];
    let candidates = candidate_buses(&records);
    assert_eq!(candidates, vec![(0, 0), (0, 1), (0, 2), (1, 5)]);

    assert!(validate_pci_probe(0x2042_8086, 0x2042));
    assert!(!validate_pci_probe(0x2042_8087, 0x2042));
    assert!(!validate_pci_probe(0x2043_8086, 0x2042));

    let matches_found = vec![
        PciAddress { group_number: 0, bus: 0, device: 10, function: 2 },
        PciAddress { group_number: 0, bus: 1, device: 10, function: 2 },
    ];
    // The socket-th match in scan order is selected.
    assert_eq!(select_candidate(&matches_found, 1).unwrap().bus, 1);
    assert!(select_candidate(&matches_found, 2).is_err());

    // Resolutions are memoized.
    let mut mcfg = Mcfg::new(records);
    let target = PciConfigAddress { socket: 0, device: 10, function: 2, device_id: 0x2042 };
    assert!(mcfg.lookup(target).is_none());
    mcfg.remember(target, matches_found[0]);
    assert_eq!(mcfg.lookup(target), Some(matches_found[0]));
}

#[test]
fn test_export_config_labels() {
    let config = ExportConfig::new(vec![0, 1], vec![0, 5, 23]);
    assert_eq!(config.core_labels.len(), 3);
    assert_eq!(config.core_labels[1].0, 5);
    assert_eq!(config.core_labels[1].1, "core_5");
    assert_eq!(config.core_labels[2].1, "core_23");
    assert!(config.core_label(5).is_some());
    assert!(config.core_label(6).is_none());
}

#[test]
fn test_collector_facade() {
    let config = ExportConfig::new(vec![0], vec![0, 1]);
    let flags = CollectorConfig {
        rapl: true,
        rdt: true,
        core_metrics: true,
        imc: true,
        cha: true,
        irp: true,
        iio: true,
    };
    let init = CollectorInit {
        arch: CpuArchitecture::Skylake,
        now_ns: 0,
        mbm_ebx: 1,
        platform_info: 24 << 8,
        imc_probes: vec![vec![Some(0x2042_8086), None, None, None, None, None]],
        irp_probes: vec![None],
        rapl_states: vec![RaplMonitor::socket_state(0, 0, 0x000A_0E03, RaplRawReadings::default())],
        core_packages: vec![0, 0],
    };
    let collector = MetricCollector::new(config, flags, init);
    assert!(collector.rapl.is_some());
    assert!(collector.rdt.is_some());
    assert!(collector.core.is_some());
    assert_eq!(collector.imc.len(), 1);
    assert_eq!(collector.cha.len(), 1);
    assert_eq!(collector.iio.len(), 1);
    // The MSR-backed IRP monitor needs no probe on this architecture.
    assert_eq!(collector.irp.len(), 1);

    // With every flag off nothing is built.
    let off = MetricCollector::new(
        ExportConfig::new(vec![0], vec![0]),
        CollectorConfig::default(),
        CollectorInit {
            arch: CpuArchitecture::Skylake,
            now_ns: 0,
            mbm_ebx: 0,
            platform_info: 0,
            imc_probes: vec![vec![None; 6]],
            irp_probes: vec![None],
            rapl_states: vec![],
            core_packages: vec![0],
        },
    );
    assert!(off.rapl.is_none() && off.rdt.is_none() && off.core.is_none());
    assert!(off.imc.is_empty() && off.cha.is_empty() && off.irp.is_empty() && off.iio.is_empty());
}

#[test]
fn test_gauge_board_retains_prior_values() {
    let mut board = GaugeBoard::new();
    let freq = GaugeKey {
        metric: MetricId::Irp(IrpMetric::IRPFrequency),
        scope: GaugeScope::Socket(0),
    };
    let latency = GaugeKey {
        metric: MetricId::Irp(IrpMetric::IRPLatency),
        scope: GaugeScope::Socket(0),
    };
    assert!(board.gauge_snapshot().is_empty());
    board.update(freq, Ratio { num: 1, den: 1 });
    board.update(latency, Ratio { num: 20, den: 1 });
    // A tick that publishes only the frequency overwrites that gauge whole
    // and leaves the latency gauge untouched.
    board.update(freq, Ratio { num: 2, den: 1 });
    let snapshot = board.gauge_snapshot();
    assert_eq!(snapshot.len(), 2);
    assert_eq!(snapshot[0], (freq, Ratio { num: 2, den: 1 }));
    assert_eq!(snapshot[1], (latency, Ratio { num: 20, den: 1 }));
    // The same metric on another socket is a different gauge.
    let other = GaugeKey {
        metric: MetricId::Irp(IrpMetric::IRPFrequency),
        scope: GaugeScope::Socket(1),
    };
    board.update(other, Ratio { num: 3, den: 1 });
    assert_eq!(board.gauge_snapshot().len(), 3);
}

#[test]
fn test_cha_gauge_rows() {
    let mut calc = MetricCalculator::new();
    calc.store_event(
        uncflow::calculator::ChaEventId::Transaction(uncflow::cha_events::TransactionType::PCIeRead, true),
        uncflow::calculator::RawEventData {
            occupancy: 10,
            insert: 800,
            clockticks: 100,
            duration_ns: SECOND_NS,
        },
    );
    calc.store_event(
        uncflow::calculator::ChaEventId::Transaction(uncflow::cha_events::TransactionType::PCIeRead, false),
        uncflow::calculator::RawEventData {
            occupancy: 20,
            insert: 200,
            clockticks: 100,
            duration_ns: SECOND_NS,
        },
    );
    let rows = cha_gauge_values(&calc);
    // One measured transaction publishes nine rows; the rest of the catalog
    // still publishes its lookup, victim, eviction, queue, frequency and
    // credit rows (9 + 28 + 4 + 3 + 8 = 52).
    assert_eq!(rows.len(), 52);
    let hit_rate_row = rows
        .iter()
        .find(|(m, _)| {
            matches!(
                m,
                uncflow::cha_metrics::ChaMetric::Transaction(
                    uncflow::cha_events::TransactionType::PCIeRead,
                    uncflow::cha_metrics::TransactionMetricType::HitRate,
                )
            )
        })
        .unwrap();
    assert!((as_f64(hit_rate_row.1) - 0.8).abs() < 1e-12);
    // Unmeasured transactions publish no rows at all.
    assert!(!rows.iter().any(|(m, _)| {
        matches!(
            m,
            uncflow::cha_metrics::ChaMetric::Transaction(uncflow::cha_events::TransactionType::RFO, _)
        )
    }));
}
