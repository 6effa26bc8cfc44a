//! Collector façade.
//!
//! The collector owns one optional monitor per unit class, chosen by enable
//! flags at start-up; a monitor whose hardware could not be confirmed is
//! omitted and the rest still start. The gauge functions turn each monitor's
//! latest derivation into the `(metric, value)` rows the scrape endpoint
//! publishes; a metric whose inputs were not measured this tick is not
//! published at all, so a failed collection never overwrites a gauge with
//! zero.

use vstd::prelude::*;
use crate::arch::CpuArchitecture;
use crate::calculator::{
    bandwidth_gbs, latency_ns, occupancy_ratio, ChaEventId, CreditType, MetricCalculator,
    QueueType,
};
use crate::cha_metrics::{ChaMetric, TransactionMetricType, VictimType, SFEvictionType};
use crate::cha_monitor::ChaMonitor;
use crate::config::ExportConfig;
use crate::core_monitor::CoreMonitor;
use crate::iio_monitor::IioMonitor;
use crate::imc_monitor::{ImcMetrics, ImcMonitor};
use crate::irp_monitor::IrpMonitor;
use crate::rapl_monitor::{RaplData, RaplMonitor, RaplSocketState};
use crate::ratio::Ratio;
use crate::rdt_monitor::RdtMonitor;
use crate::unit_metrics::{ImcMetric, RaplMetric};

verus! {

/// Which unit classes to monitor.
#[derive(Debug, Clone, Copy, Default, PartialEq, Eq, Structural)]
pub struct CollectorConfig {
    /// Monitor package, core and memory energy.
    pub rapl: bool,
    /// Monitor cache occupancy and memory bandwidth by RMID.
    pub rdt: bool,
    /// Monitor per-core PMU counters.
    pub core_metrics: bool,
    /// Monitor the memory controllers.
    pub imc: bool,
    /// Monitor the caching/home agents.
    pub cha: bool,
    /// Monitor the I/O request processors.
    pub irp: bool,
    /// Monitor the I/O bridges.
    pub iio: bool,
}

/// The value of one published CHA metric, given the calculator's stored
/// events; a metric whose inputs are missing takes the zero value, but such
/// a metric is not published.
pub open spec fn cha_gauge_expected(calc: MetricCalculator, metric: ChaMetric) -> Ratio {
    match metric {
        ChaMetric::Transaction(t, mt) => {
            match (
                calc.event(ChaEventId::Transaction(t, true)),
                calc.event(ChaEventId::Transaction(t, false)),
            ) {
                (Some(hit), Some(miss)) => {
                    match mt {
                        TransactionMetricType::Bandwidth => bandwidth_gbs(
                            (if hit.insert + miss.insert <= u64::MAX {
                                (hit.insert + miss.insert) as u64
                            } else {
                                u64::MAX
                            }),
                            hit.duration_ns,
                        ),
                        TransactionMetricType::HitBandwidth => bandwidth_gbs(
                            hit.insert,
                            hit.duration_ns,
                        ),
                        TransactionMetricType::MissBandwidth => bandwidth_gbs(
                            miss.insert,
                            miss.duration_ns,
                        ),
                        TransactionMetricType::HitLatency => latency_ns(
                            hit.occupancy,
                            hit.insert,
                            hit.clockticks,
                            hit.duration_ns,
                        ),
                        TransactionMetricType::MissLatency => latency_ns(
                            miss.occupancy,
                            miss.insert,
                            miss.clockticks,
                            miss.duration_ns,
                        ),
                        TransactionMetricType::HitRate => crate::calculator::hit_rate(
                            hit.insert,
                            miss.insert,
                        ),
                        TransactionMetricType::Latency => Ratio { num: 0, den: 1 },
                        TransactionMetricType::HitOccupancy => occupancy_ratio(
                            hit.occupancy,
                            hit.clockticks,
                        ),
                        TransactionMetricType::MissOccupancy => occupancy_ratio(
                            miss.occupancy,
                            miss.clockticks,
                        ),
                    }
                },
                _ => Ratio { num: 0, den: 1 },
            }
        },
        ChaMetric::LLCLookup(s, l) => Ratio {
            num: (match calc.event(ChaEventId::LlcLookup(s, l)) {
                Some(d) => d.insert,
                None => 0u64,
            }) as u128,
            den: 1,
        },
        ChaMetric::LLCVictim(v) => Ratio {
            num: (match calc.event(ChaEventId::LlcVictim(v)) {
                Some(d) => d.insert,
                None => 0u64,
            }) as u128,
            den: 1,
        },
        ChaMetric::SFEviction(e) => Ratio {
            num: (match calc.event(ChaEventId::SfEviction(e)) {
                Some(d) => d.insert,
                None => 0u64,
            }) as u128,
            den: 1,
        },
        ChaMetric::EvictionBandwidth => match calc.event(ChaEventId::Eviction) {
            Some(d) => bandwidth_gbs(d.insert, d.duration_ns),
            None => Ratio { num: 0, den: 1 },
        },
        ChaMetric::EvictionLatency => match calc.event(ChaEventId::Eviction) {
            Some(d) => latency_ns(d.occupancy, d.insert, d.clockticks, d.duration_ns),
            None => Ratio { num: 0, den: 1 },
        },
        ChaMetric::EvictionQueueOccupancy => match calc.event(ChaEventId::Eviction) {
            Some(d) => occupancy_ratio(d.occupancy, d.clockticks),
            None => Ratio { num: 0, den: 1 },
        },
        ChaMetric::IRQOccupancy => match calc.event(ChaEventId::Queue(QueueType::Irq)) {
            Some(d) => occupancy_ratio(d.occupancy, d.clockticks),
            None => Ratio { num: 0, den: 1 },
        },
        ChaMetric::PRQOccupancy => match calc.event(ChaEventId::Queue(QueueType::Prq)) {
            Some(d) => occupancy_ratio(d.occupancy, d.clockticks),
            None => Ratio { num: 0, den: 1 },
        },
        ChaMetric::UncoreFrequency => match MetricCalculator::first_clocked_event(
            calc.events@,
            calc.events@.len() as int,
        ) {
            Some(d) => crate::calculator::uncore_frequency_ghz(d.clockticks, d.duration_ns),
            None => Ratio { num: 0, den: 1 },
        },
        ChaMetric::ReadNoCredit => Ratio {
            num: (match calc.event(ChaEventId::Credit(CreditType::Read)) {
                Some(d) => d.insert,
                None => 0u64,
            }) as u128,
            den: 1,
        },
        ChaMetric::WriteNoCredit => Ratio {
            num: (match calc.event(ChaEventId::Credit(CreditType::Write)) {
                Some(d) => d.insert,
                None => 0u64,
            }) as u128,
            den: 1,
        },
    }
}

/// How many of the first `n` transaction types have both their hit and
/// miss flavours measured.
pub open spec fn measured_transactions(calc: MetricCalculator, n: int) -> int
    decreases n,
{
    if n <= 0 {
        0
    } else {
        measured_transactions(calc, n - 1) + (if calc.event(
            ChaEventId::Transaction(crate::cha_events::transaction_type_at(n - 1), true),
        ) is Some && calc.event(
            ChaEventId::Transaction(crate::cha_events::transaction_type_at(n - 1), false),
        ) is Some {
            1int
        } else {
            0int
        })
    }
}

/// The published rows of one socket's CHA gauges: every value equals what
/// the calculator derives for its metric; each transaction type with both
/// flavours measured contributes its nine derived metrics, and the lookup,
/// victim, snoop-filter, eviction, queue, frequency and credit rows are
/// always published.
pub fn cha_gauge_values(calc: &MetricCalculator) -> (r: Vec<(ChaMetric, Ratio)>)
    requires
        calc.wf(),
    ensures
        r@.len() == 9 * measured_transactions(
            *calc,
            crate::cha_events::TRANSACTION_TYPE_COUNT as int,
        ) + 43,
        forall|i: int|
            0 <= i < r@.len() ==> (#[trigger] r@[i]).1 == cha_gauge_expected(*calc, r@[i].0),
{
    let mut r: Vec<(ChaMetric, Ratio)> = Vec::new();
    let trans_types = crate::cha_events::TransactionType::all();
    let mut ti: usize = 0;
    while ti < trans_types.len()
        invariant
            calc.wf(),
            ti <= trans_types@.len(),
            trans_types@.len() == crate::cha_events::TRANSACTION_TYPE_COUNT,
            forall|k: int|
                0 <= k < trans_types@.len() ==> trans_types@[k]
                    == crate::cha_events::transaction_type_at(k),
            r@.len() == 9 * measured_transactions(*calc, ti as int),
            forall|i: int|
                0 <= i < r@.len() ==> (#[trigger] r@[i]).1 == cha_gauge_expected(*calc, r@[i].0),
        decreases trans_types@.len() - ti,
    {
        let t = trans_types[ti];
        let tm = calc.calculate_transaction_metrics(t);
        if tm.len() == 9 {
            r.push((ChaMetric::Transaction(t, tm[0].0), tm[0].1));
            r.push((ChaMetric::Transaction(t, tm[1].0), tm[1].1));
            r.push((ChaMetric::Transaction(t, tm[2].0), tm[2].1));
            r.push((ChaMetric::Transaction(t, tm[3].0), tm[3].1));
            r.push((ChaMetric::Transaction(t, tm[4].0), tm[4].1));
            r.push((ChaMetric::Transaction(t, tm[5].0), tm[5].1));
            r.push((ChaMetric::Transaction(t, tm[6].0), tm[6].1));
            r.push((ChaMetric::Transaction(t, tm[7].0), tm[7].1));
            r.push((ChaMetric::Transaction(t, tm[8].0), tm[8].1));
        }
        ti = ti + 1;
    }
    let ghost transaction_rows = r@.len() as int;
    proof {
        assert(transaction_rows == 9 * measured_transactions(
            *calc,
            crate::cha_events::TRANSACTION_TYPE_COUNT as int,
        ));
    }
    let states = crate::cha_events::LLCState::all();
    let lookups = crate::cha_events::LLCLookupType::all();
    let mut si: usize = 0;
    while si < states.len()
        invariant
            calc.wf(),
            si <= states@.len(),
            lookups@.len() == crate::cha_events::LLC_LOOKUP_TYPE_COUNT,
            r@.len() == transaction_rows + si * crate::cha_events::LLC_LOOKUP_TYPE_COUNT,
            forall|i: int|
                0 <= i < r@.len() ==> (#[trigger] r@[i]).1 == cha_gauge_expected(*calc, r@[i].0),
        decreases states@.len() - si,
    {
        let mut li: usize = 0;
        while li < lookups.len()
            invariant
                calc.wf(),
                si < states@.len(),
                li <= lookups@.len(),
                lookups@.len() == crate::cha_events::LLC_LOOKUP_TYPE_COUNT,
                r@.len() == transaction_rows + si * crate::cha_events::LLC_LOOKUP_TYPE_COUNT
                    + li,
                forall|i: int|
                    0 <= i < r@.len() ==> (#[trigger] r@[i]).1 == cha_gauge_expected(
                        *calc,
                        r@[i].0,
                    ),
            decreases lookups@.len() - li,
        {
            let count = calc.get_llc_lookup(states[si], lookups[li]);
            r.push(
                (
                    ChaMetric::LLCLookup(states[si], lookups[li]),
                    Ratio { num: count as u128, den: 1 },
                ),
            );
            li = li + 1;
        }
        si = si + 1;
    }
    let victims = VictimType::all();
    let mut vi: usize = 0;
    while vi < victims.len()
        invariant
            calc.wf(),
            vi <= victims@.len(),
            r@.len() == transaction_rows + 28 + vi,
            forall|i: int|
                0 <= i < r@.len() ==> (#[trigger] r@[i]).1 == cha_gauge_expected(*calc, r@[i].0),
        decreases victims@.len() - vi,
    {
        let count = calc.get_llc_victim(victims[vi]);
        r.push((ChaMetric::LLCVictim(victims[vi]), Ratio { num: count as u128, den: 1 }));
        vi = vi + 1;
    }
    let evictions = SFEvictionType::all();
    let mut ei: usize = 0;
    while ei < evictions.len()
        invariant
            calc.wf(),
            ei <= evictions@.len(),
            r@.len() == transaction_rows + 32 + ei,
            forall|i: int|
                0 <= i < r@.len() ==> (#[trigger] r@[i]).1 == cha_gauge_expected(*calc, r@[i].0),
        decreases evictions@.len() - ei,
    {
        let count = calc.get_sf_eviction(evictions[ei]);
        r.push((ChaMetric::SFEviction(evictions[ei]), Ratio { num: count as u128, den: 1 }));
        ei = ei + 1;
    }
    r.push((ChaMetric::EvictionBandwidth, calc.calculate_eviction_bandwidth()));
    r.push((ChaMetric::EvictionLatency, calc.calculate_eviction_latency()));
    r.push((ChaMetric::EvictionQueueOccupancy, calc.calculate_eviction_queue_occupancy()));
    r.push((ChaMetric::IRQOccupancy, calc.get_queue_occupancy(QueueType::Irq)));
    r.push((ChaMetric::PRQOccupancy, calc.get_queue_occupancy(QueueType::Prq)));
    r.push((ChaMetric::UncoreFrequency, calc.calculate_uncore_frequency()));
    let read_credit = calc.get_credit_metric(CreditType::Read);
    r.push((ChaMetric::ReadNoCredit, Ratio { num: read_credit as u128, den: 1 }));
    let write_credit = calc.get_credit_metric(CreditType::Write);
    r.push((ChaMetric::WriteNoCredit, Ratio { num: write_credit as u128, den: 1 }));
    r
}

/// The published rows of one socket's memory gauges, straight from the
/// tick's derived metrics.
pub fn imc_gauge_values(m: &ImcMetrics) -> (r: Vec<(ImcMetric, Ratio)>)
    ensures
        r@ =~= seq![
            (ImcMetric::MemoryReadBandwidth, m.read_bandwidth),
            (ImcMetric::MemoryWriteBandwidth, m.write_bandwidth),
            (ImcMetric::MemoryReadLatency, m.read_latency),
            (ImcMetric::MemoryWriteLatency, m.write_latency),
            (ImcMetric::MemoryRPQOccupancy, m.rpq_occupancy),
            (ImcMetric::MemoryWPQOccupancy, m.wpq_occupancy),
            (ImcMetric::IMCRPQNonEmpty, m.rpq_non_empty),
            (ImcMetric::IMCRPQFull, m.rpq_full),
            (ImcMetric::IMCWPQNonEmpty, m.wpq_non_empty),
            (ImcMetric::IMCWPQFull, m.wpq_full),
            (ImcMetric::IMCFrequency, m.frequency),
        ],
{
    vec![
        (ImcMetric::MemoryReadBandwidth, m.read_bandwidth),
        (ImcMetric::MemoryWriteBandwidth, m.write_bandwidth),
        (ImcMetric::MemoryReadLatency, m.read_latency),
        (ImcMetric::MemoryWriteLatency, m.write_latency),
        (ImcMetric::MemoryRPQOccupancy, m.rpq_occupancy),
        (ImcMetric::MemoryWPQOccupancy, m.wpq_occupancy),
        (ImcMetric::IMCRPQNonEmpty, m.rpq_non_empty),
        (ImcMetric::IMCRPQFull, m.rpq_full),
        (ImcMetric::IMCWPQNonEmpty, m.wpq_non_empty),
        (ImcMetric::IMCWPQFull, m.wpq_full),
        (ImcMetric::IMCFrequency, m.frequency),
    ]
}

/// The published rows of one socket's power gauges: absolute energies and
/// instantaneous powers.
pub fn rapl_gauge_values(energy: &RaplData, power: &RaplData) -> (r: Vec<(RaplMetric, Ratio)>)
    ensures
        r@ =~= seq![
            (RaplMetric::PackageEnergy, energy.package_energy),
            (RaplMetric::CoreEnergy, energy.core_energy),
            (RaplMetric::DramEnergy, energy.dram_energy),
            (RaplMetric::PackagePower, power.package_energy),
            (RaplMetric::CorePower, power.core_energy),
            (RaplMetric::DramPower, power.dram_energy),
        ],
{
    vec![
        (RaplMetric::PackageEnergy, energy.package_energy),
        (RaplMetric::CoreEnergy, energy.core_energy),
        (RaplMetric::DramEnergy, energy.dram_energy),
        (RaplMetric::PackagePower, power.package_energy),
        (RaplMetric::CorePower, power.core_energy),
        (RaplMetric::DramPower, power.dram_energy),
    ]
}

/// The plain start-up values each monitor's constructor needs, gathered by
/// the surrounding application before the collector is built.
pub struct CollectorInit {
    /// The detected microarchitecture.
    pub arch: CpuArchitecture,
    /// Start-up time in nanoseconds.
    pub now_ns: u64,
    /// The memory-bandwidth capability word of CPUID leaf 0xF sub-leaf 1.
    pub mbm_ebx: u32,
    /// The raw platform-information word.
    pub platform_info: u64,
    /// Per-socket, per-channel IMC probe results.
    pub imc_probes: Vec<Vec<Option<u32>>>,
    /// Per-socket IRP probe results (for the PCI backend).
    pub irp_probes: Vec<Option<u32>>,
    /// Pre-built per-socket RAPL states.
    pub rapl_states: Vec<RaplSocketState>,
    /// The topology package of each monitored core, in core order.
    pub core_packages: Vec<u32>,
}

/// The collector: one optional monitor per enabled unit class.
pub struct MetricCollector {
    /// The monitoring configuration.
    pub config: ExportConfig,
    /// The enable flags the collector was built with.
    pub collector_config: CollectorConfig,
    /// The power monitor, when enabled.
    pub rapl: Option<RaplMonitor>,
    /// The resource-monitoring monitor, when enabled.
    pub rdt: Option<RdtMonitor>,
    /// The core PMU monitor, when enabled.
    pub core: Option<CoreMonitor>,
    /// One memory-controller monitor per socket, when enabled.
    pub imc: Vec<ImcMonitor>,
    /// One caching/home-agent monitor per socket, when enabled.
    pub cha: Vec<ChaMonitor>,
    /// One I/O-request monitor per socket whose hardware was confirmed.
    pub irp: Vec<IrpMonitor>,
    /// One I/O-bridge monitor per socket, when enabled.
    pub iio: Vec<IioMonitor>,
}

impl MetricCollector {
    /// Build the enabled monitors from the gathered start-up values. A
    /// monitor whose hardware cannot be confirmed (an I/O-request unit that
    /// fails its probe) is omitted; everything else still starts.
    pub fn new(config: ExportConfig, collector_config: CollectorConfig, init: CollectorInit) -> (r:
        MetricCollector)
        requires
            config.wf(),
            init.imc_probes@.len() == config.sockets@.len(),
            init.irp_probes@.len() == config.sockets@.len(),
            forall|i: int|
                0 <= i < init.imc_probes@.len() ==> (#[trigger] init.imc_probes@[i])@.len()
                    == crate::imc_regs::IMC_CHANNEL_COUNT,
            init.core_packages@.len() == config.cores@.len(),
            forall|i: int| 0 <= i < config.cores@.len() ==> (#[trigger] config.cores@[i]) < 0x10000,
            forall|i: int| 0 <= i < config.sockets@.len() ==> (#[trigger] config.sockets@[i])
                < 0x10000,
            forall|i: int|
                0 <= i < init.rapl_states@.len() ==> (
                #[trigger] init.rapl_states@[i]).energy_exponent <= 31,
        ensures
            r.collector_config == collector_config,
            (r.rapl is Some) <==> collector_config.rapl,
            (r.rdt is Some) <==> collector_config.rdt,
            (r.core is Some) <==> collector_config.core_metrics,
            collector_config.imc ==> r.imc@.len() == config.sockets@.len() && forall|i: int|
                0 <= i < r.imc@.len() ==> (#[trigger] r.imc@[i]).socket == config.sockets@[i],
            !collector_config.imc ==> r.imc@.len() == 0,
            collector_config.cha ==> r.cha@.len() == config.sockets@.len() && forall|i: int|
                0 <= i < r.cha@.len() ==> (#[trigger] r.cha@[i]).socket == config.sockets@[i],
            !collector_config.cha ==> r.cha@.len() == 0,
            !collector_config.irp ==> r.irp@.len() == 0,
            collector_config.irp ==> r.irp@.len() <= config.sockets@.len(),
            // Architectures with MSR-accessed units need no probe, so no
            // socket is omitted.
            collector_config.irp && init.arch.irp_uses_msr() ==> r.irp@.len()
                == config.sockets@.len(),
            forall|i: int| 0 <= i < r.irp@.len() ==> (#[trigger] r.irp@[i]).wf(),
            collector_config.iio ==> r.iio@.len() == config.sockets@.len() && forall|i: int|
                0 <= i < r.iio@.len() ==> (#[trigger] r.iio@[i]).socket == config.sockets@[i],
            !collector_config.iio ==> r.iio@.len() == 0,
    {
        let rapl = if collector_config.rapl {
            Some(RaplMonitor::new(init.rapl_states))
        } else {
            None
        };
        let rdt = if collector_config.rdt {
            let mut cores: Vec<u32> = Vec::new();
            let mut i: usize = 0;
            while i < config.cores.len()
                invariant
                    i <= config.cores@.len(),
                    cores@ == config.cores@.take(i as int),
                decreases config.cores@.len() - i,
            {
                cores.push(config.cores[i]);
                proof {
                    assert(cores@ =~= config.cores@.take(i + 1));
                }
                i = i + 1;
            }
            proof {
                assert(cores@ =~= config.cores@);
            }
            Some(RdtMonitor::new(cores, &init.core_packages, init.mbm_ebx))
        } else {
            None
        };
        let core = if collector_config.core_metrics {
            let mut cores: Vec<u32> = Vec::new();
            let mut i: usize = 0;
            while i < config.cores.len()
                invariant
                    i <= config.cores@.len(),
                    cores@ == config.cores@.take(i as int),
                decreases config.cores@.len() - i,
            {
                cores.push(config.cores[i]);
                proof {
                    assert(cores@ =~= config.cores@.take(i + 1));
                }
                i = i + 1;
            }
            Some(CoreMonitor::new(cores, init.platform_info))
        } else {
            None
        };
        let mut imc: Vec<ImcMonitor> = Vec::new();
        if collector_config.imc {
            let mut s: usize = 0;
            while s < config.sockets.len()
                invariant
                    s <= config.sockets@.len(),
                    imc@.len() == s,
                    forall|i: int| 0 <= i < s ==> (#[trigger] imc@[i]).socket
                        == config.sockets@[i],
                    init.imc_probes@.len() == config.sockets@.len(),
                    forall|i: int|
                        0 <= i < init.imc_probes@.len() ==> (#[trigger] init.imc_probes@[i])@.len()
                            == crate::imc_regs::IMC_CHANNEL_COUNT,
                decreases config.sockets@.len() - s,
            {
                imc.push(ImcMonitor::new(config.sockets[s], &init.imc_probes[s]));
                s = s + 1;
            }
        }
        let mut cha: Vec<ChaMonitor> = Vec::new();
        if collector_config.cha {
            let mut s: usize = 0;
            while s < config.sockets.len()
                invariant
                    s <= config.sockets@.len(),
                    cha@.len() == s,
                    forall|i: int| 0 <= i < s ==> (#[trigger] cha@[i]).socket
                        == config.sockets@[i],
                    forall|i: int| 0 <= i < config.sockets@.len() ==> (
                    #[trigger] config.sockets@[i]) < 0x10000,
                decreases config.sockets@.len() - s,
            {
                cha.push(ChaMonitor::new(config.sockets[s], init.arch, init.now_ns));
                s = s + 1;
            }
        }
        let mut irp: Vec<IrpMonitor> = Vec::new();
        if collector_config.irp {
            let mut s: usize = 0;
            while s < config.sockets.len()
                invariant
                    s <= config.sockets@.len(),
                    irp@.len() <= s,
                    init.arch.irp_uses_msr() ==> irp@.len() == s,
                    init.irp_probes@.len() == config.sockets@.len(),
                    forall|i: int| 0 <= i < config.sockets@.len() ==> (
                    #[trigger] config.sockets@[i]) < 0x10000,
                    forall|i: int| 0 <= i < irp@.len() ==> (#[trigger] irp@[i]).wf(),
                decreases config.sockets@.len() - s,
            {
                match IrpMonitor::new(config.sockets[s], init.arch, init.irp_probes[s]) {
                    Ok(m) => {
                        proof {
                            assert(m.wf());
                        }
                        irp.push(m);
                    },
                    Err(_) => {},
                }
                s = s + 1;
            }
        }
        let mut iio: Vec<IioMonitor> = Vec::new();
        if collector_config.iio {
            let mut s: usize = 0;
            while s < config.sockets.len()
                invariant
                    s <= config.sockets@.len(),
                    iio@.len() == s,
                    forall|i: int| 0 <= i < s ==> (#[trigger] iio@[i]).socket
                        == config.sockets@[i],
                    forall|i: int| 0 <= i < config.sockets@.len() ==> (
                    #[trigger] config.sockets@[i]) < 0x10000,
                decreases config.sockets@.len() - s,
            {
                iio.push(IioMonitor::new(config.sockets[s]));
                s = s + 1;
            }
        }
        MetricCollector { config, collector_config, rapl, rdt, core, imc, cha, irp, iio }
    }
}

} // verus!
