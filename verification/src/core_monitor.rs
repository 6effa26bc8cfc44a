//! Core PMU monitor.
//!
//! Each monitored logical CPU gets its fixed counters set to user mode, its
//! four programmable counters set to the default cache event set, and all
//! counters zeroed and enabled. Per tick the time-stamp counter, the three
//! fixed counters and the four programmable counters are read, and derived
//! ratios are published.

use vstd::prelude::*;
use crate::arch::CpuArchitecture;
use crate::core_regs::{
    IA32_FIXED_CTR0, IA32_FIXED_CTR1, IA32_FIXED_CTR2, IA32_FIXED_CTR_CTRL, IA32_PERFEVTSEL0,
    IA32_PERF_GLOBAL_CTRL, IA32_PMC0, IA32_TIME_STAMP_COUNTER,
};
use crate::hw_ops::MsrOp;
use crate::ratio::Ratio;
use crate::unit_metrics::CoreMetric;

verus! {

/// One programmable PMU event.
#[derive(Debug, Clone, Copy)]
pub struct PmuEvent {
    /// Event select code.
    pub event: u8,
    /// Unit mask.
    pub umask: u8,
    /// Display name.
    pub name: &'static str,
}

/// The event-select word programming an event: user and kernel mode chosen
/// by the caller, the enable bit always set.
pub open spec fn perfevtsel_encoding(event: u8, umask: u8, user: bool, kernel: bool) -> u64 {
    (event as u64) | ((umask as u64) << 8) | (if user {
        1u64 << 16
    } else {
        0u64
    }) | (if kernel {
        1u64 << 17
    } else {
        0u64
    }) | (1u64 << 22)
}

impl PmuEvent {
    /// The event-select word programming this event.
    pub fn encode_for_perfevtsel(&self, user: bool, kernel: bool) -> (r: u64)
        ensures
            r == perfevtsel_encoding(self.event, self.umask, user, kernel),
    {
        (self.event as u64) | ((self.umask as u64) << 8) | (if user {
            1u64 << 16
        } else {
            0u64
        }) | (if kernel {
            1u64 << 17
        } else {
            0u64
        }) | (1u64 << 22)
    }
}

/// The default event set for the four programmable counters: last-level
/// cache references and misses, and L2 request misses and references.
pub fn get_default_event_set() -> (r: Vec<PmuEvent>)
    ensures
        r@.len() == 4,
        r@[0] == (PmuEvent { event: 0x2E, umask: 0x4F, name: "LLCReference" }),
        r@[1] == (PmuEvent { event: 0x2E, umask: 0x41, name: "LLCMisses" }),
        r@[2] == (PmuEvent { event: 0x24, umask: 0x3F, name: "L2RequestMisses" }),
        r@[3] == (PmuEvent { event: 0x24, umask: 0xFF, name: "L2RequestReference" }),
{
    vec![
        PmuEvent { event: 0x2E, umask: 0x4F, name: "LLCReference" },
        PmuEvent { event: 0x2E, umask: 0x41, name: "LLCMisses" },
        PmuEvent { event: 0x24, umask: 0x3F, name: "L2RequestMisses" },
        PmuEvent { event: 0x24, umask: 0xFF, name: "L2RequestReference" },
    ]
}

/// The common events extended with the architecture's prefetch and eviction
/// events.
pub fn get_architecture_events(arch: CpuArchitecture) -> (r: Vec<PmuEvent>)
    ensures
        r@.len() == 10,
{
    let mut events = vec![
        PmuEvent { event: 0x2E, umask: 0x4F, name: "LLCReference" },
        PmuEvent { event: 0x2E, umask: 0x41, name: "LLCMisses" },
        PmuEvent { event: 0x24, umask: 0x3F, name: "L2RequestMisses" },
        PmuEvent { event: 0x24, umask: 0xFF, name: "L2RequestReference" },
        PmuEvent { event: 0xF1, umask: 0x1F, name: "L2In" },
        PmuEvent { event: 0xF0, umask: 0x40, name: "L2Writeback" },
    ];
    let prefetch = arch.l2_prefetch_events();
    let mut i: usize = 0;
    while i < prefetch.len()
        invariant
            prefetch@.len() == 2,
            i <= prefetch@.len(),
            events@.len() == 6 + i,
        decreases prefetch@.len() - i,
    {
        let (event, umask, name) = prefetch[i];
        events.push(PmuEvent { event, umask, name });
        i = i + 1;
    }
    let eviction = arch.l2_eviction_events();
    let mut k: usize = 0;
    while k < eviction.len()
        invariant
            eviction@.len() == 2,
            k <= eviction@.len(),
            events@.len() == 8 + k,
        decreases eviction@.len() - k,
    {
        let (event, umask, name) = eviction[k];
        events.push(PmuEvent { event, umask, name });
        k = k + 1;
    }
    events
}

/// The base core frequency in hertz, from the platform-information word:
/// bits 8-15 give the ratio in steps of 100 MHz.
pub open spec fn base_frequency_of(platform_info: u64) -> u64 {
    (((platform_info >> 8) & 0xFF) * 100_000_000) as u64
}

/// Raw counter readings of one core at one tick.
#[derive(Debug, Clone, Copy, Default, PartialEq, Eq, Structural)]
pub struct CoreMetrics {
    /// Time-stamp counter.
    pub tsc: u64,
    /// Instructions retired (fixed counter 0).
    pub instructions: u64,
    /// Core cycles (fixed counter 1).
    pub cycles: u64,
    /// Reference cycles (fixed counter 2).
    pub ref_cycles: u64,
    /// Last-level-cache references (programmable counter 0).
    pub llc_ref: u64,
    /// Last-level-cache misses (programmable counter 1).
    pub llc_miss: u64,
    /// L2 request misses (programmable counter 2).
    pub l2_miss: u64,
    /// L2 request references (programmable counter 3).
    pub l2_ref: u64,
}

/// The writes initializing one core's PMU: disable globally, set the fixed
/// counters to user mode, program the four default events, zero all seven
/// counters, then enable the three fixed and four programmable counters.
pub open spec fn core_init_ops(core: u32) -> Seq<MsrOp> {
    seq![
        MsrOp { cpu: core, addr: IA32_PERF_GLOBAL_CTRL, value: 0 },
        MsrOp { cpu: core, addr: IA32_FIXED_CTR_CTRL, value: 0x333 },
        MsrOp {
            cpu: core,
            addr: IA32_PERFEVTSEL0,
            value: perfevtsel_encoding(0x2E, 0x4F, true, false),
        },
        MsrOp {
            cpu: core,
            addr: (IA32_PERFEVTSEL0 + 1) as u64,
            value: perfevtsel_encoding(0x2E, 0x41, true, false),
        },
        MsrOp {
            cpu: core,
            addr: (IA32_PERFEVTSEL0 + 2) as u64,
            value: perfevtsel_encoding(0x24, 0x3F, true, false),
        },
        MsrOp {
            cpu: core,
            addr: (IA32_PERFEVTSEL0 + 3) as u64,
            value: perfevtsel_encoding(0x24, 0xFF, true, false),
        },
        MsrOp { cpu: core, addr: IA32_FIXED_CTR0, value: 0 },
        MsrOp { cpu: core, addr: IA32_FIXED_CTR1, value: 0 },
        MsrOp { cpu: core, addr: IA32_FIXED_CTR2, value: 0 },
        MsrOp { cpu: core, addr: IA32_PMC0, value: 0 },
        MsrOp { cpu: core, addr: (IA32_PMC0 + 1) as u64, value: 0 },
        MsrOp { cpu: core, addr: (IA32_PMC0 + 2) as u64, value: 0 },
        MsrOp { cpu: core, addr: (IA32_PMC0 + 3) as u64, value: 0 },
        MsrOp { cpu: core, addr: IA32_PERF_GLOBAL_CTRL, value: (0x7u64 << 32) | 0xFu64 },
    ]
}

/// The initialization writes of the first `n` monitored cores.
pub open spec fn core_init_upto(cores: Seq<u32>, n: int) -> Seq<MsrOp>
    decreases n,
{
    if n <= 0 {
        Seq::empty()
    } else {
        core_init_upto(cores, n - 1) + core_init_ops(cores[n - 1])
    }
}

/// A cache hit ratio: the complement of misses over references, clamped at
/// zero; zero when there were no references.
pub open spec fn hit_ratio(misses: u64, refs: u64) -> Ratio {
    if refs == 0 || misses > refs {
        Ratio { num: 0, den: 1 }
    } else {
        Ratio { num: (refs - misses) as u128, den: refs as u128 }
    }
}

/// A count as an exact ratio.
pub open spec fn whole(n: u64) -> Ratio {
    Ratio { num: n as u128, den: 1 }
}

/// A plain quotient, zero when the denominator is zero.
pub open spec fn quotient(num: u64, den: u64) -> Ratio {
    if den == 0 {
        Ratio { num: 0, den: 1 }
    } else {
        Ratio { num: num as u128, den: den as u128 }
    }
}

/// Core PMU monitor over the configured cores.
pub struct CoreMonitor {
    /// The monitored cores.
    pub cores: Vec<u32>,
    /// Base core frequency in hertz.
    pub base_frequency_hz: u64,
    /// The last readings of each core, aligned with the core list.
    pub prev_metrics: Vec<Option<CoreMetrics>>,
}

impl CoreMonitor {
    /// Reading storage is aligned with the core list.
    pub open spec fn wf(self) -> bool {
        self.prev_metrics@.len() == self.cores@.len()
    }

    /// A monitor over the given cores, with the base frequency taken from
    /// the raw platform-information word.
    pub fn new(cores: Vec<u32>, platform_info: u64) -> (r: CoreMonitor)
        ensures
            r.wf(),
            r.cores == cores,
            r.base_frequency_hz == base_frequency_of(platform_info),
            forall|i: int| 0 <= i < r.prev_metrics@.len() ==> (#[trigger] r.prev_metrics@[i]) is None,
    {
        let ratio = (platform_info >> 8) & 0xFF;
        proof {
            assert((platform_info >> 8) & 0xFF <= 0xFF) by (bit_vector);
        }
        let base_frequency_hz = ratio * 100_000_000;
        let mut prev_metrics: Vec<Option<CoreMetrics>> = Vec::new();
        let mut i: usize = 0;
        let n = cores.len();
        while i < n
            invariant
                i <= n,
                prev_metrics@.len() == i,
                forall|k: int| 0 <= k < i ==> (#[trigger] prev_metrics@[k]) is None,
            decreases n - i,
        {
            prev_metrics.push(None);
            i = i + 1;
        }
        CoreMonitor { cores, base_frequency_hz, prev_metrics }
    }

    /// The writes initializing the PMU of every monitored core.
    pub fn initialize(&self) -> (ops: Vec<MsrOp>)
        ensures
            ops@ == core_init_upto(self.cores@, self.cores@.len() as int),
    {
        let mut ops: Vec<MsrOp> = Vec::new();
        let mut i: usize = 0;
        while i < self.cores.len()
            invariant
                i <= self.cores@.len(),
                ops@ == core_init_upto(self.cores@, i as int),
            decreases self.cores@.len() - i,
        {
            let mut core_ops = self.initialize_core(self.cores[i]);
            ops.append(&mut core_ops);
            i = i + 1;
        }
        ops
    }

    /// The writes initializing one core's PMU.
    pub fn initialize_core(&self, core: u32) -> (ops: Vec<MsrOp>)
        ensures
            ops@ == core_init_ops(core),
    {
        let events = get_default_event_set();
        let mut ops: Vec<MsrOp> = Vec::new();
        ops.push(MsrOp { cpu: core, addr: IA32_PERF_GLOBAL_CTRL, value: 0 });
        ops.push(MsrOp { cpu: core, addr: IA32_FIXED_CTR_CTRL, value: 0x333 });
        let mut i: usize = 0;
        while i < 4
            invariant
                i <= 4,
                events@.len() == 4,
                events@[0] == (PmuEvent { event: 0x2E, umask: 0x4F, name: "LLCReference" }),
                events@[1] == (PmuEvent { event: 0x2E, umask: 0x41, name: "LLCMisses" }),
                events@[2] == (PmuEvent { event: 0x24, umask: 0x3F, name: "L2RequestMisses" }),
                events@[3] == (PmuEvent { event: 0x24, umask: 0xFF, name: "L2RequestReference" }),
                ops@ == core_init_ops(core).take(2 + i as int),
            decreases 4 - i,
        {
            let value = events[i].encode_for_perfevtsel(true, false);
            ops.push(MsrOp { cpu: core, addr: IA32_PERFEVTSEL0 + (i as u64), value });
            proof {
                assert(ops@ =~= core_init_ops(core).take(2 + (i + 1)));
            }
            i = i + 1;
        }
        ops.push(MsrOp { cpu: core, addr: IA32_FIXED_CTR0, value: 0 });
        ops.push(MsrOp { cpu: core, addr: IA32_FIXED_CTR1, value: 0 });
        ops.push(MsrOp { cpu: core, addr: IA32_FIXED_CTR2, value: 0 });
        let mut k: usize = 0;
        while k < 4
            invariant
                k <= 4,
                ops@ == core_init_ops(core).take(9 + k as int),
            decreases 4 - k,
        {
            ops.push(MsrOp { cpu: core, addr: IA32_PMC0 + (k as u64), value: 0 });
            proof {
                assert(ops@ =~= core_init_ops(core).take(9 + (k + 1)));
            }
            k = k + 1;
        }
        ops.push(
            MsrOp { cpu: core, addr: IA32_PERF_GLOBAL_CTRL, value: (0x7u64 << 32) | 0xFu64 },
        );
        proof {
            assert(ops@ =~= core_init_ops(core));
        }
        ops
    }

    /// The MSR addresses one tick reads of every core, in reading order:
    /// time-stamp counter, the three fixed counters, then the four
    /// programmable counters.
    pub fn counter_read_addrs() -> (r: Vec<u64>)
        ensures
            r@ =~= seq![
                IA32_TIME_STAMP_COUNTER,
                IA32_FIXED_CTR0,
                IA32_FIXED_CTR1,
                IA32_FIXED_CTR2,
                IA32_PMC0,
                (IA32_PMC0 + 1) as u64,
                (IA32_PMC0 + 2) as u64,
                (IA32_PMC0 + 3) as u64,
            ],
    {
        vec![
            IA32_TIME_STAMP_COUNTER,
            IA32_FIXED_CTR0,
            IA32_FIXED_CTR1,
            IA32_FIXED_CTR2,
            IA32_PMC0,
            IA32_PMC0 + 1,
            IA32_PMC0 + 2,
            IA32_PMC0 + 3,
        ]
    }

    /// Store one core's readings of this tick.
    pub fn ingest_core_counters(&mut self, core_idx: usize, readings: CoreMetrics)
        requires
            old(self).wf(),
            core_idx < old(self).cores@.len(),
        ensures
            final(self).wf(),
            final(self).cores == old(self).cores,
            final(self).base_frequency_hz == old(self).base_frequency_hz,
            final(self).prev_metrics@ == old(self).prev_metrics@.update(
                core_idx as int,
                Some(readings),
            ),
    {
        self.prev_metrics.set(core_idx, Some(readings));
    }

    /// One core's derived metrics from its stored readings: the raw counts,
    /// instructions per cycle, cache hit ratios, misses per instruction,
    /// and the elapsed time that the reference cycles denote at the base
    /// frequency. Empty when the core has no stored readings.
    pub fn get_metrics(&self, core_idx: usize) -> (r: Vec<(CoreMetric, Ratio)>)
        requires
            self.wf(),
            core_idx < self.cores@.len(),
        ensures
            self.prev_metrics@[core_idx as int] is None ==> r@.len() == 0,
            self.prev_metrics@[core_idx as int] matches Some(m) ==> r@ =~= seq![
                (CoreMetric::Instructions, whole(m.instructions)),
                (CoreMetric::Cycles, whole(m.cycles)),
                (CoreMetric::IPC, quotient(m.instructions, m.cycles)),
                (CoreMetric::L3CacheMiss, whole(m.llc_miss)),
                (CoreMetric::L3CacheRef, whole(m.llc_ref)),
                (CoreMetric::L3CacheHitRatio, hit_ratio(m.llc_miss, m.llc_ref)),
                (CoreMetric::L3MPI, quotient(m.llc_miss, m.instructions)),
                (CoreMetric::L2CacheMiss, whole(m.l2_miss)),
                (CoreMetric::L2CacheRef, whole(m.l2_ref)),
                (CoreMetric::L2CacheHitRatio, hit_ratio(m.l2_miss, m.l2_ref)),
                (CoreMetric::L2MPI, quotient(m.l2_miss, m.instructions)),
                (CoreMetric::ElapsedTime, quotient(m.ref_cycles, self.base_frequency_hz)),
            ],
    {
        let mut r: Vec<(CoreMetric, Ratio)> = Vec::new();
        match self.prev_metrics[core_idx] {
            Some(m) => {
                r.push((CoreMetric::Instructions, Ratio { num: m.instructions as u128, den: 1 }));
                r.push((CoreMetric::Cycles, Ratio { num: m.cycles as u128, den: 1 }));
                r.push((CoreMetric::IPC, Self::quotient_exec(m.instructions, m.cycles)));
                r.push((CoreMetric::L3CacheMiss, Ratio { num: m.llc_miss as u128, den: 1 }));
                r.push((CoreMetric::L3CacheRef, Ratio { num: m.llc_ref as u128, den: 1 }));
                r.push((CoreMetric::L3CacheHitRatio, Self::hit_ratio_exec(m.llc_miss, m.llc_ref)));
                r.push((CoreMetric::L3MPI, Self::quotient_exec(m.llc_miss, m.instructions)));
                r.push((CoreMetric::L2CacheMiss, Ratio { num: m.l2_miss as u128, den: 1 }));
                r.push((CoreMetric::L2CacheRef, Ratio { num: m.l2_ref as u128, den: 1 }));
                r.push((CoreMetric::L2CacheHitRatio, Self::hit_ratio_exec(m.l2_miss, m.l2_ref)));
                r.push((CoreMetric::L2MPI, Self::quotient_exec(m.l2_miss, m.instructions)));
                r.push(
                    (
                        CoreMetric::ElapsedTime,
                        Self::quotient_exec(m.ref_cycles, self.base_frequency_hz),
                    ),
                );
            },
            None => {},
        }
        r
    }

    /// A plain quotient, zero when the denominator is zero.
    pub fn quotient_exec(num: u64, den: u64) -> (r: Ratio)
        ensures
            r == quotient(num, den),
            r.wf(),
    {
        if den == 0 {
            Ratio::zero()
        } else {
            Ratio { num: num as u128, den: den as u128 }
        }
    }

    /// A cache hit ratio, clamped to the unit interval.
    pub fn hit_ratio_exec(misses: u64, refs: u64) -> (r: Ratio)
        ensures
            r == hit_ratio(misses, refs),
            r.wf(),
            r.le_one(),
    {
        if refs == 0 || misses > refs {
            Ratio::zero()
        } else {
            Ratio { num: (refs - misses) as u128, den: refs as u128 }
        }
    }

    /// The writes disabling every monitored core's counters; the owner
    /// issues them when monitoring ends.
    pub fn shutdown_ops(&self) -> (ops: Vec<MsrOp>)
        ensures
            ops@.len() == self.cores@.len(),
            forall|i: int|
                0 <= i < ops@.len() ==> (#[trigger] ops@[i]) == (MsrOp {
                    cpu: self.cores@[i],
                    addr: IA32_PERF_GLOBAL_CTRL,
                    value: 0,
                }),
    {
        let mut ops: Vec<MsrOp> = Vec::new();
        let mut i: usize = 0;
        while i < self.cores.len()
            invariant
                i <= self.cores@.len(),
                ops@.len() == i,
                forall|k: int|
                    0 <= k < i ==> (#[trigger] ops@[k]) == (MsrOp {
                        cpu: self.cores@[k],
                        addr: IA32_PERF_GLOBAL_CTRL,
                        value: 0,
                    }),
            decreases self.cores@.len() - i,
        {
            ops.push(MsrOp { cpu: self.cores[i], addr: IA32_PERF_GLOBAL_CTRL, value: 0 });
            i = i + 1;
        }
        ops
    }
}

} // verus!
