//! Metric calculator: turns raw CHA counter samples into derived metrics.
//!
//! The conversion formulas are stateless; with elapsed time carried in
//! nanoseconds, bandwidth in gigabytes per second is bytes per nanosecond,
//! and frequency in gigahertz is cycles per nanosecond, so every derived
//! quantity is an exact quotient of the inputs.

use vstd::prelude::*;
use crate::cha_events::{
    LLCLookupType, LLCState, TransactionType, llc_lookup_type_index, llc_state_index,
    transaction_type_index,
};
use crate::cha_metrics::{SFEvictionType, TransactionMetricType, VictimType, sf_eviction_type_index, victim_type_index};
use crate::ratio::Ratio;

verus! {

/// Bandwidth in GB/s of `inserts` cache lines of 64 bytes over `dt_ns`
/// nanoseconds; zero when no time elapsed.
pub open spec fn bandwidth_gbs(inserts: u64, dt_ns: u64) -> Ratio {
    if dt_ns == 0 {
        Ratio { num: 0, den: 1 }
    } else {
        Ratio { num: (inserts * 64) as u128, den: dt_ns as u128 }
    }
}

/// Latency in nanoseconds by Little's law: mean queue residency
/// `occupancy / inserts` cycles, each lasting `dt_ns / clockticks`
/// nanoseconds; zero when there were no inserts, no clockticks or no time.
pub open spec fn latency_ns(occupancy: u64, inserts: u64, clockticks: u64, dt_ns: u64) -> Ratio {
    if inserts == 0 || clockticks == 0 || dt_ns == 0 {
        Ratio { num: 0, den: 1 }
    } else {
        Ratio { num: (occupancy * clockticks) as u128, den: (inserts * dt_ns) as u128 }
    }
}

/// Hit rate `hits / (hits + misses)`; zero when there were no inserts.
pub open spec fn hit_rate(hit_inserts: u64, miss_inserts: u64) -> Ratio {
    if hit_inserts + miss_inserts == 0 {
        Ratio { num: 0, den: 1 }
    } else {
        Ratio { num: hit_inserts as u128, den: (hit_inserts + miss_inserts) as u128 }
    }
}

/// Occupancy ratio `occupancy / clockticks`; zero when there were no
/// clockticks.
pub open spec fn occupancy_ratio(occupancy: u64, clockticks: u64) -> Ratio {
    if clockticks == 0 {
        Ratio { num: 0, den: 1 }
    } else {
        Ratio { num: occupancy as u128, den: clockticks as u128 }
    }
}

/// Uncore frequency in GHz: clockticks per elapsed nanosecond; zero when no
/// time elapsed.
pub open spec fn uncore_frequency_ghz(clockticks: u64, dt_ns: u64) -> Ratio {
    if dt_ns == 0 {
        Ratio { num: 0, den: 1 }
    } else {
        Ratio { num: clockticks as u128, den: dt_ns as u128 }
    }
}

/// Bandwidth of a zero count is zero for any elapsed time, and bandwidth
/// over no elapsed time is zero.
pub proof fn lemma_bandwidth_zero(x: u64, dt_ns: u64)
    ensures
        bandwidth_gbs(0, dt_ns).is_zero(),
        bandwidth_gbs(x, 0).is_zero(),
        bandwidth_gbs(x, dt_ns).wf(),
{
}

/// A hit rate always lies between zero and one, and the hit rate of no
/// inserts at all is zero.
pub proof fn lemma_hit_rate_bounded(h: u64, m: u64)
    ensures
        hit_rate(h, m).wf(),
        hit_rate(h, m).le_one(),
        hit_rate(0, 0).is_zero(),
{
}

/// The occupancy ratio over no clockticks is zero, and the occupancy ratio
/// of a value against itself is one.
pub proof fn lemma_occupancy_ratio_ends(x: u64)
    ensures
        occupancy_ratio(x, 0).is_zero(),
        x > 0 ==> occupancy_ratio(x, x).is_one(),
        occupancy_ratio(x, x).wf(),
{
}

/// Latency is zero whenever there were no inserts or no clockticks.
pub proof fn lemma_latency_zero(occupancy: u64, inserts: u64, clockticks: u64, dt_ns: u64)
    ensures
        latency_ns(occupancy, 0, clockticks, dt_ns).is_zero(),
        latency_ns(occupancy, inserts, 0, dt_ns).is_zero(),
        latency_ns(occupancy, inserts, clockticks, dt_ns).wf(),
{
    if inserts > 0 && clockticks > 0 && dt_ns > 0 {
        vstd::arithmetic::mul::lemma_mul_strictly_positive(inserts as int, dt_ns as int);
        vstd::arithmetic::mul::lemma_mul_upper_bound(
            inserts as int,
            u64::MAX as int,
            dt_ns as int,
            u64::MAX as int,
        );
    }
}

/// The product of two 64-bit values, exactly.
fn mul_wide(a: u64, b: u64) -> (r: u128)
    ensures
        r == a * b,
{
    proof {
        vstd::arithmetic::mul::lemma_mul_upper_bound(
            a as int,
            u64::MAX as int,
            b as int,
            u64::MAX as int,
        );
    }
    (a as u128) * (b as u128)
}

/// One raw counter sample of a CHA event group: occupancy, inserts and
/// clockticks accumulated over `duration_ns` nanoseconds.
#[derive(Debug, Clone, Copy, Default, PartialEq, Eq, Structural)]
pub struct RawEventData {
    /// Queue-occupancy count.
    pub occupancy: u64,
    /// Insert count.
    pub insert: u64,
    /// Uncore clocktick count.
    pub clockticks: u64,
    /// Elapsed collection time in nanoseconds.
    pub duration_ns: u64,
}

/// An ingress queue whose occupancy is published.
#[derive(Debug, Clone, Copy, PartialEq, Eq, Hash, Structural)]
pub enum QueueType {
    /// The IRQ ingress queue.
    Irq,
    /// The PRQ ingress queue.
    Prq,
}

/// A credit-starvation counter.
#[derive(Debug, Clone, Copy, PartialEq, Eq, Hash, Structural)]
pub enum CreditType {
    /// Cycles with no read credit.
    Read,
    /// Cycles with no write credit.
    Write,
}

/// The identity of one stored basic-event measurement.
#[derive(Debug, Clone, Copy, PartialEq, Eq, Hash, Structural)]
pub enum ChaEventId {
    /// The hit (`true`) or miss (`false`) flavour of a transaction type.
    Transaction(TransactionType, bool),
    /// An LLC lookup for one state and lookup type.
    LlcLookup(LLCState, LLCLookupType),
    /// An LLC victim count for one state.
    LlcVictim(VictimType),
    /// A snoop-filter eviction count for one state.
    SfEviction(SFEvictionType),
    /// The eviction group.
    Eviction,
    /// An ingress-queue occupancy group.
    Queue(QueueType),
    /// A credit-starvation counter.
    Credit(CreditType),
}

/// The number of distinct event identities.
pub const CHA_EVENT_SLOT_COUNT: usize = 62;

/// The slot of an event identity in the calculator's store.
pub open spec fn event_slot(id: ChaEventId) -> int {
    match id {
        ChaEventId::Transaction(t, hit) => 2 * transaction_type_index(t) + if hit {
            0int
        } else {
            1int
        },
        ChaEventId::LlcLookup(s, l) => 22 + 4 * llc_state_index(s) + llc_lookup_type_index(l),
        ChaEventId::LlcVictim(v) => 50 + victim_type_index(v),
        ChaEventId::SfEviction(e) => 54 + sf_eviction_type_index(e),
        ChaEventId::Eviction => 57,
        ChaEventId::Queue(QueueType::Irq) => 58,
        ChaEventId::Queue(QueueType::Prq) => 59,
        ChaEventId::Credit(CreditType::Read) => 60,
        ChaEventId::Credit(CreditType::Write) => 61,
    }
}

impl ChaEventId {
    /// The slot of this event identity.
    pub fn slot(&self) -> (r: usize)
        ensures
            r == event_slot(*self),
            r < CHA_EVENT_SLOT_COUNT,
    {
        match self {
            ChaEventId::Transaction(t, hit) => {
                let ti: usize = match t {
                    TransactionType::PCIeRead => 0,
                    TransactionType::PCIeFullWrite => 1,
                    TransactionType::PCIePartialWrite => 2,
                    TransactionType::PCIeWriteBack => 3,
                    TransactionType::DRDRead => 4,
                    TransactionType::RFO => 5,
                    TransactionType::ItoM => 6,
                    TransactionType::CLFlush => 7,
                    TransactionType::WbMtoI => 8,
                    TransactionType::RxCIRQ => 9,
                    TransactionType::RxCPRQ => 10,
                };
                2 * ti + if *hit {
                    0
                } else {
                    1
                }
            },
            ChaEventId::LlcLookup(s, l) => {
                let si: usize = match s {
                    LLCState::M => 0,
                    LLCState::E => 1,
                    LLCState::S => 2,
                    LLCState::I => 3,
                    LLCState::SFM => 4,
                    LLCState::SFE => 5,
                    LLCState::SFS => 6,
                };
                let li: usize = match l {
                    LLCLookupType::Read => 0,
                    LLCLookupType::Write => 1,
                    LLCLookupType::RemoteSnoop => 2,
                    LLCLookupType::Any => 3,
                };
                22 + 4 * si + li
            },
            ChaEventId::LlcVictim(v) => {
                50 + match v {
                    VictimType::M => 0,
                    VictimType::E => 1,
                    VictimType::S => 2,
                    VictimType::F => 3,
                }
            },
            ChaEventId::SfEviction(e) => {
                54 + match e {
                    SFEvictionType::M => 0,
                    SFEvictionType::E => 1,
                    SFEvictionType::S => 2,
                }
            },
            ChaEventId::Eviction => 57,
            ChaEventId::Queue(QueueType::Irq) => 58,
            ChaEventId::Queue(QueueType::Prq) => 59,
            ChaEventId::Credit(CreditType::Read) => 60,
            ChaEventId::Credit(CreditType::Write) => 61,
        }
    }
}

/// Calculator for derived CHA metrics: stores one measurement per basic
/// event and derives bandwidths, latencies, hit rates and ratios from them.
pub struct MetricCalculator {
    /// One slot per event identity, in slot order.
    pub events: Vec<Option<RawEventData>>,
}

impl MetricCalculator {
    /// The store has one slot per event identity.
    pub open spec fn wf(self) -> bool {
        self.events@.len() == CHA_EVENT_SLOT_COUNT
    }

    /// The stored measurement of an event identity.
    pub open spec fn event(self, id: ChaEventId) -> Option<RawEventData> {
        self.events@[event_slot(id)]
    }

    /// An empty calculator: nothing stored.
    pub fn new() -> (r: MetricCalculator)
        ensures
            r.wf(),
            forall|id: ChaEventId| r.event(id) is None,
    {
        let mut events: Vec<Option<RawEventData>> = Vec::new();
        let mut i: usize = 0;
        while i < CHA_EVENT_SLOT_COUNT
            invariant
                i <= CHA_EVENT_SLOT_COUNT,
                events@.len() == i,
                forall|k: int| 0 <= k < i ==> events@[k] is None,
            decreases CHA_EVENT_SLOT_COUNT - i,
        {
            events.push(None);
            i = i + 1;
        }
        MetricCalculator { events }
    }

    /// Store a basic-event measurement, replacing any prior one.
    pub fn store_event(&mut self, id: ChaEventId, data: RawEventData)
        requires
            old(self).wf(),
        ensures
            final(self).wf(),
            final(self).event(id) == Some(data),
            forall|o: ChaEventId| o != id ==> final(self).event(o) == old(self).event(o),
    {
        let slot = id.slot();
        self.events.set(slot, Some(data));
        proof {
            assert forall|o: ChaEventId| o != id implies final(self).event(o) == old(self).event(
                o,
            ) by {
                if event_slot(o) == event_slot(id) {
                    assert(o == id);
                }
            }
        }
    }

    /// The stored measurement of an event identity, if any.
    pub fn get_event(&self, id: ChaEventId) -> (r: Option<RawEventData>)
        requires
            self.wf(),
        ensures
            r == self.event(id),
    {
        self.events[id.slot()]
    }

    /// Bandwidth in GB/s of an insert count over an elapsed time.
    pub fn calculate_bandwidth(insert: u64, dt_ns: u64) -> (r: Ratio)
        ensures
            r == bandwidth_gbs(insert, dt_ns),
            r.wf(),
    {
        if dt_ns == 0 {
            Ratio::zero()
        } else {
            Ratio { num: mul_wide(insert, 64), den: dt_ns as u128 }
        }
    }

    /// Latency in nanoseconds by Little's law.
    pub fn calculate_latency(occupancy: u64, insert: u64, clockticks: u64, dt_ns: u64) -> (r:
        Ratio)
        ensures
            r == latency_ns(occupancy, insert, clockticks, dt_ns),
            r.wf(),
    {
        if insert == 0 || clockticks == 0 || dt_ns == 0 {
            Ratio::zero()
        } else {
            let den = mul_wide(insert, dt_ns);
            proof {
                vstd::arithmetic::mul::lemma_mul_strictly_positive(insert as int, dt_ns as int);
            }
            Ratio { num: mul_wide(occupancy, clockticks), den }
        }
    }

    /// Hit rate: hits over all inserts.
    pub fn calculate_hit_rate(hit_insert: u64, miss_insert: u64) -> (r: Ratio)
        ensures
            r == hit_rate(hit_insert, miss_insert),
            r.wf(),
            r.le_one(),
    {
        if hit_insert == 0 && miss_insert == 0 {
            Ratio::zero()
        } else {
            Ratio { num: hit_insert as u128, den: hit_insert as u128 + miss_insert as u128 }
        }
    }

    /// Occupancy ratio: occupancy over clockticks.
    pub fn calculate_occupancy(occupancy: u64, clockticks: u64) -> (r: Ratio)
        ensures
            r == occupancy_ratio(occupancy, clockticks),
            r.wf(),
    {
        if clockticks == 0 {
            Ratio::zero()
        } else {
            Ratio { num: occupancy as u128, den: clockticks as u128 }
        }
    }

    /// Uncore frequency in GHz from a clocktick count and an elapsed time.
    pub fn calculate_frequency(clockticks: u64, dt_ns: u64) -> (r: Ratio)
        ensures
            r == uncore_frequency_ghz(clockticks, dt_ns),
            r.wf(),
    {
        if dt_ns == 0 {
            Ratio::zero()
        } else {
            Ratio { num: clockticks as u128, den: dt_ns as u128 }
        }
    }

    /// All nine derived metrics of one transaction type, computed from its
    /// stored hit and miss measurements; empty when either is missing. The
    /// combined bandwidth counts both flavours' inserts over the group's
    /// collection time, and the combined latency is published as zero until a
    /// combined formula is defined for it.
    pub fn calculate_transaction_metrics(&self, trans_type: TransactionType) -> (r: Vec<
        (TransactionMetricType, Ratio)>)
        requires
            self.wf(),
        ensures
            ({
                let h = self.event(ChaEventId::Transaction(trans_type, true));
                let m = self.event(ChaEventId::Transaction(trans_type, false));
                match (h, m) {
                    (Some(hit), Some(miss)) => {
                        &&& r@.len() == 9
                        &&& r@[0] == (
                            TransactionMetricType::Bandwidth,
                            bandwidth_gbs(
                                (if hit.insert + miss.insert <= u64::MAX {
                                    (hit.insert + miss.insert) as u64
                                } else {
                                    u64::MAX
                                }),
                                hit.duration_ns,
                            ),
                        )
                        &&& r@[1] == (
                            TransactionMetricType::HitBandwidth,
                            bandwidth_gbs(hit.insert, hit.duration_ns),
                        )
                        &&& r@[2] == (
                            TransactionMetricType::MissBandwidth,
                            bandwidth_gbs(miss.insert, miss.duration_ns),
                        )
                        &&& r@[3] == (
                            TransactionMetricType::HitLatency,
                            latency_ns(
                                hit.occupancy,
                                hit.insert,
                                hit.clockticks,
                                hit.duration_ns,
                            ),
                        )
                        &&& r@[4] == (
                            TransactionMetricType::MissLatency,
                            latency_ns(
                                miss.occupancy,
                                miss.insert,
                                miss.clockticks,
                                miss.duration_ns,
                            ),
                        )
                        &&& r@[5] == (
                            TransactionMetricType::HitRate,
                            hit_rate(hit.insert, miss.insert),
                        )
                        &&& r@[6] == (TransactionMetricType::Latency, Ratio { num: 0, den: 1 })
                        &&& r@[7] == (
                            TransactionMetricType::HitOccupancy,
                            occupancy_ratio(hit.occupancy, hit.clockticks),
                        )
                        &&& r@[8] == (
                            TransactionMetricType::MissOccupancy,
                            occupancy_ratio(miss.occupancy, miss.clockticks),
                        )
                    },
                    _ => r@.len() == 0,
                }
            }),
    {
        let h = self.get_event(ChaEventId::Transaction(trans_type, true));
        let m = self.get_event(ChaEventId::Transaction(trans_type, false));
        let mut r: Vec<(TransactionMetricType, Ratio)> = Vec::new();
        match (h, m) {
            (Some(hit), Some(miss)) => {
                r.push(
                    (
                        TransactionMetricType::Bandwidth,
                        Self::calculate_bandwidth(
                            crate::hw_ops::sat_add_u64(hit.insert, miss.insert),
                            hit.duration_ns,
                        ),
                    ),
                );
                r.push(
                    (
                        TransactionMetricType::HitBandwidth,
                        Self::calculate_bandwidth(hit.insert, hit.duration_ns),
                    ),
                );
                r.push(
                    (
                        TransactionMetricType::MissBandwidth,
                        Self::calculate_bandwidth(miss.insert, miss.duration_ns),
                    ),
                );
                r.push(
                    (
                        TransactionMetricType::HitLatency,
                        Self::calculate_latency(
                            hit.occupancy,
                            hit.insert,
                            hit.clockticks,
                            hit.duration_ns,
                        ),
                    ),
                );
                r.push(
                    (
                        TransactionMetricType::MissLatency,
                        Self::calculate_latency(
                            miss.occupancy,
                            miss.insert,
                            miss.clockticks,
                            miss.duration_ns,
                        ),
                    ),
                );
                r.push(
                    (TransactionMetricType::HitRate, Self::calculate_hit_rate(hit.insert, miss.insert)),
                );
                r.push((TransactionMetricType::Latency, Ratio::zero()));
                r.push(
                    (
                        TransactionMetricType::HitOccupancy,
                        Self::calculate_occupancy(hit.occupancy, hit.clockticks),
                    ),
                );
                r.push(
                    (
                        TransactionMetricType::MissOccupancy,
                        Self::calculate_occupancy(miss.occupancy, miss.clockticks),
                    ),
                );
            },
            _ => {},
        }
        r
    }

    /// The stored LLC lookup insert count for a state and lookup type, or
    /// zero when none is stored.
    pub fn get_llc_lookup(&self, state: LLCState, lookup_type: LLCLookupType) -> (r: u64)
        requires
            self.wf(),
        ensures
            r == match self.event(ChaEventId::LlcLookup(state, lookup_type)) {
                Some(d) => d.insert,
                None => 0u64,
            },
    {
        match self.get_event(ChaEventId::LlcLookup(state, lookup_type)) {
            Some(d) => d.insert,
            None => 0,
        }
    }

    /// The stored LLC victim count for a state, or zero.
    pub fn get_llc_victim(&self, victim_type: VictimType) -> (r: u64)
        requires
            self.wf(),
        ensures
            r == match self.event(ChaEventId::LlcVictim(victim_type)) {
                Some(d) => d.insert,
                None => 0u64,
            },
    {
        match self.get_event(ChaEventId::LlcVictim(victim_type)) {
            Some(d) => d.insert,
            None => 0,
        }
    }

    /// The stored snoop-filter eviction count for a state, or zero.
    pub fn get_sf_eviction(&self, eviction_type: SFEvictionType) -> (r: u64)
        requires
            self.wf(),
        ensures
            r == match self.event(ChaEventId::SfEviction(eviction_type)) {
                Some(d) => d.insert,
                None => 0u64,
            },
    {
        match self.get_event(ChaEventId::SfEviction(eviction_type)) {
            Some(d) => d.insert,
            None => 0,
        }
    }

    /// Eviction bandwidth from the stored eviction group, or zero.
    pub fn calculate_eviction_bandwidth(&self) -> (r: Ratio)
        requires
            self.wf(),
        ensures
            r == match self.event(ChaEventId::Eviction) {
                Some(d) => bandwidth_gbs(d.insert, d.duration_ns),
                None => Ratio { num: 0, den: 1 },
            },
    {
        match self.get_event(ChaEventId::Eviction) {
            Some(d) => Self::calculate_bandwidth(d.insert, d.duration_ns),
            None => Ratio::zero(),
        }
    }

    /// Eviction latency from the stored eviction group, or zero.
    pub fn calculate_eviction_latency(&self) -> (r: Ratio)
        requires
            self.wf(),
        ensures
            r == match self.event(ChaEventId::Eviction) {
                Some(d) => latency_ns(d.occupancy, d.insert, d.clockticks, d.duration_ns),
                None => Ratio { num: 0, den: 1 },
            },
    {
        match self.get_event(ChaEventId::Eviction) {
            Some(d) => Self::calculate_latency(d.occupancy, d.insert, d.clockticks, d.duration_ns),
            None => Ratio::zero(),
        }
    }

    /// Eviction queue occupancy from the stored eviction group, or zero.
    pub fn calculate_eviction_queue_occupancy(&self) -> (r: Ratio)
        requires
            self.wf(),
        ensures
            r == match self.event(ChaEventId::Eviction) {
                Some(d) => occupancy_ratio(d.occupancy, d.clockticks),
                None => Ratio { num: 0, den: 1 },
            },
    {
        match self.get_event(ChaEventId::Eviction) {
            Some(d) => Self::calculate_occupancy(d.occupancy, d.clockticks),
            None => Ratio::zero(),
        }
    }

    /// An ingress queue's occupancy ratio from its stored group, or zero.
    pub fn get_queue_occupancy(&self, queue: QueueType) -> (r: Ratio)
        requires
            self.wf(),
        ensures
            r == match self.event(ChaEventId::Queue(queue)) {
                Some(d) => occupancy_ratio(d.occupancy, d.clockticks),
                None => Ratio { num: 0, den: 1 },
            },
    {
        match self.get_event(ChaEventId::Queue(queue)) {
            Some(d) => Self::calculate_occupancy(d.occupancy, d.clockticks),
            None => Ratio::zero(),
        }
    }

    /// A credit-starvation count from its stored event, or zero.
    pub fn get_credit_metric(&self, credit: CreditType) -> (r: u64)
        requires
            self.wf(),
        ensures
            r == match self.event(ChaEventId::Credit(credit)) {
                Some(d) => d.insert,
                None => 0u64,
            },
    {
        match self.get_event(ChaEventId::Credit(credit)) {
            Some(d) => d.insert,
            None => 0,
        }
    }

    /// The first stored event with both clockticks and elapsed time among
    /// the first `n` slots.
    pub open spec fn first_clocked_event(events: Seq<Option<RawEventData>>, n: int) -> Option<
        RawEventData>
        decreases n,
    {
        if n <= 0 {
            None
        } else if Self::first_clocked_event(events, n - 1) is Some {
            Self::first_clocked_event(events, n - 1)
        } else if events[n - 1] matches Some(d) && d.clockticks > 0 && d.duration_ns > 0 {
            events[n - 1]
        } else {
            None
        }
    }

    /// The uncore frequency from the first stored event with clockticks and
    /// elapsed time, or zero when none has both.
    pub fn calculate_uncore_frequency(&self) -> (r: Ratio)
        requires
            self.wf(),
        ensures
            r.wf(),
            r == match Self::first_clocked_event(self.events@, self.events@.len() as int) {
                Some(d) => uncore_frequency_ghz(d.clockticks, d.duration_ns),
                None => Ratio { num: 0, den: 1 },
            },
    {
        let mut i: usize = 0;
        while i < self.events.len()
            invariant
                self.wf(),
                i <= self.events@.len(),
                Self::first_clocked_event(self.events@, i as int) is None,
            decreases self.events@.len() - i,
        {
            if let Some(d) = self.events[i] {
                if d.clockticks > 0 && d.duration_ns > 0 {
                    proof {
                        lemma_first_clocked_monotonic(
                            self.events@,
                            i + 1,
                            self.events@.len() as int,
                        );
                    }
                    return Self::calculate_frequency(d.clockticks, d.duration_ns);
                }
            }
            i = i + 1;
        }
        Ratio::zero()
    }
}

/// Once a clocked event is found among the first `m` slots, scanning
/// further slots returns the same one.
proof fn lemma_first_clocked_monotonic(events: Seq<Option<RawEventData>>, m: int, n: int)
    requires
        0 < m <= n,
        MetricCalculator::first_clocked_event(events, m) is Some,
    ensures
        MetricCalculator::first_clocked_event(events, n) == MetricCalculator::first_clocked_event(
            events,
            m,
        ),
    decreases n - m,
{
    if m < n {
        lemma_first_clocked_monotonic(events, m, n - 1);
    }
}

} // verus!
