//! Derived CHA metric identifiers: every published CHA metric is one of
//! these, and each knows its exposition name.

use vstd::prelude::*;
use vstd::string::StringExecFns;
use crate::cha_events::{
    LLCLookupType, LLCState, TransactionType, llc_lookup_type_index, llc_state_index,
    transaction_type_at, transaction_type_name, TRANSACTION_TYPE_COUNT, LLC_STATE_COUNT,
    LLC_LOOKUP_TYPE_COUNT,
};

verus! {

/// A derived per-transaction metric.
#[derive(Debug, Clone, Copy, PartialEq, Eq, Hash, Structural)]
pub enum TransactionMetricType {
    Bandwidth,
    HitBandwidth,
    MissBandwidth,
    HitLatency,
    MissLatency,
    HitRate,
    Latency,
    HitOccupancy,
    MissOccupancy,
}

/// The number of per-transaction metrics.
pub const TRANSACTION_METRIC_TYPE_COUNT: usize = 9;

/// The position of a per-transaction metric in the canonical order.
pub open spec fn transaction_metric_type_index(t: TransactionMetricType) -> int {
    match t {
        TransactionMetricType::Bandwidth => 0,
        TransactionMetricType::HitBandwidth => 1,
        TransactionMetricType::MissBandwidth => 2,
        TransactionMetricType::HitLatency => 3,
        TransactionMetricType::MissLatency => 4,
        TransactionMetricType::HitRate => 5,
        TransactionMetricType::Latency => 6,
        TransactionMetricType::HitOccupancy => 7,
        TransactionMetricType::MissOccupancy => 8,
    }
}

/// The display name of a per-transaction metric.
pub open spec fn transaction_metric_type_name(t: TransactionMetricType) -> Seq<char> {
    match t {
        TransactionMetricType::Bandwidth => "Bandwidth"@,
        TransactionMetricType::HitBandwidth => "HitBandwidth"@,
        TransactionMetricType::MissBandwidth => "MissBandwidth"@,
        TransactionMetricType::HitLatency => "HitLatency"@,
        TransactionMetricType::MissLatency => "MissLatency"@,
        TransactionMetricType::HitRate => "HitRate"@,
        TransactionMetricType::Latency => "Latency"@,
        TransactionMetricType::HitOccupancy => "HitOccupancy"@,
        TransactionMetricType::MissOccupancy => "MissOccupancy"@,
    }
}

impl TransactionMetricType {
    /// The display name.
    pub fn name(&self) -> (r: &'static str)
        ensures
            r@ == transaction_metric_type_name(*self),
    {
        match self {
            TransactionMetricType::Bandwidth => "Bandwidth",
            TransactionMetricType::HitBandwidth => "HitBandwidth",
            TransactionMetricType::MissBandwidth => "MissBandwidth",
            TransactionMetricType::HitLatency => "HitLatency",
            TransactionMetricType::MissLatency => "MissLatency",
            TransactionMetricType::HitRate => "HitRate",
            TransactionMetricType::Latency => "Latency",
            TransactionMetricType::HitOccupancy => "HitOccupancy",
            TransactionMetricType::MissOccupancy => "MissOccupancy",
        }
    }

    /// Every per-transaction metric, in the canonical order.
    pub fn all() -> (r: Vec<TransactionMetricType>)
        ensures
            r@.len() == TRANSACTION_METRIC_TYPE_COUNT,
            forall|t: TransactionMetricType|
                0 <= transaction_metric_type_index(t) < r@.len() && r@[transaction_metric_type_index(
                    t,
                )] == t,
    {
        let v = vec![
            TransactionMetricType::Bandwidth,
            TransactionMetricType::HitBandwidth,
            TransactionMetricType::MissBandwidth,
            TransactionMetricType::HitLatency,
            TransactionMetricType::MissLatency,
            TransactionMetricType::HitRate,
            TransactionMetricType::Latency,
            TransactionMetricType::HitOccupancy,
            TransactionMetricType::MissOccupancy,
        ];
        proof {
            assert forall|t: TransactionMetricType|
                0 <= transaction_metric_type_index(t) < v@.len() && v@[transaction_metric_type_index(
                    t,
                )] == t by {
                match t {
                    TransactionMetricType::Bandwidth => assert(v@[0] == t),
                    TransactionMetricType::HitBandwidth => assert(v@[1] == t),
                    TransactionMetricType::MissBandwidth => assert(v@[2] == t),
                    TransactionMetricType::HitLatency => assert(v@[3] == t),
                    TransactionMetricType::MissLatency => assert(v@[4] == t),
                    TransactionMetricType::HitRate => assert(v@[5] == t),
                    TransactionMetricType::Latency => assert(v@[6] == t),
                    TransactionMetricType::HitOccupancy => assert(v@[7] == t),
                    TransactionMetricType::MissOccupancy => assert(v@[8] == t),
                }
            }
        }
        v
    }
}

/// A last-level-cache victim line state.
#[derive(Debug, Clone, Copy, PartialEq, Eq, Hash, Structural)]
pub enum VictimType {
    M,
    E,
    S,
    F,
}

/// The number of victim types.
pub const VICTIM_TYPE_COUNT: usize = 4;

/// The position of a victim type in the canonical order.
pub open spec fn victim_type_index(t: VictimType) -> int {
    match t {
        VictimType::M => 0,
        VictimType::E => 1,
        VictimType::S => 2,
        VictimType::F => 3,
    }
}

impl VictimType {
    /// The display name.
    pub fn name(&self) -> (r: &'static str)
        ensures
            *self is M ==> r@ == "M"@,
            *self is E ==> r@ == "E"@,
            *self is S ==> r@ == "S"@,
            *self is F ==> r@ == "F"@,
    {
        match self {
            VictimType::M => "M",
            VictimType::E => "E",
            VictimType::S => "S",
            VictimType::F => "F",
        }
    }

    /// The unit mask selecting this victim state.
    pub fn umask(&self) -> (r: u8)
        ensures
            *self is M ==> r == 0x01,
            *self is E ==> r == 0x02,
            *self is S ==> r == 0x04,
            *self is F ==> r == 0x08,
    {
        match self {
            VictimType::M => 0x01,
            VictimType::E => 0x02,
            VictimType::S => 0x04,
            VictimType::F => 0x08,
        }
    }

    /// Every victim type, in the canonical order.
    pub fn all() -> (r: Vec<VictimType>)
        ensures
            r@.len() == VICTIM_TYPE_COUNT,
            forall|t: VictimType| 0 <= victim_type_index(t) < r@.len() && r@[victim_type_index(t)]
                == t,
    {
        let v = vec![VictimType::M, VictimType::E, VictimType::S, VictimType::F];
        proof {
            assert forall|t: VictimType|
                0 <= victim_type_index(t) < v@.len() && v@[victim_type_index(t)] == t by {
                match t {
                    VictimType::M => assert(v@[0] == t),
                    VictimType::E => assert(v@[1] == t),
                    VictimType::S => assert(v@[2] == t),
                    VictimType::F => assert(v@[3] == t),
                }
            }
        }
        v
    }
}

/// A snoop-filter eviction line state.
#[derive(Debug, Clone, Copy, PartialEq, Eq, Hash, Structural)]
pub enum SFEvictionType {
    M,
    E,
    S,
}

/// The number of snoop-filter eviction types.
pub const SF_EVICTION_TYPE_COUNT: usize = 3;

/// The position of a snoop-filter eviction type in the canonical order.
pub open spec fn sf_eviction_type_index(t: SFEvictionType) -> int {
    match t {
        SFEvictionType::M => 0,
        SFEvictionType::E => 1,
        SFEvictionType::S => 2,
    }
}

impl SFEvictionType {
    /// The display name.
    pub fn name(&self) -> (r: &'static str)
        ensures
            *self is M ==> r@ == "M"@,
            *self is E ==> r@ == "E"@,
            *self is S ==> r@ == "S"@,
    {
        match self {
            SFEvictionType::M => "M",
            SFEvictionType::E => "E",
            SFEvictionType::S => "S",
        }
    }

    /// The unit mask selecting this eviction state.
    pub fn umask(&self) -> (r: u8)
        ensures
            *self is M ==> r == 0x01,
            *self is E ==> r == 0x02,
            *self is S ==> r == 0x04,
    {
        match self {
            SFEvictionType::M => 0x01,
            SFEvictionType::E => 0x02,
            SFEvictionType::S => 0x04,
        }
    }

    /// Every snoop-filter eviction type, in the canonical order.
    pub fn all() -> (r: Vec<SFEvictionType>)
        ensures
            r@.len() == SF_EVICTION_TYPE_COUNT,
            forall|t: SFEvictionType|
                0 <= sf_eviction_type_index(t) < r@.len() && r@[sf_eviction_type_index(t)] == t,
    {
        let v = vec![SFEvictionType::M, SFEvictionType::E, SFEvictionType::S];
        proof {
            assert forall|t: SFEvictionType|
                0 <= sf_eviction_type_index(t) < v@.len() && v@[sf_eviction_type_index(t)] == t by {
                match t {
                    SFEvictionType::M => assert(v@[0] == t),
                    SFEvictionType::E => assert(v@[1] == t),
                    SFEvictionType::S => assert(v@[2] == t),
                }
            }
        }
        v
    }
}

/// A published CHA metric.
#[derive(Debug, Clone, Copy, PartialEq, Eq, Hash, Structural)]
pub enum ChaMetric {
    /// One derived metric of one transaction type.
    Transaction(TransactionType, TransactionMetricType),
    /// An LLC lookup count for one state and lookup type.
    LLCLookup(LLCState, LLCLookupType),
    /// An LLC victim count for one state.
    LLCVictim(VictimType),
    /// A snoop-filter eviction count for one state.
    SFEviction(SFEvictionType),
    /// Eviction bandwidth.
    EvictionBandwidth,
    /// Eviction latency.
    EvictionLatency,
    /// Eviction queue occupancy.
    EvictionQueueOccupancy,
    /// IRQ ingress-queue occupancy.
    IRQOccupancy,
    /// PRQ ingress-queue occupancy.
    PRQOccupancy,
    /// Uncore clock frequency.
    UncoreFrequency,
    /// Cycles with no read credit.
    ReadNoCredit,
    /// Cycles with no write credit.
    WriteNoCredit,
}

/// The number of published CHA metrics: `11 * 9` transaction metrics,
/// `7 * 4` lookup counts, four victim counts, three snoop-filter eviction
/// counts, and eight further metrics.
pub const CHA_METRIC_COUNT: usize = 142;

impl ChaMetric {
    /// The exposition name: the names of the parts, concatenated.
    pub fn name(&self) -> (r: String)
        ensures
            forall|t: TransactionType, m: TransactionMetricType|
                *self == ChaMetric::Transaction(t, m) ==> r@ == transaction_type_name(t)
                    + transaction_metric_type_name(m),
            *self is UncoreFrequency ==> r@ == "UncoreFrequency"@,
    {
        match self {
            ChaMetric::Transaction(trans_type, metric_type) => {
                String::from_str(trans_type.name()).concat(metric_type.name())
            },
            ChaMetric::LLCLookup(state, lookup_type) => {
                String::from_str("LLCLookup").concat(state.name()).concat(lookup_type.name())
            },
            ChaMetric::LLCVictim(victim_type) => {
                String::from_str("LLCVictim").concat(victim_type.name())
            },
            ChaMetric::SFEviction(eviction_type) => {
                String::from_str("SFEviction").concat(eviction_type.name())
            },
            ChaMetric::EvictionBandwidth => String::from_str("EvictionBandwidth"),
            ChaMetric::EvictionLatency => String::from_str("EvictionLatency"),
            ChaMetric::EvictionQueueOccupancy => String::from_str("EvictionQueueOccupancy"),
            ChaMetric::IRQOccupancy => String::from_str("IRQOccupancy"),
            ChaMetric::PRQOccupancy => String::from_str("PRQOccupancy"),
            ChaMetric::UncoreFrequency => String::from_str("UncoreFrequency"),
            ChaMetric::ReadNoCredit => String::from_str("ReadNoCredit"),
            ChaMetric::WriteNoCredit => String::from_str("WriteNoCredit"),
        }
    }

    /// Every published CHA metric.
    pub fn all() -> (r: Vec<ChaMetric>)
        ensures
            r@.len() == CHA_METRIC_COUNT,
    {
        let mut metrics: Vec<ChaMetric> = Vec::new();
        let trans_types = crate::cha_events::TransactionType::all();
        let metric_types = TransactionMetricType::all();
        let mut i: usize = 0;
        while i < trans_types.len()
            invariant
                trans_types@.len() == TRANSACTION_TYPE_COUNT,
                metric_types@.len() == TRANSACTION_METRIC_TYPE_COUNT,
                i <= trans_types@.len(),
                metrics@.len() == i * TRANSACTION_METRIC_TYPE_COUNT,
            decreases trans_types@.len() - i,
        {
            let mut k: usize = 0;
            while k < metric_types.len()
                invariant
                    trans_types@.len() == TRANSACTION_TYPE_COUNT,
                    metric_types@.len() == TRANSACTION_METRIC_TYPE_COUNT,
                    i < trans_types@.len(),
                    k <= metric_types@.len(),
                    metrics@.len() == i * TRANSACTION_METRIC_TYPE_COUNT + k,
                decreases metric_types@.len() - k,
            {
                metrics.push(ChaMetric::Transaction(trans_types[i], metric_types[k]));
                k = k + 1;
            }
            i = i + 1;
        }
        let states = LLCState::all();
        let lookups = LLCLookupType::all();
        let mut si: usize = 0;
        while si < states.len()
            invariant
                states@.len() == LLC_STATE_COUNT,
                lookups@.len() == LLC_LOOKUP_TYPE_COUNT,
                si <= states@.len(),
                metrics@.len() == 99 + si * LLC_LOOKUP_TYPE_COUNT,
            decreases states@.len() - si,
        {
            let mut li: usize = 0;
            while li < lookups.len()
                invariant
                    states@.len() == LLC_STATE_COUNT,
                    lookups@.len() == LLC_LOOKUP_TYPE_COUNT,
                    si < states@.len(),
                    li <= lookups@.len(),
                    metrics@.len() == 99 + si * LLC_LOOKUP_TYPE_COUNT + li,
                decreases lookups@.len() - li,
            {
                metrics.push(ChaMetric::LLCLookup(states[si], lookups[li]));
                li = li + 1;
            }
            si = si + 1;
        }
        let victims = VictimType::all();
        let mut vi: usize = 0;
        while vi < victims.len()
            invariant
                victims@.len() == VICTIM_TYPE_COUNT,
                vi <= victims@.len(),
                metrics@.len() == 127 + vi,
            decreases victims@.len() - vi,
        {
            metrics.push(ChaMetric::LLCVictim(victims[vi]));
            vi = vi + 1;
        }
        let evictions = SFEvictionType::all();
        let mut ei: usize = 0;
        while ei < evictions.len()
            invariant
                evictions@.len() == SF_EVICTION_TYPE_COUNT,
                ei <= evictions@.len(),
                metrics@.len() == 131 + ei,
            decreases evictions@.len() - ei,
        {
            metrics.push(ChaMetric::SFEviction(evictions[ei]));
            ei = ei + 1;
        }
        metrics.push(ChaMetric::EvictionBandwidth);
        metrics.push(ChaMetric::EvictionLatency);
        metrics.push(ChaMetric::EvictionQueueOccupancy);
        metrics.push(ChaMetric::IRQOccupancy);
        metrics.push(ChaMetric::PRQOccupancy);
        metrics.push(ChaMetric::UncoreFrequency);
        metrics.push(ChaMetric::ReadNoCredit);
        metrics.push(ChaMetric::WriteNoCredit);
        metrics
    }

    /// The basic transaction metric set: PCIe read and full-write bandwidth
    /// and hit latency, the M/E/S victim counts, and the uncore frequency.
    pub fn basic_set() -> (r: Vec<ChaMetric>)
        ensures
            r@.len() == 8,
    {
        vec![
            ChaMetric::Transaction(TransactionType::PCIeRead, TransactionMetricType::Bandwidth),
            ChaMetric::Transaction(TransactionType::PCIeRead, TransactionMetricType::HitLatency),
            ChaMetric::Transaction(
                TransactionType::PCIeFullWrite,
                TransactionMetricType::Bandwidth,
            ),
            ChaMetric::Transaction(
                TransactionType::PCIeFullWrite,
                TransactionMetricType::HitLatency,
            ),
            ChaMetric::LLCVictim(VictimType::M),
            ChaMetric::LLCVictim(VictimType::E),
            ChaMetric::LLCVictim(VictimType::S),
            ChaMetric::UncoreFrequency,
        ]
    }
}

} // verus!
