//! The gauge board: the latest derived value of every `(metric, scope)`
//! pair, for the scrape endpoint to read.
//!
//! Each update overwrites one gauge whole; a metric that a tick did not
//! publish keeps its prior value, so a failed collection never shows up as
//! a zero.

use vstd::prelude::*;
use crate::cha_metrics::ChaMetric;
use crate::ratio::Ratio;
use crate::unit_metrics::{CoreMetric, IioMetric, ImcMetric, IrpMetric, RaplMetric, RdtMetric};

verus! {

/// A published metric of any unit class.
#[derive(Debug, Clone, Copy, PartialEq, Eq, Hash, Structural)]
pub enum MetricId {
    /// A caching/home-agent metric.
    Cha(ChaMetric),
    /// A memory-controller metric.
    Imc(ImcMetric),
    /// An I/O-request metric.
    Irp(IrpMetric),
    /// An I/O-bridge metric.
    Iio(IioMetric),
    /// A power metric.
    Rapl(RaplMetric),
    /// A resource-monitoring metric.
    Rdt(RdtMetric),
    /// A core PMU metric.
    Core(CoreMetric),
}

/// The scope a gauge describes.
#[derive(Debug, Clone, Copy, PartialEq, Eq, Hash, Structural)]
pub enum GaugeScope {
    /// A socket-scoped gauge.
    Socket(u32),
    /// A core-scoped gauge.
    Core(u32),
}

/// The identity of one gauge.
#[derive(Debug, Clone, Copy, PartialEq, Eq, Hash, Structural)]
pub struct GaugeKey {
    /// The metric.
    pub metric: MetricId,
    /// The scope the value describes.
    pub scope: GaugeScope,
}

/// The first value stored for a key among the first `n` entries.
pub open spec fn gauge_lookup(entries: Seq<(GaugeKey, Ratio)>, key: GaugeKey, n: int) -> Option<
    Ratio>
    decreases n,
{
    if n <= 0 {
        None
    } else if gauge_lookup(entries, key, n - 1) is Some {
        gauge_lookup(entries, key, n - 1)
    } else if entries[n - 1].0 == key {
        Some(entries[n - 1].1)
    } else {
        None
    }
}

/// Once a key is found among the first `m` entries, scanning further
/// entries returns the same value.
proof fn lemma_gauge_lookup_monotonic(
    entries: Seq<(GaugeKey, Ratio)>,
    key: GaugeKey,
    m: int,
    n: int,
)
    requires
        0 < m <= n,
        gauge_lookup(entries, key, m) is Some,
    ensures
        gauge_lookup(entries, key, n) == gauge_lookup(entries, key, m),
    decreases n - m,
{
    if m < n {
        lemma_gauge_lookup_monotonic(entries, key, m, n - 1);
    }
}

/// When no entry before `i` carries the key and entry `i` does, the lookup
/// returns entry `i`'s value.
proof fn lemma_gauge_lookup_first(entries: Seq<(GaugeKey, Ratio)>, key: GaugeKey, i: int, n: int)
    requires
        0 <= i < n <= entries.len(),
        forall|j: int| 0 <= j < i ==> (#[trigger] entries[j]).0 != key,
        entries[i].0 == key,
    ensures
        gauge_lookup(entries, key, n) == Some(entries[i].1),
    decreases n,
{
    if i < n - 1 {
        lemma_gauge_lookup_first(entries, key, i, n - 1);
    } else {
        assert(gauge_lookup(entries, key, n - 1) is None) by {
            lemma_gauge_lookup_none(entries, key, i);
        }
    }
}

/// With no matching entry among the first `m`, the lookup over them fails.
proof fn lemma_gauge_lookup_none(entries: Seq<(GaugeKey, Ratio)>, key: GaugeKey, m: int)
    requires
        m <= entries.len(),
        forall|j: int| 0 <= j < m ==> (#[trigger] entries[j]).0 != key,
    ensures
        gauge_lookup(entries, key, m) is None,
    decreases m,
{
    if m > 0 {
        lemma_gauge_lookup_none(entries, key, m - 1);
    }
}

/// Replacing the value at an entry leaves every other key's lookup alone.
proof fn lemma_gauge_lookup_update_other(
    before: Seq<(GaugeKey, Ratio)>,
    after: Seq<(GaugeKey, Ratio)>,
    i: int,
    key: GaugeKey,
    other: GaugeKey,
    n: int,
)
    requires
        before.len() == after.len(),
        0 <= i < before.len(),
        n <= before.len(),
        forall|j: int| 0 <= j < before.len() && j != i ==> before[j] == (#[trigger] after[j]),
        before[i].0 == key,
        after[i].0 == key,
        other != key,
    ensures
        gauge_lookup(after, other, n) == gauge_lookup(before, other, n),
    decreases n,
{
    if n > 0 {
        lemma_gauge_lookup_update_other(before, after, i, key, other, n - 1);
    }
}

/// The gauge board.
pub struct GaugeBoard {
    /// The stored gauges, in first-publication order.
    pub entries: Vec<(GaugeKey, Ratio)>,
}

impl GaugeBoard {
    /// The stored value of a gauge.
    pub open spec fn value_of(self, key: GaugeKey) -> Option<Ratio> {
        gauge_lookup(self.entries@, key, self.entries@.len() as int)
    }

    /// An empty board: nothing published yet.
    pub fn new() -> (r: GaugeBoard)
        ensures
            r.entries@.len() == 0,
            forall|key: GaugeKey| r.value_of(key) is None,
    {
        let board = GaugeBoard { entries: Vec::new() };
        proof {
            assert forall|key: GaugeKey| board.value_of(key) is None by {
                lemma_gauge_lookup_none(board.entries@, key, 0);
            }
        }
        board
    }

    /// Overwrite one gauge whole; every other gauge keeps its value.
    pub fn update(&mut self, key: GaugeKey, value: Ratio)
        ensures
            final(self).value_of(key) == Some(value),
            forall|other: GaugeKey|
                other != key ==> final(self).value_of(other) == old(self).value_of(other),
    {
        let mut i: usize = 0;
        while i < self.entries.len()
            invariant
                *self == *old(self),
                i <= self.entries@.len(),
                forall|j: int| 0 <= j < i ==> (#[trigger] self.entries@[j]).0 != key,
            decreases self.entries@.len() - i,
        {
            if self.entries[i].0 == key {
                let ghost before = self.entries@;
                self.entries.set(i, (key, value));
                proof {
                    lemma_gauge_lookup_first(
                        self.entries@,
                        key,
                        i as int,
                        self.entries@.len() as int,
                    );
                    assert forall|other: GaugeKey| other != key implies gauge_lookup(
                        self.entries@,
                        other,
                        self.entries@.len() as int,
                    ) == gauge_lookup(before, other, before.len() as int) by {
                        lemma_gauge_lookup_update_other(
                            before,
                            self.entries@,
                            i as int,
                            key,
                            other,
                            before.len() as int,
                        );
                    }
                }
                return ;
            }
            i = i + 1;
        }
        let ghost before = self.entries@;
        self.entries.push((key, value));
        proof {
            lemma_gauge_lookup_first(
                self.entries@,
                key,
                before.len() as int,
                self.entries@.len() as int,
            );
            assert forall|other: GaugeKey| other != key implies gauge_lookup(
                self.entries@,
                other,
                self.entries@.len() as int,
            ) == gauge_lookup(before, other, before.len() as int) by {
                assert(forall|j: int|
                    0 <= j < before.len() ==> (#[trigger] self.entries@[j]) == before[j]);
                if gauge_lookup(before, other, before.len() as int) is Some {
                    lemma_gauge_lookup_same_prefix(
                        before,
                        self.entries@,
                        other,
                        before.len() as int,
                    );
                } else {
                    lemma_gauge_lookup_same_prefix(
                        before,
                        self.entries@,
                        other,
                        before.len() as int,
                    );
                }
            }
        }
    }

    /// Every stored gauge, for the scrape endpoint to render.
    pub fn gauge_snapshot(&self) -> (r: &Vec<(GaugeKey, Ratio)>)
        ensures
            r == &self.entries,
    {
        &self.entries
    }
}

/// A lookup sees only the first `n` entries, so equal prefixes look up
/// equally.
proof fn lemma_gauge_lookup_same_prefix(
    a: Seq<(GaugeKey, Ratio)>,
    b: Seq<(GaugeKey, Ratio)>,
    key: GaugeKey,
    n: int,
)
    requires
        n <= a.len(),
        n <= b.len(),
        forall|j: int| 0 <= j < n ==> (#[trigger] a[j]) == b[j],
    ensures
        gauge_lookup(a, key, n) == gauge_lookup(b, key, n),
    decreases n,
{
    if n > 0 {
        lemma_gauge_lookup_same_prefix(a, b, key, n - 1);
    }
}

} // verus!
