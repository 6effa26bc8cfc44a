//! CHA monitor with event rotation.
//!
//! The CHA event catalog is larger than the four physical counters of a box,
//! so the monitor cycles through event groups on a fixed rotation interval.
//! Programming sequences are computed as lists of MSR writes; counter
//! readings are handed in per box, and deltas are aggregated across boxes
//! into one accumulated sample per event group.

use vstd::prelude::*;
use vstd::string::StringExecFns;
use crate::arch::CpuArchitecture;
use crate::calculator::RawEventData;
use crate::cha_events::{ChaEventConfig, TRANSACTION_TYPE_COUNT};
use crate::counters::counter_delta;
use crate::cha_regs::CHA_COUNTER_MODULUS;
use crate::hw_ops::{sat_add_u64, MsrOp};

verus! {

/// Raw values of the four counters of one CHA box.
#[derive(Debug, Clone, Copy, Default, PartialEq, Eq, Structural)]
pub struct ChaRawCounters {
    /// Counter 0.
    pub counter0: u64,
    /// Counter 1.
    pub counter1: u64,
    /// Counter 2.
    pub counter2: u64,
    /// Counter 3.
    pub counter3: u64,
}

/// The counter increment of one box counter: the masked difference of the
/// current and previous sample, modulo the counter width.
pub open spec fn cha_delta(cur: u64, prev: u64) -> int {
    (cur % CHA_COUNTER_MODULUS - prev % CHA_COUNTER_MODULUS) % (CHA_COUNTER_MODULUS as int)
}

/// The previous sample of a box, taking a missing one as all-zero.
pub open spec fn prev_box_or_zero(prev: Option<ChaRawCounters>) -> ChaRawCounters {
    match prev {
        Some(p) => p,
        None => ChaRawCounters { counter0: 0, counter1: 0, counter2: 0, counter3: 0 },
    }
}

/// The sum over the first `n` boxes of one counter's increment.
pub open spec fn sum_box_delta(
    readings: Seq<ChaRawCounters>,
    prevs: Seq<Option<ChaRawCounters>>,
    f: spec_fn(ChaRawCounters) -> u64,
    n: int,
) -> int
    decreases n,
{
    if n <= 0 {
        0
    } else {
        sum_box_delta(readings, prevs, f, n - 1) + cha_delta(
            f(readings[n - 1]),
            f(prev_box_or_zero(prevs[n - 1])),
        )
    }
}

/// The summed counter-0 increment of the first `n` boxes.
pub open spec fn sum_c0(readings: Seq<ChaRawCounters>, prevs: Seq<Option<ChaRawCounters>>, n: int) -> int {
    sum_box_delta(readings, prevs, |c: ChaRawCounters| c.counter0, n)
}

/// The summed counter-1 increment of the first `n` boxes.
pub open spec fn sum_c1(readings: Seq<ChaRawCounters>, prevs: Seq<Option<ChaRawCounters>>, n: int) -> int {
    sum_box_delta(readings, prevs, |c: ChaRawCounters| c.counter1, n)
}

/// The summed counter-2 increment of the first `n` boxes.
pub open spec fn sum_c2(readings: Seq<ChaRawCounters>, prevs: Seq<Option<ChaRawCounters>>, n: int) -> int {
    sum_box_delta(readings, prevs, |c: ChaRawCounters| c.counter2, n)
}

/// One event group owned by the rotation scheduler.
#[derive(Debug)]
pub struct EventGroup {
    /// Display name of the group.
    pub name: String,
    /// The group's configuration.
    pub config: ChaEventConfig,
    /// The `(event, umask)` pair of each of the four counters.
    pub counter_configs: Vec<(u8, u8)>,
}

impl EventGroup {
    /// A well-formed group programs exactly four counters, as its
    /// configuration says.
    pub open spec fn wf(self) -> bool {
        self.counter_configs@.len() == 4 && self.config.wf() && self.counter_configs@
            == self.config.events@
    }

    /// The group owning a configuration.
    pub fn from_config(config: ChaEventConfig) -> (r: EventGroup)
        requires
            config.wf(),
        ensures
            r.wf(),
            r.config == config,
            r.name@ == config.name@,
    {
        let name = String::from_str(config.name.as_str());
        let mut counter_configs: Vec<(u8, u8)> = Vec::new();
        counter_configs.push(config.events[0]);
        counter_configs.push(config.events[1]);
        counter_configs.push(config.events[2]);
        counter_configs.push(config.events[3]);
        proof {
            assert(counter_configs@ =~= config.events@);
        }
        EventGroup { name, config, counter_configs }
    }
}

/// The index reached from `start` after `k` single-step rotations over `n`
/// groups.
pub open spec fn rotated_index(start: int, k: nat, n: int) -> int
    decreases k,
{
    if k == 0 {
        start
    } else {
        (rotated_index(start, (k - 1) as nat, n) + 1) % n
    }
}

/// After `k` rotations over `n` groups the current index is
/// `(start + k) mod n`: every group recurs with period `n`.
pub proof fn lemma_rotation_cycles(start: int, k: nat, n: int)
    requires
        n > 0,
        0 <= start < n,
    ensures
        rotated_index(start, k, n) == (start + k) % n,
    decreases k,
{
    if k == 0 {
        vstd::arithmetic::div_mod::lemma_small_mod(start as nat, n as nat);
    } else {
        lemma_rotation_cycles(start, (k - 1) as nat, n);
        if n > 1 {
            vstd::arithmetic::div_mod::lemma_add_mod_noop(start + k - 1, 1, n);
            vstd::arithmetic::div_mod::lemma_small_mod(1nat, n as nat);
        } else {
            vstd::arithmetic::div_mod::lemma_mod_multiples_basic(
                rotated_index(start, (k - 1) as nat, n) + 1,
                1,
            );
            vstd::arithmetic::div_mod::lemma_mod_multiples_basic(start + k, 1);
        }
    }
}

/// Event-rotation scheduler: an ordered list of event groups, the index of
/// the group currently programmed, and the time of the last rotation.
pub struct EventScheduler {
    /// The event groups, in rotation order.
    pub groups: Vec<EventGroup>,
    /// Index of the currently programmed group.
    pub current_index: usize,
    /// Time of the last rotation, in nanoseconds.
    pub last_rotation_ns: u64,
    /// Rotation interval, in nanoseconds.
    pub rotation_interval_ns: u64,
}

impl EventScheduler {
    /// The current index addresses a group (or the list is still empty),
    /// and every group is well formed.
    pub open spec fn wf(self) -> bool {
        &&& (self.groups@.len() == 0 ==> self.current_index == 0)
        &&& (self.groups@.len() > 0 ==> self.current_index < self.groups@.len())
        &&& forall|i: int| 0 <= i < self.groups@.len() ==> (#[trigger] self.groups@[i]).wf()
    }

    /// An empty scheduler with the given rotation interval.
    pub fn new(rotation_interval_ns: u64, now_ns: u64) -> (r: EventScheduler)
        ensures
            r.wf(),
            r.groups@.len() == 0,
            r.current_index == 0,
            r.last_rotation_ns == now_ns,
            r.rotation_interval_ns == rotation_interval_ns,
    {
        EventScheduler {
            groups: Vec::new(),
            current_index: 0,
            last_rotation_ns: now_ns,
            rotation_interval_ns,
        }
    }

    /// Append an event group.
    pub fn add_event_group(&mut self, config: ChaEventConfig)
        requires
            old(self).wf(),
            config.wf(),
        ensures
            final(self).wf(),
            final(self).groups@.len() == old(self).groups@.len() + 1,
            forall|i: int|
                0 <= i < old(self).groups@.len() ==> final(self).groups@[i] == old(self).groups@[i],
            final(self).groups@[old(self).groups@.len() as int].config == config,
            final(self).current_index == old(self).current_index,
            final(self).last_rotation_ns == old(self).last_rotation_ns,
            final(self).rotation_interval_ns == old(self).rotation_interval_ns,
    {
        let group = EventGroup::from_config(config);
        self.groups.push(group);
    }

    /// Whether the rotation interval has elapsed since the last rotation.
    pub open spec fn should_rotate_spec(self, now_ns: u64) -> bool {
        now_ns - self.last_rotation_ns >= self.rotation_interval_ns
    }

    /// Whether it is time to rotate.
    pub fn should_rotate(&self, now_ns: u64) -> (r: bool)
        requires
            now_ns >= self.last_rotation_ns,
        ensures
            r == self.should_rotate_spec(now_ns),
    {
        now_ns - self.last_rotation_ns >= self.rotation_interval_ns
    }

    /// The currently programmed group, if any.
    pub fn get_current_group(&self) -> (r: Option<&EventGroup>)
        requires
            self.wf(),
        ensures
            self.groups@.len() == 0 ==> r is None,
            self.groups@.len() > 0 ==> r == Some(&self.groups@[self.current_index as int]),
    {
        if self.groups.len() == 0 {
            None
        } else {
            Some(&self.groups[self.current_index])
        }
    }

    /// Advance to the next group, modulo the group count, and remember the
    /// rotation time; with no groups nothing changes.
    pub fn rotate(&mut self, now_ns: u64)
        requires
            old(self).wf(),
        ensures
            final(self).wf(),
            final(self).groups == old(self).groups,
            final(self).rotation_interval_ns == old(self).rotation_interval_ns,
            old(self).groups@.len() == 0 ==> *final(self) == *old(self),
            old(self).groups@.len() > 0 ==> final(self).current_index == (old(self).current_index
                + 1) % (old(self).groups@.len() as int) && final(self).last_rotation_ns == now_ns,
    {
        if self.groups.len() == 0 {
            return ;
        }
        self.current_index = (self.current_index + 1) % self.groups.len();
        self.last_rotation_ns = now_ns;
    }

    /// The index of the currently programmed group.
    pub fn current_group_index(&self) -> (r: usize)
        ensures
            r == self.current_index,
    {
        self.current_index
    }
}

/// The base MSR address of a CHA box's register block.
pub open spec fn cha_box_base(cha_id: int) -> u64 {
    (0xE00 + cha_id * 0x10) as u64
}

/// The counter-control value programming one `(event, umask)` pair with the
/// enable bit set.
pub open spec fn cha_ctl_value(event: u8, umask: u8) -> u64 {
    (event as u64) | ((umask as u64) << 8) | (1u64 << 22)
}

/// The write that programs counter `i` of a box, when its slot is used.
pub open spec fn ctl_op_for_slot(core: u32, cha_id: int, events: Seq<(u8, u8)>, i: int) -> Seq<
    MsrOp> {
    if events[i].0 != 0 || events[i].1 != 0 {
        seq![
            MsrOp {
                cpu: core,
                addr: (cha_box_base(cha_id) + 1 + i) as u64,
                value: cha_ctl_value(events[i].0, events[i].1),
            },
        ]
    } else {
        Seq::empty()
    }
}

/// The whole programming sequence of one box for one configuration: freeze,
/// the filters the configuration needs, the used counter controls with the
/// enable bit, then unfreeze.
pub open spec fn group_ops_for_box(core: u32, cha_id: int, opc0: u32, state: u32, events: Seq<
    (u8, u8)>) -> Seq<MsrOp> {
    let base = cha_box_base(cha_id);
    seq![MsrOp { cpu: core, addr: base, value: 0 }] + (if opc0 != 0 {
        seq![MsrOp { cpu: core, addr: (base + 5) as u64, value: opc0 as u64 }]
    } else {
        Seq::empty()
    }) + (if state != 0 {
        seq![MsrOp { cpu: core, addr: (base + 6) as u64, value: (state as u64) << 17 }]
    } else {
        Seq::empty()
    }) + ctl_op_for_slot(core, cha_id, events, 0) + ctl_op_for_slot(core, cha_id, events, 1)
        + ctl_op_for_slot(core, cha_id, events, 2) + ctl_op_for_slot(core, cha_id, events, 3)
        + seq![MsrOp { cpu: core, addr: base, value: 0x10000 }]
}

/// The programming sequences of the first `n` boxes, concatenated: each box
/// is programmed exactly once.
pub open spec fn group_ops_upto(core: u32, opc0: u32, state: u32, events: Seq<(u8, u8)>, n: int) -> Seq<
    MsrOp>
    decreases n,
{
    if n <= 0 {
        Seq::empty()
    } else {
        group_ops_upto(core, opc0, state, events, n - 1) + group_ops_for_box(
            core,
            n - 1,
            opc0,
            state,
            events,
        )
    }
}

/// CHA monitor for one socket.
pub struct ChaMonitor {
    /// The monitored socket.
    pub socket: u32,
    /// Number of CHA boxes on the socket.
    pub cha_count: usize,
    /// The core from which this socket's uncore MSRs are programmed.
    pub representative_core: u32,
    /// The event-rotation scheduler.
    pub scheduler: EventScheduler,
    /// Previous counter values of each box, cleared on rotation.
    pub prev_counters: Vec<Option<ChaRawCounters>>,
    /// Accumulated sample of each event group, aligned with the scheduler's
    /// group list.
    pub event_data: Vec<RawEventData>,
    /// Time at which the current accumulation started, in nanoseconds.
    pub collection_start_ns: u64,
}

impl ChaMonitor {
    /// Box state is sized to the socket's box count and sample storage to
    /// the group list.
    pub open spec fn wf(self) -> bool {
        &&& self.scheduler.wf()
        &&& self.prev_counters@.len() == self.cha_count
        &&& self.event_data@.len() == self.scheduler.groups@.len()
        &&& self.cha_count <= 28
    }

    /// A monitor for one socket, with the architecture's box count (28 when
    /// unknown), a representative core of the socket, and a two-second
    /// rotation interval.
    pub fn new(socket: u32, arch: CpuArchitecture, now_ns: u64) -> (r: ChaMonitor)
        requires
            socket < 0x10000,
        ensures
            r.wf(),
            r.socket == socket,
            r.representative_core == socket * 28,
            r.scheduler.groups@.len() == 0,
            r.scheduler.rotation_interval_ns == 2_000_000_000u64,
            r.cha_count == match arch.cha_count_spec() {
                Some(n) => n as usize,
                None => 28usize,
            },
            r.collection_start_ns == now_ns,
    {
        let cha_count: usize = match arch.cha_count() {
            Some(n) => n as usize,
            None => 28,
        };
        let mut prev_counters: Vec<Option<ChaRawCounters>> = Vec::new();
        let mut i: usize = 0;
        while i < cha_count
            invariant
                i <= cha_count,
                prev_counters@.len() == i,
            decreases cha_count - i,
        {
            prev_counters.push(None);
            i = i + 1;
        }
        ChaMonitor {
            socket,
            cha_count,
            representative_core: socket * 28,
            scheduler: EventScheduler::new(2_000_000_000, now_ns),
            prev_counters,
            event_data: Vec::new(),
            collection_start_ns: now_ns,
        }
    }

    /// The writes programming one event group into one box.
    #[verifier::rlimit(60)]
    pub fn program_event_group(&self, cha_id: usize, config: &ChaEventConfig) -> (ops: Vec<MsrOp>)
        requires
            cha_id < 28,
            config.wf(),
        ensures
            ops@ == group_ops_for_box(
                self.representative_core,
                cha_id as int,
                config.opc0,
                config.state,
                config.events@,
            ),
    {
        let core = self.representative_core;
        let base: u64 = 0xE00 + (cha_id as u64) * 0x10;
        let mut ops: Vec<MsrOp> = Vec::new();
        ops.push(MsrOp { cpu: core, addr: base, value: 0 });
        if config.opc0 != 0 {
            ops.push(MsrOp { cpu: core, addr: base + 5, value: config.opc0 as u64 });
        }
        if config.state != 0 {
            ops.push(MsrOp { cpu: core, addr: base + 6, value: (config.state as u64) << 17 });
        }
        let e0 = config.events[0];
        if e0.0 != 0 || e0.1 != 0 {
            ops.push(
                MsrOp {
                    cpu: core,
                    addr: base + 1,
                    value: (e0.0 as u64) | ((e0.1 as u64) << 8) | (1u64 << 22),
                },
            );
        }
        let e1 = config.events[1];
        if e1.0 != 0 || e1.1 != 0 {
            ops.push(
                MsrOp {
                    cpu: core,
                    addr: base + 2,
                    value: (e1.0 as u64) | ((e1.1 as u64) << 8) | (1u64 << 22),
                },
            );
        }
        let e2 = config.events[2];
        if e2.0 != 0 || e2.1 != 0 {
            ops.push(
                MsrOp {
                    cpu: core,
                    addr: base + 3,
                    value: (e2.0 as u64) | ((e2.1 as u64) << 8) | (1u64 << 22),
                },
            );
        }
        let e3 = config.events[3];
        if e3.0 != 0 || e3.1 != 0 {
            ops.push(
                MsrOp {
                    cpu: core,
                    addr: base + 4,
                    value: (e3.0 as u64) | ((e3.1 as u64) << 8) | (1u64 << 22),
                },
            );
        }
        ops.push(MsrOp { cpu: core, addr: base, value: 0x10000 });
        proof {
            assert(ops@ =~= group_ops_for_box(
                self.representative_core,
                cha_id as int,
                config.opc0,
                config.state,
                config.events@,
            ));
        }
        ops
    }

    /// The writes programming one event group into every box of the socket,
    /// each box exactly once.
    pub fn program_all_boxes(&self, config: &ChaEventConfig) -> (ops: Vec<MsrOp>)
        requires
            self.wf(),
            config.wf(),
        ensures
            ops@ == group_ops_upto(
                self.representative_core,
                config.opc0,
                config.state,
                config.events@,
                self.cha_count as int,
            ),
    {
        let mut ops: Vec<MsrOp> = Vec::new();
        let mut cha_id: usize = 0;
        while cha_id < self.cha_count
            invariant
                self.wf(),
                config.wf(),
                cha_id <= self.cha_count,
                ops@ == group_ops_upto(
                    self.representative_core,
                    config.opc0,
                    config.state,
                    config.events@,
                    cha_id as int,
                ),
            decreases self.cha_count - cha_id,
        {
            let mut box_ops = self.program_event_group(cha_id, config);
            ops.append(&mut box_ops);
            cha_id = cha_id + 1;
        }
        ops
    }

    /// Install the rotation catalog — the hit and miss flavours of every
    /// transaction type — and return the writes programming the first group
    /// into every box.
    pub fn initialize(&mut self, now_ns: u64) -> (ops: Vec<MsrOp>)
        requires
            old(self).wf(),
            old(self).scheduler.groups@.len() == 0,
        ensures
            final(self).wf(),
            final(self).scheduler.groups@.len() == 2 * TRANSACTION_TYPE_COUNT,
            final(self).scheduler.current_index == 0,
            final(self).cha_count == old(self).cha_count,
            final(self).representative_core == old(self).representative_core,
            ops@ == group_ops_upto(
                final(self).representative_core,
                final(self).scheduler.groups@[0].config.opc0,
                final(self).scheduler.groups@[0].config.state,
                final(self).scheduler.groups@[0].config.events@,
                final(self).cha_count as int,
            ),
    {
        self.setup_event_rotation();
        let group_config = self.scheduler.groups[0].config.clone();
        proof {
            assert(group_config.wf());
        }
        self.program_all_boxes(&group_config)
    }

    /// Install the rotation catalog: the hit and miss flavours of every
    /// transaction type, with a zeroed accumulated sample for each group.
    pub fn setup_event_rotation(&mut self)
        requires
            old(self).wf(),
            old(self).scheduler.groups@.len() == 0,
        ensures
            final(self).wf(),
            final(self).scheduler.groups@.len() == 2 * TRANSACTION_TYPE_COUNT,
            final(self).scheduler.current_index == 0,
            final(self).cha_count == old(self).cha_count,
            final(self).representative_core == old(self).representative_core,
            final(self).socket == old(self).socket,
            final(self).prev_counters == old(self).prev_counters,
            final(self).collection_start_ns == old(self).collection_start_ns,
    {
        let configs = ChaEventConfig::all_transactions();
        let mut j: usize = 0;
        while j < configs.len()
            invariant
                old(self).wf(),
                configs@.len() == 2 * TRANSACTION_TYPE_COUNT,
                forall|i: int| 0 <= i < configs@.len() ==> (#[trigger] configs@[i]).wf(),
                j <= configs@.len(),
                self.scheduler.wf(),
                self.scheduler.groups@.len() == j,
                self.scheduler.current_index == 0,
                self.cha_count == old(self).cha_count,
                self.representative_core == old(self).representative_core,
                self.prev_counters == old(self).prev_counters,
                self.socket == old(self).socket,
                self.collection_start_ns == old(self).collection_start_ns,
            decreases configs@.len() - j,
        {
            self.scheduler.add_event_group(configs[j].clone());
            j = j + 1;
        }
        let mut event_data: Vec<RawEventData> = Vec::new();
        let mut k: usize = 0;
        let total = self.scheduler.groups.len();
        while k < total
            invariant
                k <= total,
                event_data@.len() == k,
            decreases total - k,
        {
            event_data.push(
                RawEventData { occupancy: 0, insert: 0, clockticks: 0, duration_ns: 0 },
            );
            k = k + 1;
        }
        self.event_data = event_data;
    }

    /// Fold one tick's box readings into the current group's accumulated
    /// sample, remember the readings, and rotate when the interval has
    /// elapsed: on rotation the previous-counter state is dropped and the
    /// writes re-programming every box with the new group are returned; on
    /// an ordinary tick no writes are needed.
    pub fn collect(&mut self, now_ns: u64, readings: &Vec<ChaRawCounters>) -> (ops: Vec<MsrOp>)
        requires
            old(self).wf(),
            old(self).scheduler.groups@.len() > 0,
            readings@.len() == old(self).cha_count,
            now_ns >= old(self).scheduler.last_rotation_ns,
            now_ns >= old(self).collection_start_ns,
        ensures
            final(self).wf(),
            final(self).cha_count == old(self).cha_count,
            final(self).scheduler.groups == old(self).scheduler.groups,
            final(self).representative_core == old(self).representative_core,
            // Rotation fires exactly when the interval has elapsed.
            old(self).scheduler.should_rotate_spec(now_ns) ==> {
                &&& final(self).scheduler.current_index == (old(self).scheduler.current_index + 1)
                    % (old(self).scheduler.groups@.len() as int)
                &&& final(self).scheduler.last_rotation_ns == now_ns
                &&& forall|i: int|
                    0 <= i < final(self).prev_counters@.len() ==> (final(
                        self).prev_counters@[i] is None)
                &&& ({
                    let next = old(self).scheduler.groups@[final(self).scheduler.current_index as int].config;
                    ops@ == group_ops_upto(
                        old(self).representative_core,
                        next.opc0,
                        next.state,
                        next.events@,
                        old(self).cha_count as int,
                    )
                })
            },
            !old(self).scheduler.should_rotate_spec(now_ns) ==> {
                &&& final(self).scheduler.current_index == old(self).scheduler.current_index
                &&& final(self).scheduler.last_rotation_ns == old(self).scheduler.last_rotation_ns
                &&& ops@.len() == 0
            },
            // Only the current group's accumulated sample changes.
            final(self).event_data@.len() == old(self).event_data@.len(),
            forall|i: int|
                0 <= i < old(self).event_data@.len() && i != old(self).scheduler.current_index
                    ==> final(self).event_data@[i] == old(self).event_data@[i],
            // The current group's sample accumulates the per-box counter
            // increments of this tick: occupancy from counter 0, inserts
            // from counter 1, clockticks from counter 2.
            ({
                let cur = old(self).scheduler.current_index as int;
                let prevs = old(self).prev_counters@;
                let n = old(self).cha_count as int;
                let before = old(self).event_data@[cur];
                let d0 = sum_c0(readings@, prevs, n);
                let d1 = sum_c1(readings@, prevs, n);
                let d2 = sum_c2(readings@, prevs, n);
                final(self).event_data@[cur] == (RawEventData {
                    occupancy: (if before.occupancy + d0 <= u64::MAX {
                        (before.occupancy + d0) as u64
                    } else {
                        u64::MAX
                    }),
                    insert: (if before.insert + d1 <= u64::MAX {
                        (before.insert + d1) as u64
                    } else {
                        u64::MAX
                    }),
                    clockticks: (if before.clockticks + d2 <= u64::MAX {
                        (before.clockticks + d2) as u64
                    } else {
                        u64::MAX
                    }),
                    duration_ns: (now_ns - old(self).collection_start_ns) as u64,
                })
            }),
    {
        let current_index = self.scheduler.current_group_index();
        let ghost prevs = self.prev_counters@;
        let mut agg0: u64 = 0;
        let mut agg1: u64 = 0;
        let mut agg2: u64 = 0;
        let mut agg3: u64 = 0;
        let mut cha_id: usize = 0;
        while cha_id < self.cha_count
            invariant
                self.wf(),
                readings@.len() == self.cha_count,
                cha_id <= self.cha_count,
                agg0 <= cha_id * (CHA_COUNTER_MODULUS - 1),
                agg1 <= cha_id * (CHA_COUNTER_MODULUS - 1),
                agg2 <= cha_id * (CHA_COUNTER_MODULUS - 1),
                agg3 <= cha_id * (CHA_COUNTER_MODULUS - 1),
                prevs == old(self).prev_counters@,
                prevs.len() == self.cha_count,
                forall|k: int| cha_id <= k < self.cha_count ==> self.prev_counters@[k] == prevs[k],
                agg0 == sum_c0(readings@, prevs, cha_id as int),
                agg1 == sum_c1(readings@, prevs, cha_id as int),
                agg2 == sum_c2(readings@, prevs, cha_id as int),
                self.scheduler == old(self).scheduler,
                self.event_data == old(self).event_data,
                self.collection_start_ns == old(self).collection_start_ns,
                self.cha_count == old(self).cha_count,
                self.representative_core == old(self).representative_core,
                self.socket == old(self).socket,
                current_index == old(self).scheduler.current_index,
                now_ns >= old(self).scheduler.last_rotation_ns,
                now_ns >= old(self).collection_start_ns,
            decreases self.cha_count - cha_id,
        {
            let current = readings[cha_id];
            let prev = match self.prev_counters[cha_id] {
                Some(p) => p,
                None => ChaRawCounters { counter0: 0, counter1: 0, counter2: 0, counter3: 0 },
            };
            let c0 = current.counter0 % CHA_COUNTER_MODULUS;
            let c1 = current.counter1 % CHA_COUNTER_MODULUS;
            let c2 = current.counter2 % CHA_COUNTER_MODULUS;
            let c3 = current.counter3 % CHA_COUNTER_MODULUS;
            let p0 = prev.counter0 % CHA_COUNTER_MODULUS;
            let p1 = prev.counter1 % CHA_COUNTER_MODULUS;
            let p2 = prev.counter2 % CHA_COUNTER_MODULUS;
            let p3 = prev.counter3 % CHA_COUNTER_MODULUS;
            proof {
                vstd::arithmetic::mul::lemma_mul_inequality(
                    cha_id as int,
                    27,
                    CHA_COUNTER_MODULUS - 1,
                );
                vstd::arithmetic::mul::lemma_mul_is_distributive_add_other_way(
                    CHA_COUNTER_MODULUS - 1,
                    cha_id as int,
                    1,
                );
                vstd::arithmetic::mul::lemma_mul_inequality(
                    cha_id as int + 1,
                    28,
                    CHA_COUNTER_MODULUS - 1,
                );
            }
            agg0 = agg0 + counter_delta(c0, p0, CHA_COUNTER_MODULUS);
            agg1 = agg1 + counter_delta(c1, p1, CHA_COUNTER_MODULUS);
            agg2 = agg2 + counter_delta(c2, p2, CHA_COUNTER_MODULUS);
            agg3 = agg3 + counter_delta(c3, p3, CHA_COUNTER_MODULUS);
            self.prev_counters.set(cha_id, Some(current));
            cha_id = cha_id + 1;
        }
        let duration_ns = now_ns - self.collection_start_ns;
        let old_data = self.event_data[current_index];
        let data = RawEventData {
            occupancy: sat_add_u64(old_data.occupancy, agg0),
            insert: sat_add_u64(old_data.insert, agg1),
            clockticks: sat_add_u64(old_data.clockticks, agg2),
            duration_ns,
        };
        self.event_data.set(current_index, data);
        if self.scheduler.should_rotate(now_ns) {
            self.scheduler.rotate(now_ns);
            let mut i: usize = 0;
            while i < self.prev_counters.len()
                invariant
                    i <= self.prev_counters@.len(),
                    forall|k: int| 0 <= k < i ==> (#[trigger] self.prev_counters@[k]) is None,
                    self.wf(),
                    self.prev_counters@.len() == self.cha_count,
                    self.scheduler.groups == old(self).scheduler.groups,
                    self.scheduler.current_index == (old(self).scheduler.current_index + 1) % (
                    old(self).scheduler.groups@.len() as int),
                    self.scheduler.last_rotation_ns == now_ns,
                    self.event_data@.len() == old(self).event_data@.len(),
                    forall|k: int|
                        0 <= k < old(self).event_data@.len() && k != old(
                            self,
                        ).scheduler.current_index ==> self.event_data@[k] == old(
                            self,
                        ).event_data@[k],
                    old(self).scheduler.current_index < self.event_data@.len(),
                    ({
                        let cur = old(self).scheduler.current_index as int;
                        let prevs2 = old(self).prev_counters@;
                        let n = old(self).cha_count as int;
                        let before = old(self).event_data@[cur];
                        let d0 = sum_c0(readings@, prevs2, n);
                        let d1 = sum_c1(readings@, prevs2, n);
                        let d2 = sum_c2(readings@, prevs2, n);
                        self.event_data@[cur] == (RawEventData {
                            occupancy: (if before.occupancy + d0 <= u64::MAX {
                                (before.occupancy + d0) as u64
                            } else {
                                u64::MAX
                            }),
                            insert: (if before.insert + d1 <= u64::MAX {
                                (before.insert + d1) as u64
                            } else {
                                u64::MAX
                            }),
                            clockticks: (if before.clockticks + d2 <= u64::MAX {
                                (before.clockticks + d2) as u64
                            } else {
                                u64::MAX
                            }),
                            duration_ns: (now_ns - old(self).collection_start_ns) as u64,
                        })
                    }),
                    self.cha_count == old(self).cha_count,
                    self.representative_core == old(self).representative_core,
                    self.socket == old(self).socket,
                decreases self.prev_counters@.len() - i,
            {
                self.prev_counters.set(i, None);
                i = i + 1;
            }
            let next_config = self.scheduler.groups[self.scheduler.current_index].config.clone();
            self.program_all_boxes(&next_config)
        } else {
            Vec::new()
        }
    }

    /// The scheduler state that one rotation at `now_ns` produces; a helper
    /// for stating loop invariants.
    pub open spec fn scheduler_after_rotation_witness(self, now_ns: u64) -> EventScheduler {
        EventScheduler {
            groups: self.scheduler.groups,
            current_index: (((self.scheduler.current_index + 1) % (
            self.scheduler.groups@.len() as int)) as usize),
            last_rotation_ns: now_ns,
            rotation_interval_ns: self.scheduler.rotation_interval_ns,
        }
    }

    /// The accumulated sample of every event group, aligned with the
    /// scheduler's group list.
    pub fn get_event_data(&self) -> (r: &Vec<RawEventData>)
        ensures
            r == &self.event_data,
    {
        &self.event_data
    }

    /// Start a new accumulation window: durations are zeroed and the window
    /// start moves to now; the accumulated counts themselves are kept.
    pub fn reset_event_data(&mut self, now_ns: u64)
        requires
            old(self).wf(),
        ensures
            final(self).wf(),
            final(self).collection_start_ns == now_ns,
            final(self).event_data@.len() == old(self).event_data@.len(),
            forall|i: int|
                0 <= i < final(self).event_data@.len() ==> final(self).event_data@[i] == (
                RawEventData { duration_ns: 0, ..old(self).event_data@[i] }),
            final(self).scheduler == old(self).scheduler,
            final(self).prev_counters == old(self).prev_counters,
            final(self).cha_count == old(self).cha_count,
    {
        let mut i: usize = 0;
        while i < self.event_data.len()
            invariant
                self.event_data@.len() == old(self).event_data@.len(),
                i <= self.event_data@.len(),
                forall|k: int|
                    0 <= k < i ==> self.event_data@[k] == (
                    RawEventData { duration_ns: 0, ..old(self).event_data@[k] }),
                forall|k: int|
                    i <= k < self.event_data@.len() ==> self.event_data@[k] == old(
                        self,
                    ).event_data@[k],
                self.scheduler == old(self).scheduler,
                self.prev_counters == old(self).prev_counters,
                self.cha_count == old(self).cha_count,
                self.socket == old(self).socket,
                self.representative_core == old(self).representative_core,
                self.collection_start_ns == old(self).collection_start_ns,
            decreases self.event_data@.len() - i,
        {
            let d = self.event_data[i];
            self.event_data.set(
                i,
                RawEventData {
                    occupancy: d.occupancy,
                    insert: d.insert,
                    clockticks: d.clockticks,
                    duration_ns: 0,
                },
            );
            i = i + 1;
        }
        self.collection_start_ns = now_ns;
    }
}

} // verus!
