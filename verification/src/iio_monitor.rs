//! IIO (Integrated I/O) monitor.
//!
//! Three fixed event groups are programmed into the three IIO stacks'
//! programmable counters; the free-running PCIe bandwidth counters are read
//! alongside. On machines whose kernel refuses the programming writes the
//! monitor degrades gracefully: it records that programmable counters are
//! unavailable, asks for the warning to be logged exactly once, and keeps
//! publishing PCIe bandwidth alone.

use vstd::prelude::*;
use crate::counters::counter_delta;
use crate::hw_ops::{sat_add_u64, MsrOp};
use crate::iio_regs::{IioCounterControl, IIO_CHANNEL_COUNT, IIO_PCIE_COUNTER_MODULUS, IIO_PCIE_PORT_COUNT, UNCORE_COUNTER_MODULUS};
use crate::ratio::Ratio;
use crate::register::RegisterLayout;
use crate::unit_metrics::IioMetric;

verus! {

/// The number of programmable event groups.
pub const IIO_GROUP_COUNT: usize = 3;

/// Counters and free-running clock slots per unit sample.
pub const IIO_SAMPLE_WIDTH: usize = 5;

/// PCIe bandwidth slots per socket: for each stack, four inbound then four
/// outbound ports.
pub const IIO_PCIE_SLOT_COUNT: usize = 24;

/// The `(event, umask)` pair of one counter of one group; the groups sweep
/// TLB misses, TLB hits and queue occupancy.
pub open spec fn iio_group_event(group: int, counter: int) -> (u8, u8) {
    if group == 0 {
        if counter == 0 {
            (0x41u8, 0x20u8)
        } else if counter == 1 {
            (0x41u8, 0x04u8)
        } else if counter == 2 {
            (0x41u8, 0x08u8)
        } else {
            (0x41u8, 0x10u8)
        }
    } else if group == 1 {
        if counter == 0 {
            (0x41u8, 0x01u8)
        } else if counter == 1 {
            (0x41u8, 0x02u8)
        } else if counter == 2 {
            (0x41u8, 0x40u8)
        } else {
            (0x41u8, 0x80u8)
        }
    } else {
        if counter == 0 {
            (0x40u8, 0x00u8)
        } else if counter == 1 {
            (0xC2u8, 0x04u8)
        } else if counter == 2 {
            (0xD5u8, 0x00u8)
        } else {
            (0x01u8, 0x00u8)
        }
    }
}

/// The counter-control layout programming one group event: reset, overflow
/// interrupts and the counter enabled, all stacks and fabric configurations
/// admitted.
pub open spec fn iio_group_control(group: int, counter: int) -> IioCounterControl {
    IioCounterControl {
        event_select: iio_group_event(group, counter).0,
        unit_mask: iio_group_event(group, counter).1,
        reset_counter: true,
        edge_detect: false,
        thread_id_enable: false,
        overflow_enable: true,
        enable: true,
        invert: false,
        threshold: 0,
        channel_mask: 0xFF,
        fc_mask: 0x07,
    }
}

/// The writes programming one group into one IIO unit: freeze, reset, the
/// four counter controls encoded from the typed layout, then unfreeze.
pub open spec fn iio_unit_ops(core: u32, unit: int, group: int) -> Seq<MsrOp> {
    let box_ctl = (0x0A60 + unit * 0x20) as u64;
    seq![
        MsrOp { cpu: core, addr: box_ctl, value: 0x100 },
        MsrOp { cpu: core, addr: box_ctl, value: 0x102 },
        MsrOp {
            cpu: core,
            addr: (0x0A68 + unit * 0x20) as u64,
            value: iio_group_control(group, 0).encode_spec(),
        },
        MsrOp {
            cpu: core,
            addr: (0x0A69 + unit * 0x20) as u64,
            value: iio_group_control(group, 1).encode_spec(),
        },
        MsrOp {
            cpu: core,
            addr: (0x0A6A + unit * 0x20) as u64,
            value: iio_group_control(group, 2).encode_spec(),
        },
        MsrOp {
            cpu: core,
            addr: (0x0A6B + unit * 0x20) as u64,
            value: iio_group_control(group, 3).encode_spec(),
        },
        MsrOp { cpu: core, addr: box_ctl, value: 0 },
    ]
}

/// The writes programming one group into the first `n` units.
pub open spec fn iio_ops_upto(core: u32, group: int, n: int) -> Seq<MsrOp>
    decreases n,
{
    if n <= 0 {
        Seq::empty()
    } else {
        iio_ops_upto(core, group, n - 1) + iio_unit_ops(core, n - 1, group)
    }
}

/// The PCIe bandwidth metric of one flat slot: slots go stack-major, four
/// inbound ports then four outbound ports per stack; the value is the
/// 36-bit counter increment at 64 bytes per count over `dt_ns`, in GB/s.
pub open spec fn pcie_slot_metric(last: Seq<u64>, cur: Seq<u64>, dt_ns: u64, i: int) -> (
    IioMetric,
    Ratio,
) {
    let ch = i / 8;
    let slot = i % 8;
    let metric = if slot < 4 {
        IioMetric::PCIeInBandwidth(ch as usize, slot as usize)
    } else {
        IioMetric::PCIeOutBandwidth(ch as usize, (slot - 4) as usize)
    };
    let delta = (cur[i] % IIO_PCIE_COUNTER_MODULUS - last[i] % IIO_PCIE_COUNTER_MODULUS) % (
    IIO_PCIE_COUNTER_MODULUS as int);
    let value = if dt_ns == 0 {
        Ratio { num: 0, den: 1 }
    } else {
        Ratio { num: (delta * 64) as u128, den: dt_ns as u128 }
    };
    (metric, value)
}

/// IIO monitor for one socket.
pub struct IioMonitor {
    /// The monitored socket.
    pub socket: u32,
    /// The core from which this socket's IIO MSRs are touched.
    pub core: u32,
    /// Whether the programmable counters are usable; cleared for good when
    /// a programming write is refused.
    pub programmable_available: bool,
    /// Whether the one-time unavailability warning has been handed out.
    pub programmable_warned: bool,
    /// The last per-unit sample of each event group.
    pub event_results: Vec<Option<Vec<[u64; 5]>>>,
    /// The previous PCIe counter readings, one per flat slot.
    pub pcie_last_values: Option<Vec<u64>>,
    /// The time of the previous PCIe reading, in nanoseconds.
    pub pcie_last_time_ns: u64,
}

impl IioMonitor {
    /// One result slot per event group; stored PCIe readings cover every
    /// flat slot.
    pub open spec fn wf(self) -> bool {
        &&& self.event_results@.len() == IIO_GROUP_COUNT
        &&& (self.pcie_last_values matches Some(v) ==> v@.len() == IIO_PCIE_SLOT_COUNT)
    }

    /// A monitor for one socket, touching the socket's IIO MSRs from a
    /// representative core.
    pub fn new(socket: u32) -> (r: IioMonitor)
        requires
            socket < 0x10000,
        ensures
            r.wf(),
            r.socket == socket,
            r.core == socket * 16,
            r.programmable_available,
            !r.programmable_warned,
            r.pcie_last_values is None,
    {
        let mut event_results: Vec<Option<Vec<[u64; 5]>>> = Vec::new();
        let mut i: usize = 0;
        while i < IIO_GROUP_COUNT
            invariant
                i <= IIO_GROUP_COUNT,
                event_results@.len() == i,
            decreases IIO_GROUP_COUNT - i,
        {
            event_results.push(None);
            i = i + 1;
        }
        IioMonitor {
            socket,
            core: socket * 16,
            programmable_available: true,
            programmable_warned: false,
            event_results,
            pcie_last_values: None,
            pcie_last_time_ns: 0,
        }
    }

    /// The writes programming one event group into all three IIO units.
    pub fn program_group(&self, group: usize) -> (ops: Vec<MsrOp>)
        requires
            group < IIO_GROUP_COUNT,
        ensures
            ops@ == iio_ops_upto(self.core, group as int, IIO_CHANNEL_COUNT as int),
    {
        let core = self.core;
        let mut ops: Vec<MsrOp> = Vec::new();
        let mut unit: usize = 0;
        while unit < IIO_CHANNEL_COUNT
            invariant
                unit <= IIO_CHANNEL_COUNT,
                group < IIO_GROUP_COUNT,
                core == self.core,
                ops@ == iio_ops_upto(core, group as int, unit as int),
            decreases IIO_CHANNEL_COUNT - unit,
        {
            let box_ctl: u64 = 0x0A60 + (unit as u64) * 0x20;
            ops.push(MsrOp { cpu: core, addr: box_ctl, value: 0x100 });
            ops.push(MsrOp { cpu: core, addr: box_ctl, value: 0x102 });
            let mut counter: usize = 0;
            while counter < 4
                invariant
                    unit < IIO_CHANNEL_COUNT,
                    group < IIO_GROUP_COUNT,
                    counter <= 4,
                    core == self.core,
                    ops@ == iio_ops_upto(core, group as int, unit as int) + iio_unit_ops(
                        core,
                        unit as int,
                        group as int,
                    ).take(2 + counter as int),
                decreases 4 - counter,
            {
                let (event, umask) = if group == 0 {
                    if counter == 0 {
                        (0x41u8, 0x20u8)
                    } else if counter == 1 {
                        (0x41u8, 0x04u8)
                    } else if counter == 2 {
                        (0x41u8, 0x08u8)
                    } else {
                        (0x41u8, 0x10u8)
                    }
                } else if group == 1 {
                    if counter == 0 {
                        (0x41u8, 0x01u8)
                    } else if counter == 1 {
                        (0x41u8, 0x02u8)
                    } else if counter == 2 {
                        (0x41u8, 0x40u8)
                    } else {
                        (0x41u8, 0x80u8)
                    }
                } else {
                    if counter == 0 {
                        (0x40u8, 0x00u8)
                    } else if counter == 1 {
                        (0xC2u8, 0x04u8)
                    } else if counter == 2 {
                        (0xD5u8, 0x00u8)
                    } else {
                        (0x01u8, 0x00u8)
                    }
                };
                let ctrl = IioCounterControl {
                    event_select: event,
                    unit_mask: umask,
                    reset_counter: true,
                    edge_detect: false,
                    thread_id_enable: false,
                    overflow_enable: true,
                    enable: true,
                    invert: false,
                    threshold: 0,
                    channel_mask: 0xFF,
                    fc_mask: 0x07,
                };
                proof {
                    assert(ctrl == iio_group_control(group as int, counter as int));
                }
                ops.push(
                    MsrOp {
                        cpu: core,
                        addr: 0x0A68 + (unit as u64) * 0x20 + (counter as u64),
                        value: ctrl.to_msr_value(),
                    },
                );
                proof {
                    assert(ops@ =~= iio_ops_upto(core, group as int, unit as int) + iio_unit_ops(
                        core,
                        unit as int,
                        group as int,
                    ).take(2 + (counter + 1)));
                }
                counter = counter + 1;
            }
            ops.push(MsrOp { cpu: core, addr: box_ctl, value: 0 });
            proof {
                assert(ops@ =~= iio_ops_upto(core, group as int, unit + 1));
            }
            unit = unit + 1;
        }
        ops
    }

    /// Record that a programming write was refused: programmable counters
    /// become unavailable for good, and the returned flag asks the caller
    /// to log the warning — true exactly once.
    pub fn note_program_failure(&mut self) -> (warn: bool)
        requires
            old(self).wf(),
        ensures
            final(self).wf(),
            !final(self).programmable_available,
            final(self).programmable_warned,
            warn == !old(self).programmable_warned,
            final(self).socket == old(self).socket,
            final(self).core == old(self).core,
            final(self).event_results == old(self).event_results,
            final(self).pcie_last_values == old(self).pcie_last_values,
            final(self).pcie_last_time_ns == old(self).pcie_last_time_ns,
    {
        self.programmable_available = false;
        let warn = !self.programmable_warned;
        self.programmable_warned = true;
        warn
    }

    /// Whether programmable-counter collection may be attempted.
    pub fn programmable_available(&self) -> (r: bool)
        ensures
            r == self.programmable_available,
    {
        self.programmable_available
    }

    /// Store one group's per-unit counter samples.
    pub fn ingest_group(&mut self, group: usize, samples: Vec<[u64; 5]>)
        requires
            old(self).wf(),
            group < IIO_GROUP_COUNT,
        ensures
            final(self).wf(),
            final(self).event_results@ == old(self).event_results@.update(
                group as int,
                Some(samples),
            ),
            final(self).socket == old(self).socket,
            final(self).core == old(self).core,
            final(self).programmable_available == old(self).programmable_available,
            final(self).programmable_warned == old(self).programmable_warned,
            final(self).pcie_last_values == old(self).pcie_last_values,
            final(self).pcie_last_time_ns == old(self).pcie_last_time_ns,
    {
        self.event_results.set(group, Some(samples));
    }

    /// The saturating sum of one counter column over a group's stored
    /// per-unit samples.
    pub open spec fn column_sum(samples: Seq<[u64; 5]>, column: int, n: int) -> u64
        decreases n,
    {
        if n <= 0 {
            0u64
        } else {
            let rest = Self::column_sum(samples, column, n - 1);
            if rest + samples[n - 1]@[column] <= u64::MAX {
                (rest + samples[n - 1]@[column]) as u64
            } else {
                u64::MAX
            }
        }
    }

    /// One counter column of a stored group, summed across units; zero when
    /// the group has no sample yet.
    pub fn group_column_sum(&self, group: usize, column: usize) -> (r: u64)
        requires
            self.wf(),
            group < IIO_GROUP_COUNT,
            column < IIO_SAMPLE_WIDTH,
        ensures
            r == match self.event_results@[group as int] {
                Some(samples) => Self::column_sum(samples@, column as int, samples@.len() as int),
                None => 0u64,
            },
    {
        match &self.event_results[group] {
            Some(samples) => {
                let mut sum: u64 = 0;
                let mut i: usize = 0;
                while i < samples.len()
                    invariant
                        column < IIO_SAMPLE_WIDTH,
                        i <= samples@.len(),
                        sum == Self::column_sum(samples@, column as int, i as int),
                    decreases samples@.len() - i,
                {
                    sum = sat_add_u64(sum, samples[i][column]);
                    i = i + 1;
                }
                sum
            },
            None => 0,
        }
    }

    /// The derived programmable-counter metrics of the stored groups: the
    /// TLB-miss group's four counts, the TLB-hit group's four counts, and —
    /// when the occupancy group saw clockticks — the unit frequency in GHz
    /// and the normalized queue occupancy. A group without a stored sample
    /// publishes nothing; with the programmable counters unavailable
    /// nothing at all is published.
    pub fn calculate_programmable_metrics(&self) -> (r: Vec<(IioMetric, Ratio)>)
        requires
            self.wf(),
        ensures
            !self.programmable_available ==> r@.len() == 0,
            self.programmable_available ==> r@ =~= (match self.event_results@[0] {
                Some(s) => seq![
                    (
                        IioMetric::IIOTLBMiss,
                        Ratio {
                            num: Self::column_sum(s@, 0, s@.len() as int) as u128,
                            den: 1,
                        },
                    ),
                    (
                        IioMetric::IIOL1Miss,
                        Ratio {
                            num: Self::column_sum(s@, 1, s@.len() as int) as u128,
                            den: 1,
                        },
                    ),
                    (
                        IioMetric::IIOL2Miss,
                        Ratio {
                            num: Self::column_sum(s@, 2, s@.len() as int) as u128,
                            den: 1,
                        },
                    ),
                    (
                        IioMetric::IIOL3Miss,
                        Ratio {
                            num: Self::column_sum(s@, 3, s@.len() as int) as u128,
                            den: 1,
                        },
                    ),
                ],
                None => Seq::empty(),
            }) + (match self.event_results@[1] {
                Some(s) => seq![
                    (
                        IioMetric::IIOTLBHit,
                        Ratio {
                            num: Self::column_sum(s@, 0, s@.len() as int) as u128,
                            den: 1,
                        },
                    ),
                    (
                        IioMetric::IIOContextMiss,
                        Ratio {
                            num: Self::column_sum(s@, 1, s@.len() as int) as u128,
                            den: 1,
                        },
                    ),
                    (
                        IioMetric::IIOTLBFull,
                        Ratio {
                            num: Self::column_sum(s@, 2, s@.len() as int) as u128,
                            den: 1,
                        },
                    ),
                    (
                        IioMetric::IIOTLB1Miss,
                        Ratio {
                            num: Self::column_sum(s@, 3, s@.len() as int) as u128,
                            den: 1,
                        },
                    ),
                ],
                None => Seq::empty(),
            }) + (match self.event_results@[2] {
                Some(s) => {
                    let clk = Self::column_sum(s@, 4, s@.len() as int);
                    let occ = Self::column_sum(s@, 0, s@.len() as int);
                    if clk > 0 {
                        seq![
                            (
                                IioMetric::IIOFrequency,
                                Ratio { num: clk as u128, den: 1_000_000_000 },
                            ),
                            (
                                IioMetric::IIOOccupancy,
                                Ratio { num: occ as u128, den: clk as u128 },
                            ),
                        ]
                    } else {
                        Seq::empty()
                    }
                },
                None => Seq::empty(),
            }),
    {
        let mut r: Vec<(IioMetric, Ratio)> = Vec::new();
        if !self.programmable_available {
            return r;
        }
        if self.event_results[0].is_some() {
            r.push(
                (
                    IioMetric::IIOTLBMiss,
                    Ratio { num: self.group_column_sum(0, 0) as u128, den: 1 },
                ),
            );
            r.push(
                (IioMetric::IIOL1Miss, Ratio { num: self.group_column_sum(0, 1) as u128, den: 1 }),
            );
            r.push(
                (IioMetric::IIOL2Miss, Ratio { num: self.group_column_sum(0, 2) as u128, den: 1 }),
            );
            r.push(
                (IioMetric::IIOL3Miss, Ratio { num: self.group_column_sum(0, 3) as u128, den: 1 }),
            );
        }
        if self.event_results[1].is_some() {
            r.push(
                (IioMetric::IIOTLBHit, Ratio { num: self.group_column_sum(1, 0) as u128, den: 1 }),
            );
            r.push(
                (
                    IioMetric::IIOContextMiss,
                    Ratio { num: self.group_column_sum(1, 1) as u128, den: 1 },
                ),
            );
            r.push(
                (
                    IioMetric::IIOTLBFull,
                    Ratio { num: self.group_column_sum(1, 2) as u128, den: 1 },
                ),
            );
            r.push(
                (
                    IioMetric::IIOTLB1Miss,
                    Ratio { num: self.group_column_sum(1, 3) as u128, den: 1 },
                ),
            );
        }
        if self.event_results[2].is_some() {
            let clk = self.group_column_sum(2, 4);
            let occ = self.group_column_sum(2, 0);
            if clk > 0 {
                r.push((IioMetric::IIOFrequency, Ratio { num: clk as u128, den: 1_000_000_000 }));
                r.push((IioMetric::IIOOccupancy, Ratio { num: occ as u128, den: clk as u128 }));
            }
        }
        r
    }

    /// Read this tick's PCIe bandwidth counters, one value per flat slot
    /// (four inbound then four outbound ports per stack), and derive the
    /// per-port bandwidths against the previous reading; the first reading
    /// establishes the baseline and yields nothing.
    pub fn collect_pcie_bandwidth(&mut self, current: Vec<u64>, now_ns: u64) -> (r: Vec<
        (IioMetric, Ratio)>)
        requires
            old(self).wf(),
            current@.len() == IIO_PCIE_SLOT_COUNT,
            now_ns >= old(self).pcie_last_time_ns,
        ensures
            final(self).wf(),
            final(self).pcie_last_values == Some(current),
            final(self).pcie_last_time_ns == now_ns,
            final(self).socket == old(self).socket,
            final(self).core == old(self).core,
            final(self).programmable_available == old(self).programmable_available,
            final(self).programmable_warned == old(self).programmable_warned,
            final(self).event_results == old(self).event_results,
            old(self).pcie_last_values is None ==> r@.len() == 0,
            old(self).pcie_last_values matches Some(last) ==> r@.len() == IIO_PCIE_SLOT_COUNT
                && forall|i: int|
                0 <= i < r@.len() ==> (#[trigger] r@[i]) == pcie_slot_metric(
                    last@,
                    current@,
                    (now_ns - old(self).pcie_last_time_ns) as u64,
                    i,
                ),
    {
        let mut r: Vec<(IioMetric, Ratio)> = Vec::new();
        let dt_ns = now_ns - self.pcie_last_time_ns;
        match &self.pcie_last_values {
            Some(last) => {
                let mut i: usize = 0;
                while i < IIO_PCIE_SLOT_COUNT
                    invariant
                        self.wf(),
                        self.pcie_last_values matches Some(l) && l == last,
                        last@.len() == IIO_PCIE_SLOT_COUNT,
                        current@.len() == IIO_PCIE_SLOT_COUNT,
                        i <= IIO_PCIE_SLOT_COUNT,
                        r@.len() == i,
                        forall|k: int|
                            0 <= k < i ==> (#[trigger] r@[k]) == pcie_slot_metric(
                                last@,
                                current@,
                                dt_ns,
                                k,
                            ),
                    decreases IIO_PCIE_SLOT_COUNT - i,
                {
                    let ch = i / 8;
                    let slot = i % 8;
                    let metric = if slot < 4 {
                        IioMetric::PCIeInBandwidth(ch, slot)
                    } else {
                        IioMetric::PCIeOutBandwidth(ch, slot - 4)
                    };
                    let delta = counter_delta(
                        current[i] % IIO_PCIE_COUNTER_MODULUS,
                        last[i] % IIO_PCIE_COUNTER_MODULUS,
                        IIO_PCIE_COUNTER_MODULUS,
                    );
                    let value = if dt_ns == 0 {
                        Ratio::zero()
                    } else {
                        Ratio { num: (delta as u128) * 64, den: dt_ns as u128 }
                    };
                    r.push((metric, value));
                    i = i + 1;
                }
            },
            None => {},
        }
        self.pcie_last_values = Some(current);
        self.pcie_last_time_ns = now_ns;
        r
    }

    /// The monitored socket.
    pub fn socket(&self) -> (r: u32)
        ensures
            r == self.socket,
    {
        self.socket
    }
}

} // verus!
