//! IMC (Integrated Memory Controller) monitor.
//!
//! Channels are detected by probing known PCI coordinates for Intel's vendor
//! id; each detected channel's counters are programmed through PCI
//! configuration writes, and each tick's readings are turned into per-socket
//! bandwidth, latency, occupancy and frequency figures.

use vstd::prelude::*;
use crate::counters::{counter_delta, wide_product};
use crate::hw_ops::PciOp;
use crate::imc_regs::{
    imc_channel_location, imc_channel_location_spec, IMC_BOX_CTL, IMC_CAS_COUNT,
    IMC_CAS_COUNT_RD_UMASK, IMC_CAS_COUNT_WR_UMASK, IMC_CHANNEL_COUNT, IMC_COUNTER_MODULUS,
    IMC_CTL0, IMC_CTL1, IMC_CTL2, IMC_CTL3, IMC_DCLK_CTL, IMC_RPQ_OCCUPANCY, IMC_WPQ_OCCUPANCY,
    INTEL_VENDOR_ID,
};

verus! {

/// Raw values of one memory channel's counters at one tick.
#[derive(Debug, Clone, Copy, Default, PartialEq, Eq, Structural)]
pub struct ImcCounters {
    /// CAS-read count (counter 0).
    pub read_count: u64,
    /// CAS-write count (counter 1).
    pub write_count: u64,
    /// Read-pending-queue occupancy (counter 2).
    pub rpq_occupancy: u64,
    /// Write-pending-queue occupancy (counter 3).
    pub wpq_occupancy: u64,
    /// Free-running memory-clock count.
    pub cycles: u64,
}

/// An exact non-negative rational, as numerator and denominator.
use crate::ratio::Ratio;

/// Derived per-socket memory metrics of one tick.
#[derive(Debug, Clone, Copy, PartialEq, Eq, Structural)]
pub struct ImcMetrics {
    /// Read bandwidth in bytes per second.
    pub read_bandwidth: Ratio,
    /// Write bandwidth in bytes per second.
    pub write_bandwidth: Ratio,
    /// Read latency in nanoseconds.
    pub read_latency: Ratio,
    /// Write latency in nanoseconds.
    pub write_latency: Ratio,
    /// Mean read-pending-queue occupancy across channels.
    pub rpq_occupancy: Ratio,
    /// Mean write-pending-queue occupancy across channels.
    pub wpq_occupancy: Ratio,
    /// Fraction of memory clocks with a non-empty read queue.
    pub rpq_non_empty: Ratio,
    /// Estimated fraction of memory clocks with a full read queue.
    pub rpq_full: Ratio,
    /// Fraction of memory clocks with a non-empty write queue.
    pub wpq_non_empty: Ratio,
    /// Estimated fraction of memory clocks with a full write queue.
    pub wpq_full: Ratio,
    /// Memory-controller clock frequency in GHz.
    pub frequency: Ratio,
}

/// Whether a PCI probe result identifies an Intel device.
pub open spec fn probe_is_intel(probe: Option<u32>) -> bool {
    probe matches Some(v) && v & 0xFFFF == INTEL_VENDOR_ID
}

/// The channels among the first `n` whose probe found an Intel device.
pub open spec fn detected_upto(probes: Seq<Option<u32>>, n: int) -> Seq<u32>
    decreases n,
{
    if n <= 0 {
        Seq::empty()
    } else {
        detected_upto(probes, n - 1) + (if probe_is_intel(probes[n - 1]) {
            seq![(n - 1) as u32]
        } else {
            Seq::empty()
        })
    }
}

/// The counter increment of one channel field: the masked difference of the
/// current and previous sample, modulo the counter width.
pub open spec fn imc_delta(cur: u64, prev: u64) -> int {
    (cur % IMC_COUNTER_MODULUS - prev % IMC_COUNTER_MODULUS) % (IMC_COUNTER_MODULUS as int)
}

/// The previous sample of a channel, taking a missing one as all-zero.
pub open spec fn prev_or_zero(prev: Option<ImcCounters>) -> ImcCounters {
    match prev {
        Some(p) => p,
        None => ImcCounters {
            read_count: 0,
            write_count: 0,
            rpq_occupancy: 0,
            wpq_occupancy: 0,
            cycles: 0,
        },
    }
}

/// The sum over the first `n` channels of one field's counter increment.
pub open spec fn sum_delta(
    readings: Seq<ImcCounters>,
    prevs: Seq<Option<ImcCounters>>,
    f: spec_fn(ImcCounters) -> u64,
    n: int,
) -> int
    decreases n,
{
    if n <= 0 {
        0
    } else {
        sum_delta(readings, prevs, f, n - 1) + imc_delta(
            f(readings[n - 1]),
            f(prev_or_zero(prevs[n - 1])),
        )
    }
}

/// The summed read-count increment of the first `n` channels.
pub open spec fn sum_rd(readings: Seq<ImcCounters>, prevs: Seq<Option<ImcCounters>>, n: int) -> int {
    sum_delta(readings, prevs, |c: ImcCounters| c.read_count, n)
}

/// The summed write-count increment of the first `n` channels.
pub open spec fn sum_wr(readings: Seq<ImcCounters>, prevs: Seq<Option<ImcCounters>>, n: int) -> int {
    sum_delta(readings, prevs, |c: ImcCounters| c.write_count, n)
}

/// The summed read-queue-occupancy increment of the first `n` channels.
pub open spec fn sum_rpq(readings: Seq<ImcCounters>, prevs: Seq<Option<ImcCounters>>, n: int) -> int {
    sum_delta(readings, prevs, |c: ImcCounters| c.rpq_occupancy, n)
}

/// The summed write-queue-occupancy increment of the first `n` channels.
pub open spec fn sum_wpq(readings: Seq<ImcCounters>, prevs: Seq<Option<ImcCounters>>, n: int) -> int {
    sum_delta(readings, prevs, |c: ImcCounters| c.wpq_occupancy, n)
}

/// The summed memory-clock increment of the first `n` channels.
pub open spec fn sum_ck(readings: Seq<ImcCounters>, prevs: Seq<Option<ImcCounters>>, n: int) -> int {
    sum_delta(readings, prevs, |c: ImcCounters| c.cycles, n)
}

/// A bandwidth in bytes per second: bytes moved over `dt_ns` nanoseconds.
pub open spec fn bytes_per_second(bytes: int, dt_ns: u64) -> Ratio {
    if dt_ns == 0 {
        Ratio { num: 0, den: 1 }
    } else {
        Ratio { num: (bytes * 1_000_000_000) as u128, den: dt_ns as u128 }
    }
}

/// The programming sequence of one memory channel: freeze and reset the box,
/// program CAS reads, CAS writes and the two queue-occupancy events with the
/// enable bit, start the memory-clock counter, then unfreeze.
pub open spec fn imc_channel_ops(socket: u32, channel: int) -> Seq<PciOp> {
    let loc = imc_channel_location_spec(channel);
    seq![
        PciOp {
            socket,
            device: loc.device,
            function: loc.function,
            device_id: loc.device_id,
            offset: IMC_BOX_CTL,
            value: (1u32 << 8) | (1u32 << 16),
        },
        PciOp {
            socket,
            device: loc.device,
            function: loc.function,
            device_id: loc.device_id,
            offset: IMC_CTL0,
            value: (IMC_CAS_COUNT as u32) | ((IMC_CAS_COUNT_RD_UMASK as u32) << 8) | (1u32 << 22),
        },
        PciOp {
            socket,
            device: loc.device,
            function: loc.function,
            device_id: loc.device_id,
            offset: IMC_CTL1,
            value: (IMC_CAS_COUNT as u32) | ((IMC_CAS_COUNT_WR_UMASK as u32) << 8) | (1u32 << 22),
        },
        PciOp {
            socket,
            device: loc.device,
            function: loc.function,
            device_id: loc.device_id,
            offset: IMC_CTL2,
            value: (IMC_RPQ_OCCUPANCY as u32) | (1u32 << 22),
        },
        PciOp {
            socket,
            device: loc.device,
            function: loc.function,
            device_id: loc.device_id,
            offset: IMC_CTL3,
            value: (IMC_WPQ_OCCUPANCY as u32) | (1u32 << 22),
        },
        PciOp {
            socket,
            device: loc.device,
            function: loc.function,
            device_id: loc.device_id,
            offset: IMC_DCLK_CTL,
            value: (1u32 << 22) | (1u32 << 19),
        },
        PciOp {
            socket,
            device: loc.device,
            function: loc.function,
            device_id: loc.device_id,
            offset: IMC_BOX_CTL,
            value: 0,
        },
    ]
}

/// The programming sequences of the first `n` detected channels.
pub open spec fn imc_ops_upto(socket: u32, channels: Seq<u32>, n: int) -> Seq<PciOp>
    decreases n,
{
    if n <= 0 {
        Seq::empty()
    } else {
        imc_ops_upto(socket, channels, n - 1) + imc_channel_ops(socket, channels[n - 1] as int)
    }
}

/// IMC monitor for one socket.
pub struct ImcMonitor {
    /// The monitored socket.
    pub socket: u32,
    /// Indices of the detected memory channels.
    pub channels: Vec<u32>,
    /// Previous counter sample of each detected channel.
    pub prev_counters: Vec<Option<ImcCounters>>,
    /// Whether no channel probed as an Intel device and the two-channel
    /// fallback was assumed; the owner should log a warning.
    pub fallback_assumed: bool,
}

impl ImcMonitor {
    /// Channel state is aligned with the detected channel list, which names
    /// at least one and at most six real channel indices.
    pub open spec fn wf(self) -> bool {
        &&& self.prev_counters@.len() == self.channels@.len()
        &&& 1 <= self.channels@.len() <= IMC_CHANNEL_COUNT
        &&& forall|i: int|
            0 <= i < self.channels@.len() ==> (#[trigger] self.channels@[i]) < IMC_CHANNEL_COUNT
    }

    /// The channels whose probed vendor/device word names an Intel device;
    /// when none does, channels 0 and 1 are assumed, with a warning left to
    /// the caller.
    pub fn detect_channels(probes: &Vec<Option<u32>>) -> (r: Vec<u32>)
        requires
            probes@.len() == IMC_CHANNEL_COUNT,
        ensures
            detected_upto(probes@, IMC_CHANNEL_COUNT as int).len() > 0 ==> r@ == detected_upto(
                probes@,
                IMC_CHANNEL_COUNT as int,
            ),
            detected_upto(probes@, IMC_CHANNEL_COUNT as int).len() == 0 ==> r@ == seq![
                0u32,
                1u32,
            ],
            1 <= r@.len() <= IMC_CHANNEL_COUNT,
            forall|i: int| 0 <= i < r@.len() ==> (#[trigger] r@[i]) < IMC_CHANNEL_COUNT,
    {
        let mut channels: Vec<u32> = Vec::new();
        let mut ch: usize = 0;
        while ch < IMC_CHANNEL_COUNT
            invariant
                probes@.len() == IMC_CHANNEL_COUNT,
                ch <= IMC_CHANNEL_COUNT,
                channels@ == detected_upto(probes@, ch as int),
                channels@.len() <= ch,
                forall|i: int| 0 <= i < channels@.len() ==> (#[trigger] channels@[i]) < ch,
            decreases IMC_CHANNEL_COUNT - ch,
        {
            match probes[ch] {
                Some(v) => {
                    if v & 0xFFFF == INTEL_VENDOR_ID {
                        channels.push(ch as u32);
                    }
                },
                None => {},
            }
            ch = ch + 1;
        }
        if channels.len() == 0 {
            channels.push(0);
            channels.push(1);
            proof {
                assert(channels@ =~= seq![0u32, 1u32]);
            }
        }
        channels
    }

    /// A monitor over the channels that the probe results identify.
    pub fn new(socket: u32, probes: &Vec<Option<u32>>) -> (r: ImcMonitor)
        requires
            probes@.len() == IMC_CHANNEL_COUNT,
        ensures
            r.wf(),
            r.socket == socket,
            detected_upto(probes@, IMC_CHANNEL_COUNT as int).len() > 0 ==> r.channels@
                == detected_upto(probes@, IMC_CHANNEL_COUNT as int),
            detected_upto(probes@, IMC_CHANNEL_COUNT as int).len() == 0 ==> r.channels@ == seq![
                0u32,
                1u32,
            ],
            forall|i: int| 0 <= i < r.prev_counters@.len() ==> (#[trigger] r.prev_counters@[i]) is None,
            r.fallback_assumed <==> detected_upto(probes@, IMC_CHANNEL_COUNT as int).len() == 0,
    {
        let mut fallback_probe: usize = 0;
        let mut any_detected = false;
        while fallback_probe < IMC_CHANNEL_COUNT
            invariant
                probes@.len() == IMC_CHANNEL_COUNT,
                fallback_probe <= IMC_CHANNEL_COUNT,
                any_detected <==> detected_upto(probes@, fallback_probe as int).len() > 0,
            decreases IMC_CHANNEL_COUNT - fallback_probe,
        {
            match probes[fallback_probe] {
                Some(v) => {
                    if v & 0xFFFF == INTEL_VENDOR_ID {
                        any_detected = true;
                    }
                },
                None => {},
            }
            fallback_probe = fallback_probe + 1;
        }
        let channels = Self::detect_channels(probes);
        let mut prev_counters: Vec<Option<ImcCounters>> = Vec::new();
        let mut i: usize = 0;
        let n = channels.len();
        while i < n
            invariant
                i <= n,
                prev_counters@.len() == i,
                forall|k: int| 0 <= k < i ==> (#[trigger] prev_counters@[k]) is None,
            decreases n - i,
        {
            prev_counters.push(None);
            i = i + 1;
        }
        ImcMonitor { socket, channels, prev_counters, fallback_assumed: !any_detected }
    }

    /// The writes programming every detected channel's counters: CAS reads
    /// and writes, the two queue occupancies, and the memory clock.
    pub fn initialize(&self) -> (ops: Vec<PciOp>)
        requires
            self.wf(),
        ensures
            ops@ == imc_ops_upto(self.socket, self.channels@, self.channels@.len() as int),
    {
        let mut ops: Vec<PciOp> = Vec::new();
        let mut i: usize = 0;
        while i < self.channels.len()
            invariant
                self.wf(),
                i <= self.channels@.len(),
                ops@ == imc_ops_upto(self.socket, self.channels@, i as int),
            decreases self.channels@.len() - i,
        {
            let mut channel_ops = self.initialize_channel(self.channels[i]);
            ops.append(&mut channel_ops);
            i = i + 1;
        }
        ops
    }

    /// The writes programming one channel's counters.
    pub fn initialize_channel(&self, channel: u32) -> (ops: Vec<PciOp>)
        requires
            channel < IMC_CHANNEL_COUNT,
        ensures
            ops@ == imc_channel_ops(self.socket, channel as int),
    {
        let loc = imc_channel_location(channel as usize);
        let socket = self.socket;
        let mut ops: Vec<PciOp> = Vec::new();
        ops.push(
            PciOp {
                socket,
                device: loc.device,
                function: loc.function,
                device_id: loc.device_id,
                offset: IMC_BOX_CTL,
                value: (1u32 << 8) | (1u32 << 16),
            },
        );
        ops.push(
            PciOp {
                socket,
                device: loc.device,
                function: loc.function,
                device_id: loc.device_id,
                offset: IMC_CTL0,
                value: (IMC_CAS_COUNT as u32) | ((IMC_CAS_COUNT_RD_UMASK as u32) << 8) | (1u32
                    << 22),
            },
        );
        ops.push(
            PciOp {
                socket,
                device: loc.device,
                function: loc.function,
                device_id: loc.device_id,
                offset: IMC_CTL1,
                value: (IMC_CAS_COUNT as u32) | ((IMC_CAS_COUNT_WR_UMASK as u32) << 8) | (1u32
                    << 22),
            },
        );
        ops.push(
            PciOp {
                socket,
                device: loc.device,
                function: loc.function,
                device_id: loc.device_id,
                offset: IMC_CTL2,
                value: (IMC_RPQ_OCCUPANCY as u32) | (1u32 << 22),
            },
        );
        ops.push(
            PciOp {
                socket,
                device: loc.device,
                function: loc.function,
                device_id: loc.device_id,
                offset: IMC_CTL3,
                value: (IMC_WPQ_OCCUPANCY as u32) | (1u32 << 22),
            },
        );
        ops.push(
            PciOp {
                socket,
                device: loc.device,
                function: loc.function,
                device_id: loc.device_id,
                offset: IMC_DCLK_CTL,
                value: (1u32 << 22) | (1u32 << 19),
            },
        );
        ops.push(
            PciOp {
                socket,
                device: loc.device,
                function: loc.function,
                device_id: loc.device_id,
                offset: IMC_BOX_CTL,
                value: 0,
            },
        );
        proof {
            assert(ops@ =~= imc_channel_ops(self.socket, channel as int));
        }
        ops
    }

    /// Derive this tick's memory metrics from per-channel readings, taken in
    /// channel-list order over `dt_ns` nanoseconds, and remember the
    /// readings for the next tick.
    ///
    /// Counter increments are taken modulo the counter width and summed over
    /// the channels; bandwidths count 64 bytes per CAS operation, latencies
    /// follow Little's law over the mean queue occupancy, and a queue is
    /// estimated half-full when its non-empty fraction exceeds eight tenths.
    pub fn collect(&mut self, readings: &Vec<ImcCounters>, dt_ns: u64) -> (r: ImcMetrics)
        requires
            old(self).wf(),
            readings@.len() == old(self).channels@.len(),
        ensures
            final(self).wf(),
            final(self).socket == old(self).socket,
            final(self).channels == old(self).channels,
            forall|i: int|
                0 <= i < readings@.len() ==> final(self).prev_counters@[i] == Some(readings@[i]),
            ({
                let n = old(self).channels@.len() as int;
                let prevs = old(self).prev_counters@;
                let rd = sum_rd(readings@, prevs, n);
                let wr = sum_wr(readings@, prevs, n);
                let rpq = sum_rpq(readings@, prevs, n);
                let wpq = sum_wpq(readings@, prevs, n);
                let ck = sum_ck(readings@, prevs, n);
                &&& r.read_bandwidth == bytes_per_second(rd * 64, dt_ns)
                &&& r.write_bandwidth == bytes_per_second(wr * 64, dt_ns)
                &&& r.read_latency == (if rd == 0 {
                    Ratio { num: 0, den: 1 }
                } else {
                    Ratio { num: (rpq * dt_ns) as u128, den: ((n * (rd * 64)) as u128) }
                })
                &&& r.write_latency == (if wr == 0 {
                    Ratio { num: 0, den: 1 }
                } else {
                    Ratio { num: (wpq * dt_ns) as u128, den: ((n * (wr * 64)) as u128) }
                })
                &&& r.rpq_occupancy == Ratio { num: rpq as u128, den: n as u128 }
                &&& r.wpq_occupancy == Ratio { num: wpq as u128, den: n as u128 }
                &&& r.rpq_non_empty == (if ck == 0 {
                    Ratio { num: 0, den: 1 }
                } else {
                    Ratio { num: rpq as u128, den: ck as u128 }
                })
                &&& r.wpq_non_empty == (if ck == 0 {
                    Ratio { num: 0, den: 1 }
                } else {
                    Ratio { num: wpq as u128, den: ck as u128 }
                })
                &&& r.rpq_full == (if ck > 0 && 5 * rpq > 4 * ck {
                    Ratio { num: rpq as u128, den: (2 * ck) as u128 }
                } else {
                    Ratio { num: 0, den: 1 }
                })
                &&& r.wpq_full == (if ck > 0 && 5 * wpq > 4 * ck {
                    Ratio { num: wpq as u128, den: (2 * ck) as u128 }
                } else {
                    Ratio { num: 0, den: 1 }
                })
                &&& r.frequency == (if dt_ns == 0 {
                    Ratio { num: 0, den: 1 }
                } else {
                    Ratio { num: ck as u128, den: dt_ns as u128 }
                })
            }),
    {
        let ghost prevs = self.prev_counters@;
        let n = self.channels.len();
        let mut rd: u64 = 0;
        let mut wr: u64 = 0;
        let mut rpq: u64 = 0;
        let mut wpq: u64 = 0;
        let mut ck: u64 = 0;
        let mut i: usize = 0;
        while i < n
            invariant
                self.wf(),
                n == self.channels@.len(),
                readings@.len() == n,
                i <= n,
                self.channels == old(self).channels,
                self.socket == old(self).socket,
                prevs.len() == n,
                forall|k: int| i <= k < n ==> self.prev_counters@[k] == prevs[k],
                forall|k: int| 0 <= k < i ==> self.prev_counters@[k] == Some(readings@[k]),
                prevs == old(self).prev_counters@,
                rd == sum_rd(readings@, prevs, i as int),
                wr == sum_wr(readings@, prevs, i as int),
                rpq == sum_rpq(readings@, prevs, i as int),
                wpq == sum_wpq(readings@, prevs, i as int),
                ck == sum_ck(readings@, prevs, i as int),
                rd <= i * (IMC_COUNTER_MODULUS - 1),
                wr <= i * (IMC_COUNTER_MODULUS - 1),
                rpq <= i * (IMC_COUNTER_MODULUS - 1),
                wpq <= i * (IMC_COUNTER_MODULUS - 1),
                ck <= i * (IMC_COUNTER_MODULUS - 1),
            decreases n - i,
        {
            let cur = readings[i];
            let prev = match self.prev_counters[i] {
                Some(p) => p,
                None => ImcCounters {
                    read_count: 0,
                    write_count: 0,
                    rpq_occupancy: 0,
                    wpq_occupancy: 0,
                    cycles: 0,
                },
            };
            proof {
                vstd::arithmetic::mul::lemma_mul_inequality(
                    i as int,
                    5,
                    IMC_COUNTER_MODULUS - 1,
                );
                vstd::arithmetic::mul::lemma_mul_is_distributive_add_other_way(
                    IMC_COUNTER_MODULUS - 1,
                    i as int,
                    1,
                );
                vstd::arithmetic::mul::lemma_mul_inequality(
                    i as int + 1,
                    6,
                    IMC_COUNTER_MODULUS - 1,
                );
            }
            rd = rd + counter_delta(
                cur.read_count % IMC_COUNTER_MODULUS,
                prev.read_count % IMC_COUNTER_MODULUS,
                IMC_COUNTER_MODULUS,
            );
            wr = wr + counter_delta(
                cur.write_count % IMC_COUNTER_MODULUS,
                prev.write_count % IMC_COUNTER_MODULUS,
                IMC_COUNTER_MODULUS,
            );
            rpq = rpq + counter_delta(
                cur.rpq_occupancy % IMC_COUNTER_MODULUS,
                prev.rpq_occupancy % IMC_COUNTER_MODULUS,
                IMC_COUNTER_MODULUS,
            );
            wpq = wpq + counter_delta(
                cur.wpq_occupancy % IMC_COUNTER_MODULUS,
                prev.wpq_occupancy % IMC_COUNTER_MODULUS,
                IMC_COUNTER_MODULUS,
            );
            ck = ck + counter_delta(
                cur.cycles % IMC_COUNTER_MODULUS,
                prev.cycles % IMC_COUNTER_MODULUS,
                IMC_COUNTER_MODULUS,
            );
            self.prev_counters.set(i, Some(cur));
            i = i + 1;
        }
        proof {
            vstd::arithmetic::mul::lemma_mul_inequality(
                n as int,
                6,
                IMC_COUNTER_MODULUS - 1,
            );
        }
        let read_bytes: u64 = rd * 64;
        let write_bytes: u64 = wr * 64;
        let read_bandwidth = if dt_ns == 0 {
            Ratio::zero()
        } else {
            Ratio { num: wide_product(read_bytes, 1_000_000_000), den: dt_ns as u128 }
        };
        let write_bandwidth = if dt_ns == 0 {
            Ratio::zero()
        } else {
            Ratio { num: wide_product(write_bytes, 1_000_000_000), den: dt_ns as u128 }
        };
        let read_latency = if read_bytes == 0 {
            Ratio::zero()
        } else {
            Ratio { num: wide_product(rpq, dt_ns), den: wide_product(n as u64, read_bytes) }
        };
        let write_latency = if write_bytes == 0 {
            Ratio::zero()
        } else {
            Ratio { num: wide_product(wpq, dt_ns), den: wide_product(n as u64, write_bytes) }
        };
        let rpq_occupancy = Ratio { num: rpq as u128, den: n as u128 };
        let wpq_occupancy = Ratio { num: wpq as u128, den: n as u128 };
        let rpq_non_empty = if ck == 0 {
            Ratio::zero()
        } else {
            Ratio { num: rpq as u128, den: ck as u128 }
        };
        let wpq_non_empty = if ck == 0 {
            Ratio::zero()
        } else {
            Ratio { num: wpq as u128, den: ck as u128 }
        };
        let rpq_full = if ck > 0 && wide_product(rpq, 5) > wide_product(ck, 4) {
            Ratio { num: rpq as u128, den: 2 * (ck as u128) }
        } else {
            Ratio::zero()
        };
        let wpq_full = if ck > 0 && wide_product(wpq, 5) > wide_product(ck, 4) {
            Ratio { num: wpq as u128, den: 2 * (ck as u128) }
        } else {
            Ratio::zero()
        };
        let frequency = if dt_ns == 0 {
            Ratio::zero()
        } else {
            Ratio { num: ck as u128, den: dt_ns as u128 }
        };
        ImcMetrics {
            read_bandwidth,
            write_bandwidth,
            read_latency,
            write_latency,
            rpq_occupancy,
            wpq_occupancy,
            rpq_non_empty,
            rpq_full,
            wpq_non_empty,
            wpq_full,
            frequency,
        }
    }
}

} // verus!
