//! RAPL (Running Average Power Limit) monitor.
//!
//! Each socket's power-unit descriptor fixes the energy unit as `1 / 2^e`
//! joules per LSB; energy-status readings are scaled by it, and consecutive
//! readings are differenced (modulo the 32-bit counter width) into
//! instantaneous power.

use vstd::prelude::*;
use crate::counters::{counter_delta, wide_product};
use crate::ratio::Ratio;

verus! {

/// One plus the largest value an energy-status counter can hold.
pub const RAPL_ENERGY_MODULUS: u64 = 0x1_0000_0000;

/// Energy (in joules) or power (in joules per second) of the three measured
/// domains.
#[derive(Debug, Clone, Copy, PartialEq, Eq, Structural)]
pub struct RaplData {
    /// Whole-package figure.
    pub package_energy: Ratio,
    /// Power-plane-0 (core) figure.
    pub core_energy: Ratio,
    /// DRAM figure.
    pub dram_energy: Ratio,
}

/// Raw energy-status readings of the three domains of one socket.
#[derive(Debug, Clone, Copy, Default, PartialEq, Eq, Structural)]
pub struct RaplRawReadings {
    /// Package energy status.
    pub pkg: u64,
    /// Power-plane-0 energy status.
    pub pp0: u64,
    /// DRAM energy status.
    pub dram: u64,
}

/// Per-socket RAPL state: the CPU used to read the socket's MSRs, the energy
/// unit exponent, and the previous raw readings.
#[derive(Debug, Clone, Copy, PartialEq, Eq, Structural)]
pub struct RaplSocketState {
    /// The socket this state describes.
    pub socket_id: u32,
    /// A CPU of the socket through which its MSRs are read.
    pub cpu: u32,
    /// Energy unit exponent: one LSB is `1 / 2^energy_exponent` joules.
    pub energy_exponent: u8,
    /// Previous raw readings, for power derivation.
    pub last: RaplRawReadings,
}

/// The energy unit exponent carried in bits 8-12 of the power-unit register.
pub open spec fn energy_exponent_of(raw_power_unit: u64) -> u64 {
    (raw_power_unit >> 8) & 0x1F
}

/// The first monitored CPU whose topology entry names the socket.
pub open spec fn first_cpu_for_socket(
    cores: Seq<u32>,
    packages: Seq<Option<u32>>,
    socket_id: u32,
    n: int,
) -> Option<u32>
    decreases n,
{
    if n <= 0 {
        None
    } else if first_cpu_for_socket(cores, packages, socket_id, n - 1) is Some {
        first_cpu_for_socket(cores, packages, socket_id, n - 1)
    } else if packages[n - 1] == Some(socket_id) {
        Some(cores[n - 1])
    } else {
        None
    }
}

/// RAPL monitor over the configured sockets.
pub struct RaplMonitor {
    /// Per-socket state, one entry per monitored socket.
    pub sockets: Vec<RaplSocketState>,
}

impl RaplMonitor {
    /// Every stored exponent fits the register's five-bit field.
    pub open spec fn wf(self) -> bool {
        forall|i: int|
            0 <= i < self.sockets@.len() ==> (#[trigger] self.sockets@[i]).energy_exponent <= 31
    }

    /// Find a CPU of the given socket among the monitored cores, by their
    /// topology entries; falls back to the first core, or CPU zero when none
    /// is configured.
    pub fn find_first_cpu_for_socket(
        cores: &Vec<u32>,
        packages: &Vec<Option<u32>>,
        socket_id: u32,
    ) -> (r: u32)
        requires
            cores@.len() == packages@.len(),
        ensures
            r == match first_cpu_for_socket(cores@, packages@, socket_id, cores@.len() as int) {
                Some(c) => c,
                None => if cores@.len() > 0 {
                    cores@[0]
                } else {
                    0u32
                },
            },
    {
        let mut i: usize = 0;
        while i < cores.len()
            invariant
                cores@.len() == packages@.len(),
                i <= cores@.len(),
                first_cpu_for_socket(cores@, packages@, socket_id, i as int) is None,
            decreases cores@.len() - i,
        {
            match packages[i] {
                Some(p) => {
                    if p == socket_id {
                        proof {
                            assert(first_cpu_for_socket(
                                cores@,
                                packages@,
                                socket_id,
                                i + 1,
                            ) == Some(cores@[i as int]));
                            lemma_first_cpu_monotonic(
                                cores@,
                                packages@,
                                socket_id,
                                i + 1,
                                cores@.len() as int,
                            );
                        }
                        return cores[i];
                    }
                },
                None => {},
            }
            i = i + 1;
        }
        if cores.len() > 0 {
            cores[0]
        } else {
            0
        }
    }

    /// One socket's state from its power-unit register and initial readings.
    pub fn socket_state(socket_id: u32, cpu: u32, raw_power_unit: u64, initial: RaplRawReadings)
        -> (r: RaplSocketState)
        ensures
            r.socket_id == socket_id,
            r.cpu == cpu,
            r.energy_exponent == energy_exponent_of(raw_power_unit),
            r.energy_exponent <= 31,
            r.last == initial,
    {
        let e = (raw_power_unit >> 8) & 0x1F;
        proof {
            assert((raw_power_unit >> 8) & 0x1F <= 31) by (bit_vector);
        }
        RaplSocketState { socket_id, cpu, energy_exponent: e as u8, last: initial }
    }

    /// A monitor over pre-built per-socket states.
    pub fn new(sockets: Vec<RaplSocketState>) -> (r: RaplMonitor)
        requires
            forall|i: int| 0 <= i < sockets@.len() ==> (#[trigger] sockets@[i]).energy_exponent
                <= 31,
        ensures
            r.wf(),
            r.sockets == sockets,
    {
        RaplMonitor { sockets }
    }

    /// The energies that raw readings denote: each reading times the
    /// socket's energy unit of `1 / 2^e` joules per LSB.
    pub fn get_current_energy(&self, socket_idx: usize, readings: RaplRawReadings) -> (r: RaplData)
        requires
            self.wf(),
            socket_idx < self.sockets@.len(),
        ensures
            ({
                let e = self.sockets@[socket_idx as int].energy_exponent;
                &&& r.package_energy == Ratio { num: readings.pkg as u128, den: (1u64 << e) as u128 }
                &&& r.core_energy == Ratio { num: readings.pp0 as u128, den: (1u64 << e) as u128 }
                &&& r.dram_energy == Ratio { num: readings.dram as u128, den: (1u64 << e) as u128 }
            }),
    {
        let e = self.sockets[socket_idx].energy_exponent;
        proof {
            assert(e <= 31 ==> 1u64 << e > 0) by (bit_vector);
        }
        let den = (1u64 << e) as u128;
        RaplData {
            package_energy: Ratio { num: readings.pkg as u128, den },
            core_energy: Ratio { num: readings.pp0 as u128, den },
            dram_energy: Ratio { num: readings.dram as u128, den },
        }
    }

    /// The power (joules per second) that one domain's consecutive readings
    /// denote over `dt_ns` nanoseconds, with the counter difference taken
    /// modulo the 32-bit counter width.
    pub open spec fn power_of(cur: u64, prev: u64, e: u8, dt_ns: u64) -> Ratio {
        if dt_ns == 0 {
            Ratio { num: 0, den: 1 }
        } else {
            Ratio {
                num: (((cur % RAPL_ENERGY_MODULUS - prev % RAPL_ENERGY_MODULUS) % (
                RAPL_ENERGY_MODULUS as int)) * 1_000_000_000) as u128,
                den: ((1u64 << e) * dt_ns) as u128,
            }
        }
    }

    /// Instantaneous power of each domain since the previous tick, and
    /// remember the new readings.
    pub fn get_power_consumption(
        &mut self,
        socket_idx: usize,
        readings: RaplRawReadings,
        dt_ns: u64,
    ) -> (r: RaplData)
        requires
            old(self).wf(),
            socket_idx < old(self).sockets@.len(),
        ensures
            final(self).wf(),
            final(self).sockets@.len() == old(self).sockets@.len(),
            forall|i: int|
                0 <= i < old(self).sockets@.len() && i != socket_idx ==> final(self).sockets@[i]
                    == old(self).sockets@[i],
            final(self).sockets@[socket_idx as int] == (RaplSocketState {
                last: readings,
                ..old(self).sockets@[socket_idx as int]
            }),
            ({
                let s = old(self).sockets@[socket_idx as int];
                &&& r.package_energy == Self::power_of(
                    readings.pkg,
                    s.last.pkg,
                    s.energy_exponent,
                    dt_ns,
                )
                &&& r.core_energy == Self::power_of(
                    readings.pp0,
                    s.last.pp0,
                    s.energy_exponent,
                    dt_ns,
                )
                &&& r.dram_energy == Self::power_of(
                    readings.dram,
                    s.last.dram,
                    s.energy_exponent,
                    dt_ns,
                )
            }),
    {
        let s = self.sockets[socket_idx];
        let e = s.energy_exponent;
        proof {
            assert(e <= 31 ==> 1u64 << e > 0 && 1u64 << e <= 0x8000_0000u64) by (bit_vector);
        }
        let unit_den: u64 = 1u64 << e;
        let r = if dt_ns == 0 {
            RaplData {
                package_energy: Ratio::zero(),
                core_energy: Ratio::zero(),
                dram_energy: Ratio::zero(),
            }
        } else {
            let dp = counter_delta(
                readings.pkg % RAPL_ENERGY_MODULUS,
                s.last.pkg % RAPL_ENERGY_MODULUS,
                RAPL_ENERGY_MODULUS,
            );
            let dc = counter_delta(
                readings.pp0 % RAPL_ENERGY_MODULUS,
                s.last.pp0 % RAPL_ENERGY_MODULUS,
                RAPL_ENERGY_MODULUS,
            );
            let dd = counter_delta(
                readings.dram % RAPL_ENERGY_MODULUS,
                s.last.dram % RAPL_ENERGY_MODULUS,
                RAPL_ENERGY_MODULUS,
            );
            let den = wide_product(unit_den, dt_ns);
            RaplData {
                package_energy: Ratio { num: wide_product(dp, 1_000_000_000), den },
                core_energy: Ratio { num: wide_product(dc, 1_000_000_000), den },
                dram_energy: Ratio { num: wide_product(dd, 1_000_000_000), den },
            }
        };
        self.sockets.set(
            socket_idx,
            RaplSocketState {
                socket_id: s.socket_id,
                cpu: s.cpu,
                energy_exponent: s.energy_exponent,
                last: readings,
            },
        );
        r
    }
}

/// Once a matching CPU is found among the first `m` entries, scanning
/// further entries returns the same one.
proof fn lemma_first_cpu_monotonic(
    cores: Seq<u32>,
    packages: Seq<Option<u32>>,
    socket_id: u32,
    m: int,
    n: int,
)
    requires
        0 < m <= n,
        first_cpu_for_socket(cores, packages, socket_id, m) is Some,
    ensures
        first_cpu_for_socket(cores, packages, socket_id, n) == first_cpu_for_socket(
            cores,
            packages,
            socket_id,
            m,
        ),
    decreases n - m,
{
    if m < n {
        lemma_first_cpu_monotonic(cores, packages, socket_id, m, n - 1);
    }
}

} // verus!
