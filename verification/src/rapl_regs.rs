//! RAPL (Running Average Power Limit) register definitions: the power-unit
//! descriptor and the power-limit register, with their MSR addresses.

use vstd::prelude::*;
use crate::register::RegisterLayout;

verus! {

/// Power-unit descriptor MSR: energy, power and time units.
pub const MSR_RAPL_POWER_UNIT: u64 = 0x606;

/// Package energy-status MSR.
pub const MSR_PKG_ENERGY_STATUS: u64 = 0x611;

/// Power-plane-0 (core) energy-status MSR.
pub const MSR_PP0_ENERGY_STATUS: u64 = 0x639;

/// DRAM energy-status MSR.
pub const MSR_DRAM_ENERGY_STATUS: u64 = 0x619;

/// Package power-limit MSR.
pub const MSR_PKG_POWER_LIMIT: u64 = 0x610;

/// Package power-information MSR.
pub const MSR_PKG_POWER_INFO: u64 = 0x614;

/// RAPL power-unit register: exponents of the energy, power and time units.
///
/// A raw energy reading of `n` units denotes `n / 2^energy_units` joules,
/// and likewise for watts and seconds.
#[derive(Debug, Clone, Copy, Default, PartialEq, Eq, Structural)]
pub struct RaplPowerUnit {
    /// Power unit exponent (bits 0-3): watts per LSB is `1 / 2^power_units`.
    pub power_units: u8,
    /// Energy unit exponent (bits 8-12): joules per LSB is `1 / 2^energy_units`.
    pub energy_units: u8,
    /// Time unit exponent (bits 16-19): seconds per LSB is `1 / 2^time_units`.
    pub time_units: u8,
}

impl RegisterLayout for RaplPowerUnit {
    open spec fn encode_spec(&self) -> u64 {
        ((self.power_units as u64) & 0x0F) | (((self.energy_units as u64) & 0x1F) << 8) | (((
        self.time_units as u64) & 0x0F) << 16)
    }

    open spec fn decode_spec(value: u64) -> Self {
        RaplPowerUnit {
            power_units: (value & 0x0F) as u8,
            energy_units: ((value >> 8) & 0x1F) as u8,
            time_units: ((value >> 16) & 0x0F) as u8,
        }
    }

    open spec fn valid(&self) -> bool {
        self.power_units <= 15 && self.energy_units <= 31 && self.time_units <= 15
    }

    fn to_msr_value(&self) -> (r: u64) {
        ((self.power_units as u64) & 0x0F) | (((self.energy_units as u64) & 0x1F) << 8) | (((
        self.time_units as u64) & 0x0F) << 16)
    }

    fn from_msr_value(value: u64) -> (r: Self) {
        RaplPowerUnit {
            power_units: (value & 0x0F) as u8,
            energy_units: ((value >> 8) & 0x1F) as u8,
            time_units: ((value >> 16) & 0x0F) as u8,
        }
    }

    fn validate(&self) -> (r: Result<(), &'static str>) {
        if self.power_units > 15 {
            return Err("Power units must be <= 15 (4 bits)");
        }
        if self.energy_units > 31 {
            return Err("Energy units must be <= 31 (5 bits)");
        }
        if self.time_units > 15 {
            return Err("Time units must be <= 15 (4 bits)");
        }
        Ok(())
    }
}

impl RaplPowerUnit {
    /// Denominator of the power unit: raw power readings are in units of
    /// `1 / 2^power_units` watts per LSB.
    pub fn power_unit_denominator(&self) -> (r: u64)
        requires
            self.power_units <= 15,
        ensures
            r == 1u64 << self.power_units,
            r > 0,
    {
        let p = self.power_units;
        proof {
            assert(p <= 15 ==> 1u64 << p > 0) by (bit_vector);
        }
        1u64 << p
    }

    /// Denominator of the energy unit: raw energy readings are in units of
    /// `1 / 2^energy_units` joules per LSB.
    pub fn energy_unit_denominator(&self) -> (r: u64)
        requires
            self.energy_units <= 31,
        ensures
            r == 1u64 << self.energy_units,
            r > 0,
    {
        let e = self.energy_units;
        proof {
            assert(e <= 31 ==> 1u64 << e > 0) by (bit_vector);
        }
        1u64 << e
    }

    /// Denominator of the time unit: raw time readings are in units of
    /// `1 / 2^time_units` seconds per LSB.
    pub fn time_unit_denominator(&self) -> (r: u64)
        requires
            self.time_units <= 15,
        ensures
            r == 1u64 << self.time_units,
            r > 0,
    {
        let t = self.time_units;
        proof {
            assert(t <= 15 ==> 1u64 << t > 0) by (bit_vector);
        }
        1u64 << t
    }
}

/// Decoding an encoded, validated power unit returns it unchanged.
pub proof fn lemma_rapl_power_unit_round_trip(c: RaplPowerUnit)
    requires
        c.valid(),
    ensures
        RaplPowerUnit::decode_spec(c.encode_spec()) == c,
{
    let p = c.power_units;
    let e = c.energy_units;
    let t = c.time_units;
    let w = c.encode_spec();
    assert((w & 0x0F) as u8 == p && ((w >> 8) & 0x1F) as u8 == e && ((w >> 16) & 0x0F) as u8 == t)
        by (bit_vector)
        requires
            p <= 15,
            e <= 31,
            t <= 15,
            w == ((p as u64) & 0x0F) | (((e as u64) & 0x1F) << 8) | (((t as u64) & 0x0F) << 16),
    ;
}

/// Re-encoding a decoded word zeroes exactly the reserved bits.
pub proof fn lemma_rapl_power_unit_mask(w: u64)
    ensures
        RaplPowerUnit::decode_spec(w).encode_spec() == w & 0xF1F0F,
{
    assert(((((w & 0x0F) as u8) as u64 & 0x0F) | (((((w >> 8) & 0x1F) as u8) as u64 & 0x1F) << 8)
        | (((((w >> 16) & 0x0F) as u8) as u64 & 0x0F) << 16)) == w & 0xF1F0F) by (bit_vector);
}

/// RAPL power-limit register: two limit/window pairs and a lock bit.
#[derive(Debug, Clone, Copy, Default, PartialEq, Eq, Structural)]
pub struct RaplPowerLimit {
    /// Power limit 1 (bits 0-14, in power units).
    pub power_limit_1: u16,
    /// Enable power limit 1 (bit 15).
    pub enable_1: bool,
    /// Clamp to power limit 1 (bit 16).
    pub clamp_1: bool,
    /// Time window 1 (bits 17-23).
    pub time_window_1: u8,
    /// Power limit 2 (bits 32-46, in power units).
    pub power_limit_2: u16,
    /// Enable power limit 2 (bit 47).
    pub enable_2: bool,
    /// Clamp to power limit 2 (bit 48).
    pub clamp_2: bool,
    /// Time window 2 (bits 49-55).
    pub time_window_2: u8,
    /// Lock register against further writes (bit 63).
    pub lock: bool,
}

impl RegisterLayout for RaplPowerLimit {
    open spec fn encode_spec(&self) -> u64 {
        ((self.power_limit_1 as u64) & 0x7FFF) | (if self.enable_1 { 1u64 << 15 } else { 0u64 }) | (
        if self.clamp_1 { 1u64 << 16 } else { 0u64 }) | (((self.time_window_1 as u64) & 0x7F)
            << 17) | (((self.power_limit_2 as u64) & 0x7FFF) << 32) | (if self.enable_2 {
            1u64 << 47
        } else {
            0u64
        }) | (if self.clamp_2 { 1u64 << 48 } else { 0u64 }) | (((self.time_window_2 as u64) & 0x7F)
            << 49) | (if self.lock { 1u64 << 63 } else { 0u64 })
    }

    open spec fn decode_spec(value: u64) -> Self {
        RaplPowerLimit {
            power_limit_1: (value & 0x7FFF) as u16,
            enable_1: value & (1u64 << 15) != 0,
            clamp_1: value & (1u64 << 16) != 0,
            time_window_1: ((value >> 17) & 0x7F) as u8,
            power_limit_2: ((value >> 32) & 0x7FFF) as u16,
            enable_2: value & (1u64 << 47) != 0,
            clamp_2: value & (1u64 << 48) != 0,
            time_window_2: ((value >> 49) & 0x7F) as u8,
            lock: value & (1u64 << 63) != 0,
        }
    }

    open spec fn valid(&self) -> bool {
        self.power_limit_1 <= 0x7FFF && self.time_window_1 <= 127 && self.power_limit_2 <= 0x7FFF
            && self.time_window_2 <= 127
    }

    fn to_msr_value(&self) -> (r: u64) {
        ((self.power_limit_1 as u64) & 0x7FFF) | (if self.enable_1 { 1u64 << 15 } else { 0u64 }) | (
        if self.clamp_1 { 1u64 << 16 } else { 0u64 }) | (((self.time_window_1 as u64) & 0x7F)
            << 17) | (((self.power_limit_2 as u64) & 0x7FFF) << 32) | (if self.enable_2 {
            1u64 << 47
        } else {
            0u64
        }) | (if self.clamp_2 { 1u64 << 48 } else { 0u64 }) | (((self.time_window_2 as u64) & 0x7F)
            << 49) | (if self.lock { 1u64 << 63 } else { 0u64 })
    }

    fn from_msr_value(value: u64) -> (r: Self) {
        RaplPowerLimit {
            power_limit_1: (value & 0x7FFF) as u16,
            enable_1: value & (1u64 << 15) != 0,
            clamp_1: value & (1u64 << 16) != 0,
            time_window_1: ((value >> 17) & 0x7F) as u8,
            power_limit_2: ((value >> 32) & 0x7FFF) as u16,
            enable_2: value & (1u64 << 47) != 0,
            clamp_2: value & (1u64 << 48) != 0,
            time_window_2: ((value >> 49) & 0x7F) as u8,
            lock: value & (1u64 << 63) != 0,
        }
    }

    fn validate(&self) -> (r: Result<(), &'static str>) {
        if self.power_limit_1 > 0x7FFF {
            return Err("Power limit 1 must be <= 0x7FFF (15 bits)");
        }
        if self.time_window_1 > 127 {
            return Err("Time window 1 must be <= 127 (7 bits)");
        }
        if self.power_limit_2 > 0x7FFF {
            return Err("Power limit 2 must be <= 0x7FFF (15 bits)");
        }
        if self.time_window_2 > 127 {
            return Err("Time window 2 must be <= 127 (7 bits)");
        }
        Ok(())
    }
}

/// Decoding an encoded, validated power limit returns it unchanged.
pub proof fn lemma_rapl_power_limit_round_trip(c: RaplPowerLimit)
    requires
        c.valid(),
    ensures
        RaplPowerLimit::decode_spec(c.encode_spec()) == c,
{
    let p1 = c.power_limit_1;
    let e1 = c.enable_1;
    let c1 = c.clamp_1;
    let t1 = c.time_window_1;
    let p2 = c.power_limit_2;
    let e2 = c.enable_2;
    let c2 = c.clamp_2;
    let t2 = c.time_window_2;
    let lk = c.lock;
    let w = c.encode_spec();
    assert((w & 0x7FFF) as u16 == p1 && (w & (1u64 << 15) != 0) == e1 && (w & (1u64 << 16) != 0)
        == c1 && ((w >> 17) & 0x7F) as u8 == t1 && ((w >> 32) & 0x7FFF) as u16 == p2 && (w & (1u64
        << 47) != 0) == e2 && (w & (1u64 << 48) != 0) == c2 && ((w >> 49) & 0x7F) as u8 == t2 && (w
        & (1u64 << 63) != 0) == lk) by (bit_vector)
        requires
            p1 <= 0x7FFF,
            t1 <= 127,
            p2 <= 0x7FFF,
            t2 <= 127,
            w == ((p1 as u64) & 0x7FFF) | (if e1 { 1u64 << 15 } else { 0u64 }) | (if c1 {
                1u64 << 16
            } else {
                0u64
            }) | (((t1 as u64) & 0x7F) << 17) | (((p2 as u64) & 0x7FFF) << 32) | (if e2 {
                1u64 << 47
            } else {
                0u64
            }) | (if c2 { 1u64 << 48 } else { 0u64 }) | (((t2 as u64) & 0x7F) << 49) | (if lk {
                1u64 << 63
            } else {
                0u64
            }),
    ;
}

/// Re-encoding a decoded word zeroes exactly the reserved bits.
pub proof fn lemma_rapl_power_limit_mask(w: u64)
    ensures
        RaplPowerLimit::decode_spec(w).encode_spec() == w & 0x80FF_FFFF_00FF_FFFF,
{
    assert(((((w & 0x7FFF) as u16) as u64 & 0x7FFF) | (if w & (1u64 << 15) != 0 {
        1u64 << 15
    } else {
        0u64
    }) | (if w & (1u64 << 16) != 0 { 1u64 << 16 } else { 0u64 }) | (((((w >> 17) & 0x7F) as u8)
        as u64 & 0x7F) << 17) | (((((w >> 32) & 0x7FFF) as u16) as u64 & 0x7FFF) << 32) | (if w & (
    1u64 << 47) != 0 {
        1u64 << 47
    } else {
        0u64
    }) | (if w & (1u64 << 48) != 0 { 1u64 << 48 } else { 0u64 }) | (((((w >> 49) & 0x7F) as u8)
        as u64 & 0x7F) << 49) | (if w & (1u64 << 63) != 0 { 1u64 << 63 } else { 0u64 })) == w
        & 0x80FF_FFFF_00FF_FFFF) by (bit_vector);
}

} // verus!
