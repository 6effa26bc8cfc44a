//! CHA (Caching/Home Agent) register definitions.
//!
//! Each CHA box serves a slice of the last-level cache and carries four
//! programmable performance counters, controlled through per-box MSRs laid
//! out at a fixed stride.

use vstd::prelude::*;
use crate::register::RegisterLayout;

verus! {

/// Largest number of CHA boxes per socket (varies by SKU).
pub const CHA_COUNT: usize = 28;

/// Programmable counters per CHA box.
pub const COUNTERS_PER_CHA: usize = 4;

/// Bit width of CHA counters.
pub const COUNTER_WIDTH_BITS: u64 = 48;

/// One plus the largest value a CHA counter can hold.
pub const CHA_COUNTER_MODULUS: u64 = 0x1_0000_0000_0000;

/// Stride between the MSR blocks of consecutive CHA boxes.
pub const CHA_BOX_STRIDE: u64 = 0x10;

/// Box-control MSR of the first CHA box.
pub const CHA_UNIT_BOX_CTL_BASE: u64 = 0xE00;

/// Counter-control 0 MSR of the first CHA box.
pub const CHA_UNIT_CTL0_BASE: u64 = 0xE01;

/// Counter 0 value MSR of the first CHA box.
pub const CHA_UNIT_CTR0_BASE: u64 = 0xE08;

/// Filter-0 MSR of the first CHA box.
pub const CHA_UNIT_FILTER0_BASE: u64 = 0xE05;

/// Filter-1 MSR of the first CHA box.
pub const CHA_UNIT_FILTER1_BASE: u64 = 0xE06;

/// Box-control MSR address of a CHA box.
pub fn box_ctl(cha_index: usize) -> (r: u64)
    requires
        cha_index < CHA_COUNT,
    ensures
        r == CHA_UNIT_BOX_CTL_BASE + cha_index * CHA_BOX_STRIDE,
{
    CHA_UNIT_BOX_CTL_BASE + (cha_index as u64) * CHA_BOX_STRIDE
}

/// Counter-control MSR address of one counter of a CHA box.
pub fn counter_ctl(cha_index: usize, counter_num: usize) -> (r: u64)
    requires
        cha_index < CHA_COUNT,
        counter_num < COUNTERS_PER_CHA,
    ensures
        r == CHA_UNIT_CTL0_BASE + cha_index * CHA_BOX_STRIDE + counter_num,
{
    CHA_UNIT_CTL0_BASE + (cha_index as u64) * CHA_BOX_STRIDE + (counter_num as u64)
}

/// Counter value MSR address of one counter of a CHA box.
pub fn counter_value(cha_index: usize, counter_num: usize) -> (r: u64)
    requires
        cha_index < CHA_COUNT,
        counter_num < COUNTERS_PER_CHA,
    ensures
        r == CHA_UNIT_CTR0_BASE + cha_index * CHA_BOX_STRIDE + counter_num,
{
    CHA_UNIT_CTR0_BASE + (cha_index as u64) * CHA_BOX_STRIDE + (counter_num as u64)
}

/// Filter-0 MSR address of a CHA box.
pub fn filter0(cha_index: usize) -> (r: u64)
    requires
        cha_index < CHA_COUNT,
    ensures
        r == CHA_UNIT_FILTER0_BASE + cha_index * CHA_BOX_STRIDE,
{
    CHA_UNIT_FILTER0_BASE + (cha_index as u64) * CHA_BOX_STRIDE
}

/// Filter-1 MSR address of a CHA box.
pub fn filter1(cha_index: usize) -> (r: u64)
    requires
        cha_index < CHA_COUNT,
    ensures
        r == CHA_UNIT_FILTER1_BASE + cha_index * CHA_BOX_STRIDE,
{
    CHA_UNIT_FILTER1_BASE + (cha_index as u64) * CHA_BOX_STRIDE
}

/// CHA box-control register: freeze, unfreeze and reset of a whole box.
///
/// The encoded word also carries the unfreeze bit (position 16), which is set
/// exactly when freezing is not requested but freeze control is enabled; that
/// bit is derived, not a stored field.
#[derive(Debug, Clone, Copy, Default, PartialEq, Eq, Structural)]
pub struct ChaBoxControl {
    /// Freeze all counters in this box (bit 0).
    pub freeze: bool,
    /// Enable freeze control (bit 8).
    pub freeze_enable: bool,
    /// Reset all counters to zero (bit 1).
    pub reset_counters: bool,
    /// Reset all control registers (bit 2).
    pub reset_control: bool,
}

impl RegisterLayout for ChaBoxControl {
    open spec fn encode_spec(&self) -> u64 {
        (if self.freeze { 1u64 } else { 0u64 })
            | (if self.freeze_enable { 1u64 << 8 } else { 0u64 })
            | (if self.reset_counters { 1u64 << 1 } else { 0u64 })
            | (if self.reset_control { 1u64 << 2 } else { 0u64 })
            | (if !self.freeze && self.freeze_enable { 1u64 << 16 } else { 0u64 })
    }

    open spec fn decode_spec(value: u64) -> Self {
        ChaBoxControl {
            freeze: value & 1u64 != 0,
            freeze_enable: value & (1u64 << 8) != 0,
            reset_counters: value & (1u64 << 1) != 0,
            reset_control: value & (1u64 << 2) != 0,
        }
    }

    open spec fn valid(&self) -> bool {
        true
    }

    fn to_msr_value(&self) -> (r: u64) {
        (if self.freeze { 1u64 } else { 0u64 })
            | (if self.freeze_enable { 1u64 << 8 } else { 0u64 })
            | (if self.reset_counters { 1u64 << 1 } else { 0u64 })
            | (if self.reset_control { 1u64 << 2 } else { 0u64 })
            | (if !self.freeze && self.freeze_enable { 1u64 << 16 } else { 0u64 })
    }

    fn from_msr_value(value: u64) -> (r: Self) {
        ChaBoxControl {
            freeze: value & 1u64 != 0,
            freeze_enable: value & (1u64 << 8) != 0,
            reset_counters: value & (1u64 << 1) != 0,
            reset_control: value & (1u64 << 2) != 0,
        }
    }

    fn validate(&self) -> (r: Result<(), &'static str>) {
        Ok(())
    }
}

/// Decoding an encoded box control returns it unchanged.
pub proof fn lemma_cha_box_control_round_trip(c: ChaBoxControl)
    ensures
        ChaBoxControl::decode_spec(c.encode_spec()) == c,
{
    let fz = c.freeze;
    let fe = c.freeze_enable;
    let rc = c.reset_counters;
    let rl = c.reset_control;
    let w = c.encode_spec();
    assert((w & 1u64 != 0) == fz && (w & (1u64 << 8) != 0) == fe && (w & (1u64 << 1) != 0) == rc
        && (w & (1u64 << 2) != 0) == rl) by (bit_vector)
        requires
            w == (if fz { 1u64 } else { 0u64 }) | (if fe { 1u64 << 8 } else { 0u64 })
                | (if rc { 1u64 << 1 } else { 0u64 }) | (if rl { 1u64 << 2 } else { 0u64 })
                | (if !fz && fe { 1u64 << 16 } else { 0u64 }),
    ;
}

/// Re-encoding a decoded word keeps the stored bits and recomputes the
/// derived unfreeze bit from them.
pub proof fn lemma_cha_box_control_mask(w: u64)
    ensures
        ChaBoxControl::decode_spec(w).encode_spec() == (w & 0x107) | (
        if w & 1u64 == 0 && w & 0x100 != 0 {
            0x10000u64
        } else {
            0u64
        }),
{
    assert(((if w & 1u64 != 0 { 1u64 } else { 0u64 }) | (if w & (1u64 << 8) != 0 {
        1u64 << 8
    } else {
        0u64
    }) | (if w & (1u64 << 1) != 0 { 1u64 << 1 } else { 0u64 }) | (if w & (1u64 << 2) != 0 {
        1u64 << 2
    } else {
        0u64
    }) | (if !(w & 1u64 != 0) && (w & (1u64 << 8) != 0) { 1u64 << 16 } else { 0u64 })) == (w
        & 0x107) | (if w & 1u64 == 0 && w & 0x100 != 0 { 0x10000u64 } else { 0u64 }))
        by (bit_vector);
}

/// CHA counter-control register: selects and enables one programmable event.
#[derive(Debug, Clone, Copy, Default, PartialEq, Eq, Structural)]
pub struct ChaCounterControl {
    /// Event select code (bits 0-7).
    pub event_select: u8,
    /// Unit mask / event sub-select (bits 8-15).
    pub unit_mask: u8,
    /// Queue occupancy select (bits 16-17, 2 bits).
    pub queue_occupancy_select: u8,
    /// Edge detection mode (bit 18).
    pub edge_detect: bool,
    /// Enable counter (bit 22).
    pub enable: bool,
    /// Invert threshold comparison (bit 23).
    pub invert: bool,
    /// Threshold for occupancy filtering (bits 24-29, 6 bits).
    pub threshold: u8,
    /// Invert occupancy edge (bit 30).
    pub occupancy_invert: bool,
    /// Occupancy edge detect (bit 31).
    pub occupancy_edge_detect: bool,
}

impl RegisterLayout for ChaCounterControl {
    open spec fn encode_spec(&self) -> u64 {
        (self.event_select as u64) | ((self.unit_mask as u64) << 8) | (((
        self.queue_occupancy_select as u64) & 0x03) << 16) | (if self.edge_detect {
            1u64 << 18
        } else {
            0u64
        }) | (if self.enable { 1u64 << 22 } else { 0u64 }) | (if self.invert {
            1u64 << 23
        } else {
            0u64
        }) | (((self.threshold as u64) & 0x3F) << 24) | (if self.occupancy_invert {
            1u64 << 30
        } else {
            0u64
        }) | (if self.occupancy_edge_detect { 1u64 << 31 } else { 0u64 })
    }

    open spec fn decode_spec(value: u64) -> Self {
        ChaCounterControl {
            event_select: (value & 0xFF) as u8,
            unit_mask: ((value >> 8) & 0xFF) as u8,
            queue_occupancy_select: ((value >> 16) & 0x03) as u8,
            edge_detect: value & (1u64 << 18) != 0,
            enable: value & (1u64 << 22) != 0,
            invert: value & (1u64 << 23) != 0,
            threshold: ((value >> 24) & 0x3F) as u8,
            occupancy_invert: value & (1u64 << 30) != 0,
            occupancy_edge_detect: value & (1u64 << 31) != 0,
        }
    }

    open spec fn valid(&self) -> bool {
        self.threshold <= 63 && self.queue_occupancy_select <= 3
    }

    fn to_msr_value(&self) -> (r: u64) {
        (self.event_select as u64) | ((self.unit_mask as u64) << 8) | (((
        self.queue_occupancy_select as u64) & 0x03) << 16) | (if self.edge_detect {
            1u64 << 18
        } else {
            0u64
        }) | (if self.enable { 1u64 << 22 } else { 0u64 }) | (if self.invert {
            1u64 << 23
        } else {
            0u64
        }) | (((self.threshold as u64) & 0x3F) << 24) | (if self.occupancy_invert {
            1u64 << 30
        } else {
            0u64
        }) | (if self.occupancy_edge_detect { 1u64 << 31 } else { 0u64 })
    }

    fn from_msr_value(value: u64) -> (r: Self) {
        ChaCounterControl {
            event_select: (value & 0xFF) as u8,
            unit_mask: ((value >> 8) & 0xFF) as u8,
            queue_occupancy_select: ((value >> 16) & 0x03) as u8,
            edge_detect: value & (1u64 << 18) != 0,
            enable: value & (1u64 << 22) != 0,
            invert: value & (1u64 << 23) != 0,
            threshold: ((value >> 24) & 0x3F) as u8,
            occupancy_invert: value & (1u64 << 30) != 0,
            occupancy_edge_detect: value & (1u64 << 31) != 0,
        }
    }

    fn validate(&self) -> (r: Result<(), &'static str>) {
        if self.threshold > 63 {
            return Err("Threshold must be <= 63 (6 bits)");
        }
        if self.queue_occupancy_select > 3 {
            return Err("Queue occupancy select must be 0-3 (2 bits)");
        }
        Ok(())
    }
}

/// Decoding an encoded, validated counter control returns it unchanged.
pub proof fn lemma_cha_counter_control_round_trip(c: ChaCounterControl)
    requires
        c.valid(),
    ensures
        ChaCounterControl::decode_spec(c.encode_spec()) == c,
{
    let e = c.event_select;
    let u = c.unit_mask;
    let q = c.queue_occupancy_select;
    let ed = c.edge_detect;
    let en = c.enable;
    let iv = c.invert;
    let th = c.threshold;
    let oi = c.occupancy_invert;
    let oe = c.occupancy_edge_detect;
    let w = c.encode_spec();
    assert((w & 0xFF) as u8 == e && ((w >> 8) & 0xFF) as u8 == u && ((w >> 16) & 0x03) as u8 == q
        && (w & (1u64 << 18) != 0) == ed && (w & (1u64 << 22) != 0) == en && (w & (1u64 << 23)
        != 0) == iv && ((w >> 24) & 0x3F) as u8 == th && (w & (1u64 << 30) != 0) == oi && (w & (
    1u64 << 31) != 0) == oe) by (bit_vector)
        requires
            q <= 3,
            th <= 63,
            w == (e as u64) | ((u as u64) << 8) | (((q as u64) & 0x03) << 16) | (if ed {
                1u64 << 18
            } else {
                0u64
            }) | (if en { 1u64 << 22 } else { 0u64 }) | (if iv { 1u64 << 23 } else { 0u64 }) | (((
            th as u64) & 0x3F) << 24) | (if oi { 1u64 << 30 } else { 0u64 }) | (if oe {
                1u64 << 31
            } else {
                0u64
            }),
    ;
}

/// Re-encoding a decoded word zeroes exactly the reserved bits.
pub proof fn lemma_cha_counter_control_mask(w: u64)
    ensures
        ChaCounterControl::decode_spec(w).encode_spec() == w & 0xFFC7FFFF,
{
    assert(((((w & 0xFF) as u8) as u64) | (((((w >> 8) & 0xFF) as u8) as u64) << 8) | (((((w >> 16)
        & 0x03) as u8) as u64 & 0x03) << 16) | (if w & (1u64 << 18) != 0 {
        1u64 << 18
    } else {
        0u64
    }) | (if w & (1u64 << 22) != 0 { 1u64 << 22 } else { 0u64 }) | (if w & (1u64 << 23) != 0 {
        1u64 << 23
    } else {
        0u64
    }) | (((((w >> 24) & 0x3F) as u8) as u64 & 0x3F) << 24) | (if w & (1u64 << 30) != 0 {
        1u64 << 30
    } else {
        0u64
    }) | (if w & (1u64 << 31) != 0 { 1u64 << 31 } else { 0u64 })) == w & 0xFFC7FFFF)
        by (bit_vector);
}

/// CHA filter-0 register: opcode matching.
#[derive(Debug, Clone, Copy, Default, PartialEq, Eq, Structural)]
pub struct ChaFilter0 {
    /// Opcode to match (bits 0-15).
    pub opcode_match: u16,
}

impl RegisterLayout for ChaFilter0 {
    open spec fn encode_spec(&self) -> u64 {
        self.opcode_match as u64
    }

    open spec fn decode_spec(value: u64) -> Self {
        ChaFilter0 { opcode_match: (value & 0xFFFF) as u16 }
    }

    open spec fn valid(&self) -> bool {
        true
    }

    fn to_msr_value(&self) -> (r: u64) {
        self.opcode_match as u64
    }

    fn from_msr_value(value: u64) -> (r: Self) {
        ChaFilter0 { opcode_match: (value & 0xFFFF) as u16 }
    }

    fn validate(&self) -> (r: Result<(), &'static str>) {
        Ok(())
    }
}

/// Decoding an encoded filter-0 returns it unchanged.
pub proof fn lemma_cha_filter0_round_trip(c: ChaFilter0)
    ensures
        ChaFilter0::decode_spec(c.encode_spec()) == c,
{
    let m = c.opcode_match;
    assert(((m as u64) & 0xFFFF) as u16 == m) by (bit_vector);
}

/// Re-encoding a decoded word zeroes exactly the reserved bits.
pub proof fn lemma_cha_filter0_mask(w: u64)
    ensures
        ChaFilter0::decode_spec(w).encode_spec() == w & 0xFFFF,
{
    assert((((w & 0xFFFF) as u16) as u64) == w & 0xFFFF) by (bit_vector);
}

/// CHA filter-1 register: cache-line state and thread-id filtering.
#[derive(Debug, Clone, Copy, Default, PartialEq, Eq, Structural)]
pub struct ChaFilter1 {
    /// Thread ID filter (bits 0-16, 17 bits).
    pub tid: u32,
    /// Cache-line state filter (bits 17-23, 7 bits).
    pub state: u8,
}

impl RegisterLayout for ChaFilter1 {
    open spec fn encode_spec(&self) -> u64 {
        ((self.tid as u64) & 0x1FFFF) | (((self.state as u64) & 0x7F) << 17)
    }

    open spec fn decode_spec(value: u64) -> Self {
        ChaFilter1 { tid: (value & 0x1FFFF) as u32, state: ((value >> 17) & 0x7F) as u8 }
    }

    open spec fn valid(&self) -> bool {
        self.tid <= 0x1FFFF && self.state <= 0x7F
    }

    fn to_msr_value(&self) -> (r: u64) {
        ((self.tid as u64) & 0x1FFFF) | (((self.state as u64) & 0x7F) << 17)
    }

    fn from_msr_value(value: u64) -> (r: Self) {
        ChaFilter1 { tid: (value & 0x1FFFF) as u32, state: ((value >> 17) & 0x7F) as u8 }
    }

    fn validate(&self) -> (r: Result<(), &'static str>) {
        if self.tid > 0x1FFFF {
            return Err("TID must be <= 0x1FFFF (17 bits)");
        }
        if self.state > 0x7F {
            return Err("State must be <= 0x7F (7 bits)");
        }
        Ok(())
    }
}

/// Decoding an encoded, validated filter-1 returns it unchanged.
pub proof fn lemma_cha_filter1_round_trip(c: ChaFilter1)
    requires
        c.valid(),
    ensures
        ChaFilter1::decode_spec(c.encode_spec()) == c,
{
    let t = c.tid;
    let s = c.state;
    let w = c.encode_spec();
    assert((w & 0x1FFFF) as u32 == t && ((w >> 17) & 0x7F) as u8 == s) by (bit_vector)
        requires
            t <= 0x1FFFF,
            s <= 0x7F,
            w == ((t as u64) & 0x1FFFF) | (((s as u64) & 0x7F) << 17),
    ;
}

/// Re-encoding a decoded word zeroes exactly the reserved bits.
pub proof fn lemma_cha_filter1_mask(w: u64)
    ensures
        ChaFilter1::decode_spec(w).encode_spec() == w & 0xFFFFFF,
{
    assert(((((w & 0x1FFFF) as u32) as u64) & 0x1FFFF) | ((((((w >> 17) & 0x7F) as u8) as u64)
        & 0x7F) << 17) == w & 0xFFFFFF) by (bit_vector);
}

/// Table-of-requests occupancy event code.
pub const TOR_OCCUPANCY: u8 = 0x36;

/// Table-of-requests inserts event code.
pub const TOR_INSERTS: u8 = 0x35;

/// Last-level-cache lookup event code.
pub const LLC_LOOKUP: u8 = 0x34;

/// Last-level-cache victims event code.
pub const LLC_VICTIMS: u8 = 0x37;

/// Uncore clockticks event code.
pub const CLOCKTICKS: u8 = 0x00;

/// Table-of-requests I/O-hit unit mask.
pub const TOR_IO_HIT: u8 = 0x14;

/// Table-of-requests I/O-miss unit mask.
pub const TOR_IO_MISS: u8 = 0x24;

/// Cache-line state flag: modified.
pub const STATE_M: u8 = 0x40;

/// Cache-line state flag: exclusive.
pub const STATE_E: u8 = 0x20;

/// Cache-line state flag: shared.
pub const STATE_S: u8 = 0x02;

/// Cache-line state flag: invalid.
pub const STATE_I: u8 = 0x01;

} // verus!
