//! Core PMU register definitions: per-core event-select and fixed-counter
//! control registers, with the MSR addresses of the counters they govern.

use vstd::prelude::*;
use crate::register::RegisterLayout;

verus! {

/// General-purpose performance counters per core.
pub const CORE_PMU_COUNTERS: usize = 4;

/// Fixed-function performance counters per core.
pub const CORE_FIXED_COUNTERS: usize = 3;

/// First performance event-select MSR; the other three follow consecutively.
pub const IA32_PERFEVTSEL0: u64 = 0x186;

/// First programmable counter MSR; the other three follow consecutively.
pub const IA32_PMC0: u64 = 0xC1;

/// Fixed-counter control MSR.
pub const IA32_FIXED_CTR_CTRL: u64 = 0x38D;

/// Fixed counter 0: instructions retired.
pub const IA32_FIXED_CTR0: u64 = 0x309;

/// Fixed counter 1: core cycles.
pub const IA32_FIXED_CTR1: u64 = 0x30A;

/// Fixed counter 2: reference cycles.
pub const IA32_FIXED_CTR2: u64 = 0x30B;

/// Global counter-enable MSR.
pub const IA32_PERF_GLOBAL_CTRL: u64 = 0x38F;

/// Global counter-status MSR.
pub const IA32_PERF_GLOBAL_STATUS: u64 = 0x38E;

/// Time-stamp counter MSR.
pub const IA32_TIME_STAMP_COUNTER: u64 = 0x10;

/// Platform-information MSR; bits 8-15 give the base frequency ratio.
pub const MSR_PLATFORM_INFO: u64 = 0xCE;

/// Core performance event-select register.
#[derive(Debug, Clone, Copy, Default, PartialEq, Eq, Structural)]
pub struct CorePerfEvtSel {
    /// Event select (bits 0-7).
    pub event_select: u8,
    /// Unit mask (bits 8-15).
    pub umask: u8,
    /// Count in user mode (bit 16).
    pub usr: bool,
    /// Count in OS mode (bit 17).
    pub os: bool,
    /// Edge detect (bit 18).
    pub edge: bool,
    /// Pin control (bit 19).
    pub pc: bool,
    /// APIC interrupt enable (bit 20).
    pub int: bool,
    /// Any thread (bit 21).
    pub any_thread: bool,
    /// Enable counter (bit 22).
    pub enable: bool,
    /// Invert counter mask (bit 23).
    pub invert: bool,
    /// Counter mask (bits 24-31).
    pub cmask: u8,
}

impl RegisterLayout for CorePerfEvtSel {
    open spec fn encode_spec(&self) -> u64 {
        (self.event_select as u64) | ((self.umask as u64) << 8) | (if self.usr {
            1u64 << 16
        } else {
            0u64
        }) | (if self.os { 1u64 << 17 } else { 0u64 }) | (if self.edge {
            1u64 << 18
        } else {
            0u64
        }) | (if self.pc { 1u64 << 19 } else { 0u64 }) | (if self.int {
            1u64 << 20
        } else {
            0u64
        }) | (if self.any_thread { 1u64 << 21 } else { 0u64 }) | (if self.enable {
            1u64 << 22
        } else {
            0u64
        }) | (if self.invert { 1u64 << 23 } else { 0u64 }) | ((self.cmask as u64) << 24)
    }

    open spec fn decode_spec(value: u64) -> Self {
        CorePerfEvtSel {
            event_select: (value & 0xFF) as u8,
            umask: ((value >> 8) & 0xFF) as u8,
            usr: value & (1u64 << 16) != 0,
            os: value & (1u64 << 17) != 0,
            edge: value & (1u64 << 18) != 0,
            pc: value & (1u64 << 19) != 0,
            int: value & (1u64 << 20) != 0,
            any_thread: value & (1u64 << 21) != 0,
            enable: value & (1u64 << 22) != 0,
            invert: value & (1u64 << 23) != 0,
            cmask: ((value >> 24) & 0xFF) as u8,
        }
    }

    open spec fn valid(&self) -> bool {
        true
    }

    fn to_msr_value(&self) -> (r: u64) {
        (self.event_select as u64) | ((self.umask as u64) << 8) | (if self.usr {
            1u64 << 16
        } else {
            0u64
        }) | (if self.os { 1u64 << 17 } else { 0u64 }) | (if self.edge {
            1u64 << 18
        } else {
            0u64
        }) | (if self.pc { 1u64 << 19 } else { 0u64 }) | (if self.int {
            1u64 << 20
        } else {
            0u64
        }) | (if self.any_thread { 1u64 << 21 } else { 0u64 }) | (if self.enable {
            1u64 << 22
        } else {
            0u64
        }) | (if self.invert { 1u64 << 23 } else { 0u64 }) | ((self.cmask as u64) << 24)
    }

    fn from_msr_value(value: u64) -> (r: Self) {
        CorePerfEvtSel {
            event_select: (value & 0xFF) as u8,
            umask: ((value >> 8) & 0xFF) as u8,
            usr: value & (1u64 << 16) != 0,
            os: value & (1u64 << 17) != 0,
            edge: value & (1u64 << 18) != 0,
            pc: value & (1u64 << 19) != 0,
            int: value & (1u64 << 20) != 0,
            any_thread: value & (1u64 << 21) != 0,
            enable: value & (1u64 << 22) != 0,
            invert: value & (1u64 << 23) != 0,
            cmask: ((value >> 24) & 0xFF) as u8,
        }
    }

    fn validate(&self) -> (r: Result<(), &'static str>) {
        Ok(())
    }
}

/// Decoding an encoded event select returns it unchanged.
pub proof fn lemma_core_perf_evtsel_round_trip(c: CorePerfEvtSel)
    ensures
        CorePerfEvtSel::decode_spec(c.encode_spec()) == c,
{
    let e = c.event_select;
    let u = c.umask;
    let b0 = c.usr;
    let b1 = c.os;
    let b2 = c.edge;
    let b3 = c.pc;
    let b4 = c.int;
    let b5 = c.any_thread;
    let b6 = c.enable;
    let b7 = c.invert;
    let m = c.cmask;
    let w = c.encode_spec();
    assert((w & 0xFF) as u8 == e && ((w >> 8) & 0xFF) as u8 == u && (w & (1u64 << 16) != 0) == b0
        && (w & (1u64 << 17) != 0) == b1 && (w & (1u64 << 18) != 0) == b2 && (w & (1u64 << 19)
        != 0) == b3 && (w & (1u64 << 20) != 0) == b4 && (w & (1u64 << 21) != 0) == b5 && (w & (
    1u64 << 22) != 0) == b6 && (w & (1u64 << 23) != 0) == b7 && ((w >> 24) & 0xFF) as u8 == m)
        by (bit_vector)
        requires
            w == (e as u64) | ((u as u64) << 8) | (if b0 { 1u64 << 16 } else { 0u64 }) | (if b1 {
                1u64 << 17
            } else {
                0u64
            }) | (if b2 { 1u64 << 18 } else { 0u64 }) | (if b3 { 1u64 << 19 } else { 0u64 }) | (
            if b4 { 1u64 << 20 } else { 0u64 }) | (if b5 { 1u64 << 21 } else { 0u64 }) | (if b6 {
                1u64 << 22
            } else {
                0u64
            }) | (if b7 { 1u64 << 23 } else { 0u64 }) | ((m as u64) << 24),
    ;
}

/// Re-encoding a decoded word zeroes exactly the reserved bits.
pub proof fn lemma_core_perf_evtsel_mask(w: u64)
    ensures
        CorePerfEvtSel::decode_spec(w).encode_spec() == w & 0xFFFFFFFF,
{
    assert(((((w & 0xFF) as u8) as u64) | (((((w >> 8) & 0xFF) as u8) as u64) << 8) | (if w & (1u64
        << 16) != 0 {
        1u64 << 16
    } else {
        0u64
    }) | (if w & (1u64 << 17) != 0 { 1u64 << 17 } else { 0u64 }) | (if w & (1u64 << 18) != 0 {
        1u64 << 18
    } else {
        0u64
    }) | (if w & (1u64 << 19) != 0 { 1u64 << 19 } else { 0u64 }) | (if w & (1u64 << 20) != 0 {
        1u64 << 20
    } else {
        0u64
    }) | (if w & (1u64 << 21) != 0 { 1u64 << 21 } else { 0u64 }) | (if w & (1u64 << 22) != 0 {
        1u64 << 22
    } else {
        0u64
    }) | (if w & (1u64 << 23) != 0 { 1u64 << 23 } else { 0u64 }) | (((((w >> 24) & 0xFF) as u8)
        as u64) << 24)) == w & 0xFFFFFFFF) by (bit_vector);
}

/// Fixed-counter control register: four control bits for each of the three
/// fixed counters (instructions retired, core cycles, reference cycles).
#[derive(Debug, Clone, Copy, Default, PartialEq, Eq, Structural)]
pub struct FixedCtrCtrl {
    /// Fixed counter 0: count in OS mode (bit 0).
    pub ctr0_os: bool,
    /// Fixed counter 0: count in user mode (bit 1).
    pub ctr0_usr: bool,
    /// Fixed counter 0: any thread (bit 2).
    pub ctr0_any_thread: bool,
    /// Fixed counter 0: interrupt on overflow (bit 3).
    pub ctr0_pmi: bool,
    /// Fixed counter 1: count in OS mode (bit 4).
    pub ctr1_os: bool,
    /// Fixed counter 1: count in user mode (bit 5).
    pub ctr1_usr: bool,
    /// Fixed counter 1: any thread (bit 6).
    pub ctr1_any_thread: bool,
    /// Fixed counter 1: interrupt on overflow (bit 7).
    pub ctr1_pmi: bool,
    /// Fixed counter 2: count in OS mode (bit 8).
    pub ctr2_os: bool,
    /// Fixed counter 2: count in user mode (bit 9).
    pub ctr2_usr: bool,
    /// Fixed counter 2: any thread (bit 10).
    pub ctr2_any_thread: bool,
    /// Fixed counter 2: interrupt on overflow (bit 11).
    pub ctr2_pmi: bool,
}

impl RegisterLayout for FixedCtrCtrl {
    open spec fn encode_spec(&self) -> u64 {
        (if self.ctr0_os { 1u64 } else { 0u64 }) | (if self.ctr0_usr { 1u64 << 1 } else { 0u64 })
            | (if self.ctr0_any_thread { 1u64 << 2 } else { 0u64 }) | (if self.ctr0_pmi {
            1u64 << 3
        } else {
            0u64
        }) | (if self.ctr1_os { 1u64 << 4 } else { 0u64 }) | (if self.ctr1_usr {
            1u64 << 5
        } else {
            0u64
        }) | (if self.ctr1_any_thread { 1u64 << 6 } else { 0u64 }) | (if self.ctr1_pmi {
            1u64 << 7
        } else {
            0u64
        }) | (if self.ctr2_os { 1u64 << 8 } else { 0u64 }) | (if self.ctr2_usr {
            1u64 << 9
        } else {
            0u64
        }) | (if self.ctr2_any_thread { 1u64 << 10 } else { 0u64 }) | (if self.ctr2_pmi {
            1u64 << 11
        } else {
            0u64
        })
    }

    open spec fn decode_spec(value: u64) -> Self {
        FixedCtrCtrl {
            ctr0_os: value & 1u64 != 0,
            ctr0_usr: value & (1u64 << 1) != 0,
            ctr0_any_thread: value & (1u64 << 2) != 0,
            ctr0_pmi: value & (1u64 << 3) != 0,
            ctr1_os: value & (1u64 << 4) != 0,
            ctr1_usr: value & (1u64 << 5) != 0,
            ctr1_any_thread: value & (1u64 << 6) != 0,
            ctr1_pmi: value & (1u64 << 7) != 0,
            ctr2_os: value & (1u64 << 8) != 0,
            ctr2_usr: value & (1u64 << 9) != 0,
            ctr2_any_thread: value & (1u64 << 10) != 0,
            ctr2_pmi: value & (1u64 << 11) != 0,
        }
    }

    open spec fn valid(&self) -> bool {
        true
    }

    fn to_msr_value(&self) -> (r: u64) {
        (if self.ctr0_os { 1u64 } else { 0u64 }) | (if self.ctr0_usr { 1u64 << 1 } else { 0u64 })
            | (if self.ctr0_any_thread { 1u64 << 2 } else { 0u64 }) | (if self.ctr0_pmi {
            1u64 << 3
        } else {
            0u64
        }) | (if self.ctr1_os { 1u64 << 4 } else { 0u64 }) | (if self.ctr1_usr {
            1u64 << 5
        } else {
            0u64
        }) | (if self.ctr1_any_thread { 1u64 << 6 } else { 0u64 }) | (if self.ctr1_pmi {
            1u64 << 7
        } else {
            0u64
        }) | (if self.ctr2_os { 1u64 << 8 } else { 0u64 }) | (if self.ctr2_usr {
            1u64 << 9
        } else {
            0u64
        }) | (if self.ctr2_any_thread { 1u64 << 10 } else { 0u64 }) | (if self.ctr2_pmi {
            1u64 << 11
        } else {
            0u64
        })
    }

    fn from_msr_value(value: u64) -> (r: Self) {
        FixedCtrCtrl {
            ctr0_os: value & 1u64 != 0,
            ctr0_usr: value & (1u64 << 1) != 0,
            ctr0_any_thread: value & (1u64 << 2) != 0,
            ctr0_pmi: value & (1u64 << 3) != 0,
            ctr1_os: value & (1u64 << 4) != 0,
            ctr1_usr: value & (1u64 << 5) != 0,
            ctr1_any_thread: value & (1u64 << 6) != 0,
            ctr1_pmi: value & (1u64 << 7) != 0,
            ctr2_os: value & (1u64 << 8) != 0,
            ctr2_usr: value & (1u64 << 9) != 0,
            ctr2_any_thread: value & (1u64 << 10) != 0,
            ctr2_pmi: value & (1u64 << 11) != 0,
        }
    }

    fn validate(&self) -> (r: Result<(), &'static str>) {
        Ok(())
    }
}

/// Decoding an encoded fixed-counter control returns it unchanged.
pub proof fn lemma_fixed_ctr_ctrl_round_trip(c: FixedCtrCtrl)
    ensures
        FixedCtrCtrl::decode_spec(c.encode_spec()) == c,
{
    let b0 = c.ctr0_os;
    let b1 = c.ctr0_usr;
    let b2 = c.ctr0_any_thread;
    let b3 = c.ctr0_pmi;
    let b4 = c.ctr1_os;
    let b5 = c.ctr1_usr;
    let b6 = c.ctr1_any_thread;
    let b7 = c.ctr1_pmi;
    let b8 = c.ctr2_os;
    let b9 = c.ctr2_usr;
    let b10 = c.ctr2_any_thread;
    let b11 = c.ctr2_pmi;
    let w = c.encode_spec();
    assert((w & 1u64 != 0) == b0 && (w & (1u64 << 1) != 0) == b1 && (w & (1u64 << 2) != 0) == b2
        && (w & (1u64 << 3) != 0) == b3 && (w & (1u64 << 4) != 0) == b4 && (w & (1u64 << 5) != 0)
        == b5 && (w & (1u64 << 6) != 0) == b6 && (w & (1u64 << 7) != 0) == b7 && (w & (1u64 << 8)
        != 0) == b8 && (w & (1u64 << 9) != 0) == b9 && (w & (1u64 << 10) != 0) == b10 && (w & (
    1u64 << 11) != 0) == b11) by (bit_vector)
        requires
            w == (if b0 { 1u64 } else { 0u64 }) | (if b1 { 1u64 << 1 } else { 0u64 }) | (if b2 {
                1u64 << 2
            } else {
                0u64
            }) | (if b3 { 1u64 << 3 } else { 0u64 }) | (if b4 { 1u64 << 4 } else { 0u64 }) | (
            if b5 { 1u64 << 5 } else { 0u64 }) | (if b6 { 1u64 << 6 } else { 0u64 }) | (if b7 {
                1u64 << 7
            } else {
                0u64
            }) | (if b8 { 1u64 << 8 } else { 0u64 }) | (if b9 { 1u64 << 9 } else { 0u64 }) | (
            if b10 { 1u64 << 10 } else { 0u64 }) | (if b11 { 1u64 << 11 } else { 0u64 }),
    ;
}

/// Re-encoding a decoded word zeroes exactly the reserved bits.
pub proof fn lemma_fixed_ctr_ctrl_mask(w: u64)
    ensures
        FixedCtrCtrl::decode_spec(w).encode_spec() == w & 0xFFF,
{
    assert(((if w & 1u64 != 0 { 1u64 } else { 0u64 }) | (if w & (1u64 << 1) != 0 {
        1u64 << 1
    } else {
        0u64
    }) | (if w & (1u64 << 2) != 0 { 1u64 << 2 } else { 0u64 }) | (if w & (1u64 << 3) != 0 {
        1u64 << 3
    } else {
        0u64
    }) | (if w & (1u64 << 4) != 0 { 1u64 << 4 } else { 0u64 }) | (if w & (1u64 << 5) != 0 {
        1u64 << 5
    } else {
        0u64
    }) | (if w & (1u64 << 6) != 0 { 1u64 << 6 } else { 0u64 }) | (if w & (1u64 << 7) != 0 {
        1u64 << 7
    } else {
        0u64
    }) | (if w & (1u64 << 8) != 0 { 1u64 << 8 } else { 0u64 }) | (if w & (1u64 << 9) != 0 {
        1u64 << 9
    } else {
        0u64
    }) | (if w & (1u64 << 10) != 0 { 1u64 << 10 } else { 0u64 }) | (if w & (1u64 << 11) != 0 {
        1u64 << 11
    } else {
        0u64
    })) == w & 0xFFF) by (bit_vector);
}

} // verus!
