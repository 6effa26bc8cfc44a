//! IIO (Integrated I/O) register definitions: per-stack counter controls and
//! the MSR addresses of the programmable and free-running counters.

use vstd::prelude::*;
use crate::register::RegisterLayout;

verus! {

/// IIO stacks per socket.
pub const IIO_CHANNEL_COUNT: usize = 3;

/// PCIe ports per IIO stack.
pub const IIO_PCIE_PORT_COUNT: usize = 4;

/// Programmable counters per IIO unit.
pub const IIO_COUNTERS_PER_UNIT: usize = 4;

/// Bit width of the free-running PCIe bandwidth counters.
pub const IIO_COUNTER_WIDTH_BITS: u64 = 36;

/// One plus the largest value a PCIe bandwidth counter can hold.
pub const IIO_PCIE_COUNTER_MODULUS: u64 = 0x10_0000_0000;

/// Bit width of the programmable uncore counters.
pub const UNCORE_COUNTER_WIDTH_BITS: u64 = 48;

/// One plus the largest value a programmable uncore counter can hold.
pub const UNCORE_COUNTER_MODULUS: u64 = 0x1_0000_0000_0000;

/// Box-control MSR of each IIO unit.
pub fn iio_unit_box_ctl(channel: usize) -> (r: u64)
    requires
        channel < IIO_CHANNEL_COUNT,
    ensures
        r == 0x0A60 + channel * 0x20,
{
    0x0A60 + (channel as u64) * 0x20
}

/// Counter-control MSR of one counter of an IIO unit.
pub fn iio_unit_ctl(channel: usize, counter: usize) -> (r: u64)
    requires
        channel < IIO_CHANNEL_COUNT,
        counter < IIO_COUNTERS_PER_UNIT,
    ensures
        r == 0x0A68 + channel * 0x20 + counter,
{
    0x0A68 + (channel as u64) * 0x20 + (counter as u64)
}

/// Counter value MSR of one counter of an IIO unit.
pub fn iio_unit_ctr(channel: usize, counter: usize) -> (r: u64)
    requires
        channel < IIO_CHANNEL_COUNT,
        counter < IIO_COUNTERS_PER_UNIT,
    ensures
        r == 0x0A61 + channel * 0x20 + counter,
{
    0x0A61 + (channel as u64) * 0x20 + (counter as u64)
}

/// Free-running uncore clock MSR of an IIO unit.
pub fn iio_unit_clk(channel: usize) -> (r: u64)
    requires
        channel < IIO_CHANNEL_COUNT,
    ensures
        r == 0x0A65 + channel * 0x20,
{
    0x0A65 + (channel as u64) * 0x20
}

/// Free-running inbound PCIe bandwidth counter MSR of a port.
pub fn iio_pcie_bandwidth_in(channel: usize, port: usize) -> (r: u64)
    requires
        channel < IIO_CHANNEL_COUNT,
        port < IIO_PCIE_PORT_COUNT,
    ensures
        r == 0x0B10 + channel * 0x10 + port,
{
    0x0B10 + (channel as u64) * 0x10 + (port as u64)
}

/// Free-running outbound PCIe bandwidth counter MSR of a port.
pub fn iio_pcie_bandwidth_out(channel: usize, port: usize) -> (r: u64)
    requires
        channel < IIO_CHANNEL_COUNT,
        port < IIO_PCIE_PORT_COUNT,
    ensures
        r == 0x0B14 + channel * 0x10 + port,
{
    0x0B14 + (channel as u64) * 0x10 + (port as u64)
}

/// IIO counter-control register.
#[derive(Debug, Clone, Copy, Default, PartialEq, Eq, Structural)]
pub struct IioCounterControl {
    /// Event select code (bits 0-7).
    pub event_select: u8,
    /// Unit mask / event sub-select (bits 8-15).
    pub unit_mask: u8,
    /// Reset counter on programming (bit 17).
    pub reset_counter: bool,
    /// Edge detection mode (bit 18).
    pub edge_detect: bool,
    /// Thread-ID filtering enable (bit 19).
    pub thread_id_enable: bool,
    /// Overflow interrupt enable (bit 20).
    pub overflow_enable: bool,
    /// Enable counter (bit 22).
    pub enable: bool,
    /// Invert threshold comparison (bit 23).
    pub invert: bool,
    /// Threshold for occupancy filtering (bits 24-35, 12 bits).
    pub threshold: u16,
    /// Channel filter mask (bits 36-43, 8 bits).
    pub channel_mask: u8,
    /// Fabric-configuration filter mask (bits 44-46, 3 bits).
    pub fc_mask: u8,
}

impl RegisterLayout for IioCounterControl {
    open spec fn encode_spec(&self) -> u64 {
        (self.event_select as u64) | ((self.unit_mask as u64) << 8) | (if self.reset_counter {
            1u64 << 17
        } else {
            0u64
        }) | (if self.edge_detect { 1u64 << 18 } else { 0u64 }) | (if self.thread_id_enable {
            1u64 << 19
        } else {
            0u64
        }) | (if self.overflow_enable { 1u64 << 20 } else { 0u64 }) | (if self.enable {
            1u64 << 22
        } else {
            0u64
        }) | (if self.invert { 1u64 << 23 } else { 0u64 }) | (((self.threshold as u64) & 0xFFF)
            << 24) | ((self.channel_mask as u64) << 36) | (((self.fc_mask as u64) & 0x07) << 44)
    }

    open spec fn decode_spec(value: u64) -> Self {
        IioCounterControl {
            event_select: (value & 0xFF) as u8,
            unit_mask: ((value >> 8) & 0xFF) as u8,
            reset_counter: value & (1u64 << 17) != 0,
            edge_detect: value & (1u64 << 18) != 0,
            thread_id_enable: value & (1u64 << 19) != 0,
            overflow_enable: value & (1u64 << 20) != 0,
            enable: value & (1u64 << 22) != 0,
            invert: value & (1u64 << 23) != 0,
            threshold: ((value >> 24) & 0xFFF) as u16,
            channel_mask: ((value >> 36) & 0xFF) as u8,
            fc_mask: ((value >> 44) & 0x07) as u8,
        }
    }

    open spec fn valid(&self) -> bool {
        self.threshold <= 0xFFF && self.fc_mask <= 0x07
    }

    fn to_msr_value(&self) -> (r: u64) {
        (self.event_select as u64) | ((self.unit_mask as u64) << 8) | (if self.reset_counter {
            1u64 << 17
        } else {
            0u64
        }) | (if self.edge_detect { 1u64 << 18 } else { 0u64 }) | (if self.thread_id_enable {
            1u64 << 19
        } else {
            0u64
        }) | (if self.overflow_enable { 1u64 << 20 } else { 0u64 }) | (if self.enable {
            1u64 << 22
        } else {
            0u64
        }) | (if self.invert { 1u64 << 23 } else { 0u64 }) | (((self.threshold as u64) & 0xFFF)
            << 24) | ((self.channel_mask as u64) << 36) | (((self.fc_mask as u64) & 0x07) << 44)
    }

    fn from_msr_value(value: u64) -> (r: Self) {
        IioCounterControl {
            event_select: (value & 0xFF) as u8,
            unit_mask: ((value >> 8) & 0xFF) as u8,
            reset_counter: value & (1u64 << 17) != 0,
            edge_detect: value & (1u64 << 18) != 0,
            thread_id_enable: value & (1u64 << 19) != 0,
            overflow_enable: value & (1u64 << 20) != 0,
            enable: value & (1u64 << 22) != 0,
            invert: value & (1u64 << 23) != 0,
            threshold: ((value >> 24) & 0xFFF) as u16,
            channel_mask: ((value >> 36) & 0xFF) as u8,
            fc_mask: ((value >> 44) & 0x07) as u8,
        }
    }

    fn validate(&self) -> (r: Result<(), &'static str>) {
        if self.threshold > 0xFFF {
            return Err("Threshold must be <= 4095 (12 bits)");
        }
        if self.fc_mask > 0x07 {
            return Err("FC mask must be <= 7 (3 bits)");
        }
        Ok(())
    }
}

/// Decoding an encoded, validated counter control returns it unchanged.
pub proof fn lemma_iio_counter_control_round_trip(c: IioCounterControl)
    requires
        c.valid(),
    ensures
        IioCounterControl::decode_spec(c.encode_spec()) == c,
{
    let e = c.event_select;
    let u = c.unit_mask;
    let b0 = c.reset_counter;
    let b1 = c.edge_detect;
    let b2 = c.thread_id_enable;
    let b3 = c.overflow_enable;
    let b4 = c.enable;
    let b5 = c.invert;
    let th = c.threshold;
    let cm = c.channel_mask;
    let fc = c.fc_mask;
    let w = c.encode_spec();
    assert((w & 0xFF) as u8 == e && ((w >> 8) & 0xFF) as u8 == u && (w & (1u64 << 17) != 0) == b0
        && (w & (1u64 << 18) != 0) == b1 && (w & (1u64 << 19) != 0) == b2 && (w & (1u64 << 20)
        != 0) == b3 && (w & (1u64 << 22) != 0) == b4 && (w & (1u64 << 23) != 0) == b5 && ((w >> 24)
        & 0xFFF) as u16 == th && ((w >> 36) & 0xFF) as u8 == cm && ((w >> 44) & 0x07) as u8 == fc)
        by (bit_vector)
        requires
            th <= 0xFFF,
            fc <= 0x07,
            w == (e as u64) | ((u as u64) << 8) | (if b0 { 1u64 << 17 } else { 0u64 }) | (if b1 {
                1u64 << 18
            } else {
                0u64
            }) | (if b2 { 1u64 << 19 } else { 0u64 }) | (if b3 { 1u64 << 20 } else { 0u64 }) | (
            if b4 { 1u64 << 22 } else { 0u64 }) | (if b5 { 1u64 << 23 } else { 0u64 }) | (((
            th as u64) & 0xFFF) << 24) | ((cm as u64) << 36) | (((fc as u64) & 0x07) << 44),
    ;
}

/// Re-encoding a decoded word zeroes exactly the reserved bits.
pub proof fn lemma_iio_counter_control_mask(w: u64)
    ensures
        IioCounterControl::decode_spec(w).encode_spec() == w & 0x7FFF_FFDE_FFFF,
{
    assert(((((w & 0xFF) as u8) as u64) | (((((w >> 8) & 0xFF) as u8) as u64) << 8) | (if w & (1u64
        << 17) != 0 {
        1u64 << 17
    } else {
        0u64
    }) | (if w & (1u64 << 18) != 0 { 1u64 << 18 } else { 0u64 }) | (if w & (1u64 << 19) != 0 {
        1u64 << 19
    } else {
        0u64
    }) | (if w & (1u64 << 20) != 0 { 1u64 << 20 } else { 0u64 }) | (if w & (1u64 << 22) != 0 {
        1u64 << 22
    } else {
        0u64
    }) | (if w & (1u64 << 23) != 0 { 1u64 << 23 } else { 0u64 }) | (((((w >> 24) & 0xFFF) as u16)
        as u64 & 0xFFF) << 24) | (((((w >> 36) & 0xFF) as u8) as u64) << 36) | (((((w >> 44)
        & 0x07) as u8) as u64 & 0x07) << 44)) == w & 0x7FFF_FFDE_FFFF) by (bit_vector);
}

/// IIO TLB event code.
pub const IIO_TLB_EVENT: u8 = 0x41;

/// IIO queue-occupancy event code.
pub const IIO_OCCUPANCY: u8 = 0x40;

/// IIO completion-inserts event code.
pub const IIO_COMP_INSERTS: u8 = 0xC2;

/// IIO completion-occupancy event code.
pub const IIO_COMP_OCCUPANCY: u8 = 0xD5;

/// Uncore clockticks event code.
pub const IIO_CLOCKTICKS: u8 = 0x01;

/// All-channels filter mask.
pub const CH_MASK_ALL: u8 = 0xFF;

/// All-fabric-configurations filter mask.
pub const FC_MASK_ALL: u8 = 0x07;

} // verus!
