//! IMC (Integrated Memory Controller) register definitions.
//!
//! The memory controller's performance counters are reached through PCI
//! configuration space; these are the per-channel device coordinates, the
//! register offsets, and the event encodings.

use vstd::prelude::*;

verus! {

/// Largest number of memory channels per socket.
pub const IMC_CHANNEL_COUNT: usize = 6;

/// Programmable counters per memory channel.
pub const COUNTERS_PER_CHANNEL: usize = 4;

/// Bit width of IMC counters.
pub const IMC_COUNTER_WIDTH_BITS: u64 = 48;

/// One plus the largest value an IMC counter can hold.
pub const IMC_COUNTER_MODULUS: u64 = 0x1_0000_0000_0000;

/// Cache-line size in bytes, for bandwidth derivations.
pub const CACHE_LINE_SIZE: u64 = 64;

/// Counter 0 offset in PCI configuration space.
pub const IMC_CTR0: u32 = 0x0A0;

/// Counter 1 offset.
pub const IMC_CTR1: u32 = 0x0A8;

/// Counter 2 offset.
pub const IMC_CTR2: u32 = 0x0B0;

/// Counter 3 offset.
pub const IMC_CTR3: u32 = 0x0B8;

/// Counter-control 0 offset.
pub const IMC_CTL0: u32 = 0x0D8;

/// Counter-control 1 offset.
pub const IMC_CTL1: u32 = 0x0DC;

/// Counter-control 2 offset.
pub const IMC_CTL2: u32 = 0x0E0;

/// Counter-control 3 offset.
pub const IMC_CTL3: u32 = 0x0E4;

/// Box-control offset.
pub const IMC_BOX_CTL: u32 = 0x0F4;

/// Free-running memory-clock (DCLK) control and counter offset.
pub const IMC_DCLK_CTL: u32 = 0x0A4;

/// CAS-count event code (reads and writes are distinguished by unit mask).
pub const IMC_CAS_COUNT: u8 = 0x04;

/// Unit mask selecting read CAS operations.
pub const IMC_CAS_COUNT_RD_UMASK: u8 = 0x03;

/// Unit mask selecting write CAS operations.
pub const IMC_CAS_COUNT_WR_UMASK: u8 = 0x0C;

/// Read-pending-queue occupancy event code.
pub const IMC_RPQ_OCCUPANCY: u8 = 0x80;

/// Write-pending-queue occupancy event code.
pub const IMC_WPQ_OCCUPANCY: u8 = 0x81;

/// Intel's PCI vendor id.
pub const INTEL_VENDOR_ID: u32 = 0x8086;

/// PCI coordinates of a memory channel: device, function and expected
/// device id. Only two device ids per device slot are listed; real parts
/// carry more variants, so detection by vendor id may admit other devices.
#[derive(Debug, Clone, Copy, PartialEq, Eq, Structural)]
pub struct ImcChannelLocation {
    /// PCI device number.
    pub device: u32,
    /// PCI function number.
    pub function: u32,
    /// Expected PCI device id.
    pub device_id: u32,
}

/// The PCI coordinates of the six possible memory channels, in channel order.
pub open spec fn imc_channel_location_spec(channel: int) -> ImcChannelLocation {
    if channel == 0 {
        ImcChannelLocation { device: 0x0A, function: 2, device_id: 0x2042 }
    } else if channel == 1 {
        ImcChannelLocation { device: 0x0A, function: 6, device_id: 0x2046 }
    } else if channel == 2 {
        ImcChannelLocation { device: 0x0B, function: 2, device_id: 0x204A }
    } else if channel == 3 {
        ImcChannelLocation { device: 0x0C, function: 2, device_id: 0x2042 }
    } else if channel == 4 {
        ImcChannelLocation { device: 0x0C, function: 6, device_id: 0x2046 }
    } else {
        ImcChannelLocation { device: 0x0D, function: 2, device_id: 0x204A }
    }
}

/// The PCI coordinates of one memory channel.
pub fn imc_channel_location(channel: usize) -> (r: ImcChannelLocation)
    requires
        channel < IMC_CHANNEL_COUNT,
    ensures
        r == imc_channel_location_spec(channel as int),
{
    if channel == 0 {
        ImcChannelLocation { device: 0x0A, function: 2, device_id: 0x2042 }
    } else if channel == 1 {
        ImcChannelLocation { device: 0x0A, function: 6, device_id: 0x2046 }
    } else if channel == 2 {
        ImcChannelLocation { device: 0x0B, function: 2, device_id: 0x204A }
    } else if channel == 3 {
        ImcChannelLocation { device: 0x0C, function: 2, device_id: 0x2042 }
    } else if channel == 4 {
        ImcChannelLocation { device: 0x0C, function: 6, device_id: 0x2046 }
    } else {
        ImcChannelLocation { device: 0x0D, function: 2, device_id: 0x204A }
    }
}

} // verus!
