//! IRP (I/O Request Processing) register definitions.
//!
//! Newer server parts expose three MSR-accessed IRP units per socket with two
//! counters each; older parts expose one PCI-accessed unit with four
//! counters. Both register sets are listed here.

use vstd::prelude::*;

verus! {

/// MSR-accessed IRP units per socket.
pub const IRP_UNIT_COUNT: usize = 3;

/// Counters per PCI-accessed IRP unit.
pub const COUNTERS_PER_IRP: usize = 4;

/// Bit width of the MSR-accessed IRP counters.
pub const IRP_COUNTER_WIDTH_BITS: u64 = 48;

/// One plus the largest value an MSR-accessed IRP counter can hold.
pub const IRP_MSR_COUNTER_MODULUS: u64 = 0x1_0000_0000_0000;

/// Bit width of the PCI-accessed IRP counters.
pub const IRP_PCI_COUNTER_WIDTH_BITS: u64 = 32;

/// One plus the largest value a PCI-accessed IRP counter can hold.
pub const IRP_PCI_COUNTER_MODULUS: u64 = 0x1_0000_0000;

/// PCI device number of the PCI-accessed IRP unit.
pub const IRP_DEVICE: u32 = 5;

/// PCI function number of the PCI-accessed IRP unit.
pub const IRP_FUNCTION: u32 = 6;

/// PCI device id of the PCI-accessed IRP unit.
pub const IRP_DEVICE_ID: u32 = 0x6F39;

/// Unit-status offset in PCI configuration space.
pub const IRP_UNIT_STATUS_ADDR: u32 = 0xF8;

/// Unit-control offset in PCI configuration space.
pub const IRP_UNIT_CTL_ADDR: u32 = 0xF4;

/// Unit-control MSR of an MSR-accessed IRP unit.
pub fn irp_unit_ctrl(unit: usize) -> (r: u64)
    requires
        unit < IRP_UNIT_COUNT,
    ensures
        r == 0x0A78 + unit * 0x20,
{
    0x0A78 + (unit as u64) * 0x20
}

/// Counter 0 MSR of an MSR-accessed IRP unit.
pub fn irp_ctr0(unit: usize) -> (r: u64)
    requires
        unit < IRP_UNIT_COUNT,
    ensures
        r == 0x0A79 + unit * 0x20,
{
    0x0A79 + (unit as u64) * 0x20
}

/// Counter 1 MSR of an MSR-accessed IRP unit.
pub fn irp_ctr1(unit: usize) -> (r: u64)
    requires
        unit < IRP_UNIT_COUNT,
    ensures
        r == 0x0A7A + unit * 0x20,
{
    0x0A7A + (unit as u64) * 0x20
}

/// Counter-control 0 MSR of an MSR-accessed IRP unit.
pub fn irp_ctrl0(unit: usize) -> (r: u64)
    requires
        unit < IRP_UNIT_COUNT,
    ensures
        r == 0x0A7B + unit * 0x20,
{
    0x0A7B + (unit as u64) * 0x20
}

/// Counter-control 1 MSR of an MSR-accessed IRP unit.
pub fn irp_ctrl1(unit: usize) -> (r: u64)
    requires
        unit < IRP_UNIT_COUNT,
    ensures
        r == 0x0A7C + unit * 0x20,
{
    0x0A7C + (unit as u64) * 0x20
}

/// Counter offset in PCI configuration space of one PCI-accessed counter.
pub fn irp_ctr_addr(counter: usize) -> (r: u32)
    requires
        counter < COUNTERS_PER_IRP,
    ensures
        counter == 0 ==> r == 0xA0,
        counter == 1 ==> r == 0xB0,
        counter == 2 ==> r == 0xB8,
        counter == 3 ==> r == 0xC0,
{
    if counter == 0 {
        0xA0
    } else if counter == 1 {
        0xB0
    } else if counter == 2 {
        0xB8
    } else {
        0xC0
    }
}

/// Counter-control offset in PCI configuration space of one PCI-accessed
/// counter.
pub fn irp_ctl_addr(counter: usize) -> (r: u32)
    requires
        counter < COUNTERS_PER_IRP,
    ensures
        counter == 0 ==> r == 0xD8,
        counter == 1 ==> r == 0xDC,
        counter == 2 ==> r == 0xE0,
        counter == 3 ==> r == 0xE4,
{
    if counter == 0 {
        0xD8
    } else if counter == 1 {
        0xDC
    } else if counter == 2 {
        0xE0
    } else {
        0xE4
    }
}

} // verus!
