//! Hardware write operations, as data.
//!
//! Monitors compute their register-programming sequences as plain lists of
//! writes; the surrounding application carries each write to the MSR or PCI
//! config device. This keeps every programming sequence a value that can be
//! stated and checked exactly.

use vstd::prelude::*;

verus! {

/// One write of a 64-bit value to an MSR of a CPU.
#[derive(Debug, Clone, Copy, PartialEq, Eq, Structural)]
pub struct MsrOp {
    /// Target CPU.
    pub cpu: u32,
    /// MSR address.
    pub addr: u64,
    /// Value to write.
    pub value: u64,
}

/// One write of a 32-bit value to a PCI configuration register.
#[derive(Debug, Clone, Copy, PartialEq, Eq, Structural)]
pub struct PciOp {
    /// Socket whose device is addressed.
    pub socket: u32,
    /// PCI device number.
    pub device: u32,
    /// PCI function number.
    pub function: u32,
    /// Expected PCI device id, for address resolution.
    pub device_id: u32,
    /// Byte offset in configuration space.
    pub offset: u32,
    /// Value to write.
    pub value: u32,
}

/// Addition that stops at the largest representable value instead of
/// wrapping; accumulators use it so that a pathological counter stream can
/// never corrupt neighbouring state.
pub fn sat_add_u64(a: u64, b: u64) -> (r: u64)
    ensures
        r == if a + b <= u64::MAX {
            (a + b) as u64
        } else {
            u64::MAX
        },
{
    if a > u64::MAX - b {
        u64::MAX
    } else {
        a + b
    }
}

} // verus!
