//! Error taxonomy.
//!
//! Every failure is classified by where it arose: an MSR access, a PCI
//! config access, affinity pinning, an unsupported architecture, an invalid
//! configuration or register value, a malformed firmware or topology file,
//! or some other operating-system boundary. Each hardware variant carries
//! the failed target as plain values.

use vstd::prelude::*;

verus! {

/// A classified failure, carrying the failed target.
#[derive(Debug, Clone, Copy, PartialEq, Eq, Structural)]
pub enum UncflowError {
    /// MSR open, seek, read or write failed on this CPU at this address.
    HwMsr { cpu: u32, msr: u64 },
    /// PCI configuration access failed at this offset of this target.
    HwPci { socket: u32, device: u32, function: u32, offset: u32 },
    /// CPU affinity pinning failed for this CPU.
    HwAffinity { cpu: u32 },
    /// The running architecture lacks the requested unit.
    HwUnsupported,
    /// Invalid monitored CPU or socket id, or an invalid register field.
    HwConfig,
    /// A firmware or topology file was malformed.
    Parse,
    /// Any other failure at the operating-system boundary.
    Io,
}

impl UncflowError {
    /// A short description of the error kind.
    pub fn message(&self) -> (r: &'static str)
        ensures
            self is HwMsr ==> r@ == "MSR operation failed"@,
            self is HwPci ==> r@ == "PCI operation failed"@,
            self is HwAffinity ==> r@ == "Affinity operation failed"@,
            self is HwUnsupported ==> r@ == "Unsupported architecture"@,
            self is HwConfig ==> r@ == "Invalid configuration"@,
            self is Parse ==> r@ == "Parse error"@,
            self is Io ==> r@ == "IO error"@,
    {
        match self {
            UncflowError::HwMsr { .. } => "MSR operation failed",
            UncflowError::HwPci { .. } => "PCI operation failed",
            UncflowError::HwAffinity { .. } => "Affinity operation failed",
            UncflowError::HwUnsupported => "Unsupported architecture",
            UncflowError::HwConfig => "Invalid configuration",
            UncflowError::Parse => "Parse error",
            UncflowError::Io => "IO error",
        }
    }
}

/// Errors of the raw MSR device layer, carrying the CPU and address.
#[derive(Debug, Clone, Copy, PartialEq, Eq, Structural)]
pub enum MsrError {
    /// The per-CPU MSR device could not be opened.
    OpenFailed { cpu: u32 },
    /// A read of this MSR failed.
    ReadFailed { cpu: u32, msr: u64 },
    /// A write of this MSR failed.
    WriteFailed { cpu: u32, msr: u64 },
    /// A seek to this MSR failed.
    SeekFailed { cpu: u32, msr: u64 },
}

impl MsrError {
    /// A short description of the error kind.
    pub fn message(&self) -> (r: &'static str)
        ensures
            self is OpenFailed ==> r@ == "Failed to open MSR device"@,
            self is ReadFailed ==> r@ == "Failed to read MSR"@,
            self is WriteFailed ==> r@ == "Failed to write MSR"@,
            self is SeekFailed ==> r@ == "Failed to seek to MSR"@,
    {
        match self {
            MsrError::OpenFailed { .. } => "Failed to open MSR device",
            MsrError::ReadFailed { .. } => "Failed to read MSR",
            MsrError::WriteFailed { .. } => "Failed to write MSR",
            MsrError::SeekFailed { .. } => "Failed to seek to MSR",
        }
    }
}

} // verus!
