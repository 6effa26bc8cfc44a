//! Published metric identifiers of the non-CHA monitors, each with its
//! exposition name.

use vstd::prelude::*;
use vstd::string::StringExecFns;

verus! {

/// A published memory-controller metric.
#[derive(Debug, Clone, Copy, PartialEq, Eq, Hash, Structural)]
pub enum ImcMetric {
    MemoryReadBandwidth,
    MemoryWriteBandwidth,
    MemoryLocalReadBandwidth,
    MemoryLocalWriteBandwidth,
    MemoryRemoteReadBandwidth,
    MemoryRemoteWriteBandwidth,
    MemoryReadLatency,
    MemoryWriteLatency,
    MemoryRPQOccupancy,
    MemoryWPQOccupancy,
    IMCRPQNonEmpty,
    IMCRPQFull,
    IMCWPQNonEmpty,
    IMCWPQFull,
    IMCFrequency,
    MemoryLocalReadRatio,
    MemoryLocalWriteRatio,
}

/// The number of memory-controller metrics.
pub const IMC_METRIC_COUNT: usize = 17;

impl ImcMetric {
    /// The exposition name.
    pub fn name(&self) -> (r: &'static str)
        ensures
            *self is MemoryReadBandwidth ==> r@ == "MemoryReadBandwidth"@,
            *self is MemoryWriteBandwidth ==> r@ == "MemoryWriteBandwidth"@,
            *self is MemoryReadLatency ==> r@ == "IMCReadLatency"@,
            *self is MemoryWriteLatency ==> r@ == "IMCWriteLatency"@,
            *self is IMCFrequency ==> r@ == "IMCFrequency"@,
    {
        match self {
            ImcMetric::MemoryReadBandwidth => "MemoryReadBandwidth",
            ImcMetric::MemoryWriteBandwidth => "MemoryWriteBandwidth",
            ImcMetric::MemoryLocalReadBandwidth => "MemoryLocalReadBandwidth",
            ImcMetric::MemoryLocalWriteBandwidth => "MemoryLocalWriteBandwidth",
            ImcMetric::MemoryRemoteReadBandwidth => "MemoryRemoteReadBandwidth",
            ImcMetric::MemoryRemoteWriteBandwidth => "MemoryRemoteWriteBandwidth",
            ImcMetric::MemoryReadLatency => "IMCReadLatency",
            ImcMetric::MemoryWriteLatency => "IMCWriteLatency",
            ImcMetric::MemoryRPQOccupancy => "MemoryRPQOccupancy",
            ImcMetric::MemoryWPQOccupancy => "MemoryWPQOccupancy",
            ImcMetric::IMCRPQNonEmpty => "IMCRPQNonEmpty",
            ImcMetric::IMCRPQFull => "IMCRPQFull",
            ImcMetric::IMCWPQNonEmpty => "IMCWPQNonEmpty",
            ImcMetric::IMCWPQFull => "IMCWPQFull",
            ImcMetric::IMCFrequency => "IMCFrequency",
            ImcMetric::MemoryLocalReadRatio => "MemoryLocalReadRatio",
            ImcMetric::MemoryLocalWriteRatio => "MemoryLocalWriteRatio",
        }
    }

    /// Every memory-controller metric.
    pub fn all() -> (r: Vec<ImcMetric>)
        ensures
            r@.len() == IMC_METRIC_COUNT,
    {
        vec![
            ImcMetric::MemoryReadBandwidth,
            ImcMetric::MemoryWriteBandwidth,
            ImcMetric::MemoryLocalReadBandwidth,
            ImcMetric::MemoryLocalWriteBandwidth,
            ImcMetric::MemoryRemoteReadBandwidth,
            ImcMetric::MemoryRemoteWriteBandwidth,
            ImcMetric::MemoryReadLatency,
            ImcMetric::MemoryWriteLatency,
            ImcMetric::MemoryRPQOccupancy,
            ImcMetric::MemoryWPQOccupancy,
            ImcMetric::IMCRPQNonEmpty,
            ImcMetric::IMCRPQFull,
            ImcMetric::IMCWPQNonEmpty,
            ImcMetric::IMCWPQFull,
            ImcMetric::IMCFrequency,
            ImcMetric::MemoryLocalReadRatio,
            ImcMetric::MemoryLocalWriteRatio,
        ]
    }
}

/// The decimal digit naming a small index.
pub fn digit_str(d: usize) -> (r: &'static str)
    requires
        d < 10,
    ensures
        d == 0 ==> r@ == "0"@,
        d == 1 ==> r@ == "1"@,
        d == 2 ==> r@ == "2"@,
        d == 3 ==> r@ == "3"@,
        d == 4 ==> r@ == "4"@,
        d == 5 ==> r@ == "5"@,
        d == 6 ==> r@ == "6"@,
        d == 7 ==> r@ == "7"@,
        d == 8 ==> r@ == "8"@,
        d == 9 ==> r@ == "9"@,
{
    if d == 0 {
        "0"
    } else if d == 1 {
        "1"
    } else if d == 2 {
        "2"
    } else if d == 3 {
        "3"
    } else if d == 4 {
        "4"
    } else if d == 5 {
        "5"
    } else if d == 6 {
        "6"
    } else if d == 7 {
        "7"
    } else if d == 8 {
        "8"
    } else {
        "9"
    }
}

/// A published I/O-bridge metric; the bandwidth variants carry the stack and
/// port they describe.
#[derive(Debug, Clone, Copy, PartialEq, Eq, Hash, Structural)]
pub enum IioMetric {
    IIOTLBMiss,
    IIOTLBFull,
    IIOL1Miss,
    IIOL2Miss,
    IIOL3Miss,
    IIOContextMiss,
    IIOTLBHit,
    IIOTLB1Miss,
    IIOOccupancy,
    IIOFrequency,
    /// Inbound PCIe bandwidth of one `(stack, port)`.
    PCIeInBandwidth(usize, usize),
    /// Outbound PCIe bandwidth of one `(stack, port)`.
    PCIeOutBandwidth(usize, usize),
}

/// The number of I/O-bridge metrics: ten scalar ones plus an inbound and an
/// outbound bandwidth for each of three stacks and four ports.
pub const IIO_METRIC_COUNT: usize = 34;

impl IioMetric {
    /// The exposition name; bandwidth names carry the stack and port digits.
    pub fn name(&self) -> (r: String)
        ensures
            *self is IIOTLBMiss ==> r@ == "IIOTLBMiss"@,
            *self is IIOFrequency ==> r@ == "IIOFrequency"@,
    {
        match self {
            IioMetric::IIOTLBMiss => String::from_str("IIOTLBMiss"),
            IioMetric::IIOTLBFull => String::from_str("IIOTLBFull"),
            IioMetric::IIOL1Miss => String::from_str("IIOL1Miss"),
            IioMetric::IIOL2Miss => String::from_str("IIOL2Miss"),
            IioMetric::IIOL3Miss => String::from_str("IIOL3Miss"),
            IioMetric::IIOContextMiss => String::from_str("IIOContextMiss"),
            IioMetric::IIOTLBHit => String::from_str("IIOTLBHit"),
            IioMetric::IIOTLB1Miss => String::from_str("IIOTLB1Miss"),
            IioMetric::IIOOccupancy => String::from_str("IIOOccupancy"),
            IioMetric::IIOFrequency => String::from_str("IIOFrequency"),
            IioMetric::PCIeInBandwidth(ch, port) => {
                let c = if *ch < 10 {
                    *ch
                } else {
                    9
                };
                let p = if *port < 10 {
                    *port
                } else {
                    9
                };
                String::from_str("PCIe").concat(digit_str(c)).concat(digit_str(p)).concat(
                    "InBandwidth",
                )
            },
            IioMetric::PCIeOutBandwidth(ch, port) => {
                let c = if *ch < 10 {
                    *ch
                } else {
                    9
                };
                let p = if *port < 10 {
                    *port
                } else {
                    9
                };
                String::from_str("PCIe").concat(digit_str(c)).concat(digit_str(p)).concat(
                    "OutBandwidth",
                )
            },
        }
    }

    /// Every I/O-bridge metric.
    pub fn all() -> (r: Vec<IioMetric>)
        ensures
            r@.len() == IIO_METRIC_COUNT,
    {
        let mut metrics = vec![
            IioMetric::IIOTLBMiss,
            IioMetric::IIOTLBFull,
            IioMetric::IIOL1Miss,
            IioMetric::IIOL2Miss,
            IioMetric::IIOL3Miss,
            IioMetric::IIOContextMiss,
            IioMetric::IIOTLBHit,
            IioMetric::IIOTLB1Miss,
            IioMetric::IIOOccupancy,
            IioMetric::IIOFrequency,
        ];
        let mut ch: usize = 0;
        while ch < 3
            invariant
                ch <= 3,
                metrics@.len() == 10 + ch * 8,
            decreases 3 - ch,
        {
            let mut port: usize = 0;
            while port < 4
                invariant
                    ch < 3,
                    port <= 4,
                    metrics@.len() == 10 + ch * 8 + port * 2,
                decreases 4 - port,
            {
                metrics.push(IioMetric::PCIeInBandwidth(ch, port));
                metrics.push(IioMetric::PCIeOutBandwidth(ch, port));
                port = port + 1;
            }
            ch = ch + 1;
        }
        metrics
    }
}

/// A published I/O-request-processing metric.
#[derive(Debug, Clone, Copy, PartialEq, Eq, Hash, Structural)]
pub enum IrpMetric {
    IRPLatency,
    IRPAnyOccupancy,
    IRPPCIeReadBandwidth,
    IRPRFOBandwidth,
    IRPAllBandwidth,
    IRPPCIItoMBandwidth,
    IRPWbMtoIBandwidth,
    IRPCLFlushBandwidth,
    IRPFrequency,
}

/// The number of I/O-request-processing metrics.
pub const IRP_METRIC_COUNT: usize = 9;

impl IrpMetric {
    /// The exposition name.
    pub fn name(&self) -> (r: &'static str)
        ensures
            *self is IRPLatency ==> r@ == "IRPLatency"@,
            *self is IRPFrequency ==> r@ == "IRPFrequency"@,
            *self is IRPAllBandwidth ==> r@ == "IRPAllBandwidth"@,
    {
        match self {
            IrpMetric::IRPLatency => "IRPLatency",
            IrpMetric::IRPAnyOccupancy => "IRPAnyOccupancy",
            IrpMetric::IRPPCIeReadBandwidth => "IRPPCIeReadBandwidth",
            IrpMetric::IRPRFOBandwidth => "IRPRFOBandwidth",
            IrpMetric::IRPAllBandwidth => "IRPAllBandwidth",
            IrpMetric::IRPPCIItoMBandwidth => "IRPPCIItoMBandwidth",
            IrpMetric::IRPWbMtoIBandwidth => "IRPWbMtoIBandwidth",
            IrpMetric::IRPCLFlushBandwidth => "IRPCLFlushBandwidth",
            IrpMetric::IRPFrequency => "IRPFrequency",
        }
    }

    /// Every I/O-request-processing metric.
    pub fn all() -> (r: Vec<IrpMetric>)
        ensures
            r@.len() == IRP_METRIC_COUNT,
    {
        vec![
            IrpMetric::IRPLatency,
            IrpMetric::IRPAnyOccupancy,
            IrpMetric::IRPPCIeReadBandwidth,
            IrpMetric::IRPRFOBandwidth,
            IrpMetric::IRPAllBandwidth,
            IrpMetric::IRPPCIItoMBandwidth,
            IrpMetric::IRPWbMtoIBandwidth,
            IrpMetric::IRPCLFlushBandwidth,
            IrpMetric::IRPFrequency,
        ]
    }
}

/// A published power metric.
#[derive(Debug, Clone, Copy, PartialEq, Eq, Hash, Structural)]
pub enum RaplMetric {
    PackageEnergy,
    CoreEnergy,
    DramEnergy,
    PackagePower,
    CorePower,
    DramPower,
}

/// The number of power metrics.
pub const RAPL_METRIC_COUNT: usize = 6;

impl RaplMetric {
    /// The exposition name.
    pub fn name(&self) -> (r: &'static str)
        ensures
            *self is PackageEnergy ==> r@ == "PackageEnergy"@,
            *self is PackagePower ==> r@ == "PackagePower"@,
    {
        match self {
            RaplMetric::PackageEnergy => "PackageEnergy",
            RaplMetric::CoreEnergy => "CoreEnergy",
            RaplMetric::DramEnergy => "DRAMEnergy",
            RaplMetric::PackagePower => "PackagePower",
            RaplMetric::CorePower => "CorePower",
            RaplMetric::DramPower => "DRAMPower",
        }
    }

    /// Every power metric.
    pub fn all() -> (r: Vec<RaplMetric>)
        ensures
            r@.len() == RAPL_METRIC_COUNT,
    {
        vec![
            RaplMetric::PackageEnergy,
            RaplMetric::CoreEnergy,
            RaplMetric::DramEnergy,
            RaplMetric::PackagePower,
            RaplMetric::CorePower,
            RaplMetric::DramPower,
        ]
    }
}

/// A published resource-monitoring metric.
#[derive(Debug, Clone, Copy, PartialEq, Eq, Hash, Structural)]
pub enum RdtMetric {
    LocalMemoryBandwidth,
    RemoteMemoryBandwidth,
    TotalMemoryBandwidth,
    LlcOccupancy,
}

/// The number of resource-monitoring metrics.
pub const RDT_METRIC_COUNT: usize = 4;

impl RdtMetric {
    /// The exposition name.
    pub fn name(&self) -> (r: &'static str)
        ensures
            *self is LocalMemoryBandwidth ==> r@ == "LocalMemoryBandwidth"@,
            *self is RemoteMemoryBandwidth ==> r@ == "RemoteMemoryBandwidth"@,
            *self is TotalMemoryBandwidth ==> r@ == "TotalMemoryBandwidth"@,
            *self is LlcOccupancy ==> r@ == "CMTLLCOccupancy"@,
    {
        match self {
            RdtMetric::LocalMemoryBandwidth => "LocalMemoryBandwidth",
            RdtMetric::RemoteMemoryBandwidth => "RemoteMemoryBandwidth",
            RdtMetric::TotalMemoryBandwidth => "TotalMemoryBandwidth",
            RdtMetric::LlcOccupancy => "CMTLLCOccupancy",
        }
    }

    /// Every resource-monitoring metric.
    pub fn all() -> (r: Vec<RdtMetric>)
        ensures
            r@.len() == RDT_METRIC_COUNT,
    {
        vec![
            RdtMetric::LocalMemoryBandwidth,
            RdtMetric::RemoteMemoryBandwidth,
            RdtMetric::TotalMemoryBandwidth,
            RdtMetric::LlcOccupancy,
        ]
    }
}

/// A published core-PMU metric.
#[derive(Debug, Clone, Copy, PartialEq, Eq, Hash, Structural)]
pub enum CoreMetric {
    IPC,
    Instructions,
    Cycles,
    L3CacheMiss,
    L3CacheRef,
    L2CacheMiss,
    L2CacheRef,
    L3CacheHitRatio,
    L2CacheHitRatio,
    L2PrefetchMiss,
    L2PrefetchHit,
    L2OutSilent,
    L2OutNonSilent,
    L2In,
    L2Writeback,
    L3MPI,
    L2MPI,
    ElapsedTime,
}

/// The number of core-PMU metrics.
pub const CORE_METRIC_COUNT: usize = 18;

impl CoreMetric {
    /// The exposition name.
    pub fn name(&self) -> (r: &'static str)
        ensures
            *self is IPC ==> r@ == "IPC"@,
            *self is Instructions ==> r@ == "instructions"@,
            *self is Cycles ==> r@ == "cycles"@,
            *self is L3CacheHitRatio ==> r@ == "L3CacheHitRatio"@,
            *self is ElapsedTime ==> r@ == "elapsedTime"@,
    {
        match self {
            CoreMetric::IPC => "IPC",
            CoreMetric::Instructions => "instructions",
            CoreMetric::Cycles => "cycles",
            CoreMetric::L3CacheMiss => "L3CacheMissNum",
            CoreMetric::L3CacheRef => "L3CacheRef",
            CoreMetric::L2CacheMiss => "L2CacheMissNum",
            CoreMetric::L2CacheRef => "L2CacheRef",
            CoreMetric::L3CacheHitRatio => "L3CacheHitRatio",
            CoreMetric::L2CacheHitRatio => "L2CacheHitRatio",
            CoreMetric::L2PrefetchMiss => "L2PrefetchMiss",
            CoreMetric::L2PrefetchHit => "L2PrefetchHit",
            CoreMetric::L2OutSilent => "L2OutSilent",
            CoreMetric::L2OutNonSilent => "L2OutNonSilent",
            CoreMetric::L2In => "L2In",
            CoreMetric::L2Writeback => "L2Writeback",
            CoreMetric::L3MPI => "L3MPI",
            CoreMetric::L2MPI => "L2MPI",
            CoreMetric::ElapsedTime => "elapsedTime",
        }
    }

    /// Every core-PMU metric.
    pub fn all() -> (r: Vec<CoreMetric>)
        ensures
            r@.len() == CORE_METRIC_COUNT,
    {
        vec![
            CoreMetric::IPC,
            CoreMetric::Instructions,
            CoreMetric::Cycles,
            CoreMetric::L3CacheMiss,
            CoreMetric::L3CacheRef,
            CoreMetric::L2CacheMiss,
            CoreMetric::L2CacheRef,
            CoreMetric::L3CacheHitRatio,
            CoreMetric::L2CacheHitRatio,
            CoreMetric::L2PrefetchMiss,
            CoreMetric::L2PrefetchHit,
            CoreMetric::L2OutSilent,
            CoreMetric::L2OutNonSilent,
            CoreMetric::L2In,
            CoreMetric::L2Writeback,
            CoreMetric::L3MPI,
            CoreMetric::L2MPI,
            CoreMetric::ElapsedTime,
        ]
    }
}

} // verus!
