//! IRP (I/O Request Processing) monitor with a dual backend.
//!
//! Newer server parts program three MSR-accessed IRP units of two counters
//! each, stepping through the event catalog one entry at a time; older parts
//! program one PCI-accessed unit of four counters, stepping through the
//! catalog in pairs. Both backends produce the same derived metrics.

use vstd::prelude::*;
use crate::arch::CpuArchitecture;
use crate::calculator::{bandwidth_gbs, latency_ns};
use crate::error::UncflowError;
use crate::hw_ops::{MsrOp, PciOp};
use crate::irp_regs::{IRP_DEVICE, IRP_DEVICE_ID, IRP_FUNCTION, IRP_UNIT_COUNT, IRP_UNIT_CTL_ADDR};
use crate::ratio::Ratio;
use crate::unit_metrics::IrpMetric;

verus! {

/// The monitored IRP events, in catalog order.
#[derive(Debug, Clone, Copy, PartialEq, Eq, Hash, Structural)]
pub enum IrpEvent {
    All,
    Clockticks,
    PCIeRead,
    RFO,
    PCIItoM,
    WbMtoI,
    CLFlush,
}

/// The number of catalog entries.
pub const IRP_EVENT_COUNT: usize = 7;

/// The catalog position of an event.
pub open spec fn irp_event_index(e: IrpEvent) -> int {
    match e {
        IrpEvent::All => 0,
        IrpEvent::Clockticks => 1,
        IrpEvent::PCIeRead => 2,
        IrpEvent::RFO => 3,
        IrpEvent::PCIItoM => 4,
        IrpEvent::WbMtoI => 5,
        IrpEvent::CLFlush => 6,
    }
}

/// The event at a catalog position.
pub open spec fn irp_event_at(i: int) -> IrpEvent {
    if i == 0 {
        IrpEvent::All
    } else if i == 1 {
        IrpEvent::Clockticks
    } else if i == 2 {
        IrpEvent::PCIeRead
    } else if i == 3 {
        IrpEvent::RFO
    } else if i == 4 {
        IrpEvent::PCIItoM
    } else if i == 5 {
        IrpEvent::WbMtoI
    } else {
        IrpEvent::CLFlush
    }
}

/// The two `(event, umask)` pairs an event programs: counter 0 always
/// counts occupancy, counter 1 the event's inserts (or clockticks).
pub open spec fn irp_event_config(e: IrpEvent) -> (u8, u8, u8, u8) {
    match e {
        IrpEvent::All => (0x0F, 0x01, 0x10, 0xFF),
        IrpEvent::Clockticks => (0x0F, 0x01, 0x01, 0x00),
        IrpEvent::PCIeRead => (0x0F, 0x01, 0x10, 0x01),
        IrpEvent::RFO => (0x0F, 0x01, 0x10, 0x08),
        IrpEvent::PCIItoM => (0x0F, 0x01, 0x10, 0x10),
        IrpEvent::WbMtoI => (0x0F, 0x01, 0x10, 0x40),
        IrpEvent::CLFlush => (0x0F, 0x01, 0x10, 0x80),
    }
}

impl IrpEvent {
    /// The catalog position.
    pub fn index(&self) -> (r: usize)
        ensures
            r == irp_event_index(*self),
            r < IRP_EVENT_COUNT,
    {
        match self {
            IrpEvent::All => 0,
            IrpEvent::Clockticks => 1,
            IrpEvent::PCIeRead => 2,
            IrpEvent::RFO => 3,
            IrpEvent::PCIItoM => 4,
            IrpEvent::WbMtoI => 5,
            IrpEvent::CLFlush => 6,
        }
    }

    /// The event at a catalog position.
    pub fn at(i: usize) -> (r: IrpEvent)
        requires
            i < IRP_EVENT_COUNT,
        ensures
            r == irp_event_at(i as int),
    {
        if i == 0 {
            IrpEvent::All
        } else if i == 1 {
            IrpEvent::Clockticks
        } else if i == 2 {
            IrpEvent::PCIeRead
        } else if i == 3 {
            IrpEvent::RFO
        } else if i == 4 {
            IrpEvent::PCIItoM
        } else if i == 5 {
            IrpEvent::WbMtoI
        } else {
            IrpEvent::CLFlush
        }
    }

    /// The two `(event, umask)` pairs this event programs.
    pub fn config(&self) -> (r: (u8, u8, u8, u8))
        ensures
            r == irp_event_config(*self),
    {
        match self {
            IrpEvent::All => (0x0F, 0x01, 0x10, 0xFF),
            IrpEvent::Clockticks => (0x0F, 0x01, 0x01, 0x00),
            IrpEvent::PCIeRead => (0x0F, 0x01, 0x10, 0x01),
            IrpEvent::RFO => (0x0F, 0x01, 0x10, 0x08),
            IrpEvent::PCIItoM => (0x0F, 0x01, 0x10, 0x10),
            IrpEvent::WbMtoI => (0x0F, 0x01, 0x10, 0x40),
            IrpEvent::CLFlush => (0x0F, 0x01, 0x10, 0x80),
        }
    }
}

/// How a socket's IRP units are reached.
#[derive(Debug, Clone, Copy, PartialEq, Eq, Structural)]
pub enum IrpBackend {
    /// Three MSR-accessed units, programmed from this core.
    Msr { core: u32 },
    /// One PCI-accessed unit on this socket.
    Pci { socket: u32 },
}

/// The counter-control value programming one `(event, umask)` pair with the
/// enable bit set.
pub open spec fn irp_ctl_value(event: u8, umask: u8) -> u64 {
    ((umask as u64) << 8) | (event as u64) | (1u64 << 22)
}

/// The MSR writes programming one event into one MSR-accessed unit: freeze,
/// reset, the two counter controls, then unfreeze.
pub open spec fn irp_msr_unit_ops(core: u32, unit: int, e: IrpEvent) -> Seq<MsrOp> {
    let ctrl = (0x0A78 + unit * 0x20) as u64;
    let c = irp_event_config(e);
    seq![
        MsrOp { cpu: core, addr: ctrl, value: 0x100 },
        MsrOp { cpu: core, addr: ctrl, value: 0x102 },
        MsrOp { cpu: core, addr: (0x0A7B + unit * 0x20) as u64, value: irp_ctl_value(c.0, c.1) },
        MsrOp { cpu: core, addr: (0x0A7C + unit * 0x20) as u64, value: irp_ctl_value(c.2, c.3) },
        MsrOp { cpu: core, addr: ctrl, value: 0 },
    ]
}

/// The MSR writes programming one event into the first `n` units.
pub open spec fn irp_msr_ops_upto(core: u32, e: IrpEvent, n: int) -> Seq<MsrOp>
    decreases n,
{
    if n <= 0 {
        Seq::empty()
    } else {
        irp_msr_ops_upto(core, e, n - 1) + irp_msr_unit_ops(core, n - 1, e)
    }
}

/// The 32-bit counter-control value programming one `(event, umask)` pair
/// with the enable bit set, as PCI configuration space takes it.
pub open spec fn irp_ctl_value32(event: u8, umask: u8) -> u32 {
    ((umask as u32) << 8) | (event as u32) | (1u32 << 22)
}

/// The PCI writes programming a pair of events into the four counters of
/// the PCI-accessed unit: freeze, reset, four counter controls, unfreeze.
pub open spec fn irp_pci_pair_ops(socket: u32, e0: IrpEvent, e1: IrpEvent) -> Seq<PciOp> {
    let c0 = irp_event_config(e0);
    let c1 = irp_event_config(e1);
    seq![
        irp_pci_op(socket, IRP_UNIT_CTL_ADDR, 0x100),
        irp_pci_op(socket, IRP_UNIT_CTL_ADDR, 0x102),
        irp_pci_op(socket, 0xD8, irp_ctl_value32(c0.0, c0.1)),
        irp_pci_op(socket, 0xDC, irp_ctl_value32(c0.2, c0.3)),
        irp_pci_op(socket, 0xE0, irp_ctl_value32(c1.0, c1.1)),
        irp_pci_op(socket, 0xE4, irp_ctl_value32(c1.2, c1.3)),
        irp_pci_op(socket, IRP_UNIT_CTL_ADDR, 0),
    ]
}

/// One write to the PCI-accessed IRP unit of a socket.
pub open spec fn irp_pci_op(socket: u32, offset: u32, value: u32) -> PciOp {
    PciOp {
        socket,
        device: IRP_DEVICE,
        function: IRP_FUNCTION,
        device_id: IRP_DEVICE_ID,
        offset,
        value,
    }
}

/// IRP monitor for one socket.
pub struct IrpMonitor {
    /// The monitored socket.
    pub socket: u32,
    /// The access backend the architecture dictates.
    pub backend: IrpBackend,
    /// The last `(occupancy, count)` result of each catalog event.
    pub event_results: Vec<Option<(u64, u64)>>,
}

impl IrpMonitor {
    /// One result slot per catalog event.
    pub open spec fn wf(self) -> bool {
        self.event_results@.len() == IRP_EVENT_COUNT
    }

    /// A monitor for one socket. Architectures with MSR-accessed units get
    /// the MSR backend from the socket's representative core; older parts
    /// get the PCI backend once the probed vendor/device word confirms the
    /// unit; anything else is unsupported.
    pub fn new(socket: u32, arch: CpuArchitecture, pci_probe: Option<u32>) -> (r: Result<
        IrpMonitor,
        UncflowError,
    >)
        requires
            socket < 0x10000,
        ensures
            arch.irp_uses_msr() ==> (r matches Ok(m) && m.wf() && m.socket == socket && m.backend
                == (IrpBackend::Msr { core: (socket * 16) as u32 })),
            (arch is Haswell || arch is Broadwell) ==> match r {
                Ok(m) => {
                    &&& m.wf()
                    &&& m.socket == socket
                    &&& m.backend == (IrpBackend::Pci { socket })
                    &&& pci_probe matches Some(v) && v & 0xFFFF == 0x8086 && (v >> 16) & 0xFFFF
                        == IRP_DEVICE_ID
                },
                Err(e) => {
                    &&& e is HwPci
                    &&& !(pci_probe matches Some(v) && v & 0xFFFF == 0x8086 && (v >> 16) & 0xFFFF
                        == IRP_DEVICE_ID)
                },
            },
            arch is Unknown ==> r == Err::<IrpMonitor, UncflowError>(UncflowError::HwUnsupported),
    {
        let backend = match arch {
            CpuArchitecture::Skylake | CpuArchitecture::CascadeLake | CpuArchitecture::IceLake => {
                IrpBackend::Msr { core: socket * 16 }
            },
            CpuArchitecture::Haswell | CpuArchitecture::Broadwell => {
                match pci_probe {
                    Some(v) => {
                        if v & 0xFFFF == 0x8086 && (v >> 16) & 0xFFFF == IRP_DEVICE_ID {
                            IrpBackend::Pci { socket }
                        } else {
                            return Err(
                                UncflowError::HwPci {
                                    socket,
                                    device: IRP_DEVICE,
                                    function: IRP_FUNCTION,
                                    offset: 0,
                                },
                            );
                        }
                    },
                    None => {
                        return Err(
                            UncflowError::HwPci {
                                socket,
                                device: IRP_DEVICE,
                                function: IRP_FUNCTION,
                                offset: 0,
                            },
                        );
                    },
                }
            },
            CpuArchitecture::Unknown => {
                return Err(UncflowError::HwUnsupported);
            },
        };
        let mut event_results: Vec<Option<(u64, u64)>> = Vec::new();
        let mut i: usize = 0;
        while i < IRP_EVENT_COUNT
            invariant
                i <= IRP_EVENT_COUNT,
                event_results@.len() == i,
            decreases IRP_EVENT_COUNT - i,
        {
            event_results.push(None);
            i = i + 1;
        }
        Ok(IrpMonitor { socket, backend, event_results })
    }

    /// The MSR writes programming one event into all three MSR-accessed
    /// units; meaningful only for the MSR backend.
    pub fn program_msr_event(&self, e: IrpEvent) -> (ops: Vec<MsrOp>)
        requires
            self.backend matches IrpBackend::Msr { .. },
        ensures
            self.backend matches IrpBackend::Msr { core } ==> ops@ == irp_msr_ops_upto(
                core,
                e,
                IRP_UNIT_COUNT as int,
            ),
    {
        let core = match self.backend {
            IrpBackend::Msr { core } => core,
            IrpBackend::Pci { .. } => 0,
        };
        let c = e.config();
        let mut ops: Vec<MsrOp> = Vec::new();
        let mut unit: usize = 0;
        while unit < IRP_UNIT_COUNT
            invariant
                unit <= IRP_UNIT_COUNT,
                ops@ == irp_msr_ops_upto(core, e, unit as int),
                c == irp_event_config(e),
            decreases IRP_UNIT_COUNT - unit,
        {
            let ctrl: u64 = 0x0A78 + (unit as u64) * 0x20;
            ops.push(MsrOp { cpu: core, addr: ctrl, value: 0x100 });
            ops.push(MsrOp { cpu: core, addr: ctrl, value: 0x102 });
            ops.push(
                MsrOp {
                    cpu: core,
                    addr: 0x0A7B + (unit as u64) * 0x20,
                    value: ((c.1 as u64) << 8) | (c.0 as u64) | (1u64 << 22),
                },
            );
            ops.push(
                MsrOp {
                    cpu: core,
                    addr: 0x0A7C + (unit as u64) * 0x20,
                    value: ((c.3 as u64) << 8) | (c.2 as u64) | (1u64 << 22),
                },
            );
            ops.push(MsrOp { cpu: core, addr: ctrl, value: 0 });
            proof {
                assert(ops@ =~= irp_msr_ops_upto(core, e, unit + 1));
            }
            unit = unit + 1;
        }
        ops
    }

    /// The PCI writes programming a pair of catalog events into the four
    /// counters of the PCI-accessed unit; meaningful only for the PCI
    /// backend.
    pub fn program_pci_pair(&self, e0: IrpEvent, e1: IrpEvent) -> (ops: Vec<PciOp>)
        requires
            self.backend matches IrpBackend::Pci { .. },
        ensures
            self.backend matches IrpBackend::Pci { socket } ==> ops@ == irp_pci_pair_ops(
                socket,
                e0,
                e1,
            ),
    {
        let socket = match self.backend {
            IrpBackend::Pci { socket } => socket,
            IrpBackend::Msr { .. } => 0,
        };
        let c0 = e0.config();
        let c1 = e1.config();
        let mut ops: Vec<PciOp> = Vec::new();
        ops.push(
            PciOp {
                socket,
                device: IRP_DEVICE,
                function: IRP_FUNCTION,
                device_id: IRP_DEVICE_ID,
                offset: IRP_UNIT_CTL_ADDR,
                value: 0x100,
            },
        );
        ops.push(
            PciOp {
                socket,
                device: IRP_DEVICE,
                function: IRP_FUNCTION,
                device_id: IRP_DEVICE_ID,
                offset: IRP_UNIT_CTL_ADDR,
                value: 0x102,
            },
        );
        ops.push(
            PciOp {
                socket,
                device: IRP_DEVICE,
                function: IRP_FUNCTION,
                device_id: IRP_DEVICE_ID,
                offset: 0xD8,
                value: (((c0.1 as u32) << 8) | (c0.0 as u32) | (1u32 << 22)),
            },
        );
        ops.push(
            PciOp {
                socket,
                device: IRP_DEVICE,
                function: IRP_FUNCTION,
                device_id: IRP_DEVICE_ID,
                offset: 0xDC,
                value: (((c0.3 as u32) << 8) | (c0.2 as u32) | (1u32 << 22)),
            },
        );
        ops.push(
            PciOp {
                socket,
                device: IRP_DEVICE,
                function: IRP_FUNCTION,
                device_id: IRP_DEVICE_ID,
                offset: 0xE0,
                value: (((c1.1 as u32) << 8) | (c1.0 as u32) | (1u32 << 22)),
            },
        );
        ops.push(
            PciOp {
                socket,
                device: IRP_DEVICE,
                function: IRP_FUNCTION,
                device_id: IRP_DEVICE_ID,
                offset: 0xE4,
                value: (((c1.3 as u32) << 8) | (c1.2 as u32) | (1u32 << 22)),
            },
        );
        ops.push(
            PciOp {
                socket,
                device: IRP_DEVICE,
                function: IRP_FUNCTION,
                device_id: IRP_DEVICE_ID,
                offset: IRP_UNIT_CTL_ADDR,
                value: 0,
            },
        );
        proof {
            assert(ops@ =~= irp_pci_pair_ops(socket, e0, e1));
        }
        ops
    }

    /// Record one event's aggregated `(occupancy, count)` result and derive
    /// its metrics over `dt_ns` nanoseconds.
    ///
    /// Bandwidth events publish their bandwidth of 64 bytes per count; the
    /// clocktick event publishes the unit frequency and — once the catch-all
    /// event has been measured — the any-occupancy ratio; the catch-all
    /// event publishes its bandwidth and — once clockticks have been
    /// measured — the latency by Little's law.
    pub fn ingest_event(&mut self, e: IrpEvent, occupancy: u64, count: u64, dt_ns: u64) -> (r: Vec<
        (IrpMetric, Ratio)>)
        requires
            old(self).wf(),
        ensures
            final(self).wf(),
            final(self).socket == old(self).socket,
            final(self).backend == old(self).backend,
            final(self).event_results@ == old(self).event_results@.update(
                irp_event_index(e),
                Some((occupancy, count)),
            ),
            e is Clockticks ==> {
                &&& r@.len() == (if old(self).event_results@[0] is Some {
                    2int
                } else {
                    1int
                })
                &&& r@[0] == (
                    IrpMetric::IRPFrequency,
                    crate::calculator::uncore_frequency_ghz(count, dt_ns),
                )
                &&& (old(self).event_results@[0] matches Some(all) ==> r@[1] == (
                    IrpMetric::IRPAnyOccupancy,
                    crate::calculator::occupancy_ratio(all.0, count),
                ))
            },
            e is All ==> {
                &&& r@.len() == (if old(self).event_results@[1] is Some {
                    2int
                } else {
                    1int
                })
                &&& (old(self).event_results@[1] matches Some(clk) ==> r@[0] == (
                    IrpMetric::IRPLatency,
                    latency_ns(occupancy, count, clk.1, dt_ns),
                ))
                &&& r@[r@.len() - 1] == (IrpMetric::IRPAllBandwidth, bandwidth_gbs(count, dt_ns))
            },
            e is PCIeRead ==> r@ =~= seq![
                (IrpMetric::IRPPCIeReadBandwidth, bandwidth_gbs(count, dt_ns)),
            ],
            e is RFO ==> r@ =~= seq![(IrpMetric::IRPRFOBandwidth, bandwidth_gbs(count, dt_ns))],
            e is PCIItoM ==> r@ =~= seq![
                (IrpMetric::IRPPCIItoMBandwidth, bandwidth_gbs(count, dt_ns)),
            ],
            e is WbMtoI ==> r@ =~= seq![
                (IrpMetric::IRPWbMtoIBandwidth, bandwidth_gbs(count, dt_ns)),
            ],
            e is CLFlush ==> r@ =~= seq![
                (IrpMetric::IRPCLFlushBandwidth, bandwidth_gbs(count, dt_ns)),
            ],
    {
        let mut r: Vec<(IrpMetric, Ratio)> = Vec::new();
        match e {
            IrpEvent::Clockticks => {
                r.push(
                    (
                        IrpMetric::IRPFrequency,
                        crate::calculator::MetricCalculator::calculate_frequency(count, dt_ns),
                    ),
                );
                match self.event_results[0] {
                    Some(all) => {
                        r.push(
                            (
                                IrpMetric::IRPAnyOccupancy,
                                crate::calculator::MetricCalculator::calculate_occupancy(
                                    all.0,
                                    count,
                                ),
                            ),
                        );
                    },
                    None => {},
                }
            },
            IrpEvent::All => {
                match self.event_results[1] {
                    Some(clk) => {
                        r.push(
                            (
                                IrpMetric::IRPLatency,
                                crate::calculator::MetricCalculator::calculate_latency(
                                    occupancy,
                                    count,
                                    clk.1,
                                    dt_ns,
                                ),
                            ),
                        );
                    },
                    None => {},
                }
                r.push(
                    (
                        IrpMetric::IRPAllBandwidth,
                        crate::calculator::MetricCalculator::calculate_bandwidth(count, dt_ns),
                    ),
                );
            },
            IrpEvent::PCIeRead => {
                r.push(
                    (
                        IrpMetric::IRPPCIeReadBandwidth,
                        crate::calculator::MetricCalculator::calculate_bandwidth(count, dt_ns),
                    ),
                );
            },
            IrpEvent::RFO => {
                r.push(
                    (
                        IrpMetric::IRPRFOBandwidth,
                        crate::calculator::MetricCalculator::calculate_bandwidth(count, dt_ns),
                    ),
                );
            },
            IrpEvent::PCIItoM => {
                r.push(
                    (
                        IrpMetric::IRPPCIItoMBandwidth,
                        crate::calculator::MetricCalculator::calculate_bandwidth(count, dt_ns),
                    ),
                );
            },
            IrpEvent::WbMtoI => {
                r.push(
                    (
                        IrpMetric::IRPWbMtoIBandwidth,
                        crate::calculator::MetricCalculator::calculate_bandwidth(count, dt_ns),
                    ),
                );
            },
            IrpEvent::CLFlush => {
                r.push(
                    (
                        IrpMetric::IRPCLFlushBandwidth,
                        crate::calculator::MetricCalculator::calculate_bandwidth(count, dt_ns),
                    ),
                );
            },
        }
        let slot = e.index();
        self.event_results.set(slot, Some((occupancy, count)));
        r
    }

    /// The monitored socket.
    pub fn socket(&self) -> (r: u32)
        ensures
            r == self.socket,
    {
        self.socket
    }
}

} // verus!
