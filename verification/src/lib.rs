//! Counter-programming and sample-derivation engine for Intel uncore
//! performance monitoring: typed register layouts, per-unit monitors that
//! compute register-programming sequences and derive metrics from raw
//! counter samples, an event-rotation scheduler, and a metric calculator.
//!
//! All hardware access (MSR and PCI config devices, CPUID, sysfs topology)
//! is performed by the surrounding application, which feeds raw values in
//! and carries register writes out.

pub mod arch;
pub mod calculator;
pub mod cha_events;
pub mod cha_metrics;
pub mod cha_monitor;
pub mod cha_regs;
pub mod collector;
pub mod config;
pub mod core_monitor;
pub mod core_regs;
pub mod counters;
pub mod error;
pub mod gauges;
pub mod hw_ops;
pub mod iio_monitor;
pub mod iio_regs;
pub mod imc_monitor;
pub mod imc_regs;
pub mod irp_monitor;
pub mod irp_regs;
pub mod mcfg;
pub mod rapl_monitor;
pub mod rapl_regs;
pub mod ratio;
pub mod rdt_monitor;
pub mod rdt_regs;
pub mod register;
pub mod unit_metrics;
