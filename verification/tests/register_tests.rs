//! Register-layer tests: bit-exact round trips, validation, addresses and
//! the raw-layer error descriptions.

use uncflow::cha_regs::{self, ChaCounterControl, ChaFilter1};
use uncflow::core_regs::{CorePerfEvtSel, FixedCtrCtrl};
use uncflow::error::MsrError;
use uncflow::iio_regs::IioCounterControl;
use uncflow::rapl_regs::{RaplPowerLimit, RaplPowerUnit};
use uncflow::rdt_regs::{PqrAssoc, QmEventSelect, LLC_OCCUPANCY_EVENT};
use uncflow::register::{Register, RegisterLayout};

#[test]
fn test_cha_counter_control_round_trip() {
    let ctrl = ChaCounterControl {
        event_select: 0x36,
        unit_mask: 0x14,
        enable: true,
        threshold: 10,
        ..Default::default()
    };

    let value = ctrl.to_msr_value();
    let decoded = ChaCounterControl::from_msr_value(value);

    assert_eq!(decoded.event_select, ctrl.event_select);
    assert_eq!(decoded.unit_mask, ctrl.unit_mask);
    assert_eq!(decoded.enable, ctrl.enable);
    assert_eq!(decoded.threshold, ctrl.threshold);
}

#[test]
fn test_cha_validation() {
    let mut ctrl = ChaCounterControl::default();
    assert!(ctrl.validate().is_ok());

    ctrl.threshold = 64; // Too large (6 bits = max 63)
    assert!(ctrl.validate().is_err());

    ctrl.threshold = 63;
    ctrl.queue_occupancy_select = 4; // Too large (2 bits = max 3)
    assert!(ctrl.validate().is_err());
}

#[test]
fn test_cha_msr_addresses() {
    assert_eq!(cha_regs::box_ctl(0), 0xE00);
    assert_eq!(cha_regs::box_ctl(1), 0xE10);
    assert_eq!(cha_regs::counter_ctl(0, 0), 0xE01);
    assert_eq!(cha_regs::counter_ctl(0, 3), 0xE04);
    assert_eq!(cha_regs::counter_value(0, 0), 0xE08);
    assert_eq!(cha_regs::filter0(0), 0xE05);
    assert_eq!(cha_regs::filter1(0), 0xE06);
}

#[test]
fn test_cha_filter1_round_trip() {
    let f = ChaFilter1 { tid: 0x1ABCD, state: 0x7F };
    assert!(f.validate().is_ok());
    assert_eq!(ChaFilter1::from_msr_value(f.to_msr_value()), f);

    let too_wide = ChaFilter1 { tid: 0x20000, state: 0 };
    assert!(too_wide.validate().is_err());
    let state_too_wide = ChaFilter1 { tid: 0, state: 0x80 };
    assert!(state_too_wide.validate().is_err());
}

#[test]
fn test_cha_counter_control_mask() {
    // Re-encoding a decoded word zeroes exactly the reserved bits.
    let w = 0xFFFF_FFFF_FFFF_FFFFu64;
    let d = ChaCounterControl::from_msr_value(w);
    assert_eq!(d.to_msr_value(), w & 0xFFC7_FFFF);
    let w2 = 0x1234_5678_9ABC_DEF0u64;
    let d2 = ChaCounterControl::from_msr_value(w2);
    assert_eq!(d2.to_msr_value(), w2 & 0xFFC7_FFFF);
}

#[test]
fn test_core_perf_evtsel_round_trip() {
    let evtsel = CorePerfEvtSel {
        event_select: 0x3C,
        umask: 0x00,
        usr: true,
        os: true,
        enable: true,
        cmask: 0,
        ..Default::default()
    };

    let value = evtsel.to_msr_value();
    let decoded = CorePerfEvtSel::from_msr_value(value);

    assert_eq!(decoded.event_select, evtsel.event_select);
    assert_eq!(decoded.umask, evtsel.umask);
    assert_eq!(decoded.usr, evtsel.usr);
    assert_eq!(decoded.os, evtsel.os);
    assert_eq!(decoded.enable, evtsel.enable);
}

#[test]
fn test_fixed_ctr_ctrl_round_trip() {
    let ctrl = FixedCtrCtrl {
        ctr0_os: true,
        ctr0_usr: true,
        ctr1_os: true,
        ctr1_usr: false,
        ctr2_os: false,
        ctr2_usr: true,
        ..Default::default()
    };

    let value = ctrl.to_msr_value();
    let decoded = FixedCtrCtrl::from_msr_value(value);

    assert_eq!(decoded.ctr0_os, ctrl.ctr0_os);
    assert_eq!(decoded.ctr0_usr, ctrl.ctr0_usr);
    assert_eq!(decoded.ctr1_os, ctrl.ctr1_os);
    assert_eq!(decoded.ctr2_usr, ctrl.ctr2_usr);
}

#[test]
fn test_iio_counter_control_round_trip() {
    let ctrl = IioCounterControl {
        event_select: 0x41,
        unit_mask: 0x20,
        reset_counter: true,
        overflow_enable: true,
        enable: true,
        channel_mask: 0xFF,
        fc_mask: 0x07,
        threshold: 100,
        ..Default::default()
    };

    let value = ctrl.to_msr_value();
    let decoded = IioCounterControl::from_msr_value(value);

    assert_eq!(decoded.event_select, ctrl.event_select);
    assert_eq!(decoded.unit_mask, ctrl.unit_mask);
    assert_eq!(decoded.reset_counter, ctrl.reset_counter);
    assert_eq!(decoded.overflow_enable, ctrl.overflow_enable);
    assert_eq!(decoded.enable, ctrl.enable);
    assert_eq!(decoded.channel_mask, ctrl.channel_mask);
    assert_eq!(decoded.fc_mask, ctrl.fc_mask);
    assert_eq!(decoded.threshold, ctrl.threshold);
}

#[test]
fn test_iio_validation() {
    let mut ctrl = IioCounterControl::default();
    assert!(ctrl.validate().is_ok());

    ctrl.threshold = 0x1000; // Too large (12 bits = max 0xFFF)
    assert!(ctrl.validate().is_err());

    ctrl.threshold = 0xFFF;
    ctrl.fc_mask = 0x08; // Too large (3 bits = max 0x07)
    assert!(ctrl.validate().is_err());
}

#[test]
fn test_rapl_power_unit_round_trip() {
    let unit = RaplPowerUnit { power_units: 3, energy_units: 14, time_units: 10 };

    let value = unit.to_msr_value();
    let decoded = RaplPowerUnit::from_msr_value(value);

    assert_eq!(decoded.power_units, unit.power_units);
    assert_eq!(decoded.energy_units, unit.energy_units);
    assert_eq!(decoded.time_units, unit.time_units);
}

#[test]
fn test_rapl_power_unit_multipliers() {
    let unit = RaplPowerUnit { power_units: 3, energy_units: 14, time_units: 10 };

    // One LSB is 1/8 W, 1/16384 J and 1/1024 s.
    assert_eq!(unit.power_unit_denominator(), 8);
    assert_eq!(unit.energy_unit_denominator(), 16384);
    assert_eq!(unit.time_unit_denominator(), 1024);
    assert_eq!(1.0 / unit.power_unit_denominator() as f64, 1.0 / 8.0);
    assert_eq!(1.0 / unit.energy_unit_denominator() as f64, 1.0 / 16384.0);
    assert_eq!(1.0 / unit.time_unit_denominator() as f64, 1.0 / 1024.0);
}

#[test]
fn test_rapl_power_limit_round_trip() {
    let limit = RaplPowerLimit {
        power_limit_1: 100,
        enable_1: true,
        clamp_1: true,
        time_window_1: 50,
        power_limit_2: 120,
        enable_2: true,
        clamp_2: false,
        time_window_2: 60,
        lock: false,
    };

    let value = limit.to_msr_value();
    let decoded = RaplPowerLimit::from_msr_value(value);

    assert_eq!(decoded.power_limit_1, limit.power_limit_1);
    assert_eq!(decoded.enable_1, limit.enable_1);
    assert_eq!(decoded.time_window_1, limit.time_window_1);
    assert_eq!(decoded.power_limit_2, limit.power_limit_2);
    assert_eq!(decoded.enable_2, limit.enable_2);
}

#[test]
fn test_qm_event_select_round_trip() {
    let evtsel = QmEventSelect { rmid: 42, event_id: LLC_OCCUPANCY_EVENT as u8 };

    let value = evtsel.to_msr_value();
    let decoded = QmEventSelect::from_msr_value(value);

    assert_eq!(decoded.rmid, evtsel.rmid);
    assert_eq!(decoded.event_id, evtsel.event_id);
}

#[test]
fn test_pqr_assoc_round_trip() {
    let pqr = PqrAssoc { rmid: 10, cos: 5 };

    let value = pqr.to_msr_value();
    let decoded = PqrAssoc::from_msr_value(value);

    assert_eq!(decoded.rmid, pqr.rmid);
    assert_eq!(decoded.cos, pqr.cos);
}

#[test]
fn test_register_wrapper() {
    let reg: Register<ChaCounterControl> = Register::new(
        0xE01,
        ChaCounterControl { event_select: 0x34, enable: true, ..Default::default() },
    );
    assert_eq!(reg.address, 0xE01);
    assert!(reg.validate().is_ok());
    assert_eq!(reg.to_msr_value() & 0xFF, 0x34);

    let blank: Register<ChaCounterControl> = Register::with_address(0xE02);
    assert_eq!(blank.address, 0xE02);
    assert_eq!(blank.layout, ChaCounterControl::default());
}

#[test]
fn test_msr_error_display() {
    let err = MsrError::OpenFailed { cpu: 0 };
    assert!(err.message().contains("Failed to open MSR device"));
}
