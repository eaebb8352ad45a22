//! Controller scenarios against the simulated bus: identity verification,
//! the power-on write sequence, rejection of unassigned register states,
//! and immediate propagation of transport failures.

use vcnl36825t::bus::{BusErrorKind, BusOp};
use vcnl36825t::device as dev;
use vcnl36825t::regmap as rm;
use vcnl36825t::sim::SimBus;
use vcnl36825t::transport::{Interface, PSError};

const CONF1: u8 = 0x00;
const CONF2: u8 = 0x03;
const THDL: u8 = 0x05;
const ID: u8 = 0xFA;

fn write_of(dev_a: u8, reg: u8, w: u16) -> BusOp {
    BusOp::Write { dev: dev_a, reg, b0: (w & 0xff) as u8, b1: (w >> 8) as u8 }
}

fn read_of(dev_a: u8, reg: u8, w: u16) -> BusOp {
    BusOp::WriteRead { dev: dev_a, reg, b0: (w & 0xff) as u8, b1: (w >> 8) as u8 }
}

#[test]
fn open_verifies_identity_and_clears_low_threshold() {
    let bus = SimBus::new();
    let device = dev::VCNL36825T::new(bus).unwrap();
    let bus = device.destroy();
    assert_eq!(bus.log_len(), 2);
    assert_eq!(bus.log_get(0), read_of(0x60, ID, 0x0026));
    assert_eq!(bus.log_get(1), write_of(0x60, THDL, 0x0000));
    assert_eq!(bus.reg_word(THDL), 0);
}

#[test]
fn open_rejects_wrong_identity() {
    let mut bus = SimBus::new();
    bus.set_reg(ID, 0x0099);
    match dev::VCNL36825T::new(bus) {
        Err(PSError::InvalidID) => (),
        other => panic!("expected an identity mismatch, got {:?}", other.is_ok()),
    }
}

#[test]
fn identity_mismatch_stops_before_any_write() {
    let mut bus = SimBus::new();
    bus.set_reg(ID, 0x0825);
    let mut regs = dev::Registers::new(Interface::new(bus));
    assert_eq!(dev::initialize(&mut regs), Err(PSError::InvalidID));
    let bus = regs.release();
    // exactly the identity read happened: no write followed the mismatch
    assert_eq!(bus.log_len(), 1);
    assert_eq!(bus.log_get(0), read_of(0x60, ID, 0x0825));
    assert_eq!(bus.reg_word(THDL), 0);
}

#[test]
fn identity_field_is_twelve_bits_wide() {
    // bits above the identity field do not affect the check
    let mut bus = SimBus::new();
    bus.set_reg(ID, 0xf026);
    assert!(dev::VCNL36825T::new(bus).is_ok());
}

#[test]
fn power_on_issues_the_four_writes_in_order() {
    let bus = SimBus::new();
    let mut device = dev::VCNL36825T::new(bus).unwrap();
    device.power_on().unwrap();
    let bus = device.destroy();

    assert_eq!(bus.log_len(), 10);
    // construction
    assert_eq!(bus.log_get(0), read_of(0x60, ID, 0x0026));
    assert_eq!(bus.log_get(1), write_of(0x60, THDL, 0x0000));
    // step 1: reserved configuration bits asserted on the reset word 0x0001
    assert_eq!(bus.log_get(2), read_of(0x60, CONF1, 0x0001));
    assert_eq!(bus.log_get(3), write_of(0x60, CONF1, 0x0201));
    // step 2: run state to Stop (pattern 1), reset word already holds it
    assert_eq!(bus.log_get(4), read_of(0x60, CONF2, 0x0001));
    assert_eq!(bus.log_get(5), write_of(0x60, CONF2, 0x0001));
    // step 3: enable + calibrate + reserved bits on the freshly read word
    assert_eq!(bus.log_get(6), read_of(0x60, CONF1, 0x0201));
    assert_eq!(bus.log_get(7), write_of(0x60, CONF1, 0x0283));
    // step 4: run state to Start (pattern 0)
    assert_eq!(bus.log_get(8), read_of(0x60, CONF2, 0x0001));
    assert_eq!(bus.log_get(9), write_of(0x60, CONF2, 0x0000));

    assert_eq!(bus.reg_word(CONF1), 0x0283);
    assert_eq!(bus.reg_word(CONF2), 0x0000);
}

#[test]
fn power_on_preserves_unrelated_configuration_bits() {
    let mut bus = SimBus::new();
    // arbitrary prior contents in the bits the sequence does not touch
    bus.set_reg(CONF1, 0xfc01 & !0x0282);
    bus.set_reg(CONF2, 0xfff0);
    let mut device = dev::VCNL36825T::new(bus).unwrap();
    device.power_on().unwrap();
    let bus = device.destroy();
    // the sequence only set res_1, ps_on, ps_cal, res_2 and ps_st
    assert_eq!(bus.reg_word(CONF1), (0xfc01 & !0x0282) | 0x0283);
    assert_eq!(bus.reg_word(CONF2), 0xfff0 & !0x0001);
}

#[test]
fn transport_failure_propagates_with_no_further_calls() {
    for n in 0..8usize {
        // a fresh simulated device whose (2 + n)-th call fails
        let mut bus = SimBus::new();
        bus.fail_from(2 + n, BusErrorKind::Timeout);
        let mut device = dev::VCNL36825T::new(bus).unwrap();
        let r = device.power_on();
        assert_eq!(r, Err(PSError::I2CError(BusErrorKind::Timeout)));
        let bus = device.destroy();
        // only the calls before the failure were carried out, none after
        assert_eq!(bus.log_len(), 2 + n);
    }
}

#[test]
fn construction_failure_propagates_transport_kind() {
    let mut bus = SimBus::new();
    bus.fail_from(0, BusErrorKind::NoAcknowledge);
    match dev::VCNL36825T::new(bus) {
        Err(PSError::I2CError(BusErrorKind::NoAcknowledge)) => (),
        _ => panic!("expected the bus failure to surface"),
    }

    let mut bus = SimBus::new();
    bus.fail_from(1, BusErrorKind::Bus);
    let mut regs = dev::Registers::new(Interface::new(bus));
    assert_eq!(dev::initialize(&mut regs), Err(PSError::I2CError(BusErrorKind::Bus)));
    let bus = regs.release();
    assert_eq!(bus.log_len(), 1); // the identity read; the clear was never issued
}

#[test]
fn read_only_registers_through_the_device() {
    let mut bus = SimBus::new();
    bus.set_reg(0xF8, 0x0123);
    bus.set_reg(0xF9, 1 << 9);
    bus.set_reg(0xFB, 0x0456 | 1 << 15);
    let mut device = dev::VCNL36825T::new(bus).unwrap();
    let regs = device.registers();
    assert_eq!(regs.read_ps_data().unwrap().value(), 0x0123);
    let f = regs.read_int_flag().unwrap();
    assert!(f.ps_if_close());
    assert!(!f.ps_if_away());
    let a = regs.read_ps_ac_data().unwrap();
    assert_eq!(a.value(), 0x0456);
    assert!(a.ac_busy());
    assert!(!a.ac_sun());
    assert_eq!(regs.read_id().unwrap().device_id(), 0x0026);
    assert_eq!(regs.read_ps_conf1().unwrap().bits(), 0x0001);
    assert_eq!(regs.read_ps_thdl().unwrap().value(), 0);
    assert_eq!(regs.read_ps_thdh().unwrap().value(), 0);
    assert_eq!(regs.read_ps_canc().unwrap().value(), 0);
}

#[test]
fn arbitration_loss_surfaces_on_direct_register_access() {
    let mut bus = SimBus::new();
    bus.fail_from(2, BusErrorKind::ArbitrationLoss);
    let mut device = dev::VCNL36825T::new(bus).unwrap();
    let r = device.registers().read_ps_conf1();
    assert_eq!(r, Err(PSError::I2CError(BusErrorKind::ArbitrationLoss)));
    let mut t = rm::PsThdl::reset();
    t.set_value(7);
    let r = device.registers().write_ps_thdl(t);
    assert_eq!(r, Err(PSError::I2CError(BusErrorKind::ArbitrationLoss)));
    let bus = device.destroy();
    assert_eq!(bus.log_len(), 2); // neither failed access was recorded
}

#[test]
fn rejected_decode_surfaces_as_read_failure() {
    // an unassigned ps_int pattern rejects the whole PS-CONF2 read
    let mut bus = SimBus::new();
    bus.set_reg(CONF2, 2 << 2);
    let mut device = dev::VCNL36825T::new(bus).unwrap();
    let r = device.registers().read_ps_conf2();
    assert_eq!(r, Err(PSError::I2CError(BusErrorKind::Other)));

    // the same word with an assigned pattern decodes
    let mut bus = SimBus::new();
    bus.set_reg(CONF2, 1 << 2);
    let mut device = dev::VCNL36825T::new(bus).unwrap();
    let r = device.registers().read_ps_conf2().unwrap();
    assert_eq!(r.ps_int(), Some(rm::PsInt::IntOn));

    // PS-CONF3 at its reset word holds an unassigned i_vcsel pattern
    let bus = SimBus::new();
    let mut device = dev::VCNL36825T::new(bus).unwrap();
    let r = device.registers().read_ps_conf3();
    assert_eq!(r, Err(PSError::I2CError(BusErrorKind::Other)));
}

#[test]
fn typed_write_and_read_roundtrip_through_the_device() {
    let bus = SimBus::new();
    let mut device = dev::VCNL36825T::new(bus).unwrap();
    let regs = device.registers();

    let mut t = rm::PsThdh::reset();
    t.set_value(0x0abc);
    regs.write_ps_thdh(t).unwrap();
    assert_eq!(regs.read_ps_thdh().unwrap().value(), 0x0abc);

    let mut c = regs.read_ps_conf4().unwrap();
    c.set_ps_ac(true);
    c.set_ps_ac_num(rm::PsAcNum::Num4);
    regs.write_ps_conf4(c).unwrap();
    let back = regs.read_ps_conf4().unwrap();
    assert!(back.ps_ac());
    assert_eq!(back.ps_ac_num(), rm::PsAcNum::Num4);

    let bus = device.destroy();
    assert_eq!(bus.reg_word(0x06), 0x0abc);
}

#[test]
fn field_write_preserves_prior_register_contents() {
    // arbitrary prior contents; writing one field keeps every other bit
    let mut bus = SimBus::new();
    bus.set_reg(0x08, 0xbeef);
    let mut device = dev::VCNL36825T::new(bus).unwrap();
    let regs = device.registers();
    let mut c = regs.read_ps_conf4().unwrap();
    assert_eq!(c.bits(), 0xbeef);
    c.set_ps_lpen(false);
    regs.write_ps_conf4(c).unwrap();
    let bus = device.destroy();
    assert_eq!(bus.reg_word(0x08), 0xbeef & !(1 << 8));
}
