//! Field-level checks of the register catalog: every writable field round
//! trips through its register word for all representable values, setters
//! leave all other bits untouched, and validated enumerations reject every
//! unassigned pattern.

use vcnl36825t::fields as fl;
use vcnl36825t::regmap as rm;

/// Bit mask of a field `width` bits wide starting at `lo`.
fn mask(lo: u16, width: u16) -> u16 {
    let m = if width >= 16 { 0xffff } else { (1u16 << width) - 1 };
    m << lo
}

#[test]
fn low_level_field_roundtrip_all_positions() {
    for lo in 0..16u16 {
        for width in 1..=(16 - lo) {
            for &bits in &[0x0000u16, 0xffff, 0xa5a5, 0x5a5a] {
                let top = if width >= 16 { 0xffffu32 } else { (1u32 << width) - 1 };
                for v in 0..=top {
                    let v = v as u16;
                    let w = fl::set_field_exec(bits, lo, width, v);
                    assert_eq!(fl::get_field_exec(w, lo, width), v);
                    // all bits outside the field are kept
                    assert_eq!(w & !mask(lo, width), bits & !mask(lo, width));
                }
            }
        }
    }
}

#[test]
fn field_value_is_truncated_to_width() {
    // a 2-bit field cannot hold a value above 3: the excess bits are cut
    let w = fl::set_field_exec(0, 4, 2, 0b111);
    assert_eq!(fl::get_field_exec(w, 4, 2), 0b11);
    assert_eq!(w, 0b11 << 4);
}

#[test]
fn word_byte_split_roundtrip() {
    for &w in &[0x0000u16, 0xffff, 0x0026, 0x1234, 0xa5f0] {
        let b0 = fl::lo_byte_exec(w);
        let b1 = fl::hi_byte_exec(w);
        assert_eq!(fl::word_of_exec(b0, b1), w);
    }
    assert_eq!(fl::lo_byte_exec(0x1234), 0x34);
    assert_eq!(fl::hi_byte_exec(0x1234), 0x12);
    assert_eq!(fl::word_of_exec(0x34, 0x12), 0x1234);
}

#[test]
fn conf1_fields_roundtrip() {
    for &bits in &[0x0000u16, 0xffff, 0xa5a5] {
        for v in 0..2u16 {
            let mut r = rm::PsConf1::from_bits(bits);
            r.set_res_1(v);
            assert_eq!(r.res_1(), v);
            assert_eq!(r.bits() & !mask(0, 1), bits & !mask(0, 1));

            let mut r = rm::PsConf1::from_bits(bits);
            r.set_res_2(v);
            assert_eq!(r.res_2(), v);
            assert_eq!(r.bits() & !mask(9, 1), bits & !mask(9, 1));
        }
        for &b in &[false, true] {
            let mut r = rm::PsConf1::from_bits(bits);
            r.set_ps_on(b);
            assert_eq!(r.ps_on(), b);
            assert_eq!(r.bits() & !mask(1, 1), bits & !mask(1, 1));

            let mut r = rm::PsConf1::from_bits(bits);
            r.set_ps_cal(b);
            assert_eq!(r.ps_cal(), b);
            assert_eq!(r.bits() & !mask(7, 1), bits & !mask(7, 1));
        }
    }
}

#[test]
fn conf2_fields_roundtrip() {
    for &bits in &[0x0000u16, 0xffff, 0x5a5a] {
        for st in [rm::PsSt::Start, rm::PsSt::Stop] {
            let mut r = rm::PsConf2::from_bits(bits);
            r.set_ps_st(st);
            assert_eq!(r.ps_st(), st);
            assert_eq!(r.bits() & !mask(0, 1), bits & !mask(0, 1));
        }
        for &b in &[false, true] {
            let mut r = rm::PsConf2::from_bits(bits);
            r.set_ps_smart_pers(b);
            assert_eq!(r.ps_smart_pers(), b);
            assert_eq!(r.bits() & !mask(1, 1), bits & !mask(1, 1));

            let mut r = rm::PsConf2::from_bits(bits);
            r.set_ps_hg(b);
            assert_eq!(r.ps_hg(), b);
            assert_eq!(r.bits() & !mask(10, 1), bits & !mask(10, 1));
        }
        for i in [rm::PsInt::IntOff, rm::PsInt::IntOn] {
            let mut r = rm::PsConf2::from_bits(bits);
            r.set_ps_int(i);
            assert_eq!(r.ps_int(), Some(i));
            assert_eq!(r.bits() & !mask(2, 2), bits & !mask(2, 2));
        }
        for p in [rm::PsPers::Pers1, rm::PsPers::Pers2, rm::PsPers::Pers3, rm::PsPers::Pers4] {
            let mut r = rm::PsConf2::from_bits(bits);
            r.set_ps_pers(p);
            assert_eq!(r.ps_pers(), p);
            assert_eq!(r.bits() & !mask(4, 2), bits & !mask(4, 2));
        }
        for p in [
            rm::PsPeriod::Period10ms,
            rm::PsPeriod::Period20ms,
            rm::PsPeriod::Period40ms,
            rm::PsPeriod::Period80ms,
        ] {
            let mut r = rm::PsConf2::from_bits(bits);
            r.set_ps_period(p);
            assert_eq!(r.ps_period(), p);
            assert_eq!(r.bits() & !mask(6, 2), bits & !mask(6, 2));
        }
        for i in [rm::PsItb::Itb25us, rm::PsItb::Itb50us] {
            let mut r = rm::PsConf2::from_bits(bits);
            r.set_ps_itb(i);
            assert_eq!(r.ps_itb(), i);
            assert_eq!(r.bits() & !mask(11, 1), bits & !mask(11, 1));
        }
        for m in [rm::PsMps::Mps1, rm::PsMps::Mps2, rm::PsMps::Mps4, rm::PsMps::Mps8] {
            let mut r = rm::PsConf2::from_bits(bits);
            r.set_ps_mps(m);
            assert_eq!(r.ps_mps(), m);
            assert_eq!(r.bits() & !mask(12, 2), bits & !mask(12, 2));
        }
        for i in [rm::PsIt::It1T, rm::PsIt::It2T, rm::PsIt::It4T, rm::PsIt::It8T] {
            let mut r = rm::PsConf2::from_bits(bits);
            r.set_ps_it(i);
            assert_eq!(r.ps_it(), i);
            assert_eq!(r.bits() & !mask(14, 2), bits & !mask(14, 2));
        }
    }
}

#[test]
fn conf3_fields_roundtrip() {
    for &bits in &[0x0000u16, 0xffff, 0xa55a] {
        for &b in &[false, true] {
            let mut r = rm::PsConf3::from_bits(bits);
            r.set_ps_sp_int(b);
            assert_eq!(r.ps_sp_int(), b);
            assert_eq!(r.bits() & !mask(2, 1), bits & !mask(2, 1));
        }
        for v in 0..2u16 {
            let mut r = rm::PsConf3::from_bits(bits);
            r.set_res_3(v);
            assert_eq!(r.res_3(), v);
            assert_eq!(r.bits() & !mask(3, 1), bits & !mask(3, 1));
        }
        for f in [rm::PsForcenum::OneCycle, rm::PsForcenum::TwoCycle] {
            let mut r = rm::PsConf3::from_bits(bits);
            r.set_ps_forcenum(f);
            assert_eq!(r.ps_forcenum(), f);
            assert_eq!(r.bits() & !mask(4, 1), bits & !mask(4, 1));
        }
        for t in [rm::PsTrig::NoPSActive, rm::PsTrig::OneTimeCycle] {
            let mut r = rm::PsConf3::from_bits(bits);
            r.set_ps_trig(t);
            assert_eq!(r.ps_trig(), t);
            assert_eq!(r.bits() & !mask(5, 1), bits & !mask(5, 1));
        }
        for a in [rm::PsAF::AutoMode, rm::PsAF::ForceMode] {
            let mut r = rm::PsConf3::from_bits(bits);
            r.set_ps_af(a);
            assert_eq!(r.ps_af(), a);
            assert_eq!(r.bits() & !mask(6, 1), bits & !mask(6, 1));
        }
        for i in [
            rm::IVcsel::I10mA,
            rm::IVcsel::I12mA,
            rm::IVcsel::I14mA,
            rm::IVcsel::I16mA,
            rm::IVcsel::I18mA,
            rm::IVcsel::I20mA,
        ] {
            let mut r = rm::PsConf3::from_bits(bits);
            r.set_i_vcsel(i);
            assert_eq!(r.i_vcsel(), Some(i));
            assert_eq!(r.bits() & !mask(8, 4), bits & !mask(8, 4));
        }
        for h in [rm::PsHd::HD12Bits, rm::PsHd::HD16Bits] {
            let mut r = rm::PsConf3::from_bits(bits);
            r.set_ps_hd(h);
            assert_eq!(r.ps_hd(), h);
            assert_eq!(r.bits() & !mask(12, 1), bits & !mask(12, 1));
        }
        for s in [
            rm::PsSc::SunlightCancellationDisable,
            rm::PsSc::SunlightCancellationEnable,
        ] {
            let mut r = rm::PsConf3::from_bits(bits);
            r.set_ps_sc(s);
            assert_eq!(r.ps_sc(), Some(s));
            assert_eq!(r.bits() & !mask(13, 3), bits & !mask(13, 3));
        }
    }
}

#[test]
fn threshold_and_cancellation_roundtrip() {
    for &bits in &[0x0000u16, 0xffff] {
        for v in 0..4096u16 {
            let mut r = rm::PsThdl::from_bits(bits);
            r.set_value(v);
            assert_eq!(r.value(), v);
            assert_eq!(r.bits() & !mask(0, 12), bits & !mask(0, 12));

            let mut r = rm::PsThdh::from_bits(bits);
            r.set_value(v);
            assert_eq!(r.value(), v);

            let mut r = rm::PsCanc::from_bits(bits);
            r.set_value(v);
            assert_eq!(r.value(), v);
        }
    }
}

#[test]
fn conf4_fields_roundtrip() {
    for &bits in &[0x0000u16, 0xffff, 0x1e1e] {
        for &b in &[false, true] {
            let mut r = rm::PsConf4::from_bits(bits);
            r.set_ps_ac_int(b);
            assert_eq!(r.ps_ac_int(), b);
            assert_eq!(r.bits() & !mask(0, 1), bits & !mask(0, 1));

            let mut r = rm::PsConf4::from_bits(bits);
            r.set_ps_ac_trig(b);
            assert_eq!(r.ps_ac_trig(), b);
            assert_eq!(r.bits() & !mask(2, 1), bits & !mask(2, 1));

            let mut r = rm::PsConf4::from_bits(bits);
            r.set_ps_ac(b);
            assert_eq!(r.ps_ac(), b);
            assert_eq!(r.bits() & !mask(3, 1), bits & !mask(3, 1));

            let mut r = rm::PsConf4::from_bits(bits);
            r.set_ps_lpen(b);
            assert_eq!(r.ps_lpen(), b);
            assert_eq!(r.bits() & !mask(8, 1), bits & !mask(8, 1));
        }
        for n in [rm::PsAcNum::Num1, rm::PsAcNum::Num2, rm::PsAcNum::Num4, rm::PsAcNum::Num8] {
            let mut r = rm::PsConf4::from_bits(bits);
            r.set_ps_ac_num(n);
            assert_eq!(r.ps_ac_num(), n);
            assert_eq!(r.bits() & !mask(4, 2), bits & !mask(4, 2));
        }
        for p in [
            rm::PsAcPeriod::Period3ms,
            rm::PsAcPeriod::Period6ms,
            rm::PsAcPeriod::Period12ms,
            rm::PsAcPeriod::Period24ms,
        ] {
            let mut r = rm::PsConf4::from_bits(bits);
            r.set_ps_ac_period(p);
            assert_eq!(r.ps_ac_period(), p);
            assert_eq!(r.bits() & !mask(6, 2), bits & !mask(6, 2));
        }
        for p in [
            rm::PsLpPeriod::Period40ms,
            rm::PsLpPeriod::Period80ms,
            rm::PsLpPeriod::Period160ms,
            rm::PsLpPeriod::Period320ms,
        ] {
            let mut r = rm::PsConf4::from_bits(bits);
            r.set_ps_lpper(p);
            assert_eq!(r.ps_lpper(), p);
            assert_eq!(r.bits() & !mask(9, 2), bits & !mask(9, 2));
        }
    }
}

#[test]
fn read_only_register_getters() {
    let d = rm::PsData::from_bits(0x0abc);
    assert_eq!(d.value(), 0x0abc);
    let d = rm::PsData::from_bits(0xfabc);
    assert_eq!(d.value(), 0x0abc); // bits above the field are not part of the value

    let f = rm::IntFlag::from_bits(1 << 8 | 1 << 13);
    assert!(f.ps_if_away());
    assert!(!f.ps_if_close());
    assert!(!f.ps_spflag());
    assert!(f.ps_acflag());

    let id = rm::Id::from_bits(0x0026);
    assert_eq!(id.device_id(), 0x0026);
    let id = rm::Id::from_bits(0xf026);
    assert_eq!(id.device_id(), 0x0026);

    let a = rm::PsAcData::from_bits(0x0123 | 1 << 14);
    assert_eq!(a.value(), 0x0123);
    assert!(a.ac_sun());
    assert!(!a.ac_busy());
}

#[test]
fn validated_enumerations_reject_unassigned_patterns() {
    // ps_int: a 2-bit field with only patterns 0 and 1 assigned
    assert_eq!(rm::PsInt::from_bits(0), Some(rm::PsInt::IntOff));
    assert_eq!(rm::PsInt::from_bits(1), Some(rm::PsInt::IntOn));
    assert_eq!(rm::PsInt::from_bits(2), None);
    assert_eq!(rm::PsInt::from_bits(3), None);

    // i_vcsel: a 4-bit field with only patterns 2 through 7 assigned
    for b in 0..16u16 {
        let d = rm::IVcsel::from_bits(b);
        if (2..=7).contains(&b) {
            assert!(d.is_some());
            assert_eq!(d.unwrap().to_bits(), b);
        } else {
            assert_eq!(d, None);
        }
    }

    // ps_sc: a 3-bit field with only patterns 0 and 7 assigned
    for b in 0..8u16 {
        let d = rm::PsSc::from_bits(b);
        match b {
            0 => assert_eq!(d, Some(rm::PsSc::SunlightCancellationDisable)),
            7 => assert_eq!(d, Some(rm::PsSc::SunlightCancellationEnable)),
            _ => assert_eq!(d, None),
        }
    }

    // whole-word validity
    assert!(rm::PsConf2::valid(0x0000));
    assert!(!rm::PsConf2::valid(2 << 2));
    assert!(!rm::PsConf3::valid(0x0000)); // i_vcsel pattern 0 is unassigned
    assert!(rm::PsConf3::valid(2 << 8));
    assert!(!rm::PsConf3::valid(2 << 8 | 1 << 13)); // ps_sc pattern 1 is unassigned
}

#[test]
fn reset_values() {
    assert_eq!(rm::PsConf1::reset().bits(), 0x0001);
    assert_eq!(rm::PsConf2::reset().bits(), 0x0001);
    assert_eq!(rm::PsConf3::reset().bits(), 0x0000);
    assert_eq!(rm::PsThdl::reset().bits(), 0x0000);
    assert_eq!(rm::Id::reset().bits(), 0x0026);
}
