//! Typed register catalog of the device.
//!
//! Each 16-bit register is a value type wrapping its raw word, with one
//! getter (and, for writable registers, one setter) per named bitfield.
//! Setters change only their field's bits and truncate the value to the
//! field width, so unused and reserved bits are carried through a
//! read-modify-write verbatim. Enumerated fields use one enum type per
//! field; a validated enumeration decodes to `None` on a bit pattern with
//! no assigned name.

use vstd::prelude::*;

use crate::fields::{get_field, get_field_exec, set_field, set_field_exec};

verus! {

/// Values of the `ps_st` field of the PS-CONF2 register.
#[derive(Clone, Copy, Debug, PartialEq, Eq, Structural)]
pub enum PsSt {
    Start,
    Stop,
}

impl PsSt {
    /// Bit pattern of this value inside the `ps_st` field.
    pub open spec fn to_bits_spec(self) -> u16 {
        match self {
            PsSt::Start => 0,
            PsSt::Stop => 1,
        }
    }

    /// Value decoded from a `ps_st` field pattern; every pattern the
    /// field can hold is assigned a value.
    pub open spec fn from_bits_spec(b: u16) -> PsSt {
        if b == 0 {
            PsSt::Start
        } else {
            PsSt::Stop
        }
    }

    pub fn to_bits(self) -> (r: u16)
        ensures
            r == self.to_bits_spec(),
    {
        match self {
            PsSt::Start => 0,
            PsSt::Stop => 1,
        }
    }

    pub fn from_bits(b: u16) -> (r: PsSt)
        ensures
            r == Self::from_bits_spec(b),
    {
        if b == 0 {
            PsSt::Start
        } else {
            PsSt::Stop
        }
    }
}

/// Values of the `ps_int` field of the PS-CONF2 register.
#[derive(Clone, Copy, Debug, PartialEq, Eq, Structural)]
pub enum PsInt {
    IntOff,
    IntOn,
}

impl PsInt {
    /// Bit pattern of this value inside the `ps_int` field.
    pub open spec fn to_bits_spec(self) -> u16 {
        match self {
            PsInt::IntOff => 0,
            PsInt::IntOn => 1,
        }
    }

    /// Value decoded from a `ps_int` field pattern, or `None` for a
    /// pattern with no assigned name.
    pub open spec fn from_bits_spec(b: u16) -> Option<PsInt> {
        if b == 0 {
            Some(PsInt::IntOff)
        } else {
            if b == 1 {
                Some(PsInt::IntOn)
            } else {
                None
            }
        }
    }

    pub fn to_bits(self) -> (r: u16)
        ensures
            r == self.to_bits_spec(),
    {
        match self {
            PsInt::IntOff => 0,
            PsInt::IntOn => 1,
        }
    }

    pub fn from_bits(b: u16) -> (r: Option<PsInt>)
        ensures
            r == Self::from_bits_spec(b),
    {
        if b == 0 {
            Some(PsInt::IntOff)
        } else {
            if b == 1 {
                Some(PsInt::IntOn)
            } else {
                None
            }
        }
    }
}

/// Values of the `ps_pers` field of the PS-CONF2 register.
#[derive(Clone, Copy, Debug, PartialEq, Eq, Structural)]
pub enum PsPers {
    Pers1,
    Pers2,
    Pers3,
    Pers4,
}

impl PsPers {
    /// Bit pattern of this value inside the `ps_pers` field.
    pub open spec fn to_bits_spec(self) -> u16 {
        match self {
            PsPers::Pers1 => 0,
            PsPers::Pers2 => 1,
            PsPers::Pers3 => 2,
            PsPers::Pers4 => 3,
        }
    }

    /// Value decoded from a `ps_pers` field pattern; every pattern the
    /// field can hold is assigned a value.
    pub open spec fn from_bits_spec(b: u16) -> PsPers {
        if b == 0 {
            PsPers::Pers1
        } else {
            if b == 1 {
                PsPers::Pers2
            } else {
                if b == 2 {
                    PsPers::Pers3
                } else {
                    PsPers::Pers4
                }
            }
        }
    }

    pub fn to_bits(self) -> (r: u16)
        ensures
            r == self.to_bits_spec(),
    {
        match self {
            PsPers::Pers1 => 0,
            PsPers::Pers2 => 1,
            PsPers::Pers3 => 2,
            PsPers::Pers4 => 3,
        }
    }

    pub fn from_bits(b: u16) -> (r: PsPers)
        ensures
            r == Self::from_bits_spec(b),
    {
        if b == 0 {
            PsPers::Pers1
        } else {
            if b == 1 {
                PsPers::Pers2
            } else {
                if b == 2 {
                    PsPers::Pers3
                } else {
                    PsPers::Pers4
                }
            }
        }
    }
}

/// Values of the `ps_period` field of the PS-CONF2 register.
#[derive(Clone, Copy, Debug, PartialEq, Eq, Structural)]
pub enum PsPeriod {
    Period10ms,
    Period20ms,
    Period40ms,
    Period80ms,
}

impl PsPeriod {
    /// Bit pattern of this value inside the `ps_period` field.
    pub open spec fn to_bits_spec(self) -> u16 {
        match self {
            PsPeriod::Period10ms => 0,
            PsPeriod::Period20ms => 1,
            PsPeriod::Period40ms => 2,
            PsPeriod::Period80ms => 3,
        }
    }

    /// Value decoded from a `ps_period` field pattern; every pattern the
    /// field can hold is assigned a value.
    pub open spec fn from_bits_spec(b: u16) -> PsPeriod {
        if b == 0 {
            PsPeriod::Period10ms
        } else {
            if b == 1 {
                PsPeriod::Period20ms
            } else {
                if b == 2 {
                    PsPeriod::Period40ms
                } else {
                    PsPeriod::Period80ms
                }
            }
        }
    }

    pub fn to_bits(self) -> (r: u16)
        ensures
            r == self.to_bits_spec(),
    {
        match self {
            PsPeriod::Period10ms => 0,
            PsPeriod::Period20ms => 1,
            PsPeriod::Period40ms => 2,
            PsPeriod::Period80ms => 3,
        }
    }

    pub fn from_bits(b: u16) -> (r: PsPeriod)
        ensures
            r == Self::from_bits_spec(b),
    {
        if b == 0 {
            PsPeriod::Period10ms
        } else {
            if b == 1 {
                PsPeriod::Period20ms
            } else {
                if b == 2 {
                    PsPeriod::Period40ms
                } else {
                    PsPeriod::Period80ms
                }
            }
        }
    }
}

/// Values of the `ps_itb` field of the PS-CONF2 register.
#[derive(Clone, Copy, Debug, PartialEq, Eq, Structural)]
pub enum PsItb {
    Itb25us,
    Itb50us,
}

impl PsItb {
    /// Bit pattern of this value inside the `ps_itb` field.
    pub open spec fn to_bits_spec(self) -> u16 {
        match self {
            PsItb::Itb25us => 0,
            PsItb::Itb50us => 1,
        }
    }

    /// Value decoded from a `ps_itb` field pattern; every pattern the
    /// field can hold is assigned a value.
    pub open spec fn from_bits_spec(b: u16) -> PsItb {
        if b == 0 {
            PsItb::Itb25us
        } else {
            PsItb::Itb50us
        }
    }

    pub fn to_bits(self) -> (r: u16)
        ensures
            r == self.to_bits_spec(),
    {
        match self {
            PsItb::Itb25us => 0,
            PsItb::Itb50us => 1,
        }
    }

    pub fn from_bits(b: u16) -> (r: PsItb)
        ensures
            r == Self::from_bits_spec(b),
    {
        if b == 0 {
            PsItb::Itb25us
        } else {
            PsItb::Itb50us
        }
    }
}

/// Values of the `ps_mps` field of the PS-CONF2 register.
#[derive(Clone, Copy, Debug, PartialEq, Eq, Structural)]
pub enum PsMps {
    Mps1,
    Mps2,
    Mps4,
    Mps8,
}

impl PsMps {
    /// Bit pattern of this value inside the `ps_mps` field.
    pub open spec fn to_bits_spec(self) -> u16 {
        match self {
            PsMps::Mps1 => 0,
            PsMps::Mps2 => 1,
            PsMps::Mps4 => 2,
            PsMps::Mps8 => 3,
        }
    }

    /// Value decoded from a `ps_mps` field pattern; every pattern the
    /// field can hold is assigned a value.
    pub open spec fn from_bits_spec(b: u16) -> PsMps {
        if b == 0 {
            PsMps::Mps1
        } else {
            if b == 1 {
                PsMps::Mps2
            } else {
                if b == 2 {
                    PsMps::Mps4
                } else {
                    PsMps::Mps8
                }
            }
        }
    }

    pub fn to_bits(self) -> (r: u16)
        ensures
            r == self.to_bits_spec(),
    {
        match self {
            PsMps::Mps1 => 0,
            PsMps::Mps2 => 1,
            PsMps::Mps4 => 2,
            PsMps::Mps8 => 3,
        }
    }

    pub fn from_bits(b: u16) -> (r: PsMps)
        ensures
            r == Self::from_bits_spec(b),
    {
        if b == 0 {
            PsMps::Mps1
        } else {
            if b == 1 {
                PsMps::Mps2
            } else {
                if b == 2 {
                    PsMps::Mps4
                } else {
                    PsMps::Mps8
                }
            }
        }
    }
}

/// Values of the `ps_it` field of the PS-CONF2 register.
#[derive(Clone, Copy, Debug, PartialEq, Eq, Structural)]
pub enum PsIt {
    It1T,
    It2T,
    It4T,
    It8T,
}

impl PsIt {
    /// Bit pattern of this value inside the `ps_it` field.
    pub open spec fn to_bits_spec(self) -> u16 {
        match self {
            PsIt::It1T => 0,
            PsIt::It2T => 1,
            PsIt::It4T => 2,
            PsIt::It8T => 3,
        }
    }

    /// Value decoded from a `ps_it` field pattern; every pattern the
    /// field can hold is assigned a value.
    pub open spec fn from_bits_spec(b: u16) -> PsIt {
        if b == 0 {
            PsIt::It1T
        } else {
            if b == 1 {
                PsIt::It2T
            } else {
                if b == 2 {
                    PsIt::It4T
                } else {
                    PsIt::It8T
                }
            }
        }
    }

    pub fn to_bits(self) -> (r: u16)
        ensures
            r == self.to_bits_spec(),
    {
        match self {
            PsIt::It1T => 0,
            PsIt::It2T => 1,
            PsIt::It4T => 2,
            PsIt::It8T => 3,
        }
    }

    pub fn from_bits(b: u16) -> (r: PsIt)
        ensures
            r == Self::from_bits_spec(b),
    {
        if b == 0 {
            PsIt::It1T
        } else {
            if b == 1 {
                PsIt::It2T
            } else {
                if b == 2 {
                    PsIt::It4T
                } else {
                    PsIt::It8T
                }
            }
        }
    }
}

/// Values of the `ps_forcenum` field of the PS-CONF3 register.
#[derive(Clone, Copy, Debug, PartialEq, Eq, Structural)]
pub enum PsForcenum {
    OneCycle,
    TwoCycle,
}

impl PsForcenum {
    /// Bit pattern of this value inside the `ps_forcenum` field.
    pub open spec fn to_bits_spec(self) -> u16 {
        match self {
            PsForcenum::OneCycle => 0,
            PsForcenum::TwoCycle => 1,
        }
    }

    /// Value decoded from a `ps_forcenum` field pattern; every pattern the
    /// field can hold is assigned a value.
    pub open spec fn from_bits_spec(b: u16) -> PsForcenum {
        if b == 0 {
            PsForcenum::OneCycle
        } else {
            PsForcenum::TwoCycle
        }
    }

    pub fn to_bits(self) -> (r: u16)
        ensures
            r == self.to_bits_spec(),
    {
        match self {
            PsForcenum::OneCycle => 0,
            PsForcenum::TwoCycle => 1,
        }
    }

    pub fn from_bits(b: u16) -> (r: PsForcenum)
        ensures
            r == Self::from_bits_spec(b),
    {
        if b == 0 {
            PsForcenum::OneCycle
        } else {
            PsForcenum::TwoCycle
        }
    }
}

/// Values of the `ps_trig` field of the PS-CONF3 register.
#[derive(Clone, Copy, Debug, PartialEq, Eq, Structural)]
pub enum PsTrig {
    NoPSActive,
    OneTimeCycle,
}

impl PsTrig {
    /// Bit pattern of this value inside the `ps_trig` field.
    pub open spec fn to_bits_spec(self) -> u16 {
        match self {
            PsTrig::NoPSActive => 0,
            PsTrig::OneTimeCycle => 1,
        }
    }

    /// Value decoded from a `ps_trig` field pattern; every pattern the
    /// field can hold is assigned a value.
    pub open spec fn from_bits_spec(b: u16) -> PsTrig {
        if b == 0 {
            PsTrig::NoPSActive
        } else {
            PsTrig::OneTimeCycle
        }
    }

    pub fn to_bits(self) -> (r: u16)
        ensures
            r == self.to_bits_spec(),
    {
        match self {
            PsTrig::NoPSActive => 0,
            PsTrig::OneTimeCycle => 1,
        }
    }

    pub fn from_bits(b: u16) -> (r: PsTrig)
        ensures
            r == Self::from_bits_spec(b),
    {
        if b == 0 {
            PsTrig::NoPSActive
        } else {
            PsTrig::OneTimeCycle
        }
    }
}

/// Values of the `ps_af` field of the PS-CONF3 register.
#[derive(Clone, Copy, Debug, PartialEq, Eq, Structural)]
pub enum PsAF {
    AutoMode,
    ForceMode,
}

impl PsAF {
    /// Bit pattern of this value inside the `ps_af` field.
    pub open spec fn to_bits_spec(self) -> u16 {
        match self {
            PsAF::AutoMode => 0,
            PsAF::ForceMode => 1,
        }
    }

    /// Value decoded from a `ps_af` field pattern; every pattern the
    /// field can hold is assigned a value.
    pub open spec fn from_bits_spec(b: u16) -> PsAF {
        if b == 0 {
            PsAF::AutoMode
        } else {
            PsAF::ForceMode
        }
    }

    pub fn to_bits(self) -> (r: u16)
        ensures
            r == self.to_bits_spec(),
    {
        match self {
            PsAF::AutoMode => 0,
            PsAF::ForceMode => 1,
        }
    }

    pub fn from_bits(b: u16) -> (r: PsAF)
        ensures
            r == Self::from_bits_spec(b),
    {
        if b == 0 {
            PsAF::AutoMode
        } else {
            PsAF::ForceMode
        }
    }
}

/// Values of the `i_vcsel` field of the PS-CONF3 register.
#[derive(Clone, Copy, Debug, PartialEq, Eq, Structural)]
pub enum IVcsel {
    I10mA,
    I12mA,
    I14mA,
    I16mA,
    I18mA,
    I20mA,
}

impl IVcsel {
    /// Bit pattern of this value inside the `i_vcsel` field.
    pub open spec fn to_bits_spec(self) -> u16 {
        match self {
            IVcsel::I10mA => 2,
            IVcsel::I12mA => 3,
            IVcsel::I14mA => 4,
            IVcsel::I16mA => 5,
            IVcsel::I18mA => 6,
            IVcsel::I20mA => 7,
        }
    }

    /// Value decoded from a `i_vcsel` field pattern, or `None` for a
    /// pattern with no assigned name.
    pub open spec fn from_bits_spec(b: u16) -> Option<IVcsel> {
        if b == 2 {
            Some(IVcsel::I10mA)
        } else {
            if b == 3 {
                Some(IVcsel::I12mA)
            } else {
                if b == 4 {
                    Some(IVcsel::I14mA)
                } else {
                    if b == 5 {
                        Some(IVcsel::I16mA)
                    } else {
                        if b == 6 {
                            Some(IVcsel::I18mA)
                        } else {
                            if b == 7 {
                                Some(IVcsel::I20mA)
                            } else {
                                None
                            }
                        }
                    }
                }
            }
        }
    }

    pub fn to_bits(self) -> (r: u16)
        ensures
            r == self.to_bits_spec(),
    {
        match self {
            IVcsel::I10mA => 2,
            IVcsel::I12mA => 3,
            IVcsel::I14mA => 4,
            IVcsel::I16mA => 5,
            IVcsel::I18mA => 6,
            IVcsel::I20mA => 7,
        }
    }

    pub fn from_bits(b: u16) -> (r: Option<IVcsel>)
        ensures
            r == Self::from_bits_spec(b),
    {
        if b == 2 {
            Some(IVcsel::I10mA)
        } else {
            if b == 3 {
                Some(IVcsel::I12mA)
            } else {
                if b == 4 {
                    Some(IVcsel::I14mA)
                } else {
                    if b == 5 {
                        Some(IVcsel::I16mA)
                    } else {
                        if b == 6 {
                            Some(IVcsel::I18mA)
                        } else {
                            if b == 7 {
                                Some(IVcsel::I20mA)
                            } else {
                                None
                            }
                        }
                    }
                }
            }
        }
    }
}

/// Values of the `ps_hd` field of the PS-CONF3 register.
#[derive(Clone, Copy, Debug, PartialEq, Eq, Structural)]
pub enum PsHd {
    HD12Bits,
    HD16Bits,
}

impl PsHd {
    /// Bit pattern of this value inside the `ps_hd` field.
    pub open spec fn to_bits_spec(self) -> u16 {
        match self {
            PsHd::HD12Bits => 0,
            PsHd::HD16Bits => 1,
        }
    }

    /// Value decoded from a `ps_hd` field pattern; every pattern the
    /// field can hold is assigned a value.
    pub open spec fn from_bits_spec(b: u16) -> PsHd {
        if b == 0 {
            PsHd::HD12Bits
        } else {
            PsHd::HD16Bits
        }
    }

    pub fn to_bits(self) -> (r: u16)
        ensures
            r == self.to_bits_spec(),
    {
        match self {
            PsHd::HD12Bits => 0,
            PsHd::HD16Bits => 1,
        }
    }

    pub fn from_bits(b: u16) -> (r: PsHd)
        ensures
            r == Self::from_bits_spec(b),
    {
        if b == 0 {
            PsHd::HD12Bits
        } else {
            PsHd::HD16Bits
        }
    }
}

/// Values of the `ps_sc` field of the PS-CONF3 register.
#[derive(Clone, Copy, Debug, PartialEq, Eq, Structural)]
pub enum PsSc {
    SunlightCancellationDisable,
    SunlightCancellationEnable,
}

impl PsSc {
    /// Bit pattern of this value inside the `ps_sc` field.
    pub open spec fn to_bits_spec(self) -> u16 {
        match self {
            PsSc::SunlightCancellationDisable => 0,
            PsSc::SunlightCancellationEnable => 7,
        }
    }

    /// Value decoded from a `ps_sc` field pattern, or `None` for a
    /// pattern with no assigned name.
    pub open spec fn from_bits_spec(b: u16) -> Option<PsSc> {
        if b == 0 {
            Some(PsSc::SunlightCancellationDisable)
        } else {
            if b == 7 {
                Some(PsSc::SunlightCancellationEnable)
            } else {
                None
            }
        }
    }

    pub fn to_bits(self) -> (r: u16)
        ensures
            r == self.to_bits_spec(),
    {
        match self {
            PsSc::SunlightCancellationDisable => 0,
            PsSc::SunlightCancellationEnable => 7,
        }
    }

    pub fn from_bits(b: u16) -> (r: Option<PsSc>)
        ensures
            r == Self::from_bits_spec(b),
    {
        if b == 0 {
            Some(PsSc::SunlightCancellationDisable)
        } else {
            if b == 7 {
                Some(PsSc::SunlightCancellationEnable)
            } else {
                None
            }
        }
    }
}

/// Values of the `ps_ac_num` field of the PS-CONF4 register.
#[derive(Clone, Copy, Debug, PartialEq, Eq, Structural)]
pub enum PsAcNum {
    Num1,
    Num2,
    Num4,
    Num8,
}

impl PsAcNum {
    /// Bit pattern of this value inside the `ps_ac_num` field.
    pub open spec fn to_bits_spec(self) -> u16 {
        match self {
            PsAcNum::Num1 => 0,
            PsAcNum::Num2 => 1,
            PsAcNum::Num4 => 2,
            PsAcNum::Num8 => 3,
        }
    }

    /// Value decoded from a `ps_ac_num` field pattern; every pattern the
    /// field can hold is assigned a value.
    pub open spec fn from_bits_spec(b: u16) -> PsAcNum {
        if b == 0 {
            PsAcNum::Num1
        } else {
            if b == 1 {
                PsAcNum::Num2
            } else {
                if b == 2 {
                    PsAcNum::Num4
                } else {
                    PsAcNum::Num8
                }
            }
        }
    }

    pub fn to_bits(self) -> (r: u16)
        ensures
            r == self.to_bits_spec(),
    {
        match self {
            PsAcNum::Num1 => 0,
            PsAcNum::Num2 => 1,
            PsAcNum::Num4 => 2,
            PsAcNum::Num8 => 3,
        }
    }

    pub fn from_bits(b: u16) -> (r: PsAcNum)
        ensures
            r == Self::from_bits_spec(b),
    {
        if b == 0 {
            PsAcNum::Num1
        } else {
            if b == 1 {
                PsAcNum::Num2
            } else {
                if b == 2 {
                    PsAcNum::Num4
                } else {
                    PsAcNum::Num8
                }
            }
        }
    }
}

/// Values of the `ps_ac_period` field of the PS-CONF4 register.
#[derive(Clone, Copy, Debug, PartialEq, Eq, Structural)]
pub enum PsAcPeriod {
    Period3ms,
    Period6ms,
    Period12ms,
    Period24ms,
}

impl PsAcPeriod {
    /// Bit pattern of this value inside the `ps_ac_period` field.
    pub open spec fn to_bits_spec(self) -> u16 {
        match self {
            PsAcPeriod::Period3ms => 0,
            PsAcPeriod::Period6ms => 1,
            PsAcPeriod::Period12ms => 2,
            PsAcPeriod::Period24ms => 3,
        }
    }

    /// Value decoded from a `ps_ac_period` field pattern; every pattern the
    /// field can hold is assigned a value.
    pub open spec fn from_bits_spec(b: u16) -> PsAcPeriod {
        if b == 0 {
            PsAcPeriod::Period3ms
        } else {
            if b == 1 {
                PsAcPeriod::Period6ms
            } else {
                if b == 2 {
                    PsAcPeriod::Period12ms
                } else {
                    PsAcPeriod::Period24ms
                }
            }
        }
    }

    pub fn to_bits(self) -> (r: u16)
        ensures
            r == self.to_bits_spec(),
    {
        match self {
            PsAcPeriod::Period3ms => 0,
            PsAcPeriod::Period6ms => 1,
            PsAcPeriod::Period12ms => 2,
            PsAcPeriod::Period24ms => 3,
        }
    }

    pub fn from_bits(b: u16) -> (r: PsAcPeriod)
        ensures
            r == Self::from_bits_spec(b),
    {
        if b == 0 {
            PsAcPeriod::Period3ms
        } else {
            if b == 1 {
                PsAcPeriod::Period6ms
            } else {
                if b == 2 {
                    PsAcPeriod::Period12ms
                } else {
                    PsAcPeriod::Period24ms
                }
            }
        }
    }
}

/// Values of the `ps_lpper` field of the PS-CONF4 register.
#[derive(Clone, Copy, Debug, PartialEq, Eq, Structural)]
pub enum PsLpPeriod {
    Period40ms,
    Period80ms,
    Period160ms,
    Period320ms,
}

impl PsLpPeriod {
    /// Bit pattern of this value inside the `ps_lpper` field.
    pub open spec fn to_bits_spec(self) -> u16 {
        match self {
            PsLpPeriod::Period40ms => 0,
            PsLpPeriod::Period80ms => 1,
            PsLpPeriod::Period160ms => 2,
            PsLpPeriod::Period320ms => 3,
        }
    }

    /// Value decoded from a `ps_lpper` field pattern; every pattern the
    /// field can hold is assigned a value.
    pub open spec fn from_bits_spec(b: u16) -> PsLpPeriod {
        if b == 0 {
            PsLpPeriod::Period40ms
        } else {
            if b == 1 {
                PsLpPeriod::Period80ms
            } else {
                if b == 2 {
                    PsLpPeriod::Period160ms
                } else {
                    PsLpPeriod::Period320ms
                }
            }
        }
    }

    pub fn to_bits(self) -> (r: u16)
        ensures
            r == self.to_bits_spec(),
    {
        match self {
            PsLpPeriod::Period40ms => 0,
            PsLpPeriod::Period80ms => 1,
            PsLpPeriod::Period160ms => 2,
            PsLpPeriod::Period320ms => 3,
        }
    }

    pub fn from_bits(b: u16) -> (r: PsLpPeriod)
        ensures
            r == Self::from_bits_spec(b),
    {
        if b == 0 {
            PsLpPeriod::Period40ms
        } else {
            if b == 1 {
                PsLpPeriod::Period80ms
            } else {
                if b == 2 {
                    PsLpPeriod::Period160ms
                } else {
                    PsLpPeriod::Period320ms
                }
            }
        }
    }
}

/// Register address of PS-CONF1.
pub const PS_CONF1_ADDRESS: u8 = 0x00;

/// Documented reset value of PS-CONF1.
pub const PS_CONF1_RESET: u16 = 0x0001;

/// The PS-CONF1 register (read-write, 16 bits, address 0x00).
#[derive(Clone, Copy, Debug, PartialEq, Eq, Structural)]
pub struct PsConf1 {
    bits: u16,
}

impl View for PsConf1 {
    type V = u16;

    closed spec fn view(&self) -> u16 {
        self.bits
    }
}

impl PsConf1 {
    /// Wrap a raw register word.
    pub fn from_bits(bits: u16) -> (r: Self)
        ensures
            r@ == bits,
    {
        PsConf1 { bits }
    }

    /// The raw register word.
    pub fn bits(&self) -> (r: u16)
        ensures
            r == self@,
    {
        self.bits
    }

    /// The register at its documented reset value.
    pub fn reset() -> (r: Self)
        ensures
            r@ == PS_CONF1_RESET,
    {
        PsConf1 { bits: PS_CONF1_RESET }
    }

    /// The `res_1` field (bits 0..1).
    pub fn res_1(&self) -> (r: u16)
        ensures
            r == get_field(self@, 0, 1),
    {
        get_field_exec(self.bits, 0, 1)
    }

    /// Set the `res_1` field (truncated to 1 bit); all other
    /// bits are kept.
    pub fn set_res_1(&mut self, v: u16)
        ensures
            final(self)@ == set_field(old(self)@, 0, 1, v),
    {
        self.bits = set_field_exec(self.bits, 0, 1, v);
    }

    /// The `ps_on` flag (bit 1).
    pub fn ps_on(&self) -> (r: bool)
        ensures
            r == (get_field(self@, 1, 1) == 1),
    {
        get_field_exec(self.bits, 1, 1) == 1
    }

    /// Set the `ps_on` flag; all other bits are kept.
    pub fn set_ps_on(&mut self, v: bool)
        ensures
            final(self)@ == set_field(old(self)@, 1, 1, if v { 1u16 } else { 0u16 }),
    {
        self.bits = set_field_exec(self.bits, 1, 1, if v { 1 } else { 0 });
    }

    /// The `ps_cal` flag (bit 7).
    pub fn ps_cal(&self) -> (r: bool)
        ensures
            r == (get_field(self@, 7, 1) == 1),
    {
        get_field_exec(self.bits, 7, 1) == 1
    }

    /// Set the `ps_cal` flag; all other bits are kept.
    pub fn set_ps_cal(&mut self, v: bool)
        ensures
            final(self)@ == set_field(old(self)@, 7, 1, if v { 1u16 } else { 0u16 }),
    {
        self.bits = set_field_exec(self.bits, 7, 1, if v { 1 } else { 0 });
    }

    /// The `res_2` field (bits 9..10).
    pub fn res_2(&self) -> (r: u16)
        ensures
            r == get_field(self@, 9, 1),
    {
        get_field_exec(self.bits, 9, 1)
    }

    /// Set the `res_2` field (truncated to 1 bit); all other
    /// bits are kept.
    pub fn set_res_2(&mut self, v: u16)
        ensures
            final(self)@ == set_field(old(self)@, 9, 1, v),
    {
        self.bits = set_field_exec(self.bits, 9, 1, v);
    }
}

/// Register address of PS-CONF2.
pub const PS_CONF2_ADDRESS: u8 = 0x03;

/// Documented reset value of PS-CONF2.
pub const PS_CONF2_RESET: u16 = 0x0001;

/// The PS-CONF2 register (read-write, 16 bits, address 0x03).
#[derive(Clone, Copy, Debug, PartialEq, Eq, Structural)]
pub struct PsConf2 {
    bits: u16,
}

impl View for PsConf2 {
    type V = u16;

    closed spec fn view(&self) -> u16 {
        self.bits
    }
}

impl PsConf2 {
    /// Wrap a raw register word.
    pub fn from_bits(bits: u16) -> (r: Self)
        ensures
            r@ == bits,
    {
        PsConf2 { bits }
    }

    /// The raw register word.
    pub fn bits(&self) -> (r: u16)
        ensures
            r == self@,
    {
        self.bits
    }

    /// The register at its documented reset value.
    pub fn reset() -> (r: Self)
        ensures
            r@ == PS_CONF2_RESET,
    {
        PsConf2 { bits: PS_CONF2_RESET }
    }

    /// Every validated field of the word holds an assigned bit pattern;
    /// a read of this register is rejected wholesale when this fails.
    pub open spec fn valid_spec(bits: u16) -> bool {
        PsInt::from_bits_spec(get_field(bits, 2, 2)) is Some
    }

    /// Executable form of [`Self::valid_spec`].
    pub fn valid(bits: u16) -> (r: bool)
        ensures
            r == Self::valid_spec(bits),
    {
        PsInt::from_bits(get_field_exec(bits, 2, 2)).is_some()
    }

    /// The `ps_st` field (bits 0..1); every pattern is assigned.
    pub fn ps_st(&self) -> (r: PsSt)
        ensures
            r == PsSt::from_bits_spec(get_field(self@, 0, 1)),
    {
        PsSt::from_bits(get_field_exec(self.bits, 0, 1))
    }

    /// Set the `ps_st` field; all other bits are kept.
    pub fn set_ps_st(&mut self, v: PsSt)
        ensures
            final(self)@ == set_field(old(self)@, 0, 1, v.to_bits_spec()),
    {
        let b = v.to_bits();
        self.bits = set_field_exec(self.bits, 0, 1, b);
    }

    /// The `ps_smart_pers` flag (bit 1).
    pub fn ps_smart_pers(&self) -> (r: bool)
        ensures
            r == (get_field(self@, 1, 1) == 1),
    {
        get_field_exec(self.bits, 1, 1) == 1
    }

    /// Set the `ps_smart_pers` flag; all other bits are kept.
    pub fn set_ps_smart_pers(&mut self, v: bool)
        ensures
            final(self)@ == set_field(old(self)@, 1, 1, if v { 1u16 } else { 0u16 }),
    {
        self.bits = set_field_exec(self.bits, 1, 1, if v { 1 } else { 0 });
    }

    /// The `ps_int` field (bits 2..4), a validated enumeration:
    /// `None` for an unassigned pattern.
    pub fn ps_int(&self) -> (r: Option<PsInt>)
        ensures
            r == PsInt::from_bits_spec(get_field(self@, 2, 2)),
    {
        PsInt::from_bits(get_field_exec(self.bits, 2, 2))
    }

    /// Set the `ps_int` field to an assigned value; all other bits are
    /// kept. An unassigned pattern cannot be written through this setter.
    pub fn set_ps_int(&mut self, v: PsInt)
        ensures
            final(self)@ == set_field(old(self)@, 2, 2, v.to_bits_spec()),
    {
        let b = v.to_bits();
        self.bits = set_field_exec(self.bits, 2, 2, b);
    }

    /// The `ps_pers` field (bits 4..6); every pattern is assigned.
    pub fn ps_pers(&self) -> (r: PsPers)
        ensures
            r == PsPers::from_bits_spec(get_field(self@, 4, 2)),
    {
        PsPers::from_bits(get_field_exec(self.bits, 4, 2))
    }

    /// Set the `ps_pers` field; all other bits are kept.
    pub fn set_ps_pers(&mut self, v: PsPers)
        ensures
            final(self)@ == set_field(old(self)@, 4, 2, v.to_bits_spec()),
    {
        let b = v.to_bits();
        self.bits = set_field_exec(self.bits, 4, 2, b);
    }

    /// The `ps_period` field (bits 6..8); every pattern is assigned.
    pub fn ps_period(&self) -> (r: PsPeriod)
        ensures
            r == PsPeriod::from_bits_spec(get_field(self@, 6, 2)),
    {
        PsPeriod::from_bits(get_field_exec(self.bits, 6, 2))
    }

    /// Set the `ps_period` field; all other bits are kept.
    pub fn set_ps_period(&mut self, v: PsPeriod)
        ensures
            final(self)@ == set_field(old(self)@, 6, 2, v.to_bits_spec()),
    {
        let b = v.to_bits();
        self.bits = set_field_exec(self.bits, 6, 2, b);
    }

    /// The `ps_hg` flag (bit 10).
    pub fn ps_hg(&self) -> (r: bool)
        ensures
            r == (get_field(self@, 10, 1) == 1),
    {
        get_field_exec(self.bits, 10, 1) == 1
    }

    /// Set the `ps_hg` flag; all other bits are kept.
    pub fn set_ps_hg(&mut self, v: bool)
        ensures
            final(self)@ == set_field(old(self)@, 10, 1, if v { 1u16 } else { 0u16 }),
    {
        self.bits = set_field_exec(self.bits, 10, 1, if v { 1 } else { 0 });
    }

    /// The `ps_itb` field (bits 11..12); every pattern is assigned.
    pub fn ps_itb(&self) -> (r: PsItb)
        ensures
            r == PsItb::from_bits_spec(get_field(self@, 11, 1)),
    {
        PsItb::from_bits(get_field_exec(self.bits, 11, 1))
    }

    /// Set the `ps_itb` field; all other bits are kept.
    pub fn set_ps_itb(&mut self, v: PsItb)
        ensures
            final(self)@ == set_field(old(self)@, 11, 1, v.to_bits_spec()),
    {
        let b = v.to_bits();
        self.bits = set_field_exec(self.bits, 11, 1, b);
    }

    /// The `ps_mps` field (bits 12..14); every pattern is assigned.
    pub fn ps_mps(&self) -> (r: PsMps)
        ensures
            r == PsMps::from_bits_spec(get_field(self@, 12, 2)),
    {
        PsMps::from_bits(get_field_exec(self.bits, 12, 2))
    }

    /// Set the `ps_mps` field; all other bits are kept.
    pub fn set_ps_mps(&mut self, v: PsMps)
        ensures
            final(self)@ == set_field(old(self)@, 12, 2, v.to_bits_spec()),
    {
        let b = v.to_bits();
        self.bits = set_field_exec(self.bits, 12, 2, b);
    }

    /// The `ps_it` field (bits 14..16); every pattern is assigned.
    pub fn ps_it(&self) -> (r: PsIt)
        ensures
            r == PsIt::from_bits_spec(get_field(self@, 14, 2)),
    {
        PsIt::from_bits(get_field_exec(self.bits, 14, 2))
    }

    /// Set the `ps_it` field; all other bits are kept.
    pub fn set_ps_it(&mut self, v: PsIt)
        ensures
            final(self)@ == set_field(old(self)@, 14, 2, v.to_bits_spec()),
    {
        let b = v.to_bits();
        self.bits = set_field_exec(self.bits, 14, 2, b);
    }
}

/// Register address of PS-CONF3.
pub const PS_CONF3_ADDRESS: u8 = 0x04;

/// Documented reset value of PS-CONF3.
pub const PS_CONF3_RESET: u16 = 0x0000;

/// The PS-CONF3 register (read-write, 16 bits, address 0x04).
#[derive(Clone, Copy, Debug, PartialEq, Eq, Structural)]
pub struct PsConf3 {
    bits: u16,
}

impl View for PsConf3 {
    type V = u16;

    closed spec fn view(&self) -> u16 {
        self.bits
    }
}

impl PsConf3 {
    /// Wrap a raw register word.
    pub fn from_bits(bits: u16) -> (r: Self)
        ensures
            r@ == bits,
    {
        PsConf3 { bits }
    }

    /// The raw register word.
    pub fn bits(&self) -> (r: u16)
        ensures
            r == self@,
    {
        self.bits
    }

    /// The register at its documented reset value.
    pub fn reset() -> (r: Self)
        ensures
            r@ == PS_CONF3_RESET,
    {
        PsConf3 { bits: PS_CONF3_RESET }
    }

    /// Every validated field of the word holds an assigned bit pattern;
    /// a read of this register is rejected wholesale when this fails.
    pub open spec fn valid_spec(bits: u16) -> bool {
        &&& IVcsel::from_bits_spec(get_field(bits, 8, 4)) is Some
        &&& PsSc::from_bits_spec(get_field(bits, 13, 3)) is Some
    }

    /// Executable form of [`Self::valid_spec`].
    pub fn valid(bits: u16) -> (r: bool)
        ensures
            r == Self::valid_spec(bits),
    {
        IVcsel::from_bits(get_field_exec(bits, 8, 4)).is_some() && PsSc::from_bits(get_field_exec(bits, 13, 3)).is_some()
    }

    /// The `ps_sp_int` flag (bit 2).
    pub fn ps_sp_int(&self) -> (r: bool)
        ensures
            r == (get_field(self@, 2, 1) == 1),
    {
        get_field_exec(self.bits, 2, 1) == 1
    }

    /// Set the `ps_sp_int` flag; all other bits are kept.
    pub fn set_ps_sp_int(&mut self, v: bool)
        ensures
            final(self)@ == set_field(old(self)@, 2, 1, if v { 1u16 } else { 0u16 }),
    {
        self.bits = set_field_exec(self.bits, 2, 1, if v { 1 } else { 0 });
    }

    /// The `res_3` field (bits 3..4).
    pub fn res_3(&self) -> (r: u16)
        ensures
            r == get_field(self@, 3, 1),
    {
        get_field_exec(self.bits, 3, 1)
    }

    /// Set the `res_3` field (truncated to 1 bit); all other
    /// bits are kept.
    pub fn set_res_3(&mut self, v: u16)
        ensures
            final(self)@ == set_field(old(self)@, 3, 1, v),
    {
        self.bits = set_field_exec(self.bits, 3, 1, v);
    }

    /// The `ps_forcenum` field (bits 4..5); every pattern is assigned.
    pub fn ps_forcenum(&self) -> (r: PsForcenum)
        ensures
            r == PsForcenum::from_bits_spec(get_field(self@, 4, 1)),
    {
        PsForcenum::from_bits(get_field_exec(self.bits, 4, 1))
    }

    /// Set the `ps_forcenum` field; all other bits are kept.
    pub fn set_ps_forcenum(&mut self, v: PsForcenum)
        ensures
            final(self)@ == set_field(old(self)@, 4, 1, v.to_bits_spec()),
    {
        let b = v.to_bits();
        self.bits = set_field_exec(self.bits, 4, 1, b);
    }

    /// The `ps_trig` field (bits 5..6); every pattern is assigned.
    pub fn ps_trig(&self) -> (r: PsTrig)
        ensures
            r == PsTrig::from_bits_spec(get_field(self@, 5, 1)),
    {
        PsTrig::from_bits(get_field_exec(self.bits, 5, 1))
    }

    /// Set the `ps_trig` field; all other bits are kept.
    pub fn set_ps_trig(&mut self, v: PsTrig)
        ensures
            final(self)@ == set_field(old(self)@, 5, 1, v.to_bits_spec()),
    {
        let b = v.to_bits();
        self.bits = set_field_exec(self.bits, 5, 1, b);
    }

    /// The `ps_af` field (bits 6..7); every pattern is assigned.
    pub fn ps_af(&self) -> (r: PsAF)
        ensures
            r == PsAF::from_bits_spec(get_field(self@, 6, 1)),
    {
        PsAF::from_bits(get_field_exec(self.bits, 6, 1))
    }

    /// Set the `ps_af` field; all other bits are kept.
    pub fn set_ps_af(&mut self, v: PsAF)
        ensures
            final(self)@ == set_field(old(self)@, 6, 1, v.to_bits_spec()),
    {
        let b = v.to_bits();
        self.bits = set_field_exec(self.bits, 6, 1, b);
    }

    /// The `i_vcsel` field (bits 8..12), a validated enumeration:
    /// `None` for an unassigned pattern.
    pub fn i_vcsel(&self) -> (r: Option<IVcsel>)
        ensures
            r == IVcsel::from_bits_spec(get_field(self@, 8, 4)),
    {
        IVcsel::from_bits(get_field_exec(self.bits, 8, 4))
    }

    /// Set the `i_vcsel` field to an assigned value; all other bits are
    /// kept. An unassigned pattern cannot be written through this setter.
    pub fn set_i_vcsel(&mut self, v: IVcsel)
        ensures
            final(self)@ == set_field(old(self)@, 8, 4, v.to_bits_spec()),
    {
        let b = v.to_bits();
        self.bits = set_field_exec(self.bits, 8, 4, b);
    }

    /// The `ps_hd` field (bits 12..13); every pattern is assigned.
    pub fn ps_hd(&self) -> (r: PsHd)
        ensures
            r == PsHd::from_bits_spec(get_field(self@, 12, 1)),
    {
        PsHd::from_bits(get_field_exec(self.bits, 12, 1))
    }

    /// Set the `ps_hd` field; all other bits are kept.
    pub fn set_ps_hd(&mut self, v: PsHd)
        ensures
            final(self)@ == set_field(old(self)@, 12, 1, v.to_bits_spec()),
    {
        let b = v.to_bits();
        self.bits = set_field_exec(self.bits, 12, 1, b);
    }

    /// The `ps_sc` field (bits 13..16), a validated enumeration:
    /// `None` for an unassigned pattern.
    pub fn ps_sc(&self) -> (r: Option<PsSc>)
        ensures
            r == PsSc::from_bits_spec(get_field(self@, 13, 3)),
    {
        PsSc::from_bits(get_field_exec(self.bits, 13, 3))
    }

    /// Set the `ps_sc` field to an assigned value; all other bits are
    /// kept. An unassigned pattern cannot be written through this setter.
    pub fn set_ps_sc(&mut self, v: PsSc)
        ensures
            final(self)@ == set_field(old(self)@, 13, 3, v.to_bits_spec()),
    {
        let b = v.to_bits();
        self.bits = set_field_exec(self.bits, 13, 3, b);
    }
}

/// Register address of PS-THDL.
pub const PS_THDL_ADDRESS: u8 = 0x05;

/// Documented reset value of PS-THDL.
pub const PS_THDL_RESET: u16 = 0x0000;

/// The PS-THDL register (read-write, 16 bits, address 0x05).
#[derive(Clone, Copy, Debug, PartialEq, Eq, Structural)]
pub struct PsThdl {
    bits: u16,
}

impl View for PsThdl {
    type V = u16;

    closed spec fn view(&self) -> u16 {
        self.bits
    }
}

impl PsThdl {
    /// Wrap a raw register word.
    pub fn from_bits(bits: u16) -> (r: Self)
        ensures
            r@ == bits,
    {
        PsThdl { bits }
    }

    /// The raw register word.
    pub fn bits(&self) -> (r: u16)
        ensures
            r == self@,
    {
        self.bits
    }

    /// The register at its documented reset value.
    pub fn reset() -> (r: Self)
        ensures
            r@ == PS_THDL_RESET,
    {
        PsThdl { bits: PS_THDL_RESET }
    }

    /// The `value` field (bits 0..12).
    pub fn value(&self) -> (r: u16)
        ensures
            r == get_field(self@, 0, 12),
    {
        get_field_exec(self.bits, 0, 12)
    }

    /// Set the `value` field (truncated to 12 bits); all other
    /// bits are kept.
    pub fn set_value(&mut self, v: u16)
        ensures
            final(self)@ == set_field(old(self)@, 0, 12, v),
    {
        self.bits = set_field_exec(self.bits, 0, 12, v);
    }
}

/// Register address of PS-THDH.
pub const PS_THDH_ADDRESS: u8 = 0x06;

/// Documented reset value of PS-THDH.
pub const PS_THDH_RESET: u16 = 0x0000;

/// The PS-THDH register (read-write, 16 bits, address 0x06).
#[derive(Clone, Copy, Debug, PartialEq, Eq, Structural)]
pub struct PsThdh {
    bits: u16,
}

impl View for PsThdh {
    type V = u16;

    closed spec fn view(&self) -> u16 {
        self.bits
    }
}

impl PsThdh {
    /// Wrap a raw register word.
    pub fn from_bits(bits: u16) -> (r: Self)
        ensures
            r@ == bits,
    {
        PsThdh { bits }
    }

    /// The raw register word.
    pub fn bits(&self) -> (r: u16)
        ensures
            r == self@,
    {
        self.bits
    }

    /// The register at its documented reset value.
    pub fn reset() -> (r: Self)
        ensures
            r@ == PS_THDH_RESET,
    {
        PsThdh { bits: PS_THDH_RESET }
    }

    /// The `value` field (bits 0..12).
    pub fn value(&self) -> (r: u16)
        ensures
            r == get_field(self@, 0, 12),
    {
        get_field_exec(self.bits, 0, 12)
    }

    /// Set the `value` field (truncated to 12 bits); all other
    /// bits are kept.
    pub fn set_value(&mut self, v: u16)
        ensures
            final(self)@ == set_field(old(self)@, 0, 12, v),
    {
        self.bits = set_field_exec(self.bits, 0, 12, v);
    }
}

/// Register address of PS-CANC.
pub const PS_CANC_ADDRESS: u8 = 0x07;

/// Documented reset value of PS-CANC.
pub const PS_CANC_RESET: u16 = 0x0000;

/// The PS-CANC register (read-write, 16 bits, address 0x07).
#[derive(Clone, Copy, Debug, PartialEq, Eq, Structural)]
pub struct PsCanc {
    bits: u16,
}

impl View for PsCanc {
    type V = u16;

    closed spec fn view(&self) -> u16 {
        self.bits
    }
}

impl PsCanc {
    /// Wrap a raw register word.
    pub fn from_bits(bits: u16) -> (r: Self)
        ensures
            r@ == bits,
    {
        PsCanc { bits }
    }

    /// The raw register word.
    pub fn bits(&self) -> (r: u16)
        ensures
            r == self@,
    {
        self.bits
    }

    /// The register at its documented reset value.
    pub fn reset() -> (r: Self)
        ensures
            r@ == PS_CANC_RESET,
    {
        PsCanc { bits: PS_CANC_RESET }
    }

    /// The `value` field (bits 0..12).
    pub fn value(&self) -> (r: u16)
        ensures
            r == get_field(self@, 0, 12),
    {
        get_field_exec(self.bits, 0, 12)
    }

    /// Set the `value` field (truncated to 12 bits); all other
    /// bits are kept.
    pub fn set_value(&mut self, v: u16)
        ensures
            final(self)@ == set_field(old(self)@, 0, 12, v),
    {
        self.bits = set_field_exec(self.bits, 0, 12, v);
    }
}

/// Register address of PS-CONF4.
pub const PS_CONF4_ADDRESS: u8 = 0x08;

/// Documented reset value of PS-CONF4.
pub const PS_CONF4_RESET: u16 = 0x0000;

/// The PS-CONF4 register (read-write, 16 bits, address 0x08).
#[derive(Clone, Copy, Debug, PartialEq, Eq, Structural)]
pub struct PsConf4 {
    bits: u16,
}

impl View for PsConf4 {
    type V = u16;

    closed spec fn view(&self) -> u16 {
        self.bits
    }
}

impl PsConf4 {
    /// Wrap a raw register word.
    pub fn from_bits(bits: u16) -> (r: Self)
        ensures
            r@ == bits,
    {
        PsConf4 { bits }
    }

    /// The raw register word.
    pub fn bits(&self) -> (r: u16)
        ensures
            r == self@,
    {
        self.bits
    }

    /// The register at its documented reset value.
    pub fn reset() -> (r: Self)
        ensures
            r@ == PS_CONF4_RESET,
    {
        PsConf4 { bits: PS_CONF4_RESET }
    }

    /// The `ps_ac_int` flag (bit 0).
    pub fn ps_ac_int(&self) -> (r: bool)
        ensures
            r == (get_field(self@, 0, 1) == 1),
    {
        get_field_exec(self.bits, 0, 1) == 1
    }

    /// Set the `ps_ac_int` flag; all other bits are kept.
    pub fn set_ps_ac_int(&mut self, v: bool)
        ensures
            final(self)@ == set_field(old(self)@, 0, 1, if v { 1u16 } else { 0u16 }),
    {
        self.bits = set_field_exec(self.bits, 0, 1, if v { 1 } else { 0 });
    }

    /// The `ps_ac_trig` flag (bit 2).
    pub fn ps_ac_trig(&self) -> (r: bool)
        ensures
            r == (get_field(self@, 2, 1) == 1),
    {
        get_field_exec(self.bits, 2, 1) == 1
    }

    /// Set the `ps_ac_trig` flag; all other bits are kept.
    pub fn set_ps_ac_trig(&mut self, v: bool)
        ensures
            final(self)@ == set_field(old(self)@, 2, 1, if v { 1u16 } else { 0u16 }),
    {
        self.bits = set_field_exec(self.bits, 2, 1, if v { 1 } else { 0 });
    }

    /// The `ps_ac` flag (bit 3).
    pub fn ps_ac(&self) -> (r: bool)
        ensures
            r == (get_field(self@, 3, 1) == 1),
    {
        get_field_exec(self.bits, 3, 1) == 1
    }

    /// Set the `ps_ac` flag; all other bits are kept.
    pub fn set_ps_ac(&mut self, v: bool)
        ensures
            final(self)@ == set_field(old(self)@, 3, 1, if v { 1u16 } else { 0u16 }),
    {
        self.bits = set_field_exec(self.bits, 3, 1, if v { 1 } else { 0 });
    }

    /// The `ps_ac_num` field (bits 4..6); every pattern is assigned.
    pub fn ps_ac_num(&self) -> (r: PsAcNum)
        ensures
            r == PsAcNum::from_bits_spec(get_field(self@, 4, 2)),
    {
        PsAcNum::from_bits(get_field_exec(self.bits, 4, 2))
    }

    /// Set the `ps_ac_num` field; all other bits are kept.
    pub fn set_ps_ac_num(&mut self, v: PsAcNum)
        ensures
            final(self)@ == set_field(old(self)@, 4, 2, v.to_bits_spec()),
    {
        let b = v.to_bits();
        self.bits = set_field_exec(self.bits, 4, 2, b);
    }

    /// The `ps_ac_period` field (bits 6..8); every pattern is assigned.
    pub fn ps_ac_period(&self) -> (r: PsAcPeriod)
        ensures
            r == PsAcPeriod::from_bits_spec(get_field(self@, 6, 2)),
    {
        PsAcPeriod::from_bits(get_field_exec(self.bits, 6, 2))
    }

    /// Set the `ps_ac_period` field; all other bits are kept.
    pub fn set_ps_ac_period(&mut self, v: PsAcPeriod)
        ensures
            final(self)@ == set_field(old(self)@, 6, 2, v.to_bits_spec()),
    {
        let b = v.to_bits();
        self.bits = set_field_exec(self.bits, 6, 2, b);
    }

    /// The `ps_lpen` flag (bit 8).
    pub fn ps_lpen(&self) -> (r: bool)
        ensures
            r == (get_field(self@, 8, 1) == 1),
    {
        get_field_exec(self.bits, 8, 1) == 1
    }

    /// Set the `ps_lpen` flag; all other bits are kept.
    pub fn set_ps_lpen(&mut self, v: bool)
        ensures
            final(self)@ == set_field(old(self)@, 8, 1, if v { 1u16 } else { 0u16 }),
    {
        self.bits = set_field_exec(self.bits, 8, 1, if v { 1 } else { 0 });
    }

    /// The `ps_lpper` field (bits 9..11); every pattern is assigned.
    pub fn ps_lpper(&self) -> (r: PsLpPeriod)
        ensures
            r == PsLpPeriod::from_bits_spec(get_field(self@, 9, 2)),
    {
        PsLpPeriod::from_bits(get_field_exec(self.bits, 9, 2))
    }

    /// Set the `ps_lpper` field; all other bits are kept.
    pub fn set_ps_lpper(&mut self, v: PsLpPeriod)
        ensures
            final(self)@ == set_field(old(self)@, 9, 2, v.to_bits_spec()),
    {
        let b = v.to_bits();
        self.bits = set_field_exec(self.bits, 9, 2, b);
    }
}

/// Register address of PS-DATA.
pub const PS_DATA_ADDRESS: u8 = 0xf8;

/// Documented reset value of PS-DATA.
pub const PS_DATA_RESET: u16 = 0x0000;

/// The PS-DATA register (read-only, 16 bits, address 0xf8).
#[derive(Clone, Copy, Debug, PartialEq, Eq, Structural)]
pub struct PsData {
    bits: u16,
}

impl View for PsData {
    type V = u16;

    closed spec fn view(&self) -> u16 {
        self.bits
    }
}

impl PsData {
    /// Wrap a raw register word.
    pub fn from_bits(bits: u16) -> (r: Self)
        ensures
            r@ == bits,
    {
        PsData { bits }
    }

    /// The raw register word.
    pub fn bits(&self) -> (r: u16)
        ensures
            r == self@,
    {
        self.bits
    }

    /// The register at its documented reset value.
    pub fn reset() -> (r: Self)
        ensures
            r@ == PS_DATA_RESET,
    {
        PsData { bits: PS_DATA_RESET }
    }

    /// The `value` field (bits 0..12).
    pub fn value(&self) -> (r: u16)
        ensures
            r == get_field(self@, 0, 12),
    {
        get_field_exec(self.bits, 0, 12)
    }
}

/// Register address of INT-FLAG.
pub const INT_FLAG_ADDRESS: u8 = 0xf9;

/// Documented reset value of INT-FLAG.
pub const INT_FLAG_RESET: u16 = 0x0000;

/// The INT-FLAG register (read-only, 16 bits, address 0xf9).
#[derive(Clone, Copy, Debug, PartialEq, Eq, Structural)]
pub struct IntFlag {
    bits: u16,
}

impl View for IntFlag {
    type V = u16;

    closed spec fn view(&self) -> u16 {
        self.bits
    }
}

impl IntFlag {
    /// Wrap a raw register word.
    pub fn from_bits(bits: u16) -> (r: Self)
        ensures
            r@ == bits,
    {
        IntFlag { bits }
    }

    /// The raw register word.
    pub fn bits(&self) -> (r: u16)
        ensures
            r == self@,
    {
        self.bits
    }

    /// The register at its documented reset value.
    pub fn reset() -> (r: Self)
        ensures
            r@ == INT_FLAG_RESET,
    {
        IntFlag { bits: INT_FLAG_RESET }
    }

    /// The `ps_if_away` flag (bit 8).
    pub fn ps_if_away(&self) -> (r: bool)
        ensures
            r == (get_field(self@, 8, 1) == 1),
    {
        get_field_exec(self.bits, 8, 1) == 1
    }

    /// The `ps_if_close` flag (bit 9).
    pub fn ps_if_close(&self) -> (r: bool)
        ensures
            r == (get_field(self@, 9, 1) == 1),
    {
        get_field_exec(self.bits, 9, 1) == 1
    }

    /// The `ps_spflag` flag (bit 12).
    pub fn ps_spflag(&self) -> (r: bool)
        ensures
            r == (get_field(self@, 12, 1) == 1),
    {
        get_field_exec(self.bits, 12, 1) == 1
    }

    /// The `ps_acflag` flag (bit 13).
    pub fn ps_acflag(&self) -> (r: bool)
        ensures
            r == (get_field(self@, 13, 1) == 1),
    {
        get_field_exec(self.bits, 13, 1) == 1
    }
}

/// Register address of ID.
pub const ID_ADDRESS: u8 = 0xfa;

/// Documented reset value of ID.
pub const ID_RESET: u16 = 0x0026;

/// The ID register (read-only, 16 bits, address 0xfa).
#[derive(Clone, Copy, Debug, PartialEq, Eq, Structural)]
pub struct Id {
    bits: u16,
}

impl View for Id {
    type V = u16;

    closed spec fn view(&self) -> u16 {
        self.bits
    }
}

impl Id {
    /// Wrap a raw register word.
    pub fn from_bits(bits: u16) -> (r: Self)
        ensures
            r@ == bits,
    {
        Id { bits }
    }

    /// The raw register word.
    pub fn bits(&self) -> (r: u16)
        ensures
            r == self@,
    {
        self.bits
    }

    /// The register at its documented reset value.
    pub fn reset() -> (r: Self)
        ensures
            r@ == ID_RESET,
    {
        Id { bits: ID_RESET }
    }

    /// The `device_id` field (bits 0..12).
    pub fn device_id(&self) -> (r: u16)
        ensures
            r == get_field(self@, 0, 12),
    {
        get_field_exec(self.bits, 0, 12)
    }
}

/// Register address of PS-AC-DATA.
pub const PS_AC_DATA_ADDRESS: u8 = 0xfb;

/// Documented reset value of PS-AC-DATA.
pub const PS_AC_DATA_RESET: u16 = 0x0000;

/// The PS-AC-DATA register (read-only, 16 bits, address 0xfb).
#[derive(Clone, Copy, Debug, PartialEq, Eq, Structural)]
pub struct PsAcData {
    bits: u16,
}

impl View for PsAcData {
    type V = u16;

    closed spec fn view(&self) -> u16 {
        self.bits
    }
}

impl PsAcData {
    /// Wrap a raw register word.
    pub fn from_bits(bits: u16) -> (r: Self)
        ensures
            r@ == bits,
    {
        PsAcData { bits }
    }

    /// The raw register word.
    pub fn bits(&self) -> (r: u16)
        ensures
            r == self@,
    {
        self.bits
    }

    /// The register at its documented reset value.
    pub fn reset() -> (r: Self)
        ensures
            r@ == PS_AC_DATA_RESET,
    {
        PsAcData { bits: PS_AC_DATA_RESET }
    }

    /// The `value` field (bits 0..12).
    pub fn value(&self) -> (r: u16)
        ensures
            r == get_field(self@, 0, 12),
    {
        get_field_exec(self.bits, 0, 12)
    }

    /// The `ac_sun` flag (bit 14).
    pub fn ac_sun(&self) -> (r: bool)
        ensures
            r == (get_field(self@, 14, 1) == 1),
    {
        get_field_exec(self.bits, 14, 1) == 1
    }

    /// The `ac_busy` flag (bit 15).
    pub fn ac_busy(&self) -> (r: bool)
        ensures
            r == (get_field(self@, 15, 1) == 1),
    {
        get_field_exec(self.bits, 15, 1) == 1
    }
}

} // verus!
