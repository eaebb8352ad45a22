//! Device controller and typed register accessors.
//!
//! `Registers` exposes one typed read (and, for writable registers, one
//! typed write) per register of the device, over the register transport.
//! `VCNL36825T` owns the transport and drives the device lifecycle: opening
//! the handle verifies the identity register and clears the low proximity
//! threshold as a baseline; `power_on` runs the fixed four-write power-on
//! sequence, each write a fresh read-modify-write of current hardware
//! state. Every contract is stated over the ghost history of completed bus
//! transactions: success appends the exact documented transactions in
//! order, and a failure at any step aborts the sequence with nothing issued
//! after the failing call.

use vstd::prelude::*;
use vstd::seq_lib::*;

use crate::bus::{Bus, BusErrorKind, BusOp};
use crate::fields::{get_field, lemma_bytes_roundtrip, set_field};
use crate::regmap::{
    Id, IntFlag, PsAcData, PsCanc, PsConf1, PsConf2, PsConf3, PsConf4, PsData, PsSt, PsThdh,
    PsThdl, ID_ADDRESS, INT_FLAG_ADDRESS, PS_AC_DATA_ADDRESS, PS_CANC_ADDRESS, PS_CONF1_ADDRESS,
    PS_CONF2_ADDRESS, PS_CONF3_ADDRESS, PS_CONF4_ADDRESS, PS_DATA_ADDRESS, PS_THDH_ADDRESS,
    PS_THDL_ADDRESS, PS_THDL_RESET,
};
use crate::transport::{read_op, write_op, Interface, PSError};

verus! {

/// The value the identity register's `device_id` field must hold.
pub const DEVICE_ID: u16 = 0x0026;

/// The identity word `w` carries the expected device identity.
pub open spec fn id_matches(w: u16) -> bool {
    get_field(w, 0, 12) == DEVICE_ID
}

/// New PS-CONF1 word after the first power-on step: both reserved
/// configuration bits asserted, everything else kept.
pub open spec fn power_on_step1(cur: u16) -> u16 {
    set_field(set_field(cur, 0, 1, 1), 9, 1, 1)
}

/// New PS-CONF2 word after the second power-on step: run state set to
/// `Stop`, everything else kept.
pub open spec fn power_on_step2(cur: u16) -> u16 {
    set_field(cur, 0, 1, PsSt::Stop.to_bits_spec())
}

/// New PS-CONF1 word after the third power-on step: sensor enable and
/// calibration trigger set, both reserved bits re-asserted, everything
/// else kept.
pub open spec fn power_on_step3(cur: u16) -> u16 {
    set_field(set_field(set_field(set_field(cur, 1, 1, 1), 7, 1, 1), 0, 1, 1), 9, 1, 1)
}

/// New PS-CONF2 word after the fourth power-on step: run state set to
/// `Start`, everything else kept.
pub open spec fn power_on_step4(cur: u16) -> u16 {
    set_field(cur, 0, 1, PsSt::Start.to_bits_spec())
}

/// The transactions a (possibly aborted) power-on sequence issues: for
/// each of the four steps, a read of the current register word followed by
/// a write of the step's update of exactly that word, in the documented
/// order PS-CONF1, PS-CONF2, PS-CONF1, PS-CONF2. A shorter sequence is the
/// prefix completed before a failure.
pub open spec fn power_on_trace(s: Seq<BusOp>) -> bool {
    &&& s.len() <= 8
    &&& (s.len() > 0 ==> s[0] == read_op(PS_CONF1_ADDRESS, s[0].word()))
    &&& (s.len() > 1 ==> s[1] == write_op(PS_CONF1_ADDRESS, power_on_step1(s[0].word())))
    &&& (s.len() > 2 ==> s[2] == read_op(PS_CONF2_ADDRESS, s[2].word()))
    &&& (s.len() > 3 ==> s[3] == write_op(PS_CONF2_ADDRESS, power_on_step2(s[2].word())))
    &&& (s.len() > 4 ==> s[4] == read_op(PS_CONF1_ADDRESS, s[4].word()))
    &&& (s.len() > 5 ==> s[5] == write_op(PS_CONF1_ADDRESS, power_on_step3(s[4].word())))
    &&& (s.len() > 6 ==> s[6] == read_op(PS_CONF2_ADDRESS, s[6].word()))
    &&& (s.len() > 7 ==> s[7] == write_op(PS_CONF2_ADDRESS, power_on_step4(s[6].word())))
}

/// The transactions a (possibly aborted) construction issues: a read of
/// the identity register, then the clear-to-zero write of the low
/// proximity threshold register. A shorter sequence is the prefix
/// completed before the construction stopped.
pub open spec fn init_trace(s: Seq<BusOp>) -> bool {
    &&& s.len() <= 2
    &&& (s.len() > 0 ==> s[0] == read_op(ID_ADDRESS, s[0].word()))
    &&& (s.len() > 1 ==> s[1] == write_op(PS_THDL_ADDRESS, PS_THDL_RESET))
}

/// Appending `s` to `h0` extends it: `h0` stays a prefix and `s` is what
/// follows it.
proof fn lemma_extension(h0: Seq<BusOp>, h1: Seq<BusOp>, s: Seq<BusOp>)
    requires
        h1 == h0 + s,
    ensures
        h0.is_prefix_of(h1),
        h1.skip(h0.len() as int) == s,
        h1.len() == h0.len() + s.len(),
{
    assert(h0 =~= h1.subrange(0, h0.len() as int));
    assert(h1.skip(h0.len() as int) =~= s);
}

/// Typed access to the device's register map over a register transport.
pub struct Registers<B: Bus> {
    interface: Interface<B>,
}

impl<B: Bus> Registers<B> {
    /// The transactions completed on the underlying bus, in order.
    pub closed spec fn hist(&self) -> Seq<BusOp> {
        self.interface.hist()
    }

    /// Wrap a register transport. No transaction is issued.
    pub fn new(interface: Interface<B>) -> (r: Self)
        ensures
            r.hist() == interface.hist(),
    {
        Registers { interface }
    }

    /// Release the underlying bus endpoint.
    pub fn release(self) -> (r: B)
        ensures
            r.hist() == self.hist(),
    {
        self.interface.release()
    }

    /// Read the PS-CONF1 register: one write-then-read transaction of its
    /// full width, decoded into the typed register value.
    pub fn read_ps_conf1(&mut self) -> (r: Result<PsConf1, PSError>)
        ensures
            match r {
                Ok(v) => final(self).hist() == old(self).hist().push(read_op(PS_CONF1_ADDRESS, v@)),
                Err(e) => final(self).hist() == old(self).hist() && e is I2CError,
            },
    {
        match self.interface.read_register(PS_CONF1_ADDRESS) {
            Ok(w) => Ok(PsConf1::from_bits(w)),
            Err(e) => Err(e),
        }
    }

    /// Write the PS-CONF1 register: one transaction framing the register
    /// address byte and the register word's two bytes.
    pub fn write_ps_conf1(&mut self, v: PsConf1) -> (r: Result<(), PSError>)
        ensures
            match r {
                Ok(()) => final(self).hist() == old(self).hist().push(write_op(PS_CONF1_ADDRESS, v@)),
                Err(e) => final(self).hist() == old(self).hist() && e is I2CError,
            },
    {
        self.interface.write_register(PS_CONF1_ADDRESS, v.bits())
    }

    /// Read the PS-CONF2 register: one write-then-read transaction of its
    /// full width, decoded into the typed register value. A word whose
    /// validated fields hold an unassigned pattern is rejected wholesale,
    /// as `PSError::I2CError(BusErrorKind::Other)`.
    pub fn read_ps_conf2(&mut self) -> (r: Result<PsConf2, PSError>)
        ensures
            match r {
                Ok(v) => PsConf2::valid_spec(v@) && final(self).hist() == old(self).hist().push(
                    read_op(PS_CONF2_ADDRESS, v@),
                ),
                Err(e) => {
                    ||| (final(self).hist() == old(self).hist() && e is I2CError)
                    ||| (e == PSError::I2CError(BusErrorKind::Other) && exists|w: u16|
                        !PsConf2::valid_spec(w) && final(self).hist() == old(self).hist().push(
                            #[trigger] read_op(PS_CONF2_ADDRESS, w),
                        ))
                },
            },
    {
        match self.interface.read_register(PS_CONF2_ADDRESS) {
            Ok(w) => {
                if PsConf2::valid(w) {
                    Ok(PsConf2::from_bits(w))
                } else {
                    proof {
                        assert(exists|w2: u16| !PsConf2::valid_spec(w2) && self.hist()
                            == old(self).hist().push(#[trigger] read_op(PS_CONF2_ADDRESS, w2))) by {
                            assert(!PsConf2::valid_spec(w) && self.hist()
                                == old(self).hist().push(read_op(PS_CONF2_ADDRESS, w)));
                        }
                    }
                    Err(PSError::I2CError(BusErrorKind::Other))
                }
            },
            Err(e) => Err(e),
        }
    }

    /// Write the PS-CONF2 register: one transaction framing the register
    /// address byte and the register word's two bytes.
    pub fn write_ps_conf2(&mut self, v: PsConf2) -> (r: Result<(), PSError>)
        ensures
            match r {
                Ok(()) => final(self).hist() == old(self).hist().push(write_op(PS_CONF2_ADDRESS, v@)),
                Err(e) => final(self).hist() == old(self).hist() && e is I2CError,
            },
    {
        self.interface.write_register(PS_CONF2_ADDRESS, v.bits())
    }

    /// Read the PS-CONF3 register: one write-then-read transaction of its
    /// full width, decoded into the typed register value. A word whose
    /// validated fields hold an unassigned pattern is rejected wholesale,
    /// as `PSError::I2CError(BusErrorKind::Other)`.
    pub fn read_ps_conf3(&mut self) -> (r: Result<PsConf3, PSError>)
        ensures
            match r {
                Ok(v) => PsConf3::valid_spec(v@) && final(self).hist() == old(self).hist().push(
                    read_op(PS_CONF3_ADDRESS, v@),
                ),
                Err(e) => {
                    ||| (final(self).hist() == old(self).hist() && e is I2CError)
                    ||| (e == PSError::I2CError(BusErrorKind::Other) && exists|w: u16|
                        !PsConf3::valid_spec(w) && final(self).hist() == old(self).hist().push(
                            #[trigger] read_op(PS_CONF3_ADDRESS, w),
                        ))
                },
            },
    {
        match self.interface.read_register(PS_CONF3_ADDRESS) {
            Ok(w) => {
                if PsConf3::valid(w) {
                    Ok(PsConf3::from_bits(w))
                } else {
                    proof {
                        assert(exists|w2: u16| !PsConf3::valid_spec(w2) && self.hist()
                            == old(self).hist().push(#[trigger] read_op(PS_CONF3_ADDRESS, w2))) by {
                            assert(!PsConf3::valid_spec(w) && self.hist()
                                == old(self).hist().push(read_op(PS_CONF3_ADDRESS, w)));
                        }
                    }
                    Err(PSError::I2CError(BusErrorKind::Other))
                }
            },
            Err(e) => Err(e),
        }
    }

    /// Write the PS-CONF3 register: one transaction framing the register
    /// address byte and the register word's two bytes.
    pub fn write_ps_conf3(&mut self, v: PsConf3) -> (r: Result<(), PSError>)
        ensures
            match r {
                Ok(()) => final(self).hist() == old(self).hist().push(write_op(PS_CONF3_ADDRESS, v@)),
                Err(e) => final(self).hist() == old(self).hist() && e is I2CError,
            },
    {
        self.interface.write_register(PS_CONF3_ADDRESS, v.bits())
    }

    /// Read the PS-THDL register: one write-then-read transaction of its
    /// full width, decoded into the typed register value.
    pub fn read_ps_thdl(&mut self) -> (r: Result<PsThdl, PSError>)
        ensures
            match r {
                Ok(v) => final(self).hist() == old(self).hist().push(read_op(PS_THDL_ADDRESS, v@)),
                Err(e) => final(self).hist() == old(self).hist() && e is I2CError,
            },
    {
        match self.interface.read_register(PS_THDL_ADDRESS) {
            Ok(w) => Ok(PsThdl::from_bits(w)),
            Err(e) => Err(e),
        }
    }

    /// Write the PS-THDL register: one transaction framing the register
    /// address byte and the register word's two bytes.
    pub fn write_ps_thdl(&mut self, v: PsThdl) -> (r: Result<(), PSError>)
        ensures
            match r {
                Ok(()) => final(self).hist() == old(self).hist().push(write_op(PS_THDL_ADDRESS, v@)),
                Err(e) => final(self).hist() == old(self).hist() && e is I2CError,
            },
    {
        self.interface.write_register(PS_THDL_ADDRESS, v.bits())
    }

    /// Read the PS-THDH register: one write-then-read transaction of its
    /// full width, decoded into the typed register value.
    pub fn read_ps_thdh(&mut self) -> (r: Result<PsThdh, PSError>)
        ensures
            match r {
                Ok(v) => final(self).hist() == old(self).hist().push(read_op(PS_THDH_ADDRESS, v@)),
                Err(e) => final(self).hist() == old(self).hist() && e is I2CError,
            },
    {
        match self.interface.read_register(PS_THDH_ADDRESS) {
            Ok(w) => Ok(PsThdh::from_bits(w)),
            Err(e) => Err(e),
        }
    }

    /// Write the PS-THDH register: one transaction framing the register
    /// address byte and the register word's two bytes.
    pub fn write_ps_thdh(&mut self, v: PsThdh) -> (r: Result<(), PSError>)
        ensures
            match r {
                Ok(()) => final(self).hist() == old(self).hist().push(write_op(PS_THDH_ADDRESS, v@)),
                Err(e) => final(self).hist() == old(self).hist() && e is I2CError,
            },
    {
        self.interface.write_register(PS_THDH_ADDRESS, v.bits())
    }

    /// Read the PS-CANC register: one write-then-read transaction of its
    /// full width, decoded into the typed register value.
    pub fn read_ps_canc(&mut self) -> (r: Result<PsCanc, PSError>)
        ensures
            match r {
                Ok(v) => final(self).hist() == old(self).hist().push(read_op(PS_CANC_ADDRESS, v@)),
                Err(e) => final(self).hist() == old(self).hist() && e is I2CError,
            },
    {
        match self.interface.read_register(PS_CANC_ADDRESS) {
            Ok(w) => Ok(PsCanc::from_bits(w)),
            Err(e) => Err(e),
        }
    }

    /// Write the PS-CANC register: one transaction framing the register
    /// address byte and the register word's two bytes.
    pub fn write_ps_canc(&mut self, v: PsCanc) -> (r: Result<(), PSError>)
        ensures
            match r {
                Ok(()) => final(self).hist() == old(self).hist().push(write_op(PS_CANC_ADDRESS, v@)),
                Err(e) => final(self).hist() == old(self).hist() && e is I2CError,
            },
    {
        self.interface.write_register(PS_CANC_ADDRESS, v.bits())
    }

    /// Read the PS-CONF4 register: one write-then-read transaction of its
    /// full width, decoded into the typed register value.
    pub fn read_ps_conf4(&mut self) -> (r: Result<PsConf4, PSError>)
        ensures
            match r {
                Ok(v) => final(self).hist() == old(self).hist().push(read_op(PS_CONF4_ADDRESS, v@)),
                Err(e) => final(self).hist() == old(self).hist() && e is I2CError,
            },
    {
        match self.interface.read_register(PS_CONF4_ADDRESS) {
            Ok(w) => Ok(PsConf4::from_bits(w)),
            Err(e) => Err(e),
        }
    }

    /// Write the PS-CONF4 register: one transaction framing the register
    /// address byte and the register word's two bytes.
    pub fn write_ps_conf4(&mut self, v: PsConf4) -> (r: Result<(), PSError>)
        ensures
            match r {
                Ok(()) => final(self).hist() == old(self).hist().push(write_op(PS_CONF4_ADDRESS, v@)),
                Err(e) => final(self).hist() == old(self).hist() && e is I2CError,
            },
    {
        self.interface.write_register(PS_CONF4_ADDRESS, v.bits())
    }

    /// Read the PS-DATA register: one write-then-read transaction of its
    /// full width, decoded into the typed register value.
    pub fn read_ps_data(&mut self) -> (r: Result<PsData, PSError>)
        ensures
            match r {
                Ok(v) => final(self).hist() == old(self).hist().push(read_op(PS_DATA_ADDRESS, v@)),
                Err(e) => final(self).hist() == old(self).hist() && e is I2CError,
            },
    {
        match self.interface.read_register(PS_DATA_ADDRESS) {
            Ok(w) => Ok(PsData::from_bits(w)),
            Err(e) => Err(e),
        }
    }

    /// Read the INT-FLAG register: one write-then-read transaction of its
    /// full width, decoded into the typed register value.
    pub fn read_int_flag(&mut self) -> (r: Result<IntFlag, PSError>)
        ensures
            match r {
                Ok(v) => final(self).hist() == old(self).hist().push(read_op(INT_FLAG_ADDRESS, v@)),
                Err(e) => final(self).hist() == old(self).hist() && e is I2CError,
            },
    {
        match self.interface.read_register(INT_FLAG_ADDRESS) {
            Ok(w) => Ok(IntFlag::from_bits(w)),
            Err(e) => Err(e),
        }
    }

    /// Read the ID register: one write-then-read transaction of its
    /// full width, decoded into the typed register value.
    pub fn read_id(&mut self) -> (r: Result<Id, PSError>)
        ensures
            match r {
                Ok(v) => final(self).hist() == old(self).hist().push(read_op(ID_ADDRESS, v@)),
                Err(e) => final(self).hist() == old(self).hist() && e is I2CError,
            },
    {
        match self.interface.read_register(ID_ADDRESS) {
            Ok(w) => Ok(Id::from_bits(w)),
            Err(e) => Err(e),
        }
    }

    /// Read the PS-AC-DATA register: one write-then-read transaction of its
    /// full width, decoded into the typed register value.
    pub fn read_ps_ac_data(&mut self) -> (r: Result<PsAcData, PSError>)
        ensures
            match r {
                Ok(v) => final(self).hist() == old(self).hist().push(read_op(PS_AC_DATA_ADDRESS, v@)),
                Err(e) => final(self).hist() == old(self).hist() && e is I2CError,
            },
    {
        match self.interface.read_register(PS_AC_DATA_ADDRESS) {
            Ok(w) => Ok(PsAcData::from_bits(w)),
            Err(e) => Err(e),
        }
    }

}

/// Verify the device identity and write the baseline clear of the low
/// proximity threshold register, on an already-wrapped register map.
///
/// Exactly the identity read is issued when the identity does not match:
/// no further transaction follows a mismatch or a failure.
pub fn initialize<B: Bus>(ll: &mut Registers<B>) -> (r: Result<(), PSError>)
    ensures
        ({
            let h0 = old(ll).hist();
            let h1 = final(ll).hist();
            &&& h0.is_prefix_of(h1)
            &&& init_trace(h1.skip(h0.len() as int))
            &&& match r {
                Ok(()) => h1.len() == h0.len() + 2 && id_matches(h1[h0.len() as int].word()),
                Err(PSError::InvalidID) => h1.len() == h0.len() + 1 && !id_matches(
                    h1[h0.len() as int].word(),
                ),
                Err(PSError::I2CError(_)) => h1.len() < h0.len() + 2 && (h1.len() == h0.len() + 1
                    ==> id_matches(h1[h0.len() as int].word())),
            }
        }),
{
    let ghost h0 = ll.hist();
    let idreg = match ll.read_id() {
        Ok(v) => v,
        Err(e) => {
            proof {
                assert(h0 + Seq::<BusOp>::empty() =~= h0);
                lemma_extension(h0, ll.hist(), Seq::<BusOp>::empty());
            }
            return Err(e);
        },
    };
    let ghost rd = read_op(ID_ADDRESS, idreg@);
    proof {
        assert(ll.hist() =~= h0 + seq![rd]);
        lemma_extension(h0, ll.hist(), seq![rd]);
        lemma_bytes_roundtrip(idreg@, 0, 0);
    }
    if idreg.device_id() != DEVICE_ID {
        return Err(PSError::InvalidID);
    }
    match ll.write_ps_thdl(PsThdl::reset()) {
        Ok(()) => {
            proof {
                assert(ll.hist() =~= h0 + seq![rd, write_op(PS_THDL_ADDRESS, PS_THDL_RESET)]);
                lemma_extension(h0, ll.hist(), seq![rd, write_op(PS_THDL_ADDRESS, PS_THDL_RESET)]);
            }
            Ok(())
        },
        Err(e) => Err(e),
    }
}

/// Handle on one proximity-sensor device. It exclusively owns the bus
/// endpoint it was opened on until `destroy` gives the endpoint back.
pub struct VCNL36825T<B: Bus> {
    ll: Registers<B>,
}

impl<B: Bus> VCNL36825T<B> {
    /// The transactions completed on the underlying bus, in order.
    pub closed spec fn hist(&self) -> Seq<BusOp> {
        self.ll.hist()
    }

    /// The typed register map the handle owns.
    pub closed spec fn regs_spec(&self) -> Registers<B> {
        self.ll
    }

    /// Open a device handle on a bus endpoint: read the identity register,
    /// fail with `PSError::InvalidID` unless its identity field holds the
    /// expected constant, then clear the low proximity threshold register
    /// to zero as a baseline. On failure the bus endpoint is dropped with
    /// the failed handle; a caller that wants it back must keep its own
    /// copy.
    pub fn new(bus: B) -> (r: Result<VCNL36825T<B>, PSError>)
        ensures
            match r {
                Ok(dev) => ({
                    let h0 = bus.hist();
                    let h1 = dev.hist();
                    &&& h0.is_prefix_of(h1)
                    &&& h1.len() == h0.len() + 2
                    &&& init_trace(h1.skip(h0.len() as int))
                    &&& id_matches(h1[h0.len() as int].word())
                }),
                Err(e) => e is InvalidID || e is I2CError,
            },
    {
        let mut ll = Registers::new(Interface::new(bus));
        match initialize(&mut ll) {
            Ok(()) => Ok(VCNL36825T { ll }),
            Err(e) => Err(e),
        }
    }

    /// Run the fixed power-on sequence: four register writes in the
    /// documented order, each a fresh read-modify-write of the current
    /// hardware state. A failing step aborts the sequence at that point;
    /// no transaction is issued after the failure, and the steps already
    /// taken are not rolled back.
    pub fn power_on(&mut self) -> (r: Result<(), PSError>)
        ensures
            ({
                let h0 = old(self).hist();
                let h1 = final(self).hist();
                &&& h0.is_prefix_of(h1)
                &&& power_on_trace(h1.skip(h0.len() as int))
                &&& match r {
                    Ok(()) => h1.len() == h0.len() + 8,
                    Err(e) => h1.len() < h0.len() + 8 && e is I2CError,
                }
            }),
    {
        let ghost h0 = self.hist();

        // Step 1: assert the two reserved configuration bits of PS-CONF1.
        let cur1 = match self.ll.interface.read_register(PS_CONF1_ADDRESS) {
            Ok(w) => w,
            Err(e) => {
                proof {
                    assert(h0 + Seq::<BusOp>::empty() =~= h0);
                    lemma_extension(h0, self.hist(), Seq::<BusOp>::empty());
                }
                return Err(e);
            },
        };
        let ghost o1 = read_op(PS_CONF1_ADDRESS, cur1);
        proof {
            lemma_bytes_roundtrip(cur1, 0, 0);
        }
        let mut r1 = PsConf1::from_bits(cur1);
        r1.set_res_1(1);
        r1.set_res_2(1);
        let w1 = r1.bits();
        let ghost o2 = write_op(PS_CONF1_ADDRESS, w1);
        match self.ll.interface.write_register(PS_CONF1_ADDRESS, w1) {
            Ok(()) => (),
            Err(e) => {
                proof {
                    assert(self.hist() =~= h0 + seq![o1]);
                    lemma_extension(h0, self.hist(), seq![o1]);
                }
                return Err(e);
            },
        };

        // Step 2: bring the run state to Stop before reconfiguring.
        let cur2 = match self.ll.interface.read_register(PS_CONF2_ADDRESS) {
            Ok(w) => w,
            Err(e) => {
                proof {
                    assert(self.hist() =~= h0 + seq![o1, o2]);
                    lemma_extension(h0, self.hist(), seq![o1, o2]);
                }
                return Err(e);
            },
        };
        let ghost o3 = read_op(PS_CONF2_ADDRESS, cur2);
        proof {
            lemma_bytes_roundtrip(cur2, 0, 0);
        }
        let mut r2 = PsConf2::from_bits(cur2);
        r2.set_ps_st(PsSt::Stop);
        let w2 = r2.bits();
        let ghost o4 = write_op(PS_CONF2_ADDRESS, w2);
        match self.ll.interface.write_register(PS_CONF2_ADDRESS, w2) {
            Ok(()) => (),
            Err(e) => {
                proof {
                    assert(self.hist() =~= h0 + seq![o1, o2, o3]);
                    lemma_extension(h0, self.hist(), seq![o1, o2, o3]);
                }
                return Err(e);
            },
        };

        // Step 3: enable the sensor and trigger calibration, re-asserting
        // the reserved bits on the freshly read word.
        let cur3 = match self.ll.interface.read_register(PS_CONF1_ADDRESS) {
            Ok(w) => w,
            Err(e) => {
                proof {
                    assert(self.hist() =~= h0 + seq![o1, o2, o3, o4]);
                    lemma_extension(h0, self.hist(), seq![o1, o2, o3, o4]);
                }
                return Err(e);
            },
        };
        let ghost o5 = read_op(PS_CONF1_ADDRESS, cur3);
        proof {
            lemma_bytes_roundtrip(cur3, 0, 0);
        }
        let mut r3 = PsConf1::from_bits(cur3);
        r3.set_ps_on(true);
        r3.set_ps_cal(true);
        r3.set_res_1(1);
        r3.set_res_2(1);
        let w3 = r3.bits();
        let ghost o6 = write_op(PS_CONF1_ADDRESS, w3);
        match self.ll.interface.write_register(PS_CONF1_ADDRESS, w3) {
            Ok(()) => (),
            Err(e) => {
                proof {
                    assert(self.hist() =~= h0 + seq![o1, o2, o3, o4, o5]);
                    lemma_extension(h0, self.hist(), seq![o1, o2, o3, o4, o5]);
                }
                return Err(e);
            },
        };

        // Step 4: bring the run state to Start.
        let cur4 = match self.ll.interface.read_register(PS_CONF2_ADDRESS) {
            Ok(w) => w,
            Err(e) => {
                proof {
                    assert(self.hist() =~= h0 + seq![o1, o2, o3, o4, o5, o6]);
                    lemma_extension(h0, self.hist(), seq![o1, o2, o3, o4, o5, o6]);
                }
                return Err(e);
            },
        };
        let ghost o7 = read_op(PS_CONF2_ADDRESS, cur4);
        proof {
            lemma_bytes_roundtrip(cur4, 0, 0);
        }
        let mut r4 = PsConf2::from_bits(cur4);
        r4.set_ps_st(PsSt::Start);
        let w4 = r4.bits();
        let ghost o8 = write_op(PS_CONF2_ADDRESS, w4);
        match self.ll.interface.write_register(PS_CONF2_ADDRESS, w4) {
            Ok(()) => {
                proof {
                    assert(self.hist() =~= h0 + seq![o1, o2, o3, o4, o5, o6, o7, o8]);
                    lemma_extension(h0, self.hist(), seq![o1, o2, o3, o4, o5, o6, o7, o8]);
                }
                Ok(())
            },
            Err(e) => {
                proof {
                    assert(self.hist() =~= h0 + seq![o1, o2, o3, o4, o5, o6, o7]);
                    lemma_extension(h0, self.hist(), seq![o1, o2, o3, o4, o5, o6, o7]);
                }
                Err(e)
            },
        }
    }

    /// Release the handle and return exclusive ownership of the bus
    /// endpoint. No further operation is possible on the handle.
    pub fn destroy(self) -> (r: B)
        ensures
            r.hist() == self.hist(),
    {
        self.ll.release()
    }

    /// Direct typed register access for advanced configuration.
    pub fn registers(&mut self) -> (r: &mut Registers<B>)
        ensures
            *r == old(self).regs_spec(),
            final(self).regs_spec() == *final(r),
            (*r).hist() == old(self).hist(),
            final(self).hist() == final(r).hist(),
    {
        &mut self.ll
    }
}

} // verus!
