//! A simulated bus endpoint with one device behind it.
//!
//! `SimBus` keeps a word of backing store per modeled register, echoes
//! written bytes back on later reads, records every completed transaction,
//! and can be told to fail every call from the n-th one on with a chosen
//! error kind. It is the way to exercise the driver without hardware, and
//! its contracts pin the echo behaviour exactly.

use vstd::prelude::*;

use crate::bus::{Bus, BusErrorKind, BusOp};
use crate::fields::{hi_byte, hi_byte_exec, lo_byte, lo_byte_exec, word_of, word_of_exec};
use crate::regmap::{
    ID_ADDRESS, ID_RESET, INT_FLAG_ADDRESS, INT_FLAG_RESET, PS_AC_DATA_ADDRESS, PS_AC_DATA_RESET,
    PS_CANC_ADDRESS, PS_CANC_RESET, PS_CONF1_ADDRESS, PS_CONF1_RESET, PS_CONF2_ADDRESS,
    PS_CONF2_RESET, PS_CONF3_ADDRESS, PS_CONF3_RESET, PS_CONF4_ADDRESS, PS_CONF4_RESET,
    PS_DATA_ADDRESS, PS_DATA_RESET, PS_THDH_ADDRESS, PS_THDH_RESET, PS_THDL_ADDRESS,
    PS_THDL_RESET,
};

verus! {

/// The register addresses the simulated device keeps backing store for.
pub open spec fn sim_models(reg: u8) -> bool {
    ||| reg == PS_CONF1_ADDRESS
    ||| reg == PS_CONF2_ADDRESS
    ||| reg == PS_CONF3_ADDRESS
    ||| reg == PS_THDL_ADDRESS
    ||| reg == PS_THDH_ADDRESS
    ||| reg == PS_CANC_ADDRESS
    ||| reg == PS_CONF4_ADDRESS
    ||| reg == PS_DATA_ADDRESS
    ||| reg == INT_FLAG_ADDRESS
    ||| reg == ID_ADDRESS
    ||| reg == PS_AC_DATA_ADDRESS
}

/// The word each register of a freshly simulated device holds: its
/// documented reset value, and zero at addresses outside the map.
pub open spec fn reset_word(reg: u8) -> u16 {
    if reg == PS_CONF1_ADDRESS {
        PS_CONF1_RESET
    } else if reg == PS_CONF2_ADDRESS {
        PS_CONF2_RESET
    } else if reg == PS_CONF3_ADDRESS {
        PS_CONF3_RESET
    } else if reg == PS_THDL_ADDRESS {
        PS_THDL_RESET
    } else if reg == PS_THDH_ADDRESS {
        PS_THDH_RESET
    } else if reg == PS_CANC_ADDRESS {
        PS_CANC_RESET
    } else if reg == PS_CONF4_ADDRESS {
        PS_CONF4_RESET
    } else if reg == PS_DATA_ADDRESS {
        PS_DATA_RESET
    } else if reg == INT_FLAG_ADDRESS {
        INT_FLAG_RESET
    } else if reg == ID_ADDRESS {
        ID_RESET
    } else if reg == PS_AC_DATA_ADDRESS {
        PS_AC_DATA_RESET
    } else {
        0
    }
}

/// Simulated bus endpoint: per-register backing store, a record of every
/// completed transaction, and a configurable point from which every call
/// fails.
pub struct SimBus {
    m_conf1: u16,
    m_conf2: u16,
    m_conf3: u16,
    m_thdl: u16,
    m_thdh: u16,
    m_canc: u16,
    m_conf4: u16,
    m_data: u16,
    m_int_flag: u16,
    m_id: u16,
    m_ac_data: u16,
    log: Vec<BusOp>,
    calls: usize,
    fail_from: usize,
    fail_kind: BusErrorKind,
}

impl SimBus {
    /// The word the simulated device currently holds at register address
    /// `reg`; zero at addresses outside the map.
    pub closed spec fn mem_spec(&self, reg: u8) -> u16 {
        if reg == PS_CONF1_ADDRESS {
            self.m_conf1
        } else if reg == PS_CONF2_ADDRESS {
            self.m_conf2
        } else if reg == PS_CONF3_ADDRESS {
            self.m_conf3
        } else if reg == PS_THDL_ADDRESS {
            self.m_thdl
        } else if reg == PS_THDH_ADDRESS {
            self.m_thdh
        } else if reg == PS_CANC_ADDRESS {
            self.m_canc
        } else if reg == PS_CONF4_ADDRESS {
            self.m_conf4
        } else if reg == PS_DATA_ADDRESS {
            self.m_data
        } else if reg == INT_FLAG_ADDRESS {
            self.m_int_flag
        } else if reg == ID_ADDRESS {
            self.m_id
        } else if reg == PS_AC_DATA_ADDRESS {
            self.m_ac_data
        } else {
            0
        }
    }

    /// How many calls have been attempted so far.
    pub closed spec fn calls_spec(&self) -> usize {
        self.calls
    }

    /// The call index from which every call fails.
    pub closed spec fn fail_from_spec(&self) -> usize {
        self.fail_from
    }

    /// The error kind a failing call reports.
    pub closed spec fn fail_kind_spec(&self) -> BusErrorKind {
        self.fail_kind
    }

    /// A fresh simulated device: every register at its documented reset
    /// value, nothing recorded, and no call set up to fail.
    pub fn new() -> (r: SimBus)
        ensures
            r.hist() == Seq::<BusOp>::empty(),
            forall|a: u8| r.mem_spec(a) == reset_word(a),
            r.calls_spec() == 0,
            r.fail_from_spec() == usize::MAX,
    {
        SimBus {
            m_conf1: PS_CONF1_RESET,
            m_conf2: PS_CONF2_RESET,
            m_conf3: PS_CONF3_RESET,
            m_thdl: PS_THDL_RESET,
            m_thdh: PS_THDH_RESET,
            m_canc: PS_CANC_RESET,
            m_conf4: PS_CONF4_RESET,
            m_data: PS_DATA_RESET,
            m_int_flag: INT_FLAG_RESET,
            m_id: ID_RESET,
            m_ac_data: PS_AC_DATA_RESET,
            log: Vec::new(),
            calls: 0,
            fail_from: usize::MAX,
            fail_kind: BusErrorKind::Other,
        }
    }

    /// Put the word `w` into the device's backing store at register
    /// address `reg`, without a transaction. An address outside the map
    /// stores nothing.
    pub fn set_reg(&mut self, reg: u8, w: u16)
        ensures
            final(self).hist() == old(self).hist(),
            forall|a: u8|
                final(self).mem_spec(a) == (if a == reg && sim_models(reg) {
                    w
                } else {
                    old(self).mem_spec(a)
                }),
            final(self).calls_spec() == old(self).calls_spec(),
            final(self).fail_from_spec() == old(self).fail_from_spec(),
            final(self).fail_kind_spec() == old(self).fail_kind_spec(),
    {
        self.store(reg, w);
    }

    /// Make every call from the `n`-th one on (counting from zero) fail
    /// with kind `kind`.
    pub fn fail_from(&mut self, n: usize, kind: BusErrorKind)
        ensures
            final(self).hist() == old(self).hist(),
            forall|a: u8| final(self).mem_spec(a) == old(self).mem_spec(a),
            final(self).calls_spec() == old(self).calls_spec(),
            final(self).fail_from_spec() == n,
            final(self).fail_kind_spec() == kind,
    {
        self.fail_from = n;
        self.fail_kind = kind;
    }

    /// How many transactions have been recorded.
    pub fn log_len(&self) -> (r: usize)
        ensures
            r == self.hist().len(),
    {
        self.log.len()
    }

    /// The `i`-th recorded transaction.
    pub fn log_get(&self, i: usize) -> (r: BusOp)
        requires
            i < self.hist().len(),
        ensures
            r == self.hist()[i as int],
    {
        self.log[i]
    }

    /// The word the device currently holds at register address `reg`.
    pub fn reg_word(&self, reg: u8) -> (r: u16)
        ensures
            r == self.mem_spec(reg),
    {
        self.load(reg)
    }

    /// Addressed write against the simulated device: on success the two
    /// payload bytes become the stored word at `reg`, least-significant
    /// byte first, and the transaction is recorded; from the configured
    /// failure point on, the call reports the configured kind and neither
    /// stores nor records anything.
    pub fn sim_write(&mut self, dev: u8, reg: u8, b0: u8, b1: u8) -> (r: Result<
        (),
        BusErrorKind,
    >)
        ensures
            match r {
                Ok(()) => {
                    &&& old(self).calls_spec() < old(self).fail_from_spec()
                    &&& final(self).hist() == old(self).hist().push(
                        BusOp::Write { dev, reg, b0, b1 },
                    )
                    &&& forall|a: u8|
                        final(self).mem_spec(a) == (if a == reg && sim_models(reg) {
                            word_of(b0, b1)
                        } else {
                            old(self).mem_spec(a)
                        })
                    &&& final(self).calls_spec() == old(self).calls_spec() + 1
                },
                Err(k) => {
                    &&& old(self).calls_spec() >= old(self).fail_from_spec()
                    &&& k == old(self).fail_kind_spec()
                    &&& final(self).hist() == old(self).hist()
                    &&& forall|a: u8| final(self).mem_spec(a) == old(self).mem_spec(a)
                },
            },
            final(self).fail_from_spec() == old(self).fail_from_spec(),
            final(self).fail_kind_spec() == old(self).fail_kind_spec(),
    {
        if self.calls >= self.fail_from {
            if self.calls < usize::MAX {
                self.calls = self.calls + 1;
            }
            return Err(self.fail_kind);
        }
        self.calls = self.calls + 1;
        let w = word_of_exec(b0, b1);
        self.store(reg, w);
        let ghost mid = *self;
        self.log.push(BusOp::Write { dev, reg, b0, b1 });
        proof {
            assert forall|a: u8|
                self.mem_spec(a) == (if a == reg && sim_models(reg) {
                    word_of(b0, b1)
                } else {
                    old(self).mem_spec(a)
                }) by {
                assert(self.mem_spec(a) == mid.mem_spec(a));
                assert(mid.mem_spec(a) == (if a == reg && sim_models(reg) {
                    w
                } else {
                    old(self).mem_spec(a)
                }));
            }
        }
        Ok(())
    }

    /// Addressed write-then-read against the simulated device: on success
    /// the stored word at `reg` comes back as its two bytes,
    /// least-significant first, and the transaction is recorded with the
    /// bytes that were read; from the configured failure point on, the
    /// call reports the configured kind and records nothing.
    pub fn sim_write_read(&mut self, dev: u8, reg: u8) -> (r: Result<(u8, u8), BusErrorKind>)
        ensures
            match r {
                Ok((b0, b1)) => {
                    &&& old(self).calls_spec() < old(self).fail_from_spec()
                    &&& b0 == lo_byte(old(self).mem_spec(reg))
                    &&& b1 == hi_byte(old(self).mem_spec(reg))
                    &&& final(self).hist() == old(self).hist().push(
                        BusOp::WriteRead { dev, reg, b0, b1 },
                    )
                    &&& final(self).calls_spec() == old(self).calls_spec() + 1
                },
                Err(k) => {
                    &&& old(self).calls_spec() >= old(self).fail_from_spec()
                    &&& k == old(self).fail_kind_spec()
                    &&& final(self).hist() == old(self).hist()
                },
            },
            forall|a: u8| final(self).mem_spec(a) == old(self).mem_spec(a),
            final(self).fail_from_spec() == old(self).fail_from_spec(),
            final(self).fail_kind_spec() == old(self).fail_kind_spec(),
    {
        if self.calls >= self.fail_from {
            if self.calls < usize::MAX {
                self.calls = self.calls + 1;
            }
            return Err(self.fail_kind);
        }
        self.calls = self.calls + 1;
        let w = self.load(reg);
        let b0 = lo_byte_exec(w);
        let b1 = hi_byte_exec(w);
        self.log.push(BusOp::WriteRead { dev, reg, b0, b1 });
        Ok((b0, b1))
    }

    fn load(&self, reg: u8) -> (r: u16)
        ensures
            r == self.mem_spec(reg),
    {
        if reg == PS_CONF1_ADDRESS {
            self.m_conf1
        } else if reg == PS_CONF2_ADDRESS {
            self.m_conf2
        } else if reg == PS_CONF3_ADDRESS {
            self.m_conf3
        } else if reg == PS_THDL_ADDRESS {
            self.m_thdl
        } else if reg == PS_THDH_ADDRESS {
            self.m_thdh
        } else if reg == PS_CANC_ADDRESS {
            self.m_canc
        } else if reg == PS_CONF4_ADDRESS {
            self.m_conf4
        } else if reg == PS_DATA_ADDRESS {
            self.m_data
        } else if reg == INT_FLAG_ADDRESS {
            self.m_int_flag
        } else if reg == ID_ADDRESS {
            self.m_id
        } else if reg == PS_AC_DATA_ADDRESS {
            self.m_ac_data
        } else {
            0
        }
    }

    fn store(&mut self, reg: u8, w: u16)
        ensures
            final(self).hist() == old(self).hist(),
            forall|a: u8|
                final(self).mem_spec(a) == (if a == reg && sim_models(reg) {
                    w
                } else {
                    old(self).mem_spec(a)
                }),
            final(self).calls_spec() == old(self).calls_spec(),
            final(self).fail_from_spec() == old(self).fail_from_spec(),
            final(self).fail_kind_spec() == old(self).fail_kind_spec(),
    {
        if reg == PS_CONF1_ADDRESS {
            self.m_conf1 = w;
        } else if reg == PS_CONF2_ADDRESS {
            self.m_conf2 = w;
        } else if reg == PS_CONF3_ADDRESS {
            self.m_conf3 = w;
        } else if reg == PS_THDL_ADDRESS {
            self.m_thdl = w;
        } else if reg == PS_THDH_ADDRESS {
            self.m_thdh = w;
        } else if reg == PS_CANC_ADDRESS {
            self.m_canc = w;
        } else if reg == PS_CONF4_ADDRESS {
            self.m_conf4 = w;
        } else if reg == PS_DATA_ADDRESS {
            self.m_data = w;
        } else if reg == INT_FLAG_ADDRESS {
            self.m_int_flag = w;
        } else if reg == ID_ADDRESS {
            self.m_id = w;
        } else if reg == PS_AC_DATA_ADDRESS {
            self.m_ac_data = w;
        }
    }
}

impl Bus for SimBus {
    closed spec fn hist(&self) -> Seq<BusOp> {
        self.log@
    }

    fn write(&mut self, dev: u8, reg: u8, b0: u8, b1: u8) -> (r: Result<(), BusErrorKind>) {
        self.sim_write(dev, reg, b0, b1)
    }

    fn write_read(&mut self, dev: u8, reg: u8) -> (r: Result<(u8, u8), BusErrorKind>) {
        self.sim_write_read(dev, reg)
    }
}

} // verus!
