//! Register transport: adapts a bus capability to "write a 16-bit register
//! word at a register address" / "read a 16-bit register word from a
//! register address", bound to the device's fixed bus address, and turns
//! bus failures into the driver's error type.

use vstd::prelude::*;

use crate::bus::{Bus, BusErrorKind, BusOp};
use crate::fields::{hi_byte, hi_byte_exec, lo_byte, lo_byte_exec, word_of_exec};

verus! {

/// The device's fixed 7-bit bus address.
pub const DEVICE_ADDRESS: u8 = 0x60;

/// Driver error: either the identity register did not hold the expected
/// constant at construction, or a bus transaction failed with the given
/// normalized kind. A rejected register decode (an unassigned bit pattern
/// in a validated field) is surfaced as a transport failure of kind
/// `BusErrorKind::Other`.
#[derive(Clone, Copy, Debug, PartialEq, Eq, Structural)]
pub enum PSError {
    /// The identity register did not match the expected device identity.
    InvalidID,
    /// A bus transaction failed, or a register read decoded to an
    /// unassigned bit pattern.
    I2CError(BusErrorKind),
}

/// The write transaction the transport issues for register `reg` and word
/// `w`: device address, register address byte, then the word's two bytes in
/// little-endian order.
pub open spec fn write_op(reg: u8, w: u16) -> BusOp {
    BusOp::Write { dev: DEVICE_ADDRESS, reg, b0: lo_byte(w), b1: hi_byte(w) }
}

/// The write-then-read transaction the transport issues for register `reg`
/// when the device answers with word `w`.
pub open spec fn read_op(reg: u8, w: u16) -> BusOp {
    BusOp::WriteRead { dev: DEVICE_ADDRESS, reg, b0: lo_byte(w), b1: hi_byte(w) }
}

/// Register transport over a bus capability, fixing the device bus address.
pub struct Interface<B: Bus> {
    bus: B,
}

impl<B: Bus> Interface<B> {
    /// The transactions completed on the underlying bus, in order.
    pub closed spec fn hist(&self) -> Seq<BusOp> {
        self.bus.hist()
    }

    /// Wrap a bus endpoint. No transaction is issued.
    pub fn new(bus: B) -> (r: Self)
        ensures
            r.hist() == bus.hist(),
    {
        Interface { bus }
    }

    /// Release the underlying bus endpoint.
    pub fn release(self) -> (r: B)
        ensures
            r.hist() == self.hist(),
    {
        self.bus
    }

    /// Write the register word `w` at register address `address`: one bus
    /// transaction framing the address byte and then the word's two bytes
    /// as two writes. On failure nothing is written and the bus's reported
    /// kind is surfaced.
    pub fn write_register(&mut self, address: u8, w: u16) -> (r: Result<(), PSError>)
        ensures
            match r {
                Ok(()) => final(self).hist() == old(self).hist().push(write_op(address, w)),
                Err(e) => final(self).hist() == old(self).hist() && e is I2CError,
            },
    {
        let b0 = lo_byte_exec(w);
        let b1 = hi_byte_exec(w);
        match self.bus.write(DEVICE_ADDRESS, address, b0, b1) {
            Ok(()) => Ok(()),
            Err(k) => Err(PSError::I2CError(k)),
        }
    }

    /// Read the register word at register address `address`: one combined
    /// bus transaction writing the address byte and reading the word's two
    /// bytes. On failure nothing is read and the bus's reported kind is
    /// surfaced.
    pub fn read_register(&mut self, address: u8) -> (r: Result<u16, PSError>)
        ensures
            match r {
                Ok(w) => final(self).hist() == old(self).hist().push(read_op(address, w)),
                Err(e) => final(self).hist() == old(self).hist() && e is I2CError,
            },
    {
        match self.bus.write_read(DEVICE_ADDRESS, address) {
            Ok((b0, b1)) => {
                let w = word_of_exec(b0, b1);
                proof {
                    crate::fields::lemma_bytes_roundtrip(w, b0, b1);
                }
                Ok(w)
            },
            Err(k) => Err(PSError::I2CError(k)),
        }
    }
}

} // verus!
