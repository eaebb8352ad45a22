//! The two-wire bus capability the driver is built on.
//!
//! A bus endpoint can perform an addressed write of a register address byte
//! followed by two payload bytes, and an addressed write-then-read that
//! writes the register address byte and reads the two register bytes back.
//! Failures are reported as a normalized error kind and are never retried
//! at this layer.
//!
//! For reasoning, every bus carries a ghost history: the sequence of
//! transactions it has completed so far. A successful call appends exactly
//! one transaction; a failed call appends nothing.

use vstd::prelude::*;

verus! {

/// Normalized bus failure kind, reported by the bus capability and carried
/// through the driver's error type without interpretation.
#[derive(Clone, Copy, Debug, PartialEq, Eq, Structural)]
pub enum BusErrorKind {
    /// A bus-level error such as a misplaced start or stop condition.
    Bus,
    /// Bus arbitration was lost to another controller.
    ArbitrationLoss,
    /// The device did not acknowledge; it may be absent.
    NoAcknowledge,
    /// The transaction did not complete in time.
    Timeout,
    /// Any other failure, including a rejected register decode.
    Other,
}

/// One completed bus transaction on a 16-bit register: the device bus
/// address, the register address byte, and the two payload bytes in wire
/// order (least-significant byte first).
#[derive(Clone, Copy, Debug, PartialEq, Eq, Structural)]
pub enum BusOp {
    /// An addressed write: the register address byte framed first, then the
    /// two data bytes as a second framed write.
    Write { dev: u8, reg: u8, b0: u8, b1: u8 },
    /// An addressed write-then-read: the register address byte written,
    /// then two bytes read back; `b0` and `b1` are the bytes that were read.
    WriteRead { dev: u8, reg: u8, b0: u8, b1: u8 },
}

impl BusOp {
    /// The register word the transaction carried, joined from its two wire
    /// bytes.
    pub open spec fn word(self) -> u16 {
        match self {
            BusOp::Write { b0, b1, .. } => crate::fields::word_of(b0, b1),
            BusOp::WriteRead { b0, b1, .. } => crate::fields::word_of(b0, b1),
        }
    }
}

/// A two-wire bus endpoint able to carry the device's 16-bit register
/// transactions. Callers supply the implementation; the driver promises
/// nothing about which calls fail, only that the ghost history reflects
/// exactly the calls that succeeded, in order.
pub trait Bus: Sized {
    /// The transactions this bus has completed so far, in order.
    spec fn hist(&self) -> Seq<BusOp>;

    /// Addressed write of a register address byte and two payload bytes,
    /// framed as two writes in one transaction.
    fn write(&mut self, dev: u8, reg: u8, b0: u8, b1: u8) -> (r: Result<(), BusErrorKind>)
        ensures
            match r {
                Ok(()) => final(self).hist() == old(self).hist().push(
                    BusOp::Write { dev, reg, b0, b1 },
                ),
                Err(_) => final(self).hist() == old(self).hist(),
            },
    ;

    /// Addressed write of a register address byte followed by a read of the
    /// two register bytes, as one combined transaction.
    fn write_read(&mut self, dev: u8, reg: u8) -> (r: Result<(u8, u8), BusErrorKind>)
        ensures
            match r {
                Ok((b0, b1)) => final(self).hist() == old(self).hist().push(
                    BusOp::WriteRead { dev, reg, b0, b1 },
                ),
                Err(_) => final(self).hist() == old(self).hist(),
            },
    ;
}

} // verus!
