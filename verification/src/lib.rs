//! Driver for the VCNL36825T proximity sensor.
//!
//! The crate is organised in layers: `fields` holds the bit-level register
//! codec, `regmap` the typed register catalog, `bus` the two-wire bus
//! capability that callers implement, `transport` the register transport
//! bound to the device's bus address, `device` the device controller with
//! its identity check and power-on sequence, and `sim` a simulated bus for
//! exercising the stack without hardware.

pub mod bus;
pub mod device;
pub mod fields;
pub mod regmap;
pub mod sim;
pub mod transport;
