//! The byte-bus capability the driver consumes.
//!
//! The driver owns one bus exclusively and talks to a single peripheral at a
//! fixed 7-bit address.  A platform crate implements this trait for its own
//! I2C peripheral; the driver itself performs no I/O.

use vstd::prelude::*;

verus! {

/// Largest buffer a single plain write may carry: one register-address byte
/// plus up to 32 data bytes.
pub const MAX_WRITE_LEN: usize = 33;

/// A byte-oriented bus with a combined write-then-read transaction and a
/// plain write transaction, addressed to a fixed 7-bit peripheral.
///
/// Implementations decide when a transaction fails and report it through
/// their own error type; the driver propagates such errors unchanged.  An
/// implementation must hand back exactly the number of bytes asked for on a
/// successful combined read; nothing is promised about their values.
pub trait TouchBus: Sized {
    /// The transport-defined error type.
    type BusError;

    /// Write the single register-address byte `reg` to the peripheral at
    /// `addr`, then read back exactly `len` bytes.
    fn bus_write_read(&mut self, addr: u8, reg: u8, len: usize) -> (r: Result<
        Vec<u8>,
        Self::BusError,
    >)
        ensures
            r matches Ok(v) ==> v@.len() == len,
    ;

    /// Write `bytes` as one transaction to the peripheral at `addr`.
    fn bus_write(&mut self, addr: u8, bytes: &[u8]) -> (r: Result<(), Self::BusError>)
        requires
            bytes@.len() <= MAX_WRITE_LEN,
    ;
}

} // verus!
