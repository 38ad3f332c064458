//! The two-wire bus as the driver sees it.
//!
//! A session owns a bus handle and talks to the sensor through these two
//! operations alone. Whoever implements them decides what an error is; the
//! driver hands every error on as it came and never tries again.

use vstd::prelude::*;

verus! {

/// Blocking write
pub trait Write {
    /// Error type
    type Error;

    /// Sends `bytes` to the device at the 7-bit `address`.
    fn write(&mut self, address: u8, bytes: &[u8]) -> Result<(), Self::Error>;
}

/// Blocking write followed by a read, in one transaction
pub trait WriteRead {
    /// Error type
    type Error;

    /// Sends `bytes` to the device at the 7-bit `address`, then reads as many
    /// bytes as `buffer` holds into it.
    fn write_read(&mut self, address: u8, bytes: &[u8], buffer: &mut [u8]) -> Result<
        (),
        Self::Error,
    >;
}

} // verus!
