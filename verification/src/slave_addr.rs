//! The sensor's address on the bus.

use crate::SlaveAddr;
use vstd::prelude::*;

verus! {

/// The address that the sensor answers to when nothing else is selected.
pub const DEVICE_BASE_ADDRESS: u8 = 0x23;

impl Default for SlaveAddr {
    /// Default slave address
    fn default() -> (r: Self)
        ensures
            r == SlaveAddr::Default,
    {
        SlaveAddr::Default
    }
}

proof fn bits_addr(a1: u8, a0: u8)
    by (bit_vector)
    requires
        a1 == 0 || a1 == 2,
        a0 == 0 || a0 == 1,
    ensures
        0x23u8 | a1 | a0 < 0x80,
{
}

impl SlaveAddr {
    /// The 7-bit address that a choice stands for: the base address, with the
    /// two select bits OR-ed into bits 1 and 0.
    pub open spec fn spec_addr(self) -> u8 {
        match self {
            SlaveAddr::Default => DEVICE_BASE_ADDRESS,
            SlaveAddr::Alternative(a1, a0) => DEVICE_BASE_ADDRESS | (if a1 {
                2u8
            } else {
                0u8
            }) | (if a0 {
                1u8
            } else {
                0u8
            }),
        }
    }

    /// Resolves the choice into the 7-bit address on the bus.
    pub fn addr(self) -> (address: u8)
        ensures
            address == self.spec_addr(),
            address < 0x80,
    {
        match self {
            SlaveAddr::Default => DEVICE_BASE_ADDRESS,
            SlaveAddr::Alternative(a1, a0) => {
                let high: u8 = if a1 {
                    2
                } else {
                    0
                };
                let low: u8 = if a0 {
                    1
                } else {
                    0
                };
                proof {
                    bits_addr(high, low);
                }
                DEVICE_BASE_ADDRESS | high | low
            },
        }
    }
}

} // verus!
