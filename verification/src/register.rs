//! The sensor's register map: the address of every register the driver
//! touches, and the bits of the registers it reads back.

use vstd::prelude::*;

verus! {

/// Register addresses.
pub struct Register;

impl Register {
    /// ALS operation mode control and software reset
    pub const ALS_CONTR: u8 = 0x80;

    /// PS operation mode control
    pub const PS_CONTR: u8 = 0x81;

    /// PS LED settings
    pub const PS_LED: u8 = 0x82;

    /// Number of LED pulses per PS measurement
    pub const PS_N_PULSES: u8 = 0x83;

    /// PS measurement rate
    pub const PS_MEAS_RATE: u8 = 0x84;

    /// ALS integration time and measurement rate
    pub const ALS_MEAS_RATE: u8 = 0x85;

    /// Part number and revision
    pub const PART_ID: u8 = 0x86;

    /// Manufacturer
    pub const MANUFAC_ID: u8 = 0x87;

    /// ALS channel 1, low byte
    pub const ALS_DATA_CH1_0: u8 = 0x88;

    /// ALS channel 1, high byte
    pub const ALS_DATA_CH1_1: u8 = 0x89;

    /// ALS channel 0, low byte
    pub const ALS_DATA_CH0_0: u8 = 0x8A;

    /// ALS channel 0, high byte
    pub const ALS_DATA_CH0_1: u8 = 0x8B;

    /// ALS and PS status
    pub const ALS_PS_STATUS: u8 = 0x8C;

    /// PS data, low byte
    pub const PS_DATA_0: u8 = 0x8D;

    /// PS data, high bits and saturation flag
    pub const PS_DATA_1: u8 = 0x8E;

    /// Interrupt settings
    pub const INTERRUPT: u8 = 0x8F;

    /// PS upper threshold, low byte
    pub const PS_THRES_UP_0: u8 = 0x90;

    /// PS upper threshold, high byte
    pub const PS_THRES_UP_1: u8 = 0x91;

    /// PS lower threshold, low byte
    pub const PS_THRES_LOW_0: u8 = 0x92;

    /// PS lower threshold, high byte
    pub const PS_THRES_LOW_1: u8 = 0x93;

    /// PS offset, low byte
    pub const PS_OFFSET_0: u8 = 0x94;

    /// PS offset, high bits
    pub const PS_OFFSET_1: u8 = 0x95;

    /// ALS upper threshold, low byte
    pub const ALS_THRES_UP_0: u8 = 0x97;

    /// ALS upper threshold, high byte
    pub const ALS_THRES_UP_1: u8 = 0x98;

    /// ALS lower threshold, low byte
    pub const ALS_THRES_LOW_0: u8 = 0x99;

    /// ALS lower threshold, high byte
    pub const ALS_THRES_LOW_1: u8 = 0x9A;

    /// Interrupt persistence
    pub const INTERRUPT_PERSIST: u8 = 0x9E;
}

/// Bits of the registers that are read back. The prefix of a name is the
/// address of its register.
pub struct BitFlags;

impl BitFlags {
    /// New PS data is waiting (bit 0)
    pub const R8C_PS_DATA_STATUS: u8 = 0x01;

    /// The PS interrupt is active (bit 1)
    pub const R8C_PS_INTERRUPT_STATUS: u8 = 0x02;

    /// New ALS data is waiting (bit 2)
    pub const R8C_ALS_DATA_STATUS: u8 = 0x04;

    /// The ALS interrupt is active (bit 3)
    pub const R8C_ALS_INTERRUPT_STATUS: u8 = 0x08;

    /// The ALS data is invalid (bit 7)
    pub const R8C_ALS_DATA_VALID: u8 = 0x80;

    /// The gain code of the ALS data (bits 4 to 6)
    pub const R8C_ALS_GAIN: u8 = 0x70;

    /// The PS measurement is saturated (bit 7)
    pub const R8E_PS_SATURATION: u8 = 0x80;
}

} // verus!
