//! This is a platform agnostic Rust driver for the LTR-559 ambient light and
//! proximity sensor.
//!
//! The driver turns typed configuration requests into the bytes that the
//! sensor's register map asks for, and turns register bytes read back from
//! the sensor into status flags, proximity counts and illuminance.
//!
//! This driver allows you to:
//! - Read the measurement in lux. See: [`Ltr559::get_lux()`].
//! - Read the measurement in raw. See: [`Ltr559::get_als_raw_data()`].
//! - Read the conversion status. See: [`Ltr559::get_status()`].
//! - Read PS Data. See: [`Ltr559::get_ps_data()`].
//! - Get the manufacturer ID. See: [`Ltr559::get_manufacturer_id()`].
//! - Get the part ID. See: [`Ltr559::get_part_id()`].
//! - Set ALS Enable, Gain and SW Reset. See: [`Ltr559::set_als_contr()`].
//! - Set PS Mode and Saturation. See: [`Ltr559::set_ps_contr()`].
//! - Set PS LED Pulse, DutyCycle and PeakCurrent. See: [`Ltr559::set_ps_led()`].
//! - Set Interrupt Persist. See: [`Ltr559::set_interrupt_persist()`].
//! - Set ALS Meas Rate. See: [`Ltr559::set_als_meas_rate()`].
//! - Set ALS Low Limit. See: [`Ltr559::set_als_low_limit_raw()`].
//! - Set ALS High Limit. See: [`Ltr559::set_als_high_limit_raw()`].
//! - Set PS Low Limit. See: [`Ltr559::set_ps_low_limit_raw()`].
//! - Set PS High Limit. See: [`Ltr559::set_ps_high_limit_raw()`].
//! - Set PS Meas Rate. See: [`Ltr559::set_ps_meas_rate()`].
//! - Set PS Offset. See: [`Ltr559::set_ps_offset()`].
//! - Set PS N Pulses. See: [`Ltr559::set_ps_n_pulses()`].
//! - Set Interrupt Mode and Polarity. See: [`Ltr559::set_interrupt()`].
//!
//! ## The bus
//!
//! A session reaches the sensor through the two traits in [`i2c`], one
//! blocking transaction at a time: a write of a register address and a byte,
//! or a write of a register address followed by the read of one byte. An
//! error of the bus ends the operation at once and comes back as
//! [`Error::I2C`]; nothing is tried again. A value that spans two registers
//! is written low byte first, and a failure between the two writes leaves the
//! sensor with one half of the old value and one half of the new.
//!
//! ## What the contracts say
//!
//! Every operation of a session states which registers it reads or writes, in
//! which order and with which bytes, over the record in [`history`]. The
//! bytes are those of [`encoding`], which states every layout bit by bit, and
//! the illuminance is that of [`lux`], an exact quotient of integers.
//!
//! Datasheet:
//! - [LTR-559](https://optoelectronics.liteon.com/upload/download/DS86-2013-0003/LTR-559ALS-01_DS_V1.pdf)

mod device_impl;
pub mod encoding;
pub mod history;
pub mod i2c;
pub mod ic;
pub mod lux;
pub mod marker;
mod private;
pub mod register;
pub mod slave_addr;
pub mod types;

pub use crate::lux::Lux;
pub use crate::types::{
    AlsGain, AlsIntTime, AlsMeasRate, AlsPersist, InterruptMode, LedCurrent, LedDutyCycle,
    LedPulse, PsMeasRate, PsPersist,
};

use crate::history::Event;
use core::marker::PhantomData;
use vstd::prelude::*;

verus! {

/// Errors in this crate
#[derive(Debug)]
pub enum Error<E> {
    /// I²C bus communication error
    I2C(E),
    /// Invalid input data provided
    InvalidInputData,
}

impl<E> Error<E> {
    /// Passes on what the bus reported: a success as it is, an error as
    /// `Error::I2C` around the bus's own error.
    pub fn from_bus<T>(outcome: Result<T, E>) -> (r: Result<T, Error<E>>)
        ensures
            r == match outcome {
                Ok(value) => Ok::<T, Error<E>>(value),
                Err(cause) => Err(Error::I2C(cause)),
            },
    {
        match outcome {
            Ok(value) => Ok(value),
            Err(cause) => Err(Error::I2C(cause)),
        }
    }
}

/// Error type for mode changes.
///
/// This allows to retrieve the unchanged device in case of an error.
pub enum ModeChangeError<E, DEV> {
    /// I²C bus error while changing mode.
    ///
    /// `E` is the error that happened.
    /// `DEV` is the device with the mode unchanged.
    I2C(E, DEV),
}

/// Ltr559 device driver
///
/// A session with one sensor. It owns the bus handle, and it remembers the
/// gain and the integration time that it last wrote to the sensor, because
/// the counts that the sensor hands out can only be read with both in mind.
/// Neither is ever read back: after a reset of the sensor that did not go
/// through this session, call `reset_internal_driver_state`.
pub struct Ltr559<I2C, IC> {
    i2c: I2C,
    state: State,
    _ic: PhantomData<IC>,
}

/// What a session knows beside its bus: where the sensor is, the
/// configuration that it takes the sensor to have, and the record that the
/// proofs go by.
struct State {
    address: u8,
    als_gain: AlsGain,
    als_int: AlsIntTime,
    history: Ghost<Seq<Event>>,
}

/// Possible slave addresses
#[derive(Debug, Clone, Copy)]
pub enum SlaveAddr {
    /// Default slave address
    Default,
    /// Alternative slave address providing bit values for A1 and A0
    Alternative(bool, bool),
}

/// Interrupt pin polarity (active state)
#[derive(Debug, Clone, Copy, PartialEq, Eq, Structural)]
pub enum InterruptPinPolarity {
    /// Active low (default)
    Low,
    /// Active high
    High,
}

impl InterruptPinPolarity {
    /// The polarity field of the interrupt register: bit 2.
    pub open spec fn spec_value(&self) -> u8 {
        match *self {
            InterruptPinPolarity::Low => 0,
            InterruptPinPolarity::High => 4,
        }
    }

    /// Return value InterruptPinPolarity
    #[verifier::when_used_as_spec(spec_value)]
    pub fn value(&self) -> (r: u8)
        ensures
            r == self.spec_value(),
    {
        assert(1u8 << 2u8 == 4) by (bit_vector);
        match *self {
            InterruptPinPolarity::Low => 0,
            InterruptPinPolarity::High => 1u8 << 2u8,
        }
    }
}

/// Two pin polarities with the same register value are the same.
pub proof fn lemma_interrupt_pin_polarity_value_injective(
    a: InterruptPinPolarity,
    b: InterruptPinPolarity,
)
    ensures
        (a.spec_value() == b.spec_value()) == (a == b),
{
}

/// Conversion status
#[derive(Debug, Clone, Copy, PartialEq, Eq, Structural)]
pub struct Status {
    /// ALS Data Valid
    pub als_data_valid: bool,
    /// ALS Gain
    pub als_gain: u8,
    /// ALS Interrupt Status
    pub als_interrupt_status: bool,
    /// ALS Data Status
    pub als_data_status: bool,
    /// PS Interrupt Status
    pub ps_interrupt_status: bool,
    /// PS Data Status
    pub ps_data_status: bool,
}

impl Default for Status {
    fn default() -> (r: Self)
        ensures
            r == (Status {
                als_data_valid: false,
                als_gain: 0,
                als_interrupt_status: false,
                als_data_status: false,
                ps_interrupt_status: false,
                ps_data_status: false,
            }),
    {
        Status {
            als_data_valid: false,
            als_gain: 0,
            als_interrupt_status: false,
            als_data_status: false,
            ps_interrupt_status: false,
            ps_data_status: false,
        }
    }
}

} // verus!
