//! The operations of a session.

use crate::encoding::{
    spec_als_contr, spec_als_meas_rate, spec_channel, spec_high_byte, spec_interrupt,
    spec_interrupt_persist, spec_low_byte, spec_ps_contr, spec_ps_led, spec_ps_saturated,
    spec_ps_value,
};
use crate::history::{
    all_addressed_to, als_data_registers, byte_of, byte_read, gain_after, gain_written,
    int_time_after, int_time_written, lemma_written_after_resync, lemma_written_by_als_contr,
    lemma_written_by_als_meas_rate, lemma_written_push, lemma_written_untouched, read_all,
    read_registers, register_read, register_write, wrote_pair, Event,
};
use crate::lux::{spec_lux, Lux};
use crate::register::Register;
use crate::{
    encoding, i2c, ic, lux, marker, AlsGain, AlsIntTime, AlsMeasRate, AlsPersist, Error,
    InterruptMode, InterruptPinPolarity, LedCurrent, LedDutyCycle, LedPulse, Ltr559, PsMeasRate,
    PsPersist, SlaveAddr, State, Status,
};
use core::marker::PhantomData;
use vstd::prelude::*;

verus! {

impl State {
    /// The address has seven bits, every transaction so far went to it, and
    /// the cached configuration is the one that the history has written.
    #[verifier::type_invariant]
    spec fn inv(&self) -> bool {
        &&& self.address < 0x80
        &&& all_addressed_to(self.history@, self.address)
        &&& self.als_gain == gain_written(self.history@)
        &&& self.als_int == int_time_written(self.history@)
    }
}

impl<I2C> Ltr559<I2C, ic::Ltr559> {
    /// Create new instance of the device
    pub fn new_device(i2c: I2C, address: SlaveAddr) -> (device: Self)
        ensures
            device.inv(),
            device.bus() == i2c,
            device.address() == address.spec_addr(),
            device.spec_als_gain() == AlsGain::Gain1x,
            device.spec_als_int() == AlsIntTime::_100ms,
            device.history() == Seq::<Event>::empty(),
    {
        Ltr559 {
            i2c,
            state: State {
                address: address.addr(),
                als_gain: AlsGain::default(),
                als_int: AlsIntTime::default(),
                history: Ghost(Seq::empty()),
            },
            _ic: PhantomData,
        }
    }
}

impl<I2C, IC> Ltr559<I2C, IC> {
    /// The bus handle that the session owns.
    pub closed spec fn bus(&self) -> I2C {
        self.i2c
    }

    /// The 7-bit address of the sensor on the bus.
    pub closed spec fn address(&self) -> u8 {
        self.state.address
    }

    /// The cached gain.
    pub closed spec fn spec_als_gain(&self) -> AlsGain {
        self.state.als_gain
    }

    /// The cached integration time.
    pub closed spec fn spec_als_int(&self) -> AlsIntTime {
        self.state.als_int
    }

    /// Everything the session has done so far, oldest first.
    pub closed spec fn history(&self) -> Seq<Event> {
        self.state.history@
    }

    /// What holds of every session at all times; each operation says so of
    /// the session it leaves behind. The address has seven bits, every
    /// transaction so far went to it, and the cached gain and the cached
    /// integration time are what the session last wrote to the sensor with
    /// success, or the power-up defaults where it has written neither since
    /// it began or since its cache was last reset.
    pub open spec fn inv(&self) -> bool {
        &&& self.address() < 0x80
        &&& all_addressed_to(self.history(), self.address())
        &&& self.spec_als_gain() == gain_written(self.history())
        &&& self.spec_als_int() == int_time_written(self.history())
    }

    /// Destroy driver instance, return I²C bus instance.
    pub fn destroy(self) -> (i2c: I2C)
        ensures
            i2c == self.bus(),
    {
        self.i2c
    }

    /// The gain that the session takes the sensor to be set to.
    #[verifier::when_used_as_spec(spec_als_gain)]
    pub fn als_gain(&self) -> (gain: AlsGain)
        ensures
            gain == self.spec_als_gain(),
            self.inv(),
    {
        proof {
            use_type_invariant(&self.state);
        }
        self.state.als_gain
    }

    /// The integration time that the session takes the sensor to be set to.
    #[verifier::when_used_as_spec(spec_als_int)]
    pub fn als_int(&self) -> (int_time: AlsIntTime)
        ensures
            int_time == self.spec_als_int(),
            self.inv(),
    {
        proof {
            use_type_invariant(&self.state);
        }
        self.state.als_int
    }

    /// Reset the internal state of this driver to the default values.
    ///
    /// *Note:* This does not alter the state or configuration of the device.
    ///
    /// This resets the cached configuration register value in this driver to
    /// the power-up (reset) configuration of the device.
    ///
    /// This needs to be called after performing a reset on the device, for
    /// example through an I2C general-call Reset command, which was not done
    /// through this driver to ensure that the configurations in the device
    /// and in the driver match.
    pub fn reset_internal_driver_state(&mut self)
        ensures
            final(self).inv(),
            final(self).bus() == old(self).bus(),
            final(self).address() == old(self).address(),
            final(self).spec_als_gain() == AlsGain::Gain1x,
            final(self).spec_als_int() == AlsIntTime::_100ms,
            final(self).history() == old(self).history().push(Event::Resync),
    {
        proof {
            use_type_invariant(&self.state);
            lemma_written_after_resync(self.state.history@);
        }
        self.state = State {
            address: self.state.address,
            als_gain: AlsGain::default(),
            als_int: AlsIntTime::default(),
            history: Ghost(self.state.history@.push(Event::Resync)),
        };
    }
}

impl<I2C, E, IC> Ltr559<I2C, IC> where I2C: i2c::Write<Error = E> {
    /// Writes `value` to `register`. Where the write goes through, `als_gain`
    /// and `als_int` become the cached configuration; they are what the
    /// write leaves the sensor with.
    fn write_register(
        &mut self,
        register: u8,
        value: u8,
        als_gain: AlsGain,
        als_int: AlsIntTime,
    ) -> (r: Result<(), Error<E>>)
        requires
            als_gain == gain_after(
                old(self).spec_als_gain(),
                register_write(old(self).address(), register, value, true),
            ),
            als_int == int_time_after(
                old(self).spec_als_int(),
                register_write(old(self).address(), register, value, true),
            ),
        ensures
            final(self).inv(),
            final(self).address() == old(self).address(),
            final(self).spec_als_gain() == if r is Ok {
                als_gain
            } else {
                old(self).spec_als_gain()
            },
            final(self).spec_als_int() == if r is Ok {
                als_int
            } else {
                old(self).spec_als_int()
            },
            final(self).history() == old(self).history().push(
                register_write(old(self).address(), register, value, r is Ok),
            ),
            r matches Err(e) ==> e is I2C,
    {
        proof {
            use_type_invariant(&self.state);
        }
        let data = [register, value];
        let outcome = self.i2c.write(self.state.address, &data);
        let ghost event = Event::Write {
            address: self.state.address,
            bytes: data@,
            done: outcome is Ok,
        };
        proof {
            assert(data@ =~= seq![register, value]);
            lemma_written_push(self.state.history@, event);
        }
        let cached = if outcome.is_ok() {
            (als_gain, als_int)
        } else {
            (self.state.als_gain, self.state.als_int)
        };
        self.state = State {
            address: self.state.address,
            als_gain: cached.0,
            als_int: cached.1,
            history: Ghost(self.state.history@.push(event)),
        };
        Error::from_bus(outcome)
    }

    /// Set ALS_CONTR Register
    ///
    /// Writes gain, software reset and active mode to the sensor. The cached
    /// gain follows where the write went through and stays where it did not.
    pub fn set_als_contr(&mut self, als_gain: AlsGain, sw_reset: bool, als_active: bool) -> (r:
        Result<(), Error<E>>)
        ensures
            final(self).inv(),
            final(self).address() == old(self).address(),
            final(self).spec_als_int() == old(self).spec_als_int(),
            final(self).spec_als_gain() == if r is Ok {
                als_gain
            } else {
                old(self).spec_als_gain()
            },
            final(self).history() == old(self).history().push(
                register_write(
                    old(self).address(),
                    Register::ALS_CONTR,
                    spec_als_contr(als_gain, sw_reset, als_active),
                    r is Ok,
                ),
            ),
            r matches Err(e) ==> e is I2C,
    {
        let value = encoding::als_contr(als_gain, sw_reset, als_active);
        proof {
            use_type_invariant(&self.state);
            lemma_written_by_als_contr(
                self.state.history@,
                self.state.address,
                als_gain,
                sw_reset,
                als_active,
                true,
            );
            lemma_written_push(
                self.state.history@,
                register_write(self.state.address, Register::ALS_CONTR, value, true),
            );
        }
        self.write_register(Register::ALS_CONTR, value, als_gain, self.state.als_int)
    }

    /// Writes a register that holds neither gain nor integration time.
    fn write_setting(&mut self, register: u8, value: u8) -> (r: Result<(), Error<E>>)
        requires
            register != Register::ALS_CONTR,
            register != Register::ALS_MEAS_RATE,
        ensures
            final(self).inv(),
            final(self).address() == old(self).address(),
            final(self).spec_als_gain() == old(self).spec_als_gain(),
            final(self).spec_als_int() == old(self).spec_als_int(),
            final(self).history() == old(self).history().push(
                register_write(old(self).address(), register, value, r is Ok),
            ),
            r matches Err(e) ==> e is I2C,
    {
        self.write_register(register, value, self.state.als_gain, self.state.als_int)
    }

    /// Writes the two halves of `value` to a pair of registers, low byte
    /// first, and stops where a write fails.
    fn write_pair(&mut self, first: u8, second: u8, value: u16) -> (r: Result<(), Error<E>>)
        requires
            first != Register::ALS_CONTR && first != Register::ALS_MEAS_RATE,
            second != Register::ALS_CONTR && second != Register::ALS_MEAS_RATE,
        ensures
            final(self).inv(),
            final(self).address() == old(self).address(),
            final(self).spec_als_gain() == old(self).spec_als_gain(),
            final(self).spec_als_int() == old(self).spec_als_int(),
            wrote_pair(
                old(self).history(),
                final(self).history(),
                old(self).address(),
                (first, spec_low_byte(value)),
                (second, spec_high_byte(value)),
                r is Ok,
            ),
            r matches Err(e) ==> e is I2C,
    {
        let low = encoding::low_byte(value);
        let high = encoding::high_byte(value);
        self.write_setting(first, low)?;
        self.write_setting(second, high)?;
        Ok(())
    }

    /// Set PS_CONTR Register
    ///
    /// Writes the saturation indicator and active mode to the sensor.
    pub fn set_ps_contr(&mut self, ps_saturation_indicator_enable: bool, ps_active: bool) -> (r:
        Result<(), Error<E>>)
        ensures
            final(self).inv(),
            final(self).address() == old(self).address(),
            final(self).spec_als_gain() == old(self).spec_als_gain(),
            final(self).spec_als_int() == old(self).spec_als_int(),
            final(self).history() == old(self).history().push(
                register_write(
                    old(self).address(),
                    Register::PS_CONTR,
                    spec_ps_contr(ps_saturation_indicator_enable, ps_active),
                    r is Ok,
                ),
            ),
            r matches Err(e) ==> e is I2C,
    {
        let value = encoding::ps_contr(ps_saturation_indicator_enable, ps_active);
        self.write_setting(Register::PS_CONTR, value)
    }

    /// Set PS LED controls
    ///
    /// Writes pulse frequency, duty cycle and peak current to the sensor.
    pub fn set_ps_led(
        &mut self,
        led_pulse_freq: LedPulse,
        led_duty_cycle: LedDutyCycle,
        led_peak_current: LedCurrent,
    ) -> (r: Result<(), Error<E>>)
        ensures
            final(self).inv(),
            final(self).address() == old(self).address(),
            final(self).spec_als_gain() == old(self).spec_als_gain(),
            final(self).spec_als_int() == old(self).spec_als_int(),
            final(self).history() == old(self).history().push(
                register_write(
                    old(self).address(),
                    Register::PS_LED,
                    spec_ps_led(led_pulse_freq, led_duty_cycle, led_peak_current),
                    r is Ok,
                ),
            ),
            r matches Err(e) ==> e is I2C,
    {
        let value = encoding::ps_led(led_pulse_freq, led_duty_cycle, led_peak_current);
        self.write_setting(Register::PS_LED, value)
    }

    /// Set the fault count for both ALS and PS
    ///
    /// Writes both persist counts to the sensor.
    pub fn set_interrupt_persist(&mut self, als_count: AlsPersist, ps_count: PsPersist) -> (r:
        Result<(), Error<E>>)
        ensures
            final(self).inv(),
            final(self).address() == old(self).address(),
            final(self).spec_als_gain() == old(self).spec_als_gain(),
            final(self).spec_als_int() == old(self).spec_als_int(),
            final(self).history() == old(self).history().push(
                register_write(
                    old(self).address(),
                    Register::INTERRUPT_PERSIST,
                    spec_interrupt_persist(als_count, ps_count),
                    r is Ok,
                ),
            ),
            r matches Err(e) ==> e is I2C,
    {
        let value = encoding::interrupt_persist(als_count, ps_count);
        self.write_setting(Register::INTERRUPT_PERSIST, value)
    }

    /// Set the integration (conversion) time and measurement repeat timer
    ///
    /// Writes both to the sensor. The cached integration time follows where
    /// the write went through and stays where it did not.
    pub fn set_als_meas_rate(&mut self, als_int: AlsIntTime, als_meas_rate: AlsMeasRate) -> (r:
        Result<(), Error<E>>)
        ensures
            final(self).inv(),
            final(self).address() == old(self).address(),
            final(self).spec_als_gain() == old(self).spec_als_gain(),
            final(self).spec_als_int() == if r is Ok {
                als_int
            } else {
                old(self).spec_als_int()
            },
            final(self).history() == old(self).history().push(
                register_write(
                    old(self).address(),
                    Register::ALS_MEAS_RATE,
                    spec_als_meas_rate(als_int, als_meas_rate),
                    r is Ok,
                ),
            ),
            r matches Err(e) ==> e is I2C,
    {
        let value = encoding::als_meas_rate(als_int, als_meas_rate);
        proof {
            use_type_invariant(&self.state);
            lemma_written_by_als_meas_rate(
                self.state.history@,
                self.state.address,
                als_int,
                als_meas_rate,
                true,
            );
            lemma_written_push(
                self.state.history@,
                register_write(self.state.address, Register::ALS_MEAS_RATE, value, true),
            );
        }
        self.write_register(Register::ALS_MEAS_RATE, value, self.state.als_gain, als_int)
    }

    /// Set the lux low limit in raw format
    ///
    /// Writes the low byte, then the high byte. Where the second write fails
    /// the sensor keeps the new low byte beside the old high byte.
    pub fn set_als_low_limit_raw(&mut self, value: u16) -> (r: Result<(), Error<E>>)
        ensures
            final(self).inv(),
            final(self).address() == old(self).address(),
            final(self).spec_als_gain() == old(self).spec_als_gain(),
            final(self).spec_als_int() == old(self).spec_als_int(),
            wrote_pair(
                old(self).history(),
                final(self).history(),
                old(self).address(),
                (Register::ALS_THRES_LOW_0, spec_low_byte(value)),
                (Register::ALS_THRES_LOW_1, spec_high_byte(value)),
                r is Ok,
            ),
            r matches Err(e) ==> e is I2C,
    {
        self.write_pair(Register::ALS_THRES_LOW_0, Register::ALS_THRES_LOW_1, value)
    }

    /// Set the lux high limit in raw format
    ///
    /// Writes the low byte, then the high byte. Where the second write fails
    /// the sensor keeps the new low byte beside the old high byte.
    pub fn set_als_high_limit_raw(&mut self, value: u16) -> (r: Result<(), Error<E>>)
        ensures
            final(self).inv(),
            final(self).address() == old(self).address(),
            final(self).spec_als_gain() == old(self).spec_als_gain(),
            final(self).spec_als_int() == old(self).spec_als_int(),
            wrote_pair(
                old(self).history(),
                final(self).history(),
                old(self).address(),
                (Register::ALS_THRES_UP_0, spec_low_byte(value)),
                (Register::ALS_THRES_UP_1, spec_high_byte(value)),
                r is Ok,
            ),
            r matches Err(e) ==> e is I2C,
    {
        self.write_pair(Register::ALS_THRES_UP_0, Register::ALS_THRES_UP_1, value)
    }

    /// Set the ps low limit in raw format
    ///
    /// Writes the low byte, then the high byte. Where the second write fails
    /// the sensor keeps the new low byte beside the old high byte.
    pub fn set_ps_low_limit_raw(&mut self, value: u16) -> (r: Result<(), Error<E>>)
        ensures
            final(self).inv(),
            final(self).address() == old(self).address(),
            final(self).spec_als_gain() == old(self).spec_als_gain(),
            final(self).spec_als_int() == old(self).spec_als_int(),
            wrote_pair(
                old(self).history(),
                final(self).history(),
                old(self).address(),
                (Register::PS_THRES_LOW_0, spec_low_byte(value)),
                (Register::PS_THRES_LOW_1, spec_high_byte(value)),
                r is Ok,
            ),
            r matches Err(e) ==> e is I2C,
    {
        self.write_pair(Register::PS_THRES_LOW_0, Register::PS_THRES_LOW_1, value)
    }

    /// Set the ps high limit in raw format
    ///
    /// Writes the low byte, then the high byte. Where the second write fails
    /// the sensor keeps the new low byte beside the old high byte.
    pub fn set_ps_high_limit_raw(&mut self, value: u16) -> (r: Result<(), Error<E>>)
        ensures
            final(self).inv(),
            final(self).address() == old(self).address(),
            final(self).spec_als_gain() == old(self).spec_als_gain(),
            final(self).spec_als_int() == old(self).spec_als_int(),
            wrote_pair(
                old(self).history(),
                final(self).history(),
                old(self).address(),
                (Register::PS_THRES_UP_0, spec_low_byte(value)),
                (Register::PS_THRES_UP_1, spec_high_byte(value)),
                r is Ok,
            ),
            r matches Err(e) ==> e is I2C,
    {
        self.write_pair(Register::PS_THRES_UP_0, Register::PS_THRES_UP_1, value)
    }

    /// Set PS Meas Rate
    pub fn set_ps_meas_rate(&mut self, ps_meas_rate: PsMeasRate) -> (r: Result<(), Error<E>>)
        ensures
            final(self).inv(),
            final(self).address() == old(self).address(),
            final(self).spec_als_gain() == old(self).spec_als_gain(),
            final(self).spec_als_int() == old(self).spec_als_int(),
            final(self).history() == old(self).history().push(
                register_write(
                    old(self).address(),
                    Register::PS_MEAS_RATE,
                    ps_meas_rate.spec_value(),
                    r is Ok,
                ),
            ),
            r matches Err(e) ==> e is I2C,
    {
        self.write_setting(Register::PS_MEAS_RATE, ps_meas_rate.value())
    }

    /// Set PS OFFSET.
    ///
    /// Values that exceed 1023 will cause an Err to be returned, before
    /// anything goes to the bus. Any other value is written low byte first.
    pub fn set_ps_offset(&mut self, value: u16) -> (r: Result<(), Error<E>>)
        ensures
            final(self).inv(),
            final(self).address() == old(self).address(),
            final(self).spec_als_gain() == old(self).spec_als_gain(),
            final(self).spec_als_int() == old(self).spec_als_int(),
            value > 1023 ==> {
                &&& r matches Err(e)
                &&& e is InvalidInputData
                &&& final(self).history() == old(self).history()
                &&& final(self).bus() == old(self).bus()
            },
            value <= 1023 ==> {
                &&& wrote_pair(
                    old(self).history(),
                    final(self).history(),
                    old(self).address(),
                    (Register::PS_OFFSET_0, spec_low_byte(value)),
                    (Register::PS_OFFSET_1, spec_high_byte(value)),
                    r is Ok,
                )
                &&& r matches Err(e) ==> e is I2C
            },
    {
        proof {
            use_type_invariant(&self.state);
        }
        if value > 1023 {
            return Err(Error::InvalidInputData);
        }
        self.write_pair(Register::PS_OFFSET_0, Register::PS_OFFSET_1, value)
    }

    /// Set PS N Pulses
    ///
    /// Accepted values are 1 to 15. Any other value will cause an Err to be
    /// returned, before anything goes to the bus.
    pub fn set_ps_n_pulses(&mut self, value: u8) -> (r: Result<(), Error<E>>)
        ensures
            final(self).inv(),
            final(self).address() == old(self).address(),
            final(self).spec_als_gain() == old(self).spec_als_gain(),
            final(self).spec_als_int() == old(self).spec_als_int(),
            value == 0 || value >= 16 ==> {
                &&& r matches Err(e)
                &&& e is InvalidInputData
                &&& final(self).history() == old(self).history()
                &&& final(self).bus() == old(self).bus()
            },
            0 < value < 16 ==> {
                &&& final(self).history() == old(self).history().push(
                    register_write(old(self).address(), Register::PS_N_PULSES, value, r is Ok),
                )
                &&& r matches Err(e) ==> e is I2C
            },
    {
        proof {
            use_type_invariant(&self.state);
        }
        if value > 0 && value < 16 {
            self.write_setting(Register::PS_N_PULSES, value)
        } else {
            Err(Error::InvalidInputData)
        }
    }

    /// Set Interrupt Polarity and Enable
    pub fn set_interrupt(&mut self, polarity: InterruptPinPolarity, mode: InterruptMode) -> (r:
        Result<(), Error<E>>)
        ensures
            final(self).inv(),
            final(self).address() == old(self).address(),
            final(self).spec_als_gain() == old(self).spec_als_gain(),
            final(self).spec_als_int() == old(self).spec_als_int(),
            final(self).history() == old(self).history().push(
                register_write(
                    old(self).address(),
                    Register::INTERRUPT,
                    spec_interrupt(polarity, mode),
                    r is Ok,
                ),
            ),
            r matches Err(e) ==> e is I2C,
    {
        let value = encoding::interrupt(polarity, mode);
        self.write_setting(Register::INTERRUPT, value)
    }
}

impl<I2C, E, IC> Ltr559<I2C, IC> where I2C: i2c::WriteRead<Error = E> {
    fn read_register(&mut self, register: u8) -> (r: Result<u8, Error<E>>)
        ensures
            final(self).inv(),
            final(self).address() == old(self).address(),
            final(self).spec_als_gain() == old(self).spec_als_gain(),
            final(self).spec_als_int() == old(self).spec_als_int(),
            final(self).history() == old(self).history().push(
                register_read(old(self).address(), register, byte_of(r)),
            ),
            r matches Err(e) ==> e is I2C,
    {
        let mut data = [0u8];
        let outcome = self.i2c.write_read(self.state.address, &[register], &mut data);
        let ghost event = Event::WriteRead {
            address: self.state.address,
            bytes: seq![register],
            data: if outcome is Ok {
                Some(data@)
            } else {
                None
            },
        };
        proof {
            use_type_invariant(&self.state);
            assert(data@ =~= seq![data[0]]);
            lemma_written_untouched(self.state.history@, event);
        }
        self.state = State {
            address: self.state.address,
            als_gain: self.state.als_gain,
            als_int: self.state.als_int,
            history: Ghost(self.state.history@.push(event)),
        };
        match Error::from_bus(outcome) {
            Ok(()) => Ok(data[0]),
            Err(e) => Err(e),
        }
    }

    /// Read the status of the conversion.
    ///
    /// Note that the conversion ready flag is cleared automatically
    /// after calling this method.
    pub fn get_status(&mut self) -> (r: Result<Status, Error<E>>)
        ensures
            final(self).inv(),
            final(self).address() == old(self).address(),
            final(self).spec_als_gain() == old(self).spec_als_gain(),
            final(self).spec_als_int() == old(self).spec_als_int(),
            read_registers(
                old(self).history(),
                final(self).history(),
                old(self).address(),
                seq![Register::ALS_PS_STATUS],
            ),
            r is Ok <==> read_all(old(self).history(), final(self).history(), 1),
            r matches Ok(status) ==> status == Status::spec_decode(
                byte_read(old(self).history(), final(self).history(), 0),
            ),
            r matches Err(e) ==> e is I2C,
    {
        let config = self.read_register(Register::ALS_PS_STATUS)?;
        Ok(Status::decode(config))
    }
}

impl<I2C, E, IC> Ltr559<I2C, IC> where I2C: i2c::WriteRead<Error = E>, IC: marker::WithDeviceId {
    /// Read the manufacturer ID
    pub fn get_manufacturer_id(&mut self) -> (r: Result<u8, Error<E>>)
        ensures
            final(self).inv(),
            final(self).address() == old(self).address(),
            final(self).spec_als_gain() == old(self).spec_als_gain(),
            final(self).spec_als_int() == old(self).spec_als_int(),
            final(self).history() == old(self).history().push(
                register_read(old(self).address(), Register::MANUFAC_ID, byte_of(r)),
            ),
            r matches Err(e) ==> e is I2C,
    {
        self.read_register(Register::MANUFAC_ID)
    }

    /// Read the device part number and revision id
    pub fn get_part_id(&mut self) -> (r: Result<u8, Error<E>>)
        ensures
            final(self).inv(),
            final(self).address() == old(self).address(),
            final(self).spec_als_gain() == old(self).spec_als_gain(),
            final(self).spec_als_int() == old(self).spec_als_int(),
            final(self).history() == old(self).history().push(
                register_read(old(self).address(), Register::PART_ID, byte_of(r)),
            ),
            r matches Err(e) ==> e is I2C,
    {
        self.read_register(Register::PART_ID)
    }

    /// Get ALS Data in (als_ch0, als_ch1) format
    ///
    /// Reads the four data registers from the lowest address up, channel 1
    /// before channel 0 and low bytes before high bytes, and gives up at the
    /// first read that fails.
    pub fn get_als_raw_data(&mut self) -> (r: Result<(u16, u16), Error<E>>)
        ensures
            final(self).inv(),
            final(self).address() == old(self).address(),
            final(self).spec_als_gain() == old(self).spec_als_gain(),
            final(self).spec_als_int() == old(self).spec_als_int(),
            read_registers(
                old(self).history(),
                final(self).history(),
                old(self).address(),
                als_data_registers(),
            ),
            r is Ok <==> read_all(old(self).history(), final(self).history(), 4),
            r matches Ok(channels) ==> {
                &&& channels.0 == spec_channel(
                    byte_read(old(self).history(), final(self).history(), 2),
                    byte_read(old(self).history(), final(self).history(), 3),
                )
                &&& channels.1 == spec_channel(
                    byte_read(old(self).history(), final(self).history(), 0),
                    byte_read(old(self).history(), final(self).history(), 1),
                )
            },
            r matches Err(e) ==> e is I2C,
    {
        let mut measurements = [0u8;4];
        let regs = [
            Register::ALS_DATA_CH1_0,
            Register::ALS_DATA_CH1_1,
            Register::ALS_DATA_CH0_0,
            Register::ALS_DATA_CH0_1,
        ];
        proof {
            use_type_invariant(&self.state);
            assert(regs@ =~= als_data_registers());
        }
        let ghost mut run: Seq<Event> = Seq::empty();
        for i in 0..4usize
            invariant
                regs@ == als_data_registers(),
                self.inv(),
                self.address() == old(self).address(),
                self.spec_als_gain() == old(self).spec_als_gain(),
                self.spec_als_int() == old(self).spec_als_int(),
                run.len() == i,
                self.history() == old(self).history() + run,
                forall|k: int|
                    0 <= k < i ==> #[trigger] run[k] == register_read(
                        self.address(),
                        regs@[k],
                        Some(measurements@[k]),
                    ),
        {
            let value = self.read_register(regs[i])?;
            measurements[i] = value;
            proof {
                run = run.push(register_read(self.address(), regs@[i as int], Some(value)));
            }
        }
        let ch1 = encoding::channel(measurements[0], measurements[1]);
        let ch0 = encoding::channel(measurements[2], measurements[3]);
        Ok((ch0, ch1))
    }

    /// Return calculated lux
    ///
    /// Reads both channels as `get_als_raw_data` does and turns them into an
    /// illuminance with the cached gain and integration time.
    pub fn get_lux(&mut self) -> (r: Result<Lux, Error<E>>)
        ensures
            final(self).inv(),
            final(self).address() == old(self).address(),
            final(self).spec_als_gain() == old(self).spec_als_gain(),
            final(self).spec_als_int() == old(self).spec_als_int(),
            read_registers(
                old(self).history(),
                final(self).history(),
                old(self).address(),
                als_data_registers(),
            ),
            r is Ok <==> read_all(old(self).history(), final(self).history(), 4),
            r matches Ok(lux) ==> lux == spec_lux(
                spec_channel(
                    byte_read(old(self).history(), final(self).history(), 2),
                    byte_read(old(self).history(), final(self).history(), 3),
                ),
                spec_channel(
                    byte_read(old(self).history(), final(self).history(), 0),
                    byte_read(old(self).history(), final(self).history(), 1),
                ),
                old(self).spec_als_gain(),
                old(self).spec_als_int(),
            ),
            r matches Err(e) ==> e is I2C,
    {
        let (als_data_ch0, als_data_ch1) = self.get_als_raw_data()?;
        Ok(lux::lux(als_data_ch0, als_data_ch1, self.state.als_gain, self.state.als_int))
    }

    /// Return PS Data in format (value, saturated)
    ///
    /// Reads the two PS data registers, the lower address first, and gives up
    /// at the first read that fails.
    pub fn get_ps_data(&mut self) -> (r: Result<(u16, bool), Error<E>>)
        ensures
            final(self).inv(),
            final(self).address() == old(self).address(),
            final(self).spec_als_gain() == old(self).spec_als_gain(),
            final(self).spec_als_int() == old(self).spec_als_int(),
            read_registers(
                old(self).history(),
                final(self).history(),
                old(self).address(),
                seq![Register::PS_DATA_0, Register::PS_DATA_1],
            ),
            r is Ok <==> read_all(old(self).history(), final(self).history(), 2),
            r matches Ok(data) ==> {
                &&& data.0 == spec_ps_value(
                    byte_read(old(self).history(), final(self).history(), 0),
                    byte_read(old(self).history(), final(self).history(), 1),
                )
                &&& data.1 == spec_ps_saturated(
                    byte_read(old(self).history(), final(self).history(), 1),
                )
            },
            r matches Err(e) ==> e is I2C,
    {
        let ps0 = self.read_register(Register::PS_DATA_0)?;
        let ps1 = self.read_register(Register::PS_DATA_1)?;
        Ok(encoding::ps_data(ps0, ps1))
    }
}

} // verus!
