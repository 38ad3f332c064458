//! Register contents.
//!
//! How configuration values are packed into the bytes that are written to
//! the sensor, and how the bytes that are read from it are taken apart. A
//! register that holds several fields is the bitwise OR of its fields, each
//! already shifted to its place.

use crate::register::BitFlags;
use crate::types::{
    AlsGain, AlsIntTime, AlsMeasRate, AlsPersist, InterruptMode, LedCurrent, LedDutyCycle,
    LedPulse, PsPersist,
};
use crate::{InterruptPinPolarity, Status};
use vstd::prelude::*;

verus! {

/// `bits` where `on` holds, nothing where it does not.
pub open spec fn spec_flag(on: bool, bits: u8) -> u8 {
    if on {
        bits
    } else {
        0
    }
}

/// The ALS control byte: the gain in bits 2 to 4, software reset in bit 1,
/// active mode in bit 0.
pub open spec fn spec_als_contr(gain: AlsGain, sw_reset: bool, als_active: bool) -> u8 {
    gain.spec_value() | spec_flag(sw_reset, 0b10) | spec_flag(als_active, 0b01)
}

/// The PS control byte: the saturation indicator in bit 5, active mode in
/// bits 0 and 1.
pub open spec fn spec_ps_contr(ps_saturation_indicator_enable: bool, ps_active: bool) -> u8 {
    spec_flag(ps_saturation_indicator_enable, 0b10_0000) | spec_flag(ps_active, 0b11)
}

/// The PS LED byte: pulse frequency in bits 5 to 7, duty cycle in bits 3 and
/// 4, peak current in bits 0 to 2.
pub open spec fn spec_ps_led(
    led_pulse_freq: LedPulse,
    led_duty_cycle: LedDutyCycle,
    led_peak_current: LedCurrent,
) -> u8 {
    led_pulse_freq.spec_value() | led_duty_cycle.spec_value() | led_peak_current.spec_value()
}

/// The interrupt persist byte: the PS count in bits 4 to 7, the ALS count in
/// bits 0 to 3.
pub open spec fn spec_interrupt_persist(als_count: AlsPersist, ps_count: PsPersist) -> u8 {
    ps_count.spec_value() | als_count.spec_value()
}

/// The ALS measurement rate byte: the integration time in bits 3 to 5, the
/// repeat rate in bits 0 to 2.
pub open spec fn spec_als_meas_rate(als_int: AlsIntTime, als_meas_rate: AlsMeasRate) -> u8 {
    (als_int.spec_value() << 3) | als_meas_rate.spec_value()
}

/// The interrupt byte: the pin polarity in bit 2, the mode in bits 0 and 1.
pub open spec fn spec_interrupt(polarity: InterruptPinPolarity, mode: InterruptMode) -> u8 {
    mode.spec_value() | polarity.spec_value()
}

/// The low byte of a 16-bit register pair.
pub open spec fn spec_low_byte(value: u16) -> u8 {
    (value % 256) as u8
}

/// The high byte of a 16-bit register pair.
pub open spec fn spec_high_byte(value: u16) -> u8 {
    (value / 256) as u8
}

/// The count that a pair of data registers holds.
pub open spec fn spec_channel(low: u8, high: u8) -> u16 {
    (high * 256 + low) as u16
}

/// The proximity count in the two PS data registers: eight bits in the first,
/// three more in the low bits of the second.
pub open spec fn spec_ps_value(ps0: u8, ps1: u8) -> u16 {
    (((ps1 & 7) as u16) << 8) | (ps0 as u16)
}

/// Whether the second PS data register flags the measurement as saturated.
pub open spec fn spec_ps_saturated(ps1: u8) -> bool {
    ps1 & BitFlags::R8E_PS_SATURATION != 0
}

/// The gain that an ALS control byte sets, where its gain field holds a code
/// that is in use.
pub open spec fn spec_gain_of_control(value: u8) -> Option<AlsGain> {
    AlsGain::from_code((value & 0b1_1100) >> 2)
}

/// The integration time that an ALS measurement rate byte sets.
pub open spec fn spec_int_time_of_meas_rate(value: u8) -> AlsIntTime {
    AlsIntTime::from_code((value & 0b11_1000) >> 3)
}

impl Status {
    /// The status that a content of the status register stands for. The data
    /// is valid where bit 7 is clear.
    pub open spec fn spec_decode(config: u8) -> Status {
        Status {
            ps_data_status: (config & BitFlags::R8C_PS_DATA_STATUS) != 0,
            ps_interrupt_status: (config & BitFlags::R8C_PS_INTERRUPT_STATUS) != 0,
            als_data_status: (config & BitFlags::R8C_ALS_DATA_STATUS) != 0,
            als_interrupt_status: (config & BitFlags::R8C_ALS_INTERRUPT_STATUS) != 0,
            als_gain: (config & BitFlags::R8C_ALS_GAIN) >> 4,
            als_data_valid: (config & BitFlags::R8C_ALS_DATA_VALID)
                != BitFlags::R8C_ALS_DATA_VALID,
        }
    }

    /// Takes a content of the status register apart.
    pub fn decode(config: u8) -> (status: Status)
        ensures
            status == Status::spec_decode(config),
    {
        Status {
            ps_data_status: (config & BitFlags::R8C_PS_DATA_STATUS) != 0,
            ps_interrupt_status: (config & BitFlags::R8C_PS_INTERRUPT_STATUS) != 0,
            als_data_status: (config & BitFlags::R8C_ALS_DATA_STATUS) != 0,
            als_interrupt_status: (config & BitFlags::R8C_ALS_INTERRUPT_STATUS) != 0,
            als_gain: (config & BitFlags::R8C_ALS_GAIN) >> 4,
            als_data_valid: (config & BitFlags::R8C_ALS_DATA_VALID)
                != BitFlags::R8C_ALS_DATA_VALID,
        }
    }
}

proof fn bits_als_contr(gain: u8, reset: u8, active: u8)
    by (bit_vector)
    requires
        gain % 4 == 0,
        gain < 32,
        reset == 0 || reset == 2,
        active == 0 || active == 1,
    ensures
        (gain | reset | active) == gain + reset + active,
        (gain | reset | active) & 0b1_1100 == gain,
        (gain | reset | active) & 0b10 == reset,
        (gain | reset | active) & 0b01 == active,
        ((gain | reset | active) & 0b1_1100) >> 2 == gain / 4,
        ((gain | reset | active) / 4) % 8 == gain / 4,
{
}

/// Packs gain, software reset and active mode into the ALS control byte.
pub fn als_contr(gain: AlsGain, sw_reset: bool, als_active: bool) -> (value: u8)
    ensures
        value == spec_als_contr(gain, sw_reset, als_active),
{
    let mut value: u8 = gain.value();
    proof {
        lemma_als_contr_fields(gain, sw_reset, als_active);
    }
    if sw_reset {
        value += 2;
    }
    if als_active {
        value += 1;
    }
    value
}

/// The three fields of the ALS control byte do not touch: the byte is their
/// sum, each field can be read back from it, and the gain that the byte sets
/// is the gain that went in.
pub proof fn lemma_als_contr_fields(gain: AlsGain, sw_reset: bool, als_active: bool)
    ensures
        spec_als_contr(gain, sw_reset, als_active) == gain.spec_value() + spec_flag(sw_reset, 2)
            + spec_flag(als_active, 1),
        spec_als_contr(gain, sw_reset, als_active) & 0b1_1100 == gain.spec_value(),
        (spec_als_contr(gain, sw_reset, als_active) & 0b10 != 0) == sw_reset,
        (spec_als_contr(gain, sw_reset, als_active) & 0b01 != 0) == als_active,
        spec_gain_of_control(spec_als_contr(gain, sw_reset, als_active)) == Some(gain),
{
    bits_als_contr(gain.spec_value(), spec_flag(sw_reset, 2), spec_flag(als_active, 1));
}

proof fn bits_ps_contr(saturation: u8, active: u8)
    by (bit_vector)
    requires
        saturation == 0 || saturation == 32,
        active == 0 || active == 3,
    ensures
        1u8 << 5u8 == 32,
        (saturation | active) == saturation + active,
        (saturation | active) & 0b10_0000 == saturation,
        (saturation | active) & 0b11 == active,
{
}

/// Packs the saturation indicator and active mode into the PS control byte.
pub fn ps_contr(ps_saturation_indicator_enable: bool, ps_active: bool) -> (value: u8)
    ensures
        value == spec_ps_contr(ps_saturation_indicator_enable, ps_active),
{
    let mut value: u8 = 0;
    proof {
        lemma_ps_contr_fields(ps_saturation_indicator_enable, ps_active);
        bits_ps_contr(0, 0);
    }
    if ps_saturation_indicator_enable {
        value += 1u8 << 5u8;
    }
    if ps_active {
        value += 3;
    }
    value
}

/// The two fields of the PS control byte do not touch: the byte is their sum
/// and each field can be read back from it.
pub proof fn lemma_ps_contr_fields(ps_saturation_indicator_enable: bool, ps_active: bool)
    ensures
        spec_ps_contr(ps_saturation_indicator_enable, ps_active) == spec_flag(
            ps_saturation_indicator_enable,
            32,
        ) + spec_flag(ps_active, 3),
        (spec_ps_contr(ps_saturation_indicator_enable, ps_active) & 0b10_0000 != 0)
            == ps_saturation_indicator_enable,
        (spec_ps_contr(ps_saturation_indicator_enable, ps_active) & 0b11 == 0b11) == ps_active,
        (spec_ps_contr(ps_saturation_indicator_enable, ps_active) & 0b11 == 0) == !ps_active,
{
    bits_ps_contr(spec_flag(ps_saturation_indicator_enable, 32), spec_flag(ps_active, 3));
}

proof fn bits_ps_led(pulse: u8, duty: u8, current: u8)
    by (bit_vector)
    requires
        pulse % 32 == 0,
        duty % 8 == 0,
        duty < 32,
        current < 8,
    ensures
        (pulse | duty | current) == pulse + duty + current,
        (pulse | duty | current) & 0b1110_0000 == pulse,
        (pulse | duty | current) & 0b1_1000 == duty,
        (pulse | duty | current) & 0b111 == current,
{
}

/// Packs pulse frequency, duty cycle and peak current into the PS LED byte.
pub fn ps_led(
    led_pulse_freq: LedPulse,
    led_duty_cycle: LedDutyCycle,
    led_peak_current: LedCurrent,
) -> (value: u8)
    ensures
        value == spec_ps_led(led_pulse_freq, led_duty_cycle, led_peak_current),
{
    let mut value: u8;
    value = led_pulse_freq.value();
    value |= led_duty_cycle.value();
    value |= led_peak_current.value();
    value
}

/// The three fields of the PS LED byte do not touch: the byte is their sum
/// and each field can be read back from it.
pub proof fn lemma_ps_led_fields(
    led_pulse_freq: LedPulse,
    led_duty_cycle: LedDutyCycle,
    led_peak_current: LedCurrent,
)
    ensures
        spec_ps_led(led_pulse_freq, led_duty_cycle, led_peak_current)
            == led_pulse_freq.spec_value() + led_duty_cycle.spec_value()
            + led_peak_current.spec_value(),
        spec_ps_led(led_pulse_freq, led_duty_cycle, led_peak_current) & 0b1110_0000
            == led_pulse_freq.spec_value(),
        spec_ps_led(led_pulse_freq, led_duty_cycle, led_peak_current) & 0b1_1000
            == led_duty_cycle.spec_value(),
        spec_ps_led(led_pulse_freq, led_duty_cycle, led_peak_current) & 0b111
            == led_peak_current.spec_value(),
{
    bits_ps_led(
        led_pulse_freq.spec_value(),
        led_duty_cycle.spec_value(),
        led_peak_current.spec_value(),
    );
}

proof fn bits_interrupt_persist(ps: u8, als: u8)
    by (bit_vector)
    requires
        ps % 16 == 0,
        als < 16,
    ensures
        (ps | als) == ps + als,
        (ps | als) & 0b1111_0000 == ps,
        (ps | als) & 0b1111 == als,
{
}

/// Packs the two persist counts into the interrupt persist byte.
pub fn interrupt_persist(als_count: AlsPersist, ps_count: PsPersist) -> (value: u8)
    ensures
        value == spec_interrupt_persist(als_count, ps_count),
{
    ps_count.value() | als_count.value()
}

/// The two fields of the interrupt persist byte do not touch: the byte is
/// their sum and each field can be read back from it.
pub proof fn lemma_interrupt_persist_fields(als_count: AlsPersist, ps_count: PsPersist)
    ensures
        spec_interrupt_persist(als_count, ps_count) == ps_count.spec_value()
            + als_count.spec_value(),
        spec_interrupt_persist(als_count, ps_count) & 0b1111_0000 == ps_count.spec_value(),
        spec_interrupt_persist(als_count, ps_count) & 0b1111 == als_count.spec_value(),
{
    bits_interrupt_persist(ps_count.spec_value(), als_count.spec_value());
}

proof fn bits_als_meas_rate(int_time: u8, rate: u8)
    by (bit_vector)
    requires
        int_time < 8,
        rate < 8,
    ensures
        ((int_time << 3) | rate) == int_time * 8 + rate,
        (((int_time << 3) | rate) & 0b11_1000) >> 3 == int_time,
        ((int_time << 3) | rate) & 0b111 == rate,
{
}

/// Packs integration time and repeat rate into the ALS measurement rate byte.
pub fn als_meas_rate(als_int: AlsIntTime, meas_rate: AlsMeasRate) -> (value: u8)
    ensures
        value == spec_als_meas_rate(als_int, meas_rate),
{
    (als_int.value() << 3) | meas_rate.value()
}

/// The two fields of the ALS measurement rate byte do not touch: the byte is
/// eight times the integration time's code plus the rate's, each field can be
/// read back from it, and the integration time that the byte sets is the one
/// that went in.
pub proof fn lemma_als_meas_rate_fields(als_int: AlsIntTime, als_meas_rate: AlsMeasRate)
    ensures
        spec_als_meas_rate(als_int, als_meas_rate) == 8 * als_int.spec_value()
            + als_meas_rate.spec_value(),
        (spec_als_meas_rate(als_int, als_meas_rate) & 0b11_1000) >> 3 == als_int.spec_value(),
        spec_als_meas_rate(als_int, als_meas_rate) & 0b111 == als_meas_rate.spec_value(),
        spec_int_time_of_meas_rate(spec_als_meas_rate(als_int, als_meas_rate)) == als_int,
{
    bits_als_meas_rate(als_int.spec_value(), als_meas_rate.spec_value());
}

proof fn bits_interrupt(mode: u8, polarity: u8)
    by (bit_vector)
    requires
        mode < 4,
        polarity == 0 || polarity == 4,
    ensures
        (mode | polarity) == mode + polarity,
        (mode | polarity) & 0b11 == mode,
        (mode | polarity) & 0b100 == polarity,
{
}

/// Packs pin polarity and interrupt mode into the interrupt byte.
pub fn interrupt(polarity: InterruptPinPolarity, mode: InterruptMode) -> (value: u8)
    ensures
        value == spec_interrupt(polarity, mode),
{
    mode.value() | polarity.value()
}

/// The two fields of the interrupt byte do not touch: the byte is their sum
/// and each field can be read back from it.
pub proof fn lemma_interrupt_fields(polarity: InterruptPinPolarity, mode: InterruptMode)
    ensures
        spec_interrupt(polarity, mode) == mode.spec_value() + polarity.spec_value(),
        spec_interrupt(polarity, mode) & 0b11 == mode.spec_value(),
        spec_interrupt(polarity, mode) & 0b100 == polarity.spec_value(),
{
    bits_interrupt(mode.spec_value(), polarity.spec_value());
}

proof fn bits_halves(value: u16)
    by (bit_vector)
    ensures
        value & 0xff == value % 256,
        (value >> 8) & 0xff == value / 256,
{
}

/// The byte that goes to the first, lower register of a pair.
pub fn low_byte(value: u16) -> (low: u8)
    ensures
        low == spec_low_byte(value),
{
    proof {
        bits_halves(value);
    }
    (value & 0xff) as u8
}

/// The byte that goes to the second, higher register of a pair.
pub fn high_byte(value: u16) -> (high: u8)
    ensures
        high == spec_high_byte(value),
{
    proof {
        bits_halves(value);
    }
    ((value >> 8) & 0xff) as u8
}

proof fn bits_channel(low: u8, high: u8)
    by (bit_vector)
    ensures
        (high as u16) << 8 == high * 256,
{
}

/// Puts the two bytes of a data register pair together.
pub fn channel(low: u8, high: u8) -> (value: u16)
    ensures
        value == spec_channel(low, high),
{
    proof {
        bits_channel(low, high);
    }
    ((high as u16) << 8) + (low as u16)
}

/// Splitting a 16-bit value and putting the two bytes together again gives
/// the value back, and the other way round.
pub proof fn lemma_halves_round_trip(value: u16, low: u8, high: u8)
    ensures
        spec_channel(spec_low_byte(value), spec_high_byte(value)) == value,
        spec_low_byte(spec_channel(low, high)) == low,
        spec_high_byte(spec_channel(low, high)) == high,
{
}

proof fn bits_ps_data(ps0: u8, ps1: u8)
    by (bit_vector)
    ensures
        (((ps1 & 7) as u16) << 8) | (ps0 as u16) == (ps1 % 8) * 256 + ps0,
        (((ps1 & 7) as u16) << 8) == (ps1 % 8) * 256,
        (ps1 & 0x80 != 0) == (ps1 >= 128),
{
}

/// Takes the two PS data registers apart into the proximity count and the
/// saturation flag.
pub fn ps_data(ps0: u8, ps1: u8) -> (r: (u16, bool))
    ensures
        r.0 == spec_ps_value(ps0, ps1),
        r.1 == spec_ps_saturated(ps1),
{
    proof {
        bits_ps_data(ps0, ps1);
    }
    let value = (((ps1 & 7) as u16) << 8) + (ps0 as u16);
    let saturated = ps1 & BitFlags::R8E_PS_SATURATION;
    (value, saturated != 0)
}

/// The proximity count has eleven bits, eight from the first register and
/// three from the second; the saturation flag is the top bit of the second.
pub proof fn lemma_ps_data_fields(ps0: u8, ps1: u8)
    ensures
        spec_ps_value(ps0, ps1) == (ps1 % 8) * 256 + ps0,
        spec_ps_value(ps0, ps1) < 2048,
        spec_ps_saturated(ps1) == (ps1 >= 128),
{
    bits_ps_data(ps0, ps1);
}

proof fn bits_status(config: u8)
    by (bit_vector)
    ensures
        (config & 0x01 != 0) == (config % 2 == 1),
        (config & 0x02 != 0) == ((config / 2) % 2 == 1),
        (config & 0x04 != 0) == ((config / 4) % 2 == 1),
        (config & 0x08 != 0) == ((config / 8) % 2 == 1),
        (config & 0x70) >> 4 == (config / 16) % 8,
        (config & 0x80 != 0x80) == (config < 128),
{
}

/// What each field of a decoded status is, in terms of the register's
/// number: the data is valid exactly where bit 7 is clear, the gain code is
/// bits 4 to 6, and the four flags are bits 3 down to 0.
pub proof fn lemma_status_fields(config: u8)
    ensures
        Status::spec_decode(config).als_data_valid == (config < 128),
        Status::spec_decode(config).als_gain == (config / 16) % 8,
        Status::spec_decode(config).als_interrupt_status == ((config / 8) % 2 == 1),
        Status::spec_decode(config).als_data_status == ((config / 4) % 2 == 1),
        Status::spec_decode(config).ps_interrupt_status == ((config / 2) % 2 == 1),
        Status::spec_decode(config).ps_data_status == (config % 2 == 1),
{
    bits_status(config);
}

/// The status register reports the gain in bits 4 to 6, with the code that
/// the ALS control register holds in bits 2 to 4. So a status that reports
/// what a control byte has set decodes to the code of the gain that the
/// control byte was made from, and that code stands for this gain alone,
/// whatever the other bits of either register hold.
pub proof fn lemma_status_gain_round_trip(
    gain: AlsGain,
    sw_reset: bool,
    als_active: bool,
    config: u8,
)
    requires
        (config / 16) % 8 == (spec_als_contr(gain, sw_reset, als_active) / 4) % 8,
    ensures
        Status::spec_decode(config).als_gain == gain.code(),
        AlsGain::from_code(Status::spec_decode(config).als_gain) == Some(gain),
{
    bits_status(config);
    bits_als_contr(gain.spec_value(), spec_flag(sw_reset, 2), spec_flag(als_active, 1));
}

} // verus!
