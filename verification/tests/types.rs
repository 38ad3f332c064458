use ltr_559::{
    AlsGain, AlsIntTime, AlsMeasRate, AlsPersist, InterruptMode, InterruptPinPolarity,
    LedCurrent, LedDutyCycle, LedPulse, PsMeasRate, PsPersist, SlaveAddr,
};

#[test]
fn als_gain_values_are_the_codes_shifted_by_two_bits() {
    assert_eq!(AlsGain::Gain1x.value(), 0);
    assert_eq!(AlsGain::Gain2x.value(), 4);
    assert_eq!(AlsGain::Gain4x.value(), 8);
    assert_eq!(AlsGain::Gain8x.value(), 12);
    assert_eq!(AlsGain::Gain48x.value(), 24);
    assert_eq!(AlsGain::Gain96x.value(), 28);
}

#[test]
fn als_gain_factors_match_the_gains() {
    assert_eq!(AlsGain::Gain1x.lux_factor(), 1);
    assert_eq!(AlsGain::Gain2x.lux_factor(), 2);
    assert_eq!(AlsGain::Gain4x.lux_factor(), 4);
    assert_eq!(AlsGain::Gain8x.lux_factor(), 8);
    assert_eq!(AlsGain::Gain48x.lux_factor(), 48);
    assert_eq!(AlsGain::Gain96x.lux_factor(), 96);
}

#[test]
fn als_gain_values_and_factors_tell_the_gains_apart() {
    let all = [
        AlsGain::Gain1x,
        AlsGain::Gain2x,
        AlsGain::Gain4x,
        AlsGain::Gain8x,
        AlsGain::Gain48x,
        AlsGain::Gain96x,
    ];
    for (i, a) in all.iter().enumerate() {
        for (j, b) in all.iter().enumerate() {
            assert_eq!(a.value() == b.value(), i == j);
            assert_eq!(a.lux_factor() == b.lux_factor(), i == j);
        }
    }
}

#[test]
fn led_pulse_values() {
    assert_eq!(LedPulse::Pulse30.value(), 0x00);
    assert_eq!(LedPulse::Pulse40.value(), 0x20);
    assert_eq!(LedPulse::Pulse50.value(), 0x40);
    assert_eq!(LedPulse::Pulse60.value(), 0x60);
    assert_eq!(LedPulse::Pulse70.value(), 0x80);
    assert_eq!(LedPulse::Pulse80.value(), 0xA0);
    assert_eq!(LedPulse::Pulse90.value(), 0xC0);
    assert_eq!(LedPulse::Pulse100.value(), 0xE0);
}

#[test]
fn led_duty_cycle_values() {
    assert_eq!(LedDutyCycle::_25.value(), 0x00);
    assert_eq!(LedDutyCycle::_50.value(), 0x08);
    assert_eq!(LedDutyCycle::_75.value(), 0x10);
    assert_eq!(LedDutyCycle::_100.value(), 0x18);
}

#[test]
fn led_current_values() {
    assert_eq!(LedCurrent::_5mA.value(), 0);
    assert_eq!(LedCurrent::_10mA.value(), 1);
    assert_eq!(LedCurrent::_20mA.value(), 2);
    assert_eq!(LedCurrent::_50mA.value(), 3);
    assert_eq!(LedCurrent::_100mA.value(), 7);
}

#[test]
fn ps_meas_rate_values() {
    assert_eq!(PsMeasRate::_50ms.value(), 0);
    assert_eq!(PsMeasRate::_70ms.value(), 1);
    assert_eq!(PsMeasRate::_100ms.value(), 2);
    assert_eq!(PsMeasRate::_200ms.value(), 3);
    assert_eq!(PsMeasRate::_500ms.value(), 4);
    assert_eq!(PsMeasRate::_1000ms.value(), 5);
    assert_eq!(PsMeasRate::_2000ms.value(), 6);
    assert_eq!(PsMeasRate::_10ms.value(), 8);
}

#[test]
fn als_meas_rate_values() {
    assert_eq!(AlsMeasRate::_50ms.value(), 0);
    assert_eq!(AlsMeasRate::_100ms.value(), 1);
    assert_eq!(AlsMeasRate::_200ms.value(), 2);
    assert_eq!(AlsMeasRate::_500ms.value(), 3);
    assert_eq!(AlsMeasRate::_1000ms.value(), 4);
    assert_eq!(AlsMeasRate::_2000ms.value(), 7);
}

#[test]
fn als_int_time_values() {
    assert_eq!(AlsIntTime::_100ms.value(), 0);
    assert_eq!(AlsIntTime::_50ms.value(), 1);
    assert_eq!(AlsIntTime::_200ms.value(), 2);
    assert_eq!(AlsIntTime::_400ms.value(), 3);
    assert_eq!(AlsIntTime::_150ms.value(), 4);
    assert_eq!(AlsIntTime::_250ms.value(), 5);
    assert_eq!(AlsIntTime::_300ms.value(), 6);
    assert_eq!(AlsIntTime::_350ms.value(), 7);
}

#[test]
fn als_int_time_factors_count_steps_of_50_ms() {
    assert_eq!(AlsIntTime::_50ms.lux_factor_halves(), 1);
    assert_eq!(AlsIntTime::_100ms.lux_factor_halves(), 2);
    assert_eq!(AlsIntTime::_150ms.lux_factor_halves(), 3);
    assert_eq!(AlsIntTime::_200ms.lux_factor_halves(), 4);
    assert_eq!(AlsIntTime::_250ms.lux_factor_halves(), 5);
    assert_eq!(AlsIntTime::_300ms.lux_factor_halves(), 6);
    assert_eq!(AlsIntTime::_350ms.lux_factor_halves(), 7);
    assert_eq!(AlsIntTime::_400ms.lux_factor_halves(), 8);
    assert_eq!(AlsIntTime::_50ms.lux_factor_halves() as f32 / 2.0, 0.5);
    assert_eq!(AlsIntTime::_350ms.lux_factor_halves() as f32 / 2.0, 3.5);
}

#[test]
fn als_persist_values_count_up_from_zero() {
    let all = [
        AlsPersist::EveryTime,
        AlsPersist::_2v,
        AlsPersist::_3v,
        AlsPersist::_4v,
        AlsPersist::_5v,
        AlsPersist::_6v,
        AlsPersist::_7v,
        AlsPersist::_8v,
        AlsPersist::_9v,
        AlsPersist::_10v,
        AlsPersist::_11v,
        AlsPersist::_12v,
        AlsPersist::_13v,
        AlsPersist::_14v,
        AlsPersist::_15v,
        AlsPersist::_16v,
    ];
    for (i, p) in all.iter().enumerate() {
        assert_eq!(p.value() as usize, i);
    }
}

#[test]
fn ps_persist_values_sit_in_the_high_nibble() {
    let all = [
        PsPersist::EveryTime,
        PsPersist::_2v,
        PsPersist::_3v,
        PsPersist::_4v,
        PsPersist::_5v,
        PsPersist::_6v,
        PsPersist::_7v,
        PsPersist::_8v,
        PsPersist::_9v,
        PsPersist::_10v,
        PsPersist::_11v,
        PsPersist::_12v,
        PsPersist::_13v,
        PsPersist::_14v,
        PsPersist::_15v,
        PsPersist::_16v,
    ];
    for (i, p) in all.iter().enumerate() {
        assert_eq!(p.value() as usize, i * 16);
    }
}

#[test]
fn interrupt_mode_values() {
    assert_eq!(InterruptMode::Inactive.value(), 0);
    assert_eq!(InterruptMode::OnlyPS.value(), 1);
    assert_eq!(InterruptMode::OnlyALS.value(), 2);
    assert_eq!(InterruptMode::Both.value(), 3);
}

#[test]
fn interrupt_pin_polarity_values() {
    assert_eq!(InterruptPinPolarity::Low.value(), 0);
    assert_eq!(InterruptPinPolarity::High.value(), 4);
}

#[test]
fn defaults_are_the_power_up_settings() {
    assert_eq!(AlsGain::default(), AlsGain::Gain1x);
    assert_eq!(LedPulse::default(), LedPulse::Pulse60);
    assert_eq!(LedDutyCycle::default(), LedDutyCycle::_100);
    assert_eq!(LedCurrent::default(), LedCurrent::_100mA);
    assert_eq!(PsMeasRate::default(), PsMeasRate::_100ms);
    assert_eq!(AlsMeasRate::default(), AlsMeasRate::_500ms);
    assert_eq!(AlsIntTime::default(), AlsIntTime::_100ms);
    assert_eq!(AlsPersist::default(), AlsPersist::EveryTime);
    assert_eq!(PsPersist::default(), PsPersist::EveryTime);
    assert_eq!(InterruptMode::default(), InterruptMode::Inactive);
    assert!(matches!(SlaveAddr::default(), SlaveAddr::Default));
}

#[test]
fn slave_addresses_are_seven_bit() {
    assert_eq!(SlaveAddr::Default.addr(), 0x23);
    for a1 in [false, true] {
        for a0 in [false, true] {
            let address = SlaveAddr::Alternative(a1, a0).addr();
            assert_eq!(address, 0x23 | ((a1 as u8) << 1) | a0 as u8);
            assert!(address < 0x80);
        }
    }
}

#[test]
fn mode_change_error_carries_the_error_and_the_device() {
    let error: ltr_559::ModeChangeError<u8, &str> = ltr_559::ModeChangeError::I2C(7, "device");
    let ltr_559::ModeChangeError::I2C(cause, device) = error;
    assert_eq!(cause, 7);
    assert_eq!(device, "device");
}

#[test]
fn bus_results_are_passed_on() {
    let fine: Result<u8, ltr_559::Error<&str>> = ltr_559::Error::from_bus(Ok(5));
    assert!(matches!(fine, Ok(5)));
    let failed: Result<u8, ltr_559::Error<&str>> = ltr_559::Error::from_bus(Err("nack"));
    assert!(matches!(failed, Err(ltr_559::Error::I2C("nack"))));
}
