use ltr_559::i2c;
use ltr_559::{
    AlsGain, AlsIntTime, AlsMeasRate, AlsPersist, Error, InterruptMode, InterruptPinPolarity,
    LedCurrent, LedDutyCycle, LedPulse, Ltr559, PsMeasRate, PsPersist, SlaveAddr, Status,
};

struct I2cMock;

impl i2c::Write for I2cMock {
    type Error = ();

    fn write(&mut self, _addr: u8, _bytes: &[u8]) -> Result<(), Self::Error> {
        Ok(())
    }
}

/// A bus that keeps what it is sent, answers reads from a table of register
/// contents, and fails from a chosen transaction on.
struct Bus {
    writes: Vec<(u8, Vec<u8>)>,
    reads: Vec<(u8, Vec<u8>)>,
    registers: Vec<(u8, u8)>,
    fail_from: Option<usize>,
}

impl Bus {
    fn new() -> Self {
        Bus { writes: Vec::new(), reads: Vec::new(), registers: Vec::new(), fail_from: None }
    }

    fn failing_from(transaction: usize) -> Self {
        Bus {
            writes: Vec::new(),
            reads: Vec::new(),
            registers: Vec::new(),
            fail_from: Some(transaction),
        }
    }

    fn with_registers(registers: &[(u8, u8)]) -> Self {
        Bus {
            writes: Vec::new(),
            reads: Vec::new(),
            registers: registers.to_vec(),
            fail_from: None,
        }
    }

    fn fails_now(&self) -> bool {
        match self.fail_from {
            Some(n) => self.writes.len() + self.reads.len() > n,
            None => false,
        }
    }
}

impl i2c::Write for Bus {
    type Error = u8;

    fn write(&mut self, addr: u8, bytes: &[u8]) -> Result<(), Self::Error> {
        self.writes.push((addr, bytes.to_vec()));
        if self.fails_now() {
            Err(0xEE)
        } else {
            Ok(())
        }
    }
}

impl i2c::WriteRead for Bus {
    type Error = u8;

    fn write_read(&mut self, addr: u8, bytes: &[u8], buffer: &mut [u8]) -> Result<(), Self::Error> {
        self.reads.push((addr, bytes.to_vec()));
        if self.fails_now() {
            return Err(0xEE);
        }
        for slot in buffer.iter_mut() {
            *slot = 0;
        }
        for (register, content) in self.registers.iter() {
            if bytes.len() == 1 && bytes[0] == *register && buffer.len() == 1 {
                buffer[0] = *content;
            }
        }
        Ok(())
    }
}

fn is_bus_error<T>(r: &Result<T, Error<u8>>) -> bool {
    matches!(r, Err(Error::I2C(0xEE)))
}

fn is_invalid_input<T>(r: &Result<T, Error<u8>>) -> bool {
    matches!(r, Err(Error::InvalidInputData))
}

#[test]
fn can_reset_driver_state() {
    let mut device = Ltr559::new_device(I2cMock {}, SlaveAddr::default());
    device
        .set_interrupt_persist(AlsPersist::_3v, PsPersist::_2v)
        .unwrap();
    device
        .set_als_contr(AlsGain::Gain96x, false, false)
        .unwrap();
    assert_eq!(device.als_gain(), AlsGain::Gain96x);
    device.reset_internal_driver_state();
    assert_eq!(device.als_gain(), AlsGain::default());
}

#[test]
fn ps_offset_outside() {
    let mut device = Ltr559::new_device(I2cMock {}, SlaveAddr::default());
    assert!(device.set_ps_offset(1024).is_err());
}

#[test]
fn ps_offset_ok() {
    let mut device = Ltr559::new_device(I2cMock {}, SlaveAddr::default());
    assert!(device.set_ps_offset(1023).is_ok());
}

#[test]
fn ps_n_pulses_outside() {
    let mut device = Ltr559::new_device(I2cMock {}, SlaveAddr::default());
    assert!(device.set_ps_n_pulses(0).is_err());
}

#[test]
fn ps_n_pulses_ok() {
    let mut device = Ltr559::new_device(I2cMock {}, SlaveAddr::default());
    assert!(device.set_ps_n_pulses(15).is_ok());
}

#[test]
fn new_device_starts_from_the_defaults() {
    let device = Ltr559::new_device(Bus::new(), SlaveAddr::default());
    assert_eq!(device.als_gain(), AlsGain::Gain1x);
    assert_eq!(device.als_int(), AlsIntTime::_100ms);
    let bus = device.destroy();
    assert!(bus.writes.is_empty());
    assert!(bus.reads.is_empty());
}

#[test]
fn destroy_hands_the_bus_back() {
    let mut device = Ltr559::new_device(Bus::new(), SlaveAddr::default());
    device.set_ps_n_pulses(4).unwrap();
    let bus = device.destroy();
    assert_eq!(bus.writes, vec![(0x23, vec![0x83, 4])]);
}

#[test]
fn ps_offset_above_range_touches_no_bus() {
    let mut device = Ltr559::new_device(Bus::new(), SlaveAddr::default());
    assert!(is_invalid_input(&device.set_ps_offset(1024)));
    assert!(is_invalid_input(&device.set_ps_offset(0xFFFF)));
    let bus = device.destroy();
    assert!(bus.writes.is_empty());
}

#[test]
fn ps_offset_at_the_limit_is_written_low_byte_first() {
    let mut device = Ltr559::new_device(Bus::new(), SlaveAddr::default());
    assert!(device.set_ps_offset(1023).is_ok());
    let bus = device.destroy();
    assert_eq!(bus.writes, vec![(0x23, vec![0x94, 0xFF]), (0x23, vec![0x95, 0x03])]);
}

#[test]
fn ps_offset_zero_is_written() {
    let mut device = Ltr559::new_device(Bus::new(), SlaveAddr::default());
    assert!(device.set_ps_offset(0).is_ok());
    let bus = device.destroy();
    assert_eq!(bus.writes, vec![(0x23, vec![0x94, 0x00]), (0x23, vec![0x95, 0x00])]);
}

#[test]
fn ps_n_pulses_accepts_one_to_fifteen() {
    let mut device = Ltr559::new_device(Bus::new(), SlaveAddr::default());
    assert!(is_invalid_input(&device.set_ps_n_pulses(0)));
    assert!(is_invalid_input(&device.set_ps_n_pulses(16)));
    assert!(is_invalid_input(&device.set_ps_n_pulses(255)));
    assert!(device.set_ps_n_pulses(1).is_ok());
    assert!(device.set_ps_n_pulses(15).is_ok());
    let bus = device.destroy();
    assert_eq!(bus.writes, vec![(0x23, vec![0x83, 1]), (0x23, vec![0x83, 15])]);
}

#[test]
fn als_contr_is_written_and_cached() {
    let mut device = Ltr559::new_device(Bus::new(), SlaveAddr::default());
    device.set_als_contr(AlsGain::Gain48x, false, true).unwrap();
    assert_eq!(device.als_gain(), AlsGain::Gain48x);
    device.set_als_contr(AlsGain::Gain4x, true, false).unwrap();
    assert_eq!(device.als_gain(), AlsGain::Gain4x);
    let bus = device.destroy();
    assert_eq!(bus.writes, vec![(0x23, vec![0x80, 0x19]), (0x23, vec![0x80, 0x0A])]);
}

#[test]
fn als_contr_that_fails_leaves_the_cached_gain() {
    let mut device = Ltr559::new_device(Bus::failing_from(1), SlaveAddr::default());
    device.set_als_contr(AlsGain::Gain8x, false, true).unwrap();
    let r = device.set_als_contr(AlsGain::Gain96x, false, true);
    assert!(is_bus_error(&r));
    assert_eq!(device.als_gain(), AlsGain::Gain8x);
    let bus = device.destroy();
    assert_eq!(bus.writes.len(), 2);
}

#[test]
fn als_meas_rate_is_written_and_cached() {
    let mut device = Ltr559::new_device(Bus::new(), SlaveAddr::default());
    device.set_als_meas_rate(AlsIntTime::_400ms, AlsMeasRate::_2000ms).unwrap();
    assert_eq!(device.als_int(), AlsIntTime::_400ms);
    device.set_als_meas_rate(AlsIntTime::_50ms, AlsMeasRate::_50ms).unwrap();
    assert_eq!(device.als_int(), AlsIntTime::_50ms);
    let bus = device.destroy();
    assert_eq!(bus.writes, vec![(0x23, vec![0x85, 0x1F]), (0x23, vec![0x85, 0x08])]);
}

#[test]
fn als_meas_rate_that_fails_leaves_the_cached_time() {
    let mut device = Ltr559::new_device(Bus::failing_from(0), SlaveAddr::default());
    let r = device.set_als_meas_rate(AlsIntTime::_350ms, AlsMeasRate::_100ms);
    assert!(is_bus_error(&r));
    assert_eq!(device.als_int(), AlsIntTime::_100ms);
}

#[test]
fn reset_takes_both_cached_values_back_without_bus_traffic() {
    let mut device = Ltr559::new_device(Bus::new(), SlaveAddr::default());
    device.set_als_contr(AlsGain::Gain96x, false, false).unwrap();
    device.set_als_meas_rate(AlsIntTime::_300ms, AlsMeasRate::_500ms).unwrap();
    device.reset_internal_driver_state();
    assert_eq!(device.als_gain(), AlsGain::Gain1x);
    assert_eq!(device.als_int(), AlsIntTime::_100ms);
    let bus = device.destroy();
    assert_eq!(bus.writes.len(), 2);
    assert!(bus.reads.is_empty());
}

#[test]
fn single_register_settings_are_written() {
    let mut device = Ltr559::new_device(Bus::new(), SlaveAddr::default());
    device.set_ps_contr(true, true).unwrap();
    device.set_ps_contr(false, false).unwrap();
    device.set_ps_led(LedPulse::Pulse60, LedDutyCycle::_100, LedCurrent::_100mA).unwrap();
    device.set_interrupt_persist(AlsPersist::_4v, PsPersist::_5v).unwrap();
    device.set_ps_meas_rate(PsMeasRate::_10ms).unwrap();
    device.set_interrupt(InterruptPinPolarity::High, InterruptMode::Both).unwrap();
    let bus = device.destroy();
    assert_eq!(
        bus.writes,
        vec![
            (0x23, vec![0x81, 0x23]),
            (0x23, vec![0x81, 0x00]),
            (0x23, vec![0x82, 0x7F]),
            (0x23, vec![0x9E, 0x43]),
            (0x23, vec![0x84, 0x08]),
            (0x23, vec![0x8F, 0x07]),
        ]
    );
}

#[test]
fn limits_are_written_low_byte_first() {
    let mut device = Ltr559::new_device(Bus::new(), SlaveAddr::default());
    device.set_als_low_limit_raw(1000).unwrap();
    device.set_als_high_limit_raw(15000).unwrap();
    device.set_ps_low_limit_raw(0x0102).unwrap();
    device.set_ps_high_limit_raw(0xFFFE).unwrap();
    let bus = device.destroy();
    assert_eq!(
        bus.writes,
        vec![
            (0x23, vec![0x99, 0xE8]),
            (0x23, vec![0x9A, 0x03]),
            (0x23, vec![0x97, 0x98]),
            (0x23, vec![0x98, 0x3A]),
            (0x23, vec![0x92, 0x02]),
            (0x23, vec![0x93, 0x01]),
            (0x23, vec![0x90, 0xFE]),
            (0x23, vec![0x91, 0xFF]),
        ]
    );
}

#[test]
fn limit_whose_first_write_fails_stops_there() {
    let mut device = Ltr559::new_device(Bus::failing_from(0), SlaveAddr::default());
    let r = device.set_als_low_limit_raw(0x1234);
    assert!(is_bus_error(&r));
    let bus = device.destroy();
    assert_eq!(bus.writes, vec![(0x23, vec![0x99, 0x34])]);
}

#[test]
fn limit_whose_second_write_fails_is_left_half_written() {
    let mut device = Ltr559::new_device(Bus::failing_from(1), SlaveAddr::default());
    let r = device.set_ps_high_limit_raw(0x1234);
    assert!(is_bus_error(&r));
    let bus = device.destroy();
    assert_eq!(bus.writes, vec![(0x23, vec![0x90, 0x34]), (0x23, vec![0x91, 0x12])]);
}

#[test]
fn ids_are_handed_out_as_read() {
    let bus = Bus::with_registers(&[(0x87, 0x05), (0x86, 0x92)]);
    let mut device = Ltr559::new_device(bus, SlaveAddr::default());
    assert_eq!(device.get_manufacturer_id().unwrap(), 0x05);
    assert_eq!(device.get_part_id().unwrap(), 0x92);
    let bus = device.destroy();
    assert_eq!(bus.reads, vec![(0x23, vec![0x87]), (0x23, vec![0x86])]);
    assert!(bus.writes.is_empty());
}

#[test]
fn id_read_that_fails_is_an_error() {
    let mut device = Ltr559::new_device(Bus::failing_from(0), SlaveAddr::default());
    assert!(is_bus_error(&device.get_part_id()));
}

#[test]
fn status_with_the_invalid_bit_set_is_not_valid() {
    let mut device = Ltr559::new_device(Bus::with_registers(&[(0x8C, 0x80)]), SlaveAddr::default());
    let status = device.get_status().unwrap();
    assert_eq!(status.als_data_valid, false);
    let bus = device.destroy();
    assert_eq!(bus.reads, vec![(0x23, vec![0x8C])]);
}

#[test]
fn status_with_the_invalid_bit_clear_is_valid() {
    let mut device = Ltr559::new_device(Bus::with_registers(&[(0x8C, 0x00)]), SlaveAddr::default());
    let status = device.get_status().unwrap();
    assert_eq!(status.als_data_valid, true);
    assert_eq!(
        status,
        Status {
            als_data_valid: true,
            als_gain: 0,
            als_interrupt_status: false,
            als_data_status: false,
            ps_interrupt_status: false,
            ps_data_status: false,
        }
    );
}

#[test]
fn status_reports_the_gain_that_was_set() {
    // a sensor at gain 48x with new ALS data reports code 6 in bits 4 to 6
    let mut device = Ltr559::new_device(Bus::with_registers(&[(0x8C, 0x64)]), SlaveAddr::default());
    let status = device.get_status().unwrap();
    assert_eq!(status.als_gain, AlsGain::Gain48x.value() >> 2);
    assert!(status.als_data_status);
    assert!(status.als_data_valid);
}

#[test]
fn status_read_that_fails_is_an_error() {
    let mut device = Ltr559::new_device(Bus::failing_from(0), SlaveAddr::default());
    assert!(is_bus_error(&device.get_status()));
}

#[test]
fn raw_channels_are_read_in_register_order() {
    let bus = Bus::with_registers(&[(0x88, 0x34), (0x89, 0x12), (0x8A, 0xCD), (0x8B, 0xAB)]);
    let mut device = Ltr559::new_device(bus, SlaveAddr::default());
    let (ch0, ch1) = device.get_als_raw_data().unwrap();
    assert_eq!(ch0, 0xABCD);
    assert_eq!(ch1, 0x1234);
    let bus = device.destroy();
    assert_eq!(
        bus.reads,
        vec![(0x23, vec![0x88]), (0x23, vec![0x89]), (0x23, vec![0x8A]), (0x23, vec![0x8B])]
    );
}

#[test]
fn raw_channels_give_up_at_the_first_read_that_fails() {
    let mut device = Ltr559::new_device(Bus::failing_from(2), SlaveAddr::default());
    assert!(is_bus_error(&device.get_als_raw_data()));
    let bus = device.destroy();
    assert_eq!(bus.reads, vec![(0x23, vec![0x88]), (0x23, vec![0x89]), (0x23, vec![0x8A])]);
}

#[test]
fn ps_data_is_put_together_from_two_registers() {
    let bus = Bus::with_registers(&[(0x8D, 0x21), (0x8E, 0x87)]);
    let mut device = Ltr559::new_device(bus, SlaveAddr::default());
    assert_eq!(device.get_ps_data().unwrap(), (0x0721, true));
    let bus = device.destroy();
    assert_eq!(bus.reads, vec![(0x23, vec![0x8D]), (0x23, vec![0x8E])]);
}

#[test]
fn ps_data_ignores_the_unused_bits() {
    let bus = Bus::with_registers(&[(0x8D, 0xFF), (0x8E, 0x7A)]);
    let mut device = Ltr559::new_device(bus, SlaveAddr::default());
    assert_eq!(device.get_ps_data().unwrap(), (0x02FF, false));
}

#[test]
fn ps_data_gives_up_at_the_first_read_that_fails() {
    let mut device = Ltr559::new_device(Bus::failing_from(0), SlaveAddr::default());
    assert!(is_bus_error(&device.get_ps_data()));
    let bus = device.destroy();
    assert_eq!(bus.reads.len(), 1);
}

#[test]
fn lux_in_the_dark_is_zero() {
    let bus = Bus::with_registers(&[(0x88, 0), (0x89, 0), (0x8A, 0), (0x8B, 0)]);
    let mut device = Ltr559::new_device(bus, SlaveAddr::default());
    let lux = device.get_lux().unwrap();
    assert_eq!(lux.numerator, 0);
    assert_eq!(lux.denominator, 20000);
    assert_eq!(lux.numerator as f32 / lux.denominator as f32, 0.0);
}

#[test]
fn lux_on_the_first_threshold_takes_the_second_row() {
    // channel 1 = 9, channel 0 = 11: the ratio is 9000 / 20 = 450
    let bus = Bus::with_registers(&[(0x88, 9), (0x89, 0), (0x8A, 11), (0x8B, 0)]);
    let mut device = Ltr559::new_device(bus, SlaveAddr::default());
    let lux = device.get_lux().unwrap();
    assert_eq!(lux.numerator, 2 * (11 * 42785 - 9 * 19548));
    assert_eq!(lux.denominator, 20000);
    let value = lux.numerator as f64 / lux.denominator as f64;
    assert!((value - 29.4703).abs() < 1e-9);
}

#[test]
fn lux_follows_the_cached_gain_and_integration_time() {
    let bus = Bus::with_registers(&[(0x88, 0x10), (0x89, 0x00), (0x8A, 0x00), (0x8B, 0x01)]);
    let mut device = Ltr559::new_device(bus, SlaveAddr::default());
    device.set_als_contr(AlsGain::Gain4x, false, true).unwrap();
    device.set_als_meas_rate(AlsIntTime::_50ms, AlsMeasRate::_50ms).unwrap();
    // channel 0 = 256, channel 1 = 16: ratio 58.8, first row
    let lux = device.get_lux().unwrap();
    assert_eq!(lux.numerator, 2 * (256 * 17743 + 16 * 11059));
    assert_eq!(lux.denominator, 10000 * 1 * 4);
    let value = lux.numerator as f64 / lux.denominator as f64;
    let expected = (256.0 * 17743.0 + 16.0 * 11059.0) / 10000.0 / 0.5 / 4.0;
    assert!((value - expected).abs() < 1e-9);
}

#[test]
fn lux_read_that_fails_is_an_error() {
    let mut device = Ltr559::new_device(Bus::failing_from(3), SlaveAddr::default());
    assert!(is_bus_error(&device.get_lux()));
    let bus = device.destroy();
    assert_eq!(bus.reads.len(), 4);
}
