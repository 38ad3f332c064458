use ltr_559::lux;
use ltr_559::{AlsGain, AlsIntTime, Lux};

fn value(lux: Lux) -> f64 {
    lux.numerator as f64 / lux.denominator as f64
}

#[test]
fn dark_is_the_last_row_and_zero() {
    assert_eq!(lux::lux_row(0, 0), 3);
    assert!(!lux::ratio_below(0, 0, 1000));
    assert!(lux::ratio_below(0, 0, 1001));
    let dark = lux::lux(0, 0, AlsGain::Gain1x, AlsIntTime::_100ms);
    assert_eq!(dark.numerator, 0);
    assert_eq!(dark.numerator as f32 / dark.denominator as f32, 0.0);
}

#[test]
fn a_ratio_on_a_threshold_belongs_to_the_row_above() {
    // 9 / (9 + 11) = 0.450
    assert_eq!(lux::lux_row(11, 9), 1);
    // 16 / (16 + 9) = 0.640
    assert_eq!(lux::lux_row(9, 16), 2);
    // 17 / (17 + 3) = 0.850
    assert_eq!(lux::lux_row(3, 17), 3);
}

#[test]
fn a_ratio_just_under_a_threshold_belongs_to_the_row_below() {
    // 449 / 1000, 639 / 1000, 849 / 1000
    assert_eq!(lux::lux_row(551, 449), 0);
    assert_eq!(lux::lux_row(361, 639), 1);
    assert_eq!(lux::lux_row(151, 849), 2);
    // 450 / 1000, 640 / 1000, 850 / 1000
    assert_eq!(lux::lux_row(550, 450), 1);
    assert_eq!(lux::lux_row(360, 640), 2);
    assert_eq!(lux::lux_row(150, 850), 3);
}

#[test]
fn rows_at_the_ends_of_the_range() {
    assert_eq!(lux::lux_row(65535, 0), 0);
    assert_eq!(lux::lux_row(0, 65535), 3);
    assert_eq!(lux::lux_row(65535, 65535), 1);
    assert_eq!(lux::lux_row(1, 0), 0);
    assert_eq!(lux::lux_row(0, 1), 3);
}

#[test]
fn ratio_below_compares_in_thousandths() {
    assert!(lux::ratio_below(11, 9, 451));
    assert!(!lux::ratio_below(11, 9, 450));
    assert!(lux::ratio_below(65535, 65535, 501));
    assert!(!lux::ratio_below(65535, 65535, 500));
    assert!(!lux::ratio_below(0, 65535, 1000));
    assert!(lux::ratio_below(0, 65535, 65535));
    assert!(!lux::ratio_below(1, 0, 0));
}

#[test]
fn first_row_adds_both_channels() {
    let l = lux::lux(1000, 100, AlsGain::Gain1x, AlsIntTime::_100ms);
    assert_eq!(l.numerator, 2 * (1000 * 17743 + 100 * 11059));
    assert_eq!(l.denominator, 20000);
    assert!((value(l) - 1884.89).abs() < 1e-9);
}

#[test]
fn second_row_subtracts_channel_one() {
    let l = lux::lux(1000, 1000, AlsGain::Gain1x, AlsIntTime::_100ms);
    assert_eq!(l.numerator, 2 * (1000 * 42785 - 1000 * 19548));
    assert!((value(l) - 2323.7).abs() < 1e-9);
}

#[test]
fn third_row_adds_both_channels() {
    let l = lux::lux(300, 700, AlsGain::Gain1x, AlsIntTime::_100ms);
    assert_eq!(l.numerator, 2 * (300 * 5926 + 700 * 1185));
    assert!((value(l) - 260.73).abs() < 1e-9);
}

#[test]
fn last_row_is_zero_whatever_the_counts() {
    for (ch0, ch1) in [(150u16, 850u16), (0, 1), (0, 65535), (1, 65535), (100, 900)] {
        let l = lux::lux(ch0, ch1, AlsGain::Gain96x, AlsIntTime::_400ms);
        assert_eq!(l.numerator, 0);
        assert_eq!(value(l), 0.0);
    }
}

#[test]
fn gain_and_integration_time_scale_the_result_down() {
    let l = lux::lux(1000, 100, AlsGain::Gain48x, AlsIntTime::_250ms);
    assert_eq!(l.numerator, 2 * (1000 * 17743 + 100 * 11059));
    assert_eq!(l.denominator, 10000 * 5 * 48);
    let expected = (1000.0 * 17743.0 + 100.0 * 11059.0) / 10000.0 / 2.5 / 48.0;
    assert!((value(l) - expected).abs() < 1e-9);
}

#[test]
fn denominators_cover_every_setting() {
    let l = lux::lux(1, 0, AlsGain::Gain1x, AlsIntTime::_50ms);
    assert_eq!(l.denominator, 10000);
    let l = lux::lux(1, 0, AlsGain::Gain96x, AlsIntTime::_400ms);
    assert_eq!(l.denominator, 7_680_000);
}

#[test]
fn largest_counts_fit() {
    let l = lux::lux(65535, 65535, AlsGain::Gain1x, AlsIntTime::_100ms);
    assert_eq!(l.numerator, 2 * (65535 * 42785 - 65535 * 19548));
    let l = lux::lux(65535, 0, AlsGain::Gain1x, AlsIntTime::_50ms);
    assert_eq!(l.numerator, 2 * 65535 * 17743);
    assert!(l.numerator > 0);
}

#[test]
fn lux_is_never_negative() {
    for ch0 in [0u16, 1, 9, 11, 100, 1000, 30000, 65535] {
        for ch1 in [0u16, 1, 9, 16, 100, 1000, 30000, 65535] {
            assert!(lux::lux(ch0, ch1, AlsGain::Gain1x, AlsIntTime::_100ms).numerator >= 0);
        }
    }
}
