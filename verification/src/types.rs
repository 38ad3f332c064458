//! Configuration values of the sensor and their register encodings.
//!
//! Every `value()` is the variant's bit pattern, already shifted to the place
//! its field has in the register it belongs to. The one exception is the
//! integration time, whose code is shifted when the ALS measurement rate byte
//! is put together.

use vstd::prelude::*;

verus! {

/// ALS Gain
#[derive(Debug, Clone, Copy, PartialEq, Eq, Structural)]
pub enum AlsGain {
    /// Gain 1x (1 lux to 64k lux default)
    Gain1x,
    /// Gain 2x (0.5 lux to 32k lux)
    Gain2x,
    /// Gain 4x (0.25 lux to 16k lux)
    Gain4x,
    /// Gain 8x (0.125 lux to 8k lux)
    Gain8x,
    /// Gain 48x (0.2 lux to 1.3k lux)
    Gain48x,
    /// Gain 96x (0.1 lux to 600 lux)
    Gain96x,
}

/// Default for AlsGain
impl Default for AlsGain {
    fn default() -> (r: Self)
        ensures
            r == AlsGain::Gain1x,
    {
        AlsGain::Gain1x
    }
}

impl AlsGain {
    /// The three-bit code that the sensor uses for this gain.
    pub open spec fn code(&self) -> u8 {
        match *self {
            AlsGain::Gain1x => 0,
            AlsGain::Gain2x => 1,
            AlsGain::Gain4x => 2,
            AlsGain::Gain8x => 3,
            AlsGain::Gain48x => 6,
            AlsGain::Gain96x => 7,
        }
    }

    /// The gain field of the ALS control register: the code in bits 2 to 4.
    pub open spec fn spec_value(&self) -> u8 {
        match *self {
            AlsGain::Gain1x => 0,
            AlsGain::Gain2x => 4,
            AlsGain::Gain4x => 8,
            AlsGain::Gain8x => 12,
            AlsGain::Gain48x => 24,
            AlsGain::Gain96x => 28,
        }
    }

    /// The factor by which this gain scales a reading.
    pub open spec fn spec_lux_factor(&self) -> u8 {
        match *self {
            AlsGain::Gain1x => 1,
            AlsGain::Gain2x => 2,
            AlsGain::Gain4x => 4,
            AlsGain::Gain8x => 8,
            AlsGain::Gain48x => 48,
            AlsGain::Gain96x => 96,
        }
    }

    /// The gain that a code stands for; codes 4 and 5 are reserved.
    pub open spec fn from_code(code: u8) -> Option<AlsGain> {
        if code == 0 {
            Some(AlsGain::Gain1x)
        } else if code == 1 {
            Some(AlsGain::Gain2x)
        } else if code == 2 {
            Some(AlsGain::Gain4x)
        } else if code == 3 {
            Some(AlsGain::Gain8x)
        } else if code == 6 {
            Some(AlsGain::Gain48x)
        } else if code == 7 {
            Some(AlsGain::Gain96x)
        } else {
            None
        }
    }

    /// ALS Gain value
    #[verifier::when_used_as_spec(spec_value)]
    pub fn value(&self) -> (r: u8)
        ensures
            r == self.spec_value(),
    {
        assert(0u8 << 2u8 == 0 && 1u8 << 2u8 == 4 && 2u8 << 2u8 == 8 && 3u8 << 2u8 == 12 && 6u8
            << 2u8 == 24 && 7u8 << 2u8 == 28) by (bit_vector);
        match *self {
            AlsGain::Gain1x => 0u8 << 2u8,
            AlsGain::Gain2x => 1u8 << 2u8,
            AlsGain::Gain4x => 2u8 << 2u8,
            AlsGain::Gain8x => 3u8 << 2u8,
            AlsGain::Gain48x => 6u8 << 2u8,
            AlsGain::Gain96x => 7u8 << 2u8,
        }
    }

    /// ALS_GAIN value, used in lux computation
    #[verifier::when_used_as_spec(spec_lux_factor)]
    pub fn lux_factor(&self) -> (r: u8)
        ensures
            r == self.spec_lux_factor(),
    {
        match *self {
            AlsGain::Gain1x => 1,
            AlsGain::Gain2x => 2,
            AlsGain::Gain4x => 4,
            AlsGain::Gain8x => 8,
            AlsGain::Gain48x => 48,
            AlsGain::Gain96x => 96,
        }
    }
}

/// LED Pulse Modulation Frequency
#[derive(Debug, Clone, Copy, PartialEq, Eq, Structural)]
pub enum LedPulse {
    /// Pulse 30khz
    Pulse30,
    /// Pulse 40khz
    Pulse40,
    /// Pulse 50khz
    Pulse50,
    /// Pulse 60khz (default)
    Pulse60,
    /// Pulse 70khz
    Pulse70,
    /// Pulse 80khz
    Pulse80,
    /// Pulse 90khz
    Pulse90,
    /// Pulse 100khz
    Pulse100,
}

impl Default for LedPulse {
    fn default() -> (r: Self)
        ensures
            r == LedPulse::Pulse60,
    {
        LedPulse::Pulse60
    }
}

impl LedPulse {
    /// The pulse frequency field of the PS LED register: bits 5 to 7.
    pub open spec fn spec_value(&self) -> u8 {
        match *self {
            LedPulse::Pulse30 => 0,
            LedPulse::Pulse40 => 32,
            LedPulse::Pulse50 => 64,
            LedPulse::Pulse60 => 96,
            LedPulse::Pulse70 => 128,
            LedPulse::Pulse80 => 160,
            LedPulse::Pulse90 => 192,
            LedPulse::Pulse100 => 224,
        }
    }

    /// LED Pulse value
    #[verifier::when_used_as_spec(spec_value)]
    pub fn value(&self) -> (r: u8)
        ensures
            r == self.spec_value(),
    {
        assert(0u8 << 5u8 == 0 && 1u8 << 5u8 == 32 && 2u8 << 5u8 == 64 && 3u8 << 5u8 == 96
            && 4u8 << 5u8 == 128 && 5u8 << 5u8 == 160 && 6u8 << 5u8 == 192
            && 7u8 << 5u8 == 224) by (bit_vector);
        match *self {
            LedPulse::Pulse30 => 0u8 << 5u8,
            LedPulse::Pulse40 => 1u8 << 5u8,
            LedPulse::Pulse50 => 2u8 << 5u8,
            LedPulse::Pulse60 => 3u8 << 5u8,
            LedPulse::Pulse70 => 4u8 << 5u8,
            LedPulse::Pulse80 => 5u8 << 5u8,
            LedPulse::Pulse90 => 6u8 << 5u8,
            LedPulse::Pulse100 => 7u8 << 5u8,
        }
    }
}

/// LED Duty Cycle
#[derive(Debug, Clone, Copy, PartialEq, Eq, Structural)]
pub enum LedDutyCycle {
    /// 25% duty
    _25,
    /// 50% duty
    _50,
    /// 75% duty
    _75,
    /// 100% (default)
    _100,
}

impl Default for LedDutyCycle {
    fn default() -> (r: Self)
        ensures
            r == LedDutyCycle::_100,
    {
        LedDutyCycle::_100
    }
}

impl LedDutyCycle {
    /// The duty cycle field of the PS LED register: bits 3 and 4.
    pub open spec fn spec_value(&self) -> u8 {
        match *self {
            LedDutyCycle::_25 => 0,
            LedDutyCycle::_50 => 8,
            LedDutyCycle::_75 => 16,
            LedDutyCycle::_100 => 24,
        }
    }

    /// LED Duty Cycle bits value
    #[verifier::when_used_as_spec(spec_value)]
    pub fn value(&self) -> (r: u8)
        ensures
            r == self.spec_value(),
    {
        assert(0u8 << 3u8 == 0 && 1u8 << 3u8 == 8 && 2u8 << 3u8 == 16 && 3u8 << 3u8 == 24)
            by (bit_vector);
        match *self {
            LedDutyCycle::_25 => 0u8 << 3u8,
            LedDutyCycle::_50 => 1u8 << 3u8,
            LedDutyCycle::_75 => 2u8 << 3u8,
            LedDutyCycle::_100 => 3u8 << 3u8,
        }
    }
}

/// LED peak current
#[derive(Debug, Clone, Copy, PartialEq, Eq, Structural)]
pub enum LedCurrent {
    /// 5 mA
    _5mA,
    /// 10 mA
    _10mA,
    /// 20 mA
    _20mA,
    /// 50 mA
    _50mA,
    /// 100 mA (default)
    _100mA,
}

impl Default for LedCurrent {
    fn default() -> (r: Self)
        ensures
            r == LedCurrent::_100mA,
    {
        LedCurrent::_100mA
    }
}

impl LedCurrent {
    /// The peak current field of the PS LED register: bits 0 to 2.
    pub open spec fn spec_value(&self) -> u8 {
        match *self {
            LedCurrent::_5mA => 0,
            LedCurrent::_10mA => 1,
            LedCurrent::_20mA => 2,
            LedCurrent::_50mA => 3,
            LedCurrent::_100mA => 7,
        }
    }

    /// LED Current bits value
    #[verifier::when_used_as_spec(spec_value)]
    pub fn value(&self) -> (r: u8)
        ensures
            r == self.spec_value(),
    {
        match *self {
            LedCurrent::_5mA => 0,
            LedCurrent::_10mA => 1,
            LedCurrent::_20mA => 2,
            LedCurrent::_50mA => 3,
            LedCurrent::_100mA => 7,
        }
    }
}

/// PS measurement repeat rate
#[derive(Debug, Clone, Copy, PartialEq, Eq, Structural)]
pub enum PsMeasRate {
    /// 50 ms
    _50ms,
    /// 70 ms
    _70ms,
    /// 100 ms (default)
    _100ms,
    /// 200 ms
    _200ms,
    /// 500 ms
    _500ms,
    /// 1000 ms
    _1000ms,
    /// 2000 ms
    _2000ms,
    /// 10ms
    _10ms,
}

impl Default for PsMeasRate {
    fn default() -> (r: Self)
        ensures
            r == PsMeasRate::_100ms,
    {
        PsMeasRate::_100ms
    }
}

impl PsMeasRate {
    /// The content of the PS measurement rate register.
    pub open spec fn spec_value(&self) -> u8 {
        match *self {
            PsMeasRate::_50ms => 0,
            PsMeasRate::_70ms => 1,
            PsMeasRate::_100ms => 2,
            PsMeasRate::_200ms => 3,
            PsMeasRate::_500ms => 4,
            PsMeasRate::_1000ms => 5,
            PsMeasRate::_2000ms => 6,
            PsMeasRate::_10ms => 8,
        }
    }

    /// PS Measure Rate value
    #[verifier::when_used_as_spec(spec_value)]
    pub fn value(&self) -> (r: u8)
        ensures
            r == self.spec_value(),
    {
        match *self {
            PsMeasRate::_50ms => 0,
            PsMeasRate::_70ms => 1,
            PsMeasRate::_100ms => 2,
            PsMeasRate::_200ms => 3,
            PsMeasRate::_500ms => 4,
            PsMeasRate::_1000ms => 5,
            PsMeasRate::_2000ms => 6,
            PsMeasRate::_10ms => 8,
        }
    }
}

/// ALS measurement repeat rate
#[derive(Debug, Clone, Copy, PartialEq, Eq, Structural)]
pub enum AlsMeasRate {
    /// 50 ms
    _50ms,
    /// 100 ms
    _100ms,
    /// 200 ms
    _200ms,
    /// 500 ms (default)
    _500ms,
    /// 1000 ms
    _1000ms,
    /// 2000 ms
    _2000ms,
}

impl Default for AlsMeasRate {
    fn default() -> (r: Self)
        ensures
            r == AlsMeasRate::_500ms,
    {
        AlsMeasRate::_500ms
    }
}

impl AlsMeasRate {
    /// The repeat rate field of the ALS measurement rate register: bits 0 to 2.
    pub open spec fn spec_value(&self) -> u8 {
        match *self {
            AlsMeasRate::_50ms => 0,
            AlsMeasRate::_100ms => 1,
            AlsMeasRate::_200ms => 2,
            AlsMeasRate::_500ms => 3,
            AlsMeasRate::_1000ms => 4,
            AlsMeasRate::_2000ms => 7,
        }
    }

    /// Return value for AlsMeasRate
    #[verifier::when_used_as_spec(spec_value)]
    pub fn value(&self) -> (r: u8)
        ensures
            r == self.spec_value(),
    {
        match *self {
            AlsMeasRate::_50ms => 0,
            AlsMeasRate::_100ms => 1,
            AlsMeasRate::_200ms => 2,
            AlsMeasRate::_500ms => 3,
            AlsMeasRate::_1000ms => 4,
            AlsMeasRate::_2000ms => 7,
        }
    }
}

/// ALS Integration Time
#[derive(Debug, Clone, Copy, PartialEq, Eq, Structural)]
pub enum AlsIntTime {
    /// 50 ms
    _50ms,
    /// 100 ms
    _100ms,
    /// 150 ms
    _150ms,
    /// 200 ms
    _200ms,
    /// 250 ms
    _250ms,
    /// 300 ms
    _300ms,
    /// 350 ms
    _350ms,
    /// 400 ms
    _400ms,
}

impl Default for AlsIntTime {
    fn default() -> (r: Self)
        ensures
            r == AlsIntTime::_100ms,
    {
        AlsIntTime::_100ms
    }
}

impl AlsIntTime {
    /// The three-bit code that the sensor uses for this integration time, not
    /// yet shifted to its place in the ALS measurement rate register.
    pub open spec fn spec_value(&self) -> u8 {
        match *self {
            AlsIntTime::_100ms => 0,
            AlsIntTime::_50ms => 1,
            AlsIntTime::_200ms => 2,
            AlsIntTime::_400ms => 3,
            AlsIntTime::_150ms => 4,
            AlsIntTime::_250ms => 5,
            AlsIntTime::_300ms => 6,
            AlsIntTime::_350ms => 7,
        }
    }

    /// Twice the factor by which this integration time scales a reading: the
    /// factor is 1 at 100 ms and grows by one half with every 50 ms.
    pub open spec fn spec_lux_factor_halves(&self) -> u8 {
        match *self {
            AlsIntTime::_50ms => 1,
            AlsIntTime::_100ms => 2,
            AlsIntTime::_150ms => 3,
            AlsIntTime::_200ms => 4,
            AlsIntTime::_250ms => 5,
            AlsIntTime::_300ms => 6,
            AlsIntTime::_350ms => 7,
            AlsIntTime::_400ms => 8,
        }
    }

    /// The integration time that a code stands for. Only the low three bits
    /// of `code` count.
    pub open spec fn from_code(code: u8) -> AlsIntTime {
        let low = code % 8;
        if low == 0 {
            AlsIntTime::_100ms
        } else if low == 1 {
            AlsIntTime::_50ms
        } else if low == 2 {
            AlsIntTime::_200ms
        } else if low == 3 {
            AlsIntTime::_400ms
        } else if low == 4 {
            AlsIntTime::_150ms
        } else if low == 5 {
            AlsIntTime::_250ms
        } else if low == 6 {
            AlsIntTime::_300ms
        } else {
            AlsIntTime::_350ms
        }
    }

    /// Return value for AlsIntegrationTime
    #[verifier::when_used_as_spec(spec_value)]
    pub fn value(&self) -> (r: u8)
        ensures
            r == self.spec_value(),
    {
        match *self {
            AlsIntTime::_100ms => 0,
            AlsIntTime::_50ms => 1,
            AlsIntTime::_200ms => 2,
            AlsIntTime::_400ms => 3,
            AlsIntTime::_150ms => 4,
            AlsIntTime::_250ms => 5,
            AlsIntTime::_300ms => 6,
            AlsIntTime::_350ms => 7,
        }
    }

    /// ALS_INT value used for lux computation, counted in halves
    #[verifier::when_used_as_spec(spec_lux_factor_halves)]
    pub fn lux_factor_halves(&self) -> (r: u8)
        ensures
            r == self.spec_lux_factor_halves(),
    {
        match *self {
            AlsIntTime::_100ms => 2,
            AlsIntTime::_50ms => 1,
            AlsIntTime::_200ms => 4,
            AlsIntTime::_400ms => 8,
            AlsIntTime::_150ms => 3,
            AlsIntTime::_250ms => 5,
            AlsIntTime::_300ms => 6,
            AlsIntTime::_350ms => 7,
        }
    }
}

/// ALS Interrupt Persist
#[derive(Debug, Clone, Copy, PartialEq, Eq, Structural)]
pub enum AlsPersist {
    /// every ALS value out of threshold range (default)
    EveryTime,
    /// 2 consecutive values outside threshold
    _2v,
    /// 3 consecutive values outside threshold
    _3v,
    /// 4 consecutive values outside threshold
    _4v,
    /// 5 consecutive values outside threshold
    _5v,
    /// 6 consecutive values outside threshold
    _6v,
    /// 7 consecutive values outside threshold
    _7v,
    /// 8 consecutive values outside threshold
    _8v,
    /// 9 consecutive values outside threshold
    _9v,
    /// 10 consecutive values outside threshold
    _10v,
    /// 11 consecutive values outside threshold
    _11v,
    /// 12 consecutive values outside threshold
    _12v,
    /// 13 consecutive values outside threshold
    _13v,
    /// 14 consecutive values outside threshold
    _14v,
    /// 15 consecutive values outside threshold
    _15v,
    /// 16 consecutive values outside threshold
    _16v,
}

impl Default for AlsPersist {
    fn default() -> (r: Self)
        ensures
            r == AlsPersist::EveryTime,
    {
        AlsPersist::EveryTime
    }
}

impl AlsPersist {
    /// The ALS field of the interrupt persist register: bits 0 to 3.
    pub open spec fn spec_value(&self) -> u8 {
        match *self {
            AlsPersist::EveryTime => 0,
            AlsPersist::_2v => 1,
            AlsPersist::_3v => 2,
            AlsPersist::_4v => 3,
            AlsPersist::_5v => 4,
            AlsPersist::_6v => 5,
            AlsPersist::_7v => 6,
            AlsPersist::_8v => 7,
            AlsPersist::_9v => 8,
            AlsPersist::_10v => 9,
            AlsPersist::_11v => 10,
            AlsPersist::_12v => 11,
            AlsPersist::_13v => 12,
            AlsPersist::_14v => 13,
            AlsPersist::_15v => 14,
            AlsPersist::_16v => 15,
        }
    }

    /// Return value for ALS Persistent
    #[verifier::when_used_as_spec(spec_value)]
    pub fn value(&self) -> (r: u8)
        ensures
            r == self.spec_value(),
    {
        match *self {
            AlsPersist::EveryTime => 0,
            AlsPersist::_2v => 1,
            AlsPersist::_3v => 2,
            AlsPersist::_4v => 3,
            AlsPersist::_5v => 4,
            AlsPersist::_6v => 5,
            AlsPersist::_7v => 6,
            AlsPersist::_8v => 7,
            AlsPersist::_9v => 8,
            AlsPersist::_10v => 9,
            AlsPersist::_11v => 10,
            AlsPersist::_12v => 11,
            AlsPersist::_13v => 12,
            AlsPersist::_14v => 13,
            AlsPersist::_15v => 14,
            AlsPersist::_16v => 15,
        }
    }
}

/// PS Interrupt Persist
#[derive(Debug, Clone, Copy, PartialEq, Eq, Structural)]
pub enum PsPersist {
    /// every PS value out of threshold range (default)
    EveryTime,
    /// 2 consecutive values outside threshold
    _2v,
    /// 3 consecutive values outside threshold
    _3v,
    /// 4 consecutive values outside threshold
    _4v,
    /// 5 consecutive values outside threshold
    _5v,
    /// 6 consecutive values outside threshold
    _6v,
    /// 7 consecutive values outside threshold
    _7v,
    /// 8 consecutive values outside threshold
    _8v,
    /// 9 consecutive values outside threshold
    _9v,
    /// 10 consecutive values outside threshold
    _10v,
    /// 11 consecutive values outside threshold
    _11v,
    /// 12 consecutive values outside threshold
    _12v,
    /// 13 consecutive values outside threshold
    _13v,
    /// 14 consecutive values outside threshold
    _14v,
    /// 15 consecutive values outside threshold
    _15v,
    /// 16 consecutive values outside threshold
    _16v,
}

impl Default for PsPersist {
    fn default() -> (r: Self)
        ensures
            r == PsPersist::EveryTime,
    {
        PsPersist::EveryTime
    }
}

impl PsPersist {
    /// The PS field of the interrupt persist register: bits 4 to 7.
    pub open spec fn spec_value(&self) -> u8 {
        match *self {
            PsPersist::EveryTime => 0,
            PsPersist::_2v => 16,
            PsPersist::_3v => 32,
            PsPersist::_4v => 48,
            PsPersist::_5v => 64,
            PsPersist::_6v => 80,
            PsPersist::_7v => 96,
            PsPersist::_8v => 112,
            PsPersist::_9v => 128,
            PsPersist::_10v => 144,
            PsPersist::_11v => 160,
            PsPersist::_12v => 176,
            PsPersist::_13v => 192,
            PsPersist::_14v => 208,
            PsPersist::_15v => 224,
            PsPersist::_16v => 240,
        }
    }

    /// Return value for PS Persist
    #[verifier::when_used_as_spec(spec_value)]
    pub fn value(&self) -> (r: u8)
        ensures
            r == self.spec_value(),
    {
        assert(1u8 << 4u8 == 16 && 2u8 << 4u8 == 32 && 3u8 << 4u8 == 48 && 4u8 << 4u8 == 64
            && 5u8 << 4u8 == 80 && 6u8 << 4u8 == 96 && 7u8 << 4u8 == 112
            && 8u8 << 4u8 == 128 && 9u8 << 4u8 == 144 && 10u8 << 4u8 == 160
            && 11u8 << 4u8 == 176 && 12u8 << 4u8 == 192 && 13u8 << 4u8 == 208
            && 14u8 << 4u8 == 224 && 15u8 << 4u8 == 240) by (bit_vector);
        match *self {
            PsPersist::EveryTime => 0,
            PsPersist::_2v => 1u8 << 4u8,
            PsPersist::_3v => 2u8 << 4u8,
            PsPersist::_4v => 3u8 << 4u8,
            PsPersist::_5v => 4u8 << 4u8,
            PsPersist::_6v => 5u8 << 4u8,
            PsPersist::_7v => 6u8 << 4u8,
            PsPersist::_8v => 7u8 << 4u8,
            PsPersist::_9v => 8u8 << 4u8,
            PsPersist::_10v => 9u8 << 4u8,
            PsPersist::_11v => 10u8 << 4u8,
            PsPersist::_12v => 11u8 << 4u8,
            PsPersist::_13v => 12u8 << 4u8,
            PsPersist::_14v => 13u8 << 4u8,
            PsPersist::_15v => 14u8 << 4u8,
            PsPersist::_16v => 15u8 << 4u8,
        }
    }
}

/// Interrupt mode
#[derive(Debug, Clone, Copy, PartialEq, Eq, Structural)]
pub enum InterruptMode {
    /// Interrupt mode is disabled
    Inactive,
    /// Interrupt for PS
    OnlyPS,
    /// Interrupt for ALS
    OnlyALS,
    /// Interrupt for both ALS and PS
    Both,
}

impl Default for InterruptMode {
    fn default() -> (r: Self)
        ensures
            r == InterruptMode::Inactive,
    {
        InterruptMode::Inactive
    }
}

impl InterruptMode {
    /// The mode field of the interrupt register: bits 0 and 1.
    pub open spec fn spec_value(&self) -> u8 {
        match *self {
            InterruptMode::Inactive => 0,
            InterruptMode::OnlyPS => 1,
            InterruptMode::OnlyALS => 2,
            InterruptMode::Both => 3,
        }
    }

    /// Return value InterruptMode
    #[verifier::when_used_as_spec(spec_value)]
    pub fn value(&self) -> (r: u8)
        ensures
            r == self.spec_value(),
    {
        match *self {
            InterruptMode::Inactive => 0,
            InterruptMode::OnlyPS => 1,
            InterruptMode::OnlyALS => 2,
            InterruptMode::Both => 3,
        }
    }
}

/// The register value of a gain is its code shifted left by two bits; two
/// gains with the same code, register value or factor are the same gain; and
/// a gain's code stands for that gain.
pub proof fn lemma_als_gain_encoding(a: AlsGain, b: AlsGain)
    ensures
        a.spec_value() == a.code() << 2,
        a.spec_value() == 4 * a.code(),
        (a.code() == b.code()) == (a == b),
        (a.spec_value() == b.spec_value()) == (a == b),
        (a.spec_lux_factor() == b.spec_lux_factor()) == (a == b),
        AlsGain::from_code(a.code()) == Some(a),
{
    let code = a.code();
    assert(code << 2 == 4 * code) by (bit_vector)
        requires
            code < 8,
    ;
}

/// The codes in use are 0, 1, 2, 3, 6 and 7, and each stands for the gain
/// that carries it.
pub proof fn lemma_als_gain_codes(code: u8)
    ensures
        AlsGain::from_code(code) is Some <==> code < 4 || code == 6 || code == 7,
        AlsGain::from_code(code) matches Some(gain) ==> gain.code() == code,
{
}

/// Two integration times with the same code or the same factor are the same
/// integration time, every three-bit code stands for the integration time
/// that carries it, and the factor is the time in steps of 50 ms.
pub proof fn lemma_als_int_time_encoding(a: AlsIntTime, b: AlsIntTime, code: u8)
    ensures
        a.spec_value() < 8,
        (a.spec_value() == b.spec_value()) == (a == b),
        (a.spec_lux_factor_halves() == b.spec_lux_factor_halves()) == (a == b),
        1 <= a.spec_lux_factor_halves() <= 8,
        AlsIntTime::from_code(a.spec_value()) == a,
        code < 8 ==> AlsIntTime::from_code(code).spec_value() == code,
{
}

/// Two LED pulse frequencies with the same register value are the same.
pub proof fn lemma_led_pulse_value_injective(a: LedPulse, b: LedPulse)
    ensures
        (a.spec_value() == b.spec_value()) == (a == b),
{
}

/// Two LED duty cycles with the same register value are the same.
pub proof fn lemma_led_duty_cycle_value_injective(a: LedDutyCycle, b: LedDutyCycle)
    ensures
        (a.spec_value() == b.spec_value()) == (a == b),
{
}

/// Two LED peak currents with the same register value are the same.
pub proof fn lemma_led_current_value_injective(a: LedCurrent, b: LedCurrent)
    ensures
        (a.spec_value() == b.spec_value()) == (a == b),
{
}

/// Two PS measurement rates with the same register value are the same.
pub proof fn lemma_ps_meas_rate_value_injective(a: PsMeasRate, b: PsMeasRate)
    ensures
        (a.spec_value() == b.spec_value()) == (a == b),
{
}

/// Two ALS measurement rates with the same register value are the same.
pub proof fn lemma_als_meas_rate_value_injective(a: AlsMeasRate, b: AlsMeasRate)
    ensures
        (a.spec_value() == b.spec_value()) == (a == b),
{
}

/// Two ALS persist counts with the same register value are the same.
pub proof fn lemma_als_persist_value_injective(a: AlsPersist, b: AlsPersist)
    ensures
        (a.spec_value() == b.spec_value()) == (a == b),
{
}

/// Two PS persist counts with the same register value are the same.
pub proof fn lemma_ps_persist_value_injective(a: PsPersist, b: PsPersist)
    ensures
        (a.spec_value() == b.spec_value()) == (a == b),
{
}

/// Two interrupt modes with the same register value are the same.
pub proof fn lemma_interrupt_mode_value_injective(a: InterruptMode, b: InterruptMode)
    ensures
        (a.spec_value() == b.spec_value()) == (a == b),
{
}

} // verus!
