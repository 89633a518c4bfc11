//! Configuration applied to the sensor while it is brought up.
//!
//! Every option is an enumeration of the values the device documents for one
//! register field.  `bits` gives the pattern that is written into that field.

use vstd::prelude::*;

verus! {

/// Gyroscope output data rate.
#[derive(Clone, Copy, Debug, PartialEq, Eq, Structural)]
pub enum GyroOdr {
    /// 32 kHz
    _32kHz,
    /// 16 kHz
    _16kHz,
    /// 8 kHz
    _8kHz,
    /// 4 kHz
    _4kHz,
    /// 2 kHz
    _2kHz,
    /// 1 kHz
    _1kHz,
    /// 200 Hz
    _200Hz,
    /// 100 Hz
    _100Hz,
    /// 50 Hz
    _50Hz,
    /// 25 Hz
    _25Hz,
    /// 12.5 Hz
    _12_5Hz,
    /// 500 Hz
    _500Hz,
}

impl GyroOdr {
    /// The four-bit code of this rate.
    pub open spec fn spec_bits(self) -> u8 {
        match self {
            GyroOdr::_32kHz => 0b0001,
            GyroOdr::_16kHz => 0b0010,
            GyroOdr::_8kHz => 0b0011,
            GyroOdr::_4kHz => 0b0100,
            GyroOdr::_2kHz => 0b0101,
            GyroOdr::_1kHz => 0b0110,
            GyroOdr::_200Hz => 0b0111,
            GyroOdr::_100Hz => 0b1000,
            GyroOdr::_50Hz => 0b1001,
            GyroOdr::_25Hz => 0b1010,
            GyroOdr::_12_5Hz => 0b1011,
            GyroOdr::_500Hz => 0b1111,
        }
    }

    /// The four-bit code of this rate.
    #[verifier::when_used_as_spec(spec_bits)]
    pub fn bits(self) -> (b: u8)
        ensures
            b == self.spec_bits(),
            1 <= b <= 15,
    {
        match self {
            GyroOdr::_32kHz => 0b0001,
            GyroOdr::_16kHz => 0b0010,
            GyroOdr::_8kHz => 0b0011,
            GyroOdr::_4kHz => 0b0100,
            GyroOdr::_2kHz => 0b0101,
            GyroOdr::_1kHz => 0b0110,
            GyroOdr::_200Hz => 0b0111,
            GyroOdr::_100Hz => 0b1000,
            GyroOdr::_50Hz => 0b1001,
            GyroOdr::_25Hz => 0b1010,
            GyroOdr::_12_5Hz => 0b1011,
            GyroOdr::_500Hz => 0b1111,
        }
    }
}

impl Default for GyroOdr {
    fn default() -> (r: Self)
        ensures
            r == GyroOdr::_1kHz,
    {
        GyroOdr::_1kHz
    }
}

/// Gyroscope settings.
#[derive(Clone, Copy, Debug)]
#[non_exhaustive]
pub struct Gyro {
    pub odr: GyroOdr,
}

impl Default for Gyro {
    fn default() -> (r: Self)
        ensures
            r == (Gyro { odr: GyroOdr::_1kHz }),
    {
        Gyro { odr: GyroOdr::_1kHz }
    }
}

/// Accelerometer output data rate.
#[derive(Clone, Copy, Debug, PartialEq, Eq, Structural)]
pub enum AccelOdr {
    /// 32 kHz (low-noise mode)
    _32kHz,
    /// 16 kHz (low-noise mode)
    _16kHz,
    /// 8 kHz (low-noise mode)
    _8kHz,
    /// 4 kHz (low-noise mode)
    _4kHz,
    /// 2 kHz (low-noise mode)
    _2kHz,
    /// 1 kHz (low-noise mode)
    _1kHz,
    /// 200 Hz (low-power or low-noise mode)
    _200Hz,
    /// 100 Hz (low-power or low-noise mode)
    _100Hz,
    /// 50 Hz (low-power or low-noise mode)
    _50Hz,
    /// 25 Hz (low-power or low-noise mode)
    _25Hz,
    /// 12.5 Hz (low-power or low-noise mode)
    _12_5Hz,
    /// 6.25 Hz (low-power mode)
    _6_25Hz,
    /// 3.125 Hz (low-power mode)
    _3_125Hz,
    /// 1.5625 Hz (low-power mode)
    _1_5625Hz,
    /// 500 Hz (low-power or low-noise mode)
    _500Hz,
}

impl AccelOdr {
    /// The four-bit code of this rate.
    pub open spec fn spec_bits(self) -> u8 {
        match self {
            AccelOdr::_32kHz => 0b0001,
            AccelOdr::_16kHz => 0b0010,
            AccelOdr::_8kHz => 0b0011,
            AccelOdr::_4kHz => 0b0100,
            AccelOdr::_2kHz => 0b0101,
            AccelOdr::_1kHz => 0b0110,
            AccelOdr::_200Hz => 0b0111,
            AccelOdr::_100Hz => 0b1000,
            AccelOdr::_50Hz => 0b1001,
            AccelOdr::_25Hz => 0b1010,
            AccelOdr::_12_5Hz => 0b1011,
            AccelOdr::_6_25Hz => 0b1100,
            AccelOdr::_3_125Hz => 0b1101,
            AccelOdr::_1_5625Hz => 0b1110,
            AccelOdr::_500Hz => 0b1111,
        }
    }

    /// The four-bit code of this rate.
    #[verifier::when_used_as_spec(spec_bits)]
    pub fn bits(self) -> (b: u8)
        ensures
            b == self.spec_bits(),
            1 <= b <= 15,
    {
        match self {
            AccelOdr::_32kHz => 0b0001,
            AccelOdr::_16kHz => 0b0010,
            AccelOdr::_8kHz => 0b0011,
            AccelOdr::_4kHz => 0b0100,
            AccelOdr::_2kHz => 0b0101,
            AccelOdr::_1kHz => 0b0110,
            AccelOdr::_200Hz => 0b0111,
            AccelOdr::_100Hz => 0b1000,
            AccelOdr::_50Hz => 0b1001,
            AccelOdr::_25Hz => 0b1010,
            AccelOdr::_12_5Hz => 0b1011,
            AccelOdr::_6_25Hz => 0b1100,
            AccelOdr::_3_125Hz => 0b1101,
            AccelOdr::_1_5625Hz => 0b1110,
            AccelOdr::_500Hz => 0b1111,
        }
    }
}

impl Default for AccelOdr {
    fn default() -> (r: Self)
        ensures
            r == AccelOdr::_1kHz,
    {
        AccelOdr::_1kHz
    }
}

/// Accelerometer power mode.
#[derive(Clone, Copy, Debug, PartialEq, Eq, Structural)]
pub enum AccelMode {
    Off,
    LowPower,
    LowNoise,
}

impl AccelMode {
    /// The two-bit code of this mode.
    pub open spec fn spec_bits(self) -> u8 {
        match self {
            AccelMode::Off => 0b00,
            AccelMode::LowPower => 0b10,
            AccelMode::LowNoise => 0b11,
        }
    }

    /// The two-bit code of this mode.
    #[verifier::when_used_as_spec(spec_bits)]
    pub fn bits(self) -> (b: u8)
        ensures
            b == self.spec_bits(),
            b <= 3,
    {
        match self {
            AccelMode::Off => 0b00,
            AccelMode::LowPower => 0b10,
            AccelMode::LowNoise => 0b11,
        }
    }
}

impl Default for AccelMode {
    fn default() -> (r: Self)
        ensures
            r == AccelMode::LowNoise,
    {
        AccelMode::LowNoise
    }
}

/// Accelerometer settings.
#[derive(Clone, Copy, Debug)]
#[non_exhaustive]
pub struct Accel {
    pub odr: AccelOdr,
    pub mode: AccelMode,
}

impl Default for Accel {
    fn default() -> (r: Self)
        ensures
            r == (Accel { odr: AccelOdr::_1kHz, mode: AccelMode::LowNoise }),
    {
        Accel { odr: AccelOdr::_1kHz, mode: AccelMode::LowNoise }
    }
}

/// Drive circuit of an interrupt pin.
#[derive(Clone, Copy, Debug, PartialEq, Eq, Structural)]
pub enum Drive {
    OpenDrain,
    PushPull,
}

impl Drive {
    /// The one-bit code of this drive circuit.
    pub open spec fn spec_bits(self) -> u8 {
        match self {
            Drive::OpenDrain => 0,
            Drive::PushPull => 1,
        }
    }

    /// The one-bit code of this drive circuit.
    #[verifier::when_used_as_spec(spec_bits)]
    pub fn bits(self) -> (b: u8)
        ensures
            b == self.spec_bits(),
            b <= 1,
    {
        match self {
            Drive::OpenDrain => 0,
            Drive::PushPull => 1,
        }
    }
}

/// Polarity of an interrupt pin.
#[derive(Clone, Copy, Debug, PartialEq, Eq, Structural)]
pub enum Polarity {
    ActiveLow,
    ActiveHigh,
}

impl Polarity {
    /// The one-bit code of this polarity.
    pub open spec fn spec_bits(self) -> u8 {
        match self {
            Polarity::ActiveLow => 0,
            Polarity::ActiveHigh => 1,
        }
    }

    /// The one-bit code of this polarity.
    #[verifier::when_used_as_spec(spec_bits)]
    pub fn bits(self) -> (b: u8)
        ensures
            b == self.spec_bits(),
            b <= 1,
    {
        match self {
            Polarity::ActiveLow => 0,
            Polarity::ActiveHigh => 1,
        }
    }
}

/// Electrical settings of interrupt pin 1.
#[derive(Clone, Copy, Debug)]
#[non_exhaustive]
pub struct Int1 {
    pub drive: Drive,
    pub polarity: Polarity,
}

impl Default for Int1 {
    fn default() -> (r: Self)
        ensures
            r == (Int1 { drive: Drive::PushPull, polarity: Polarity::ActiveLow }),
    {
        Self { drive: Drive::PushPull, polarity: Polarity::ActiveLow }
    }
}

/// What pin 9 of the package is used for.
#[derive(Clone, Copy, Debug, PartialEq, Eq, Structural)]
pub enum Pin9Function {
    INT2,
    FSYNC,
    CLKIN,
}

impl Pin9Function {
    /// The two-bit code of this function.
    pub open spec fn spec_bits(self) -> u8 {
        match self {
            Pin9Function::INT2 => 0b00,
            Pin9Function::FSYNC => 0b01,
            Pin9Function::CLKIN => 0b10,
        }
    }

    /// The two-bit code of this function.
    #[verifier::when_used_as_spec(spec_bits)]
    pub fn bits(self) -> (b: u8)
        ensures
            b == self.spec_bits(),
            b <= 2,
    {
        match self {
            Pin9Function::INT2 => 0b00,
            Pin9Function::FSYNC => 0b01,
            Pin9Function::CLKIN => 0b10,
        }
    }
}

impl Default for Pin9Function {
    fn default() -> (r: Self)
        ensures
            r == Pin9Function::INT2,
    {
        Pin9Function::INT2
    }
}

/// Settings of pin 9.
#[derive(Clone, Copy, Debug)]
#[non_exhaustive]
pub struct Pin9 {
    pub function: Pin9Function,
}

impl Default for Pin9 {
    fn default() -> (r: Self)
        ensures
            r == (Pin9 { function: Pin9Function::INT2 }),
    {
        Pin9 { function: Pin9Function::INT2 }
    }
}

/// Everything the bring-up sequence needs to know about the wanted set-up.
#[derive(Clone, Copy, Debug)]
#[non_exhaustive]
pub struct Config {
    pub gyro: Gyro,
    pub accel: Accel,
    pub int1: Int1,
    pub pin9: Pin9,
    /// Fill level of the FIFO, in bytes, at which interrupt 1 is raised.
    /// The device keeps the low twelve bits.
    pub fifo_watermark: u16,
}

impl Config {
    /// The configuration that `default` returns.
    pub open spec fn spec_default() -> Config {
        Config {
            gyro: Gyro { odr: GyroOdr::_1kHz },
            accel: Accel { odr: AccelOdr::_1kHz, mode: AccelMode::LowNoise },
            int1: Int1 { drive: Drive::PushPull, polarity: Polarity::ActiveLow },
            pin9: Pin9 { function: Pin9Function::INT2 },
            fifo_watermark: 0,
        }
    }
}

impl Default for Config {
    fn default() -> (r: Self)
        ensures
            r == Config::spec_default(),
    {
        Config {
            gyro: Gyro { odr: GyroOdr::_1kHz },
            accel: Accel { odr: AccelOdr::_1kHz, mode: AccelMode::LowNoise },
            int1: Int1 { drive: Drive::PushPull, polarity: Polarity::ActiveLow },
            pin9: Pin9 { function: Pin9Function::INT2 },
            fifo_watermark: 0,
        }
    }
}

} // verus!
