//! Bringing the sensor up: from reset to measuring.
//!
//! The sequence is fixed.  It is described step by step by `spec_step`, and a
//! handle that is being initialized walks through it: it names the bus
//! transaction or the delay that is due, the host performs it and reports
//! back, and the handle moves on.

use crate::config::{Config, Pin9Function};
use crate::ll;
use crate::register_bank::{
    spec_place, InvalidBank, Register, Transaction, Update, BANK0, BANK1, BANK2, place,
};
use crate::registers::{
    ACCEL_AAF_BITSHIFT, ACCEL_AAF_DELT, ACCEL_AAF_DELTSQR_11_8, ACCEL_AAF_DELTSQR_7_0,
    ACCEL_AAF_DIS, ACCEL_CONFIG0, ACCEL_CONFIG1, ACCEL_CONFIG_STATIC2, ACCEL_CONFIG_STATIC3,
    ACCEL_CONFIG_STATIC4, ACCEL_FS_SEL, ACCEL_MODE, ACCEL_ODR, ACCEL_UI_FILT_BW,
    ACCEL_UI_FILT_ORD, AFSR, BANK_SEL, DEVICE_CONFIG, FIFO_ACCEL_EN, FIFO_CONFIG, FIFO_CONFIG1,
    FIFO_CONFIG2, FIFO_CONFIG3, FIFO_COUNT_ENDIAN, FIFO_GYRO_EN, FIFO_HIRES_EN, FIFO_MODE,
    FIFO_TEMP_EN, FIFO_THS_INT1_EN, FIFO_THS_INT_CLEAR, FIFO_TMST_FSYNC_EN, FIFO_WM_11_8,
    FIFO_WM_7_0, FIFO_WM_GT_TH, GYRO_AAF_BITSHIFT, GYRO_AAF_DELT, GYRO_AAF_DELTSQR_11_8,
    GYRO_AAF_DELTSQR_7_0, GYRO_AAF_DIS, GYRO_ACCEL_CONFIG0, GYRO_CONFIG0, GYRO_CONFIG1,
    GYRO_CONFIG_STATIC2, GYRO_CONFIG_STATIC3, GYRO_CONFIG_STATIC4, GYRO_CONFIG_STATIC5,
    GYRO_FS_SEL, GYRO_MODE, GYRO_NF_DIS, GYRO_ODR, GYRO_UI_FILT_BW, GYRO_UI_FILT_ORD,
    INT1_DRIVE_CIRCUIT, INT1_MODE, INT1_POLARITY, INTF_CONFIG0, INTF_CONFIG1, INTF_CONFIG5,
    INT_ASYNC_RESET, INT_CONFIG, INT_CONFIG0, INT_CONFIG1, INT_SOURCE0, PIN9_FUNCTION,
    PWR_MGMT0, REG_BANK_SEL, RTC_MODE, SENSOR_DATA_ENDIAN, SOFT_RESET_CONFIG, TMST_CONFIG,
    TMST_DELTA_EN, TMST_EN, TMST_FSYNC_EN, TMST_RES, TMST_TO_REGS_EN, UI_SIFS_CFG, WHO_AM_I,
};
use crate::{Ready, Uninitialized, ICM42688};
use vstd::prelude::*;

verus! {

/// What the identity register of the expected part holds.
pub const WHO_AM_I_VALUE: u8 = 0x47;

/// Number of steps of the bring-up sequence.
pub const STEPS: usize = 32;

/// Position in the sequence of the step that checks the identity.
pub const IDENTITY_STEP: usize = 2;

/// Corner setting of the anti-alias filters, as tabulated by the vendor
/// (the `DELT` column).
pub const AAF_DELT: u8 = 13;

/// Square of the corner setting, bits 7 to 0 (the `DELTSQR` column is 170).
pub const AAF_DELTSQR_LOW: u8 = 170;

/// Square of the corner setting, bits 11 to 8.
pub const AAF_DELTSQR_HIGH: u8 = 0;

/// Bit shift of the anti-alias filters (the `BITSHIFT` column).
pub const AAF_BITSHIFT: u8 = 8;

/// The sensor did not identify itself as the expected part, or the sequence
/// was not carried through.
#[derive(Debug, Copy, Clone, PartialEq, Eq, Structural)]
pub struct InitializationError;

/// Bits 7 to 0 of the watermark.
pub open spec fn spec_watermark_low(watermark: u16) -> u8 {
    (watermark & 0xFF) as u8
}

/// Bits 7 to 0 of the watermark.
#[verifier::when_used_as_spec(spec_watermark_low)]
pub fn watermark_low(watermark: u16) -> (low: u8)
    ensures
        low == spec_watermark_low(watermark),
{
    (watermark & 0xFF) as u8
}

/// Bits 11 to 8 of the watermark.
pub open spec fn spec_watermark_high(watermark: u16) -> u8 {
    ((watermark >> 8) & 0xF) as u8
}

/// Bits 11 to 8 of the watermark.
#[verifier::when_used_as_spec(spec_watermark_high)]
pub fn watermark_high(watermark: u16) -> (high: u8)
    ensures
        high == spec_watermark_high(watermark),
        high <= 0xF,
{
    let high: u16 = (watermark >> 8) & 0xF;
    assert(((watermark >> 8) & 0xF) <= 0xF) by (bit_vector);
    high as u8
}

/// One step of the bring-up sequence.
#[derive(Clone, Copy, Debug, PartialEq, Eq, Structural)]
pub enum Step {
    /// Read the register, then write it back with `update` applied.
    Modify { register: Register, update: Update },
    /// Read the identity register and compare.
    Identify { register: Register },
    /// Write `bank` to the bank-select register, then record `bank` as
    /// selected.
    SelectBank { register: Register, bank: u8 },
    /// Wait for at least `ms` milliseconds.
    DelayMs { ms: u32 },
    /// Wait for at least `us` microseconds.
    DelayUs { us: u32 },
}

/// The bank that is selected when step `index` begins, if the sequence was
/// followed from the start.
pub open spec fn bank_before(index: int) -> u8 {
    if index <= 19 {
        BANK0
    } else if index <= 25 {
        BANK1
    } else if index <= 29 {
        BANK2
    } else {
        BANK0
    }
}

/// What is written to interface configuration 1: the adaptive full-scale
/// range is switched off, and the clock input is enabled if pin 9 is used
/// for it.
pub open spec fn spec_intf_config1(function: Pin9Function) -> Update {
    if function == Pin9Function::CLKIN {
        Update::new().spec_set(AFSR, 0b01).spec_set(RTC_MODE, 1)
    } else {
        Update::new().spec_set(AFSR, 0b01)
    }
}

/// What is written to interface configuration 1.
#[verifier::when_used_as_spec(spec_intf_config1)]
pub fn intf_config1(function: Pin9Function) -> (update: Update)
    ensures
        update == spec_intf_config1(function),
{
    let update = Update::new().set(AFSR, 0b01);
    if function == Pin9Function::CLKIN {
        update.set(RTC_MODE, 1)
    } else {
        update
    }
}

/// Step `index` of the sequence for `config`.  The kinds of the steps and
/// the registers they touch do not depend on `config`; only the values
/// written do.
pub open spec fn spec_step(config: Config, index: int) -> Step {
    if index == 0 {
        // Reset the device, so that it starts from a known state.
        Step::Modify {
            register: Register { bank: BANK0, address: DEVICE_CONFIG },
            update: Update::new().spec_set(SOFT_RESET_CONFIG, 1),
        }
    } else if index == 1 {
        // The reset takes up to a millisecond.
        Step::DelayMs { ms: 1 }
    } else if index == 2 {
        // Make sure that the expected part answers.
        Step::Identify { register: Register { bank: BANK0, address: WHO_AM_I } }
    } else if index == 3 {
        // Interrupt pin 1: latched, driven as configured.
        Step::Modify {
            register: Register { bank: BANK0, address: INT_CONFIG },
            update: Update::new().spec_set(INT1_MODE, 1).spec_set(INT1_DRIVE_CIRCUIT, config.int1.drive.spec_bits()).spec_set(INT1_POLARITY, config.int1.polarity.spec_bits()),
        }
    } else if index == 4 {
        // Stream samples into the FIFO.
        Step::Modify {
            register: Register { bank: BANK0, address: FIFO_CONFIG },
            update: Update::new().spec_set(FIFO_MODE, 11),
        }
    } else if index == 5 {
        // Big-endian count and data, serial bus only.
        Step::Modify {
            register: Register { bank: BANK0, address: INTF_CONFIG0 },
            update: Update::new().spec_set(FIFO_COUNT_ENDIAN, 1).spec_set(SENSOR_DATA_ENDIAN, 1).spec_set(UI_SIFS_CFG, 11),
        }
    } else if index == 6 {
        // No adaptive full-scale range; clock input if pin 9 is used for it.
        Step::Modify {
            register: Register { bank: BANK0, address: INTF_CONFIG1 },
            update: spec_intf_config1(config.pin9.function),
        }
    } else if index == 7 {
        // Gyroscope: widest range, configured rate.
        Step::Modify {
            register: Register { bank: BANK0, address: GYRO_CONFIG0 },
            update: Update::new().spec_set(GYRO_FS_SEL, 0).spec_set(GYRO_ODR, config.gyro.odr.spec_bits()),
        }
    } else if index == 8 {
        // Accelerometer: widest range, configured rate.
        Step::Modify {
            register: Register { bank: BANK0, address: ACCEL_CONFIG0 },
            update: Update::new().spec_set(ACCEL_FS_SEL, 0).spec_set(ACCEL_ODR, config.accel.odr.spec_bits()),
        }
    } else if index == 9 {
        // First-order gyroscope filter.
        Step::Modify {
            register: Register { bank: BANK0, address: GYRO_CONFIG1 },
            update: Update::new().spec_set(GYRO_UI_FILT_ORD, 0),
        }
    } else if index == 10 {
        // Widest low-pass bandwidth for both sensors.
        Step::Modify {
            register: Register { bank: BANK0, address: GYRO_ACCEL_CONFIG0 },
            update: Update::new().spec_set(ACCEL_UI_FILT_BW, 0).spec_set(GYRO_UI_FILT_BW, 0),
        }
    } else if index == 11 {
        // First-order accelerometer filter.
        Step::Modify {
            register: Register { bank: BANK0, address: ACCEL_CONFIG1 },
            update: Update::new().spec_set(ACCEL_UI_FILT_ORD, 0),
        }
    } else if index == 12 {
        // Time stamps on, as deltas, 16 us per count, not for FSYNC.
        Step::Modify {
            register: Register { bank: BANK0, address: TMST_CONFIG },
            update: Update::new().spec_set(TMST_EN, 1).spec_set(TMST_DELTA_EN, 1).spec_set(TMST_TO_REGS_EN, 1).spec_set(TMST_RES, 1).spec_set(TMST_FSYNC_EN, 0),
        }
    } else if index == 13 {
        // High-resolution packets with temperature, gyroscope and accelerometer.
        Step::Modify {
            register: Register { bank: BANK0, address: FIFO_CONFIG1 },
            update: Update::new().spec_set(FIFO_WM_GT_TH, 1).spec_set(FIFO_HIRES_EN, 1).spec_set(FIFO_TEMP_EN, 1).spec_set(FIFO_GYRO_EN, 1).spec_set(FIFO_ACCEL_EN, 1).spec_set(FIFO_TMST_FSYNC_EN, 0),
        }
    } else if index == 14 {
        // Watermark, low byte.
        Step::Modify {
            register: Register { bank: BANK0, address: FIFO_CONFIG2 },
            update: Update::new().spec_set(FIFO_WM_7_0, spec_watermark_low(config.fifo_watermark)),
        }
    } else if index == 15 {
        // Watermark, high bits.
        Step::Modify {
            register: Register { bank: BANK0, address: FIFO_CONFIG3 },
            update: Update::new().spec_set(FIFO_WM_11_8, spec_watermark_high(config.fifo_watermark)),
        }
    } else if index == 16 {
        // Reading the FIFO clears the threshold interrupt.
        Step::Modify {
            register: Register { bank: BANK0, address: INT_CONFIG0 },
            update: Update::new().spec_set(FIFO_THS_INT_CLEAR, 0b10),
        }
    } else if index == 17 {
        // Required for the interrupt pins to operate.
        Step::Modify {
            register: Register { bank: BANK0, address: INT_CONFIG1 },
            update: Update::new().spec_set(INT_ASYNC_RESET, 0),
        }
    } else if index == 18 {
        // FIFO threshold raises interrupt 1.
        Step::Modify {
            register: Register { bank: BANK0, address: INT_SOURCE0 },
            update: Update::new().spec_set(FIFO_THS_INT1_EN, 1),
        }
    } else if index == 19 {
        // On to bank 1.
        Step::SelectBank { register: Register { bank: BANK0, address: REG_BANK_SEL }, bank: BANK1 }
    } else if index == 20 {
        // Gyroscope notch and anti-alias filters on.
        Step::Modify {
            register: Register { bank: BANK1, address: GYRO_CONFIG_STATIC2 },
            update: Update::new().spec_set(GYRO_NF_DIS, 0).spec_set(GYRO_AAF_DIS, 0),
        }
    } else if index == 21 {
        // Gyroscope anti-alias corner.
        Step::Modify {
            register: Register { bank: BANK1, address: GYRO_CONFIG_STATIC3 },
            update: Update::new().spec_set(GYRO_AAF_DELT, AAF_DELT),
        }
    } else if index == 22 {
        // Its square, low byte.
        Step::Modify {
            register: Register { bank: BANK1, address: GYRO_CONFIG_STATIC4 },
            update: Update::new().spec_set(GYRO_AAF_DELTSQR_7_0, AAF_DELTSQR_LOW),
        }
    } else if index == 23 {
        // Its square, high bits, and the bit shift.
        Step::Modify {
            register: Register { bank: BANK1, address: GYRO_CONFIG_STATIC5 },
            update: Update::new().spec_set(GYRO_AAF_DELTSQR_11_8, AAF_DELTSQR_HIGH).spec_set(GYRO_AAF_BITSHIFT, AAF_BITSHIFT),
        }
    } else if index == 24 {
        // Pin 9 as configured.
        Step::Modify {
            register: Register { bank: BANK1, address: INTF_CONFIG5 },
            update: Update::new().spec_set(PIN9_FUNCTION, config.pin9.function.spec_bits()),
        }
    } else if index == 25 {
        // On to bank 2.
        Step::SelectBank { register: Register { bank: BANK1, address: REG_BANK_SEL }, bank: BANK2 }
    } else if index == 26 {
        // Accelerometer anti-alias filter on, and its corner.
        Step::Modify {
            register: Register { bank: BANK2, address: ACCEL_CONFIG_STATIC2 },
            update: Update::new().spec_set(ACCEL_AAF_DIS, 0).spec_set(ACCEL_AAF_DELT, AAF_DELT),
        }
    } else if index == 27 {
        // Its square, low byte.
        Step::Modify {
            register: Register { bank: BANK2, address: ACCEL_CONFIG_STATIC3 },
            update: Update::new().spec_set(ACCEL_AAF_DELTSQR_7_0, AAF_DELTSQR_LOW),
        }
    } else if index == 28 {
        // Its square, high bits, and the bit shift.
        Step::Modify {
            register: Register { bank: BANK2, address: ACCEL_CONFIG_STATIC4 },
            update: Update::new().spec_set(ACCEL_AAF_DELTSQR_11_8, AAF_DELTSQR_HIGH).spec_set(ACCEL_AAF_BITSHIFT, AAF_BITSHIFT),
        }
    } else if index == 29 {
        // Back to bank 0.
        Step::SelectBank { register: Register { bank: BANK2, address: REG_BANK_SEL }, bank: BANK0 }
    } else if index == 30 {
        // Switch the sensors on, only now that everything else is settled.
        Step::Modify {
            register: Register { bank: BANK0, address: PWR_MGMT0 },
            update: Update::new().spec_set(GYRO_MODE, 0b11).spec_set(ACCEL_MODE, config.accel.mode.spec_bits()),
        }
    } else {
        // The sensors need 200 us before registers are touched again.
        Step::DelayUs { us: 200 }
    }
}

/// Step `index` of the sequence for `config`, with its register taken from
/// the accessor of the bank it lives in.  Refused if that bank is not the
/// one recorded in `ll`.
pub fn step_at<SPI>(ll: &ll::ICM42688<SPI>, config: &Config, index: usize) -> (r: Result<
    Step,
    InvalidBank,
>)
    requires
        index < STEPS,
    ensures
        r == step_or_refusal(ll.active_bank(), *config, index as int),
{
    match index {
        0 => {
            let bank0 = ll.bank::<0>()?;
            Ok(Step::Modify {
                register: bank0.device_config(),
                update: Update::new().set(SOFT_RESET_CONFIG, 1),
            })
        },
        1 => Ok(Step::DelayMs { ms: 1 }),
        2 => {
            let bank0 = ll.bank::<0>()?;
            Ok(Step::Identify { register: bank0.who_am_i() })
        },
        3 => {
            let bank0 = ll.bank::<0>()?;
            Ok(Step::Modify {
                register: bank0.int_config(),
                update: Update::new().set(INT1_MODE, 1).set(INT1_DRIVE_CIRCUIT, config.int1.drive.bits()).set(INT1_POLARITY, config.int1.polarity.bits()),
            })
        },
        4 => {
            let bank0 = ll.bank::<0>()?;
            Ok(Step::Modify {
                register: bank0.fifo_config(),
                update: Update::new().set(FIFO_MODE, 11),
            })
        },
        5 => {
            let bank0 = ll.bank::<0>()?;
            Ok(Step::Modify {
                register: bank0.intf_config0(),
                update: Update::new().set(FIFO_COUNT_ENDIAN, 1).set(SENSOR_DATA_ENDIAN, 1).set(UI_SIFS_CFG, 11),
            })
        },
        6 => {
            let bank0 = ll.bank::<0>()?;
            Ok(Step::Modify {
                register: bank0.intf_config1(),
                update: intf_config1(config.pin9.function),
            })
        },
        7 => {
            let bank0 = ll.bank::<0>()?;
            Ok(Step::Modify {
                register: bank0.gyro_config0(),
                update: Update::new().set(GYRO_FS_SEL, 0).set(GYRO_ODR, config.gyro.odr.bits()),
            })
        },
        8 => {
            let bank0 = ll.bank::<0>()?;
            Ok(Step::Modify {
                register: bank0.accel_config0(),
                update: Update::new().set(ACCEL_FS_SEL, 0).set(ACCEL_ODR, config.accel.odr.bits()),
            })
        },
        9 => {
            let bank0 = ll.bank::<0>()?;
            Ok(Step::Modify {
                register: bank0.gyro_config1(),
                update: Update::new().set(GYRO_UI_FILT_ORD, 0),
            })
        },
        10 => {
            let bank0 = ll.bank::<0>()?;
            Ok(Step::Modify {
                register: bank0.gyro_accel_config0(),
                update: Update::new().set(ACCEL_UI_FILT_BW, 0).set(GYRO_UI_FILT_BW, 0),
            })
        },
        11 => {
            let bank0 = ll.bank::<0>()?;
            Ok(Step::Modify {
                register: bank0.accel_config1(),
                update: Update::new().set(ACCEL_UI_FILT_ORD, 0),
            })
        },
        12 => {
            let bank0 = ll.bank::<0>()?;
            Ok(Step::Modify {
                register: bank0.tmst_config(),
                update: Update::new().set(TMST_EN, 1).set(TMST_DELTA_EN, 1).set(TMST_TO_REGS_EN, 1).set(TMST_RES, 1).set(TMST_FSYNC_EN, 0),
            })
        },
        13 => {
            let bank0 = ll.bank::<0>()?;
            Ok(Step::Modify {
                register: bank0.fifo_config1(),
                update: Update::new().set(FIFO_WM_GT_TH, 1).set(FIFO_HIRES_EN, 1).set(FIFO_TEMP_EN, 1).set(FIFO_GYRO_EN, 1).set(FIFO_ACCEL_EN, 1).set(FIFO_TMST_FSYNC_EN, 0),
            })
        },
        14 => {
            let bank0 = ll.bank::<0>()?;
            Ok(Step::Modify {
                register: bank0.fifo_config2(),
                update: Update::new().set(FIFO_WM_7_0, watermark_low(config.fifo_watermark)),
            })
        },
        15 => {
            let bank0 = ll.bank::<0>()?;
            Ok(Step::Modify {
                register: bank0.fifo_config3(),
                update: Update::new().set(FIFO_WM_11_8, watermark_high(config.fifo_watermark)),
            })
        },
        16 => {
            let bank0 = ll.bank::<0>()?;
            Ok(Step::Modify {
                register: bank0.int_config0(),
                update: Update::new().set(FIFO_THS_INT_CLEAR, 0b10),
            })
        },
        17 => {
            let bank0 = ll.bank::<0>()?;
            Ok(Step::Modify {
                register: bank0.int_config1(),
                update: Update::new().set(INT_ASYNC_RESET, 0),
            })
        },
        18 => {
            let bank0 = ll.bank::<0>()?;
            Ok(Step::Modify {
                register: bank0.int_source0(),
                update: Update::new().set(FIFO_THS_INT1_EN, 1),
            })
        },
        19 => {
            let bank0 = ll.bank::<0>()?;
            Ok(Step::SelectBank { register: bank0.reg_bank_sel(), bank: BANK1 })
        },
        20 => {
            let bank1 = ll.bank::<1>()?;
            Ok(Step::Modify {
                register: bank1.gyro_config_static2(),
                update: Update::new().set(GYRO_NF_DIS, 0).set(GYRO_AAF_DIS, 0),
            })
        },
        21 => {
            let bank1 = ll.bank::<1>()?;
            Ok(Step::Modify {
                register: bank1.gyro_config_static3(),
                update: Update::new().set(GYRO_AAF_DELT, AAF_DELT),
            })
        },
        22 => {
            let bank1 = ll.bank::<1>()?;
            Ok(Step::Modify {
                register: bank1.gyro_config_static4(),
                update: Update::new().set(GYRO_AAF_DELTSQR_7_0, AAF_DELTSQR_LOW),
            })
        },
        23 => {
            let bank1 = ll.bank::<1>()?;
            Ok(Step::Modify {
                register: bank1.gyro_config_static5(),
                update: Update::new().set(GYRO_AAF_DELTSQR_11_8, AAF_DELTSQR_HIGH).set(GYRO_AAF_BITSHIFT, AAF_BITSHIFT),
            })
        },
        24 => {
            let bank1 = ll.bank::<1>()?;
            Ok(Step::Modify {
                register: bank1.intf_config5(),
                update: Update::new().set(PIN9_FUNCTION, config.pin9.function.bits()),
            })
        },
        25 => {
            let bank1 = ll.bank::<1>()?;
            Ok(Step::SelectBank { register: bank1.reg_bank_sel(), bank: BANK2 })
        },
        26 => {
            let bank2 = ll.bank::<2>()?;
            Ok(Step::Modify {
                register: bank2.accel_config_static2(),
                update: Update::new().set(ACCEL_AAF_DIS, 0).set(ACCEL_AAF_DELT, AAF_DELT),
            })
        },
        27 => {
            let bank2 = ll.bank::<2>()?;
            Ok(Step::Modify {
                register: bank2.accel_config_static3(),
                update: Update::new().set(ACCEL_AAF_DELTSQR_7_0, AAF_DELTSQR_LOW),
            })
        },
        28 => {
            let bank2 = ll.bank::<2>()?;
            Ok(Step::Modify {
                register: bank2.accel_config_static4(),
                update: Update::new().set(ACCEL_AAF_DELTSQR_11_8, AAF_DELTSQR_HIGH).set(ACCEL_AAF_BITSHIFT, AAF_BITSHIFT),
            })
        },
        29 => {
            let bank2 = ll.bank::<2>()?;
            Ok(Step::SelectBank { register: bank2.reg_bank_sel(), bank: BANK0 })
        },
        30 => {
            let bank0 = ll.bank::<0>()?;
            Ok(Step::Modify {
                register: bank0.pwr_mgmt0(),
                update: Update::new().set(GYRO_MODE, 0b11).set(ACCEL_MODE, config.accel.mode.bits()),
            })
        },
        _ => Ok(Step::DelayUs { us: 200 }),
    }
}

/// The register a step touches, if it touches one.
pub open spec fn step_register(step: Step) -> Option<Register> {
    match step {
        Step::Modify { register, .. } => Some(register),
        Step::Identify { register } => Some(register),
        Step::SelectBank { register, .. } => Some(register),
        Step::DelayMs { .. } => None,
        Step::DelayUs { .. } => None,
    }
}

/// Step `index`, or the refusal that it meets when `active` is recorded as
/// selected and the step's register lives in another bank.
pub open spec fn step_or_refusal(active: u8, config: Config, index: int) -> Result<
    Step,
    InvalidBank,
> {
    let step = spec_step(config, index);
    match step_register(step) {
        Some(register) => if register.bank == active {
            Ok(step)
        } else {
            Err(InvalidBank { requested: register.bank, active })
        },
        None => Ok(step),
    }
}

/// What the host has to do next.
#[derive(Clone, Copy, Debug, PartialEq, Eq, Structural)]
pub enum Action {
    /// Perform this transaction on the bus.
    Transfer(Transaction),
    /// Wait for at least this many milliseconds.
    DelayMs(u32),
    /// Wait for at least this many microseconds.
    DelayUs(u32),
    /// Nothing: the sequence is through, the sensor is measuring.
    Done,
    /// Nothing: the sensor is not the expected part.
    Failed,
    /// Nothing: a bus transaction has failed.  The sensor is left as far as
    /// it got; a new bring-up starts from the reset.
    Aborted,
    /// Nothing: the step's register lives in a bank that is not recorded as
    /// selected, so nothing was sent.
    Refused(InvalidBank),
}

/// What the host reports back after it has done what it was told.
#[derive(Clone, Copy, Debug, PartialEq, Eq, Structural)]
pub enum Response {
    /// The read went through and returned this byte.
    Read(u8),
    /// The write went through.
    Written,
    /// The delay has passed.
    Elapsed,
    /// The transaction could not be performed.
    Fault,
}

/// How far a bring-up has come.
pub struct Progress {
    /// The configuration being applied.
    pub config: Config,
    /// The step that is due; `STEPS` once all are done.
    pub index: usize,
    /// In a read-modify-write, what the read returned, once it has.
    pub read: Option<u8>,
    /// Whether the identity check has failed.
    pub failed: bool,
    /// Whether a bus transaction has failed.
    pub aborted: bool,
    /// The bank recorded as selected.
    pub bank: u8,
}

impl Progress {
    /// Where every bring-up begins: at the first step, with bank 0 selected.
    pub open spec fn start(config: Config) -> Progress {
        Progress { config, index: 0, read: None, failed: false, aborted: false, bank: BANK0 }
    }

    /// The same progress, one step further.
    pub open spec fn next(self) -> Progress {
        Progress { index: (self.index + 1) as usize, read: None, ..self }
    }

    /// What the host has to do next.
    pub open spec fn pending(self) -> Action {
        if self.failed {
            Action::Failed
        } else if self.aborted {
            Action::Aborted
        } else if self.index >= STEPS {
            Action::Done
        } else {
            match step_or_refusal(self.bank, self.config, self.index as int) {
                Err(refusal) => Action::Refused(refusal),
                Ok(Step::Modify { register, update }) => match self.read {
                    None => Action::Transfer(Transaction::Read { address: register.address, len: 1 }),
                    Some(current) => Action::Transfer(
                        Transaction::Write {
                            address: register.address,
                            value: update.spec_apply(current),
                        },
                    ),
                },
                Ok(Step::Identify { register }) => Action::Transfer(
                    Transaction::Read { address: register.address, len: 1 },
                ),
                Ok(Step::SelectBank { register, bank }) => Action::Transfer(
                    Transaction::Write { address: register.address, value: spec_place(BANK_SEL, bank) },
                ),
                Ok(Step::DelayMs { ms }) => Action::DelayMs(ms),
                Ok(Step::DelayUs { us }) => Action::DelayUs(us),
            }
        }
    }

    /// The same progress, given up because the bus has failed.
    pub open spec fn abort(self) -> Progress {
        Progress { aborted: true, read: None, ..self }
    }

    /// The progress after the host has reported `response`.  A response that
    /// does not answer what is pending changes nothing.
    pub open spec fn advance(self, response: Response) -> Progress {
        if self.failed || self.aborted || self.index >= STEPS {
            self
        } else {
            match step_or_refusal(self.bank, self.config, self.index as int) {
                Err(_) => self,
                Ok(Step::Modify { .. }) => match (self.read, response) {
                    (None, Response::Read(current)) => Progress { read: Some(current), ..self },
                    (Some(_), Response::Written) => self.next(),
                    (_, Response::Fault) => self.abort(),
                    _ => self,
                },
                Ok(Step::Identify { .. }) => match response {
                    Response::Read(identity) => if identity == WHO_AM_I_VALUE {
                        self.next()
                    } else {
                        Progress { failed: true, read: None, ..self }
                    },
                    Response::Fault => self.abort(),
                    _ => self,
                },
                Ok(Step::SelectBank { bank, .. }) => match response {
                    Response::Written => Progress { bank, ..self.next() },
                    Response::Fault => self.abort(),
                    _ => self,
                },
                Ok(Step::DelayMs { .. }) => match response {
                    Response::Elapsed => self.next(),
                    _ => self,
                },
                Ok(Step::DelayUs { .. }) => match response {
                    Response::Elapsed => self.next(),
                    _ => self,
                },
            }
        }
    }

    /// Whether everything has been done and the sensor is measuring.
    pub open spec fn done(self) -> bool {
        !self.failed && !self.aborted && self.index >= STEPS
    }
}

/// A handle whose sensor is being brought up.
pub struct Initialization<SPI> {
    ll: ll::ICM42688<SPI>,
    config: Config,
    index: usize,
    read: Option<u8>,
    failed: bool,
    aborted: bool,
}

impl<SPI> View for Initialization<SPI> {
    type V = Progress;

    closed spec fn view(&self) -> Progress {
        Progress {
            config: self.config,
            index: self.index,
            read: self.read,
            failed: self.failed,
            aborted: self.aborted,
            bank: self.ll.active_bank(),
        }
    }
}

impl<SPI> Initialization<SPI> {
    /// The bus device.
    pub closed spec fn device(&self) -> SPI {
        self.ll.device()
    }

    /// What the host has to do next.
    pub fn pending(&self) -> (action: Action)
        ensures
            action == self@.pending(),
    {
        if self.failed {
            Action::Failed
        } else if self.aborted {
            Action::Aborted
        } else if self.index >= STEPS {
            Action::Done
        } else {
            match step_at(&self.ll, &self.config, self.index) {
                Err(refusal) => Action::Refused(refusal),
                Ok(Step::Modify { register, update }) => match self.read {
                    None => Action::Transfer(register.read()),
                    Some(current) => Action::Transfer(register.modify(current, update)),
                },
                Ok(Step::Identify { register }) => Action::Transfer(register.read()),
                Ok(Step::SelectBank { register, bank }) => Action::Transfer(
                    register.write(place(BANK_SEL, bank)),
                ),
                Ok(Step::DelayMs { ms }) => Action::DelayMs(ms),
                Ok(Step::DelayUs { us }) => Action::DelayUs(us),
            }
        }
    }

    /// Takes the host's report on what was pending, moves on accordingly and
    /// returns what is pending now.  After the write that selects a bank, the
    /// recorded bank is updated here, before anything else can be asked for.
    pub fn advance(&mut self, response: Response) -> (action: Action)
        ensures
            final(self)@ == old(self)@.advance(response),
            action == final(self)@.pending(),
            final(self).device() == old(self).device(),
    {
        if !self.failed && !self.aborted && self.index < STEPS {
            match step_at(&self.ll, &self.config, self.index) {
                Err(_) => {},
                Ok(Step::Modify { .. }) => match (self.read, response) {
                    (None, Response::Read(current)) => {
                        self.read = Some(current);
                    },
                    (Some(_), Response::Written) => {
                        self.read = None;
                        self.index = self.index + 1;
                    },
                    (_, Response::Fault) => {
                        self.read = None;
                        self.aborted = true;
                    },
                    _ => {},
                },
                Ok(Step::Identify { .. }) => match response {
                    Response::Read(identity) => {
                        self.read = None;
                        if identity == WHO_AM_I_VALUE {
                            self.index = self.index + 1;
                        } else {
                            self.failed = true;
                        }
                    },
                    Response::Fault => {
                        self.read = None;
                        self.aborted = true;
                    },
                    _ => {},
                },
                Ok(Step::SelectBank { bank, .. }) => match response {
                    Response::Written => {
                        self.ll.set_bank(bank);
                        self.read = None;
                        self.index = self.index + 1;
                    },
                    Response::Fault => {
                        self.read = None;
                        self.aborted = true;
                    },
                    _ => {},
                },
                Ok(Step::DelayMs { .. }) => match response {
                    Response::Elapsed => {
                        self.read = None;
                        self.index = self.index + 1;
                    },
                    _ => {},
                },
                Ok(Step::DelayUs { .. }) => match response {
                    Response::Elapsed => {
                        self.read = None;
                        self.index = self.index + 1;
                    },
                    _ => {},
                },
            }
        }
        self.pending()
    }

    /// The bus device, for the host to perform a transaction on.
    pub fn spi(&mut self) -> (spi: &mut SPI)
        ensures
            *spi == old(self).device(),
            final(self).device() == *final(spi),
            final(self)@ == old(self)@,
    {
        self.ll.spi()
    }

    /// Ends the bring-up.  Hands out the ready handle if every step was
    /// done, and fails otherwise.
    pub fn finish(self) -> (r: Result<ICM42688<SPI, Ready>, InitializationError>)
        ensures
            r is Ok <==> self@.done(),
            r matches Ok(ready) ==> ready.low_level().active_bank() == self@.bank
                && ready.low_level().device() == self.device(),
    {
        if !self.failed && !self.aborted && self.index >= STEPS {
            Ok(ICM42688 { ll: self.ll, _state: Ready })
        } else {
            Err(InitializationError)
        }
    }
}

impl<SPI> ICM42688<SPI, Uninitialized> {
    /// A handle for the sensor behind `spi`, not yet brought up.
    pub fn new(spi: SPI) -> (icm: Self)
        ensures
            icm.low_level().active_bank() == BANK0,
            icm.low_level().device() == spi,
    {
        ICM42688 { ll: ll::ICM42688::new(spi), _state: Uninitialized }
    }

    /// Begins to bring the sensor up with `config`.  Nothing has been sent
    /// yet; the first thing to do is what `pending` says.
    pub fn initialize(self, config: Config) -> (init: Initialization<SPI>)
        ensures
            init@ == (Progress { bank: self.low_level().active_bank(), ..Progress::start(config) }),
            init.device() == self.low_level().device(),
    {
        Initialization { ll: self.ll, config, index: 0, read: None, failed: false, aborted: false }
    }

    /// Direct access to the low-level handle.
    pub fn ll(&mut self) -> (ll: &mut ll::ICM42688<SPI>)
        ensures
            *ll == old(self).low_level(),
            final(self).low_level() == *final(ll),
    {
        &mut self.ll
    }
}

impl Progress {
    /// What holds of every progress that a bring-up can reach: the recorded
    /// bank is the one the sequence has selected so far, a failure can only
    /// stem from the identity check, and a byte read is only kept inside a
    /// read-modify-write.
    pub open spec fn valid(self) -> bool {
        &&& self.index <= STEPS
        &&& self.bank == bank_before(self.index as int)
        &&& self.failed ==> self.index == IDENTITY_STEP
        &&& self.read is Some ==> self.index < STEPS && spec_step(
            self.config,
            self.index as int,
        ) is Modify
    }

    /// The progress reached from `self` after the host has reported
    /// `responses`, one after the other.
    pub open spec fn run(self, responses: Seq<Response>) -> Progress
        decreases responses.len(),
    {
        if responses.len() == 0 {
            self
        } else {
            self.run(responses.drop_last()).advance(responses.last())
        }
    }
}

/// Whether two actions are the same but for the value that a write carries.
pub open spec fn same_traffic(a: Action, b: Action) -> bool {
    match (a, b) {
        (
            Action::Transfer(Transaction::Write { address: first, .. }),
            Action::Transfer(Transaction::Write { address: second, .. }),
        ) => first == second,
        _ => a == b,
    }
}

/// Every step touches a register of the bank that the sequence has selected
/// by then, and only a bank selection changes which bank that is.
pub proof fn lemma_steps_follow_banks(config: Config, index: int)
    requires
        0 <= index < STEPS,
    ensures
        step_register(spec_step(config, index)) matches Some(register) ==> register.bank
            == bank_before(index),
        spec_step(config, index) matches Step::SelectBank { register, bank } ==> bank_before(
            index + 1,
        ) == bank && register.address == REG_BANK_SEL,
        !(spec_step(config, index) is SelectBank) ==> bank_before(index + 1) == bank_before(index),
{
}

/// The kind of each step, the register it touches and the length of each
/// delay are the same for every configuration.
pub proof fn lemma_order_is_fixed(first: Config, second: Config, index: int)
    requires
        0 <= index < STEPS,
    ensures
        step_register(spec_step(first, index)) == step_register(spec_step(second, index)),
        spec_step(first, index) is Modify <==> spec_step(second, index) is Modify,
        spec_step(first, index) is Identify <==> spec_step(second, index) is Identify,
        spec_step(first, index) is SelectBank ==> spec_step(first, index) == spec_step(
            second,
            index,
        ),
        spec_step(first, index) is DelayMs ==> spec_step(first, index) == spec_step(second, index),
        spec_step(first, index) is DelayUs ==> spec_step(first, index) == spec_step(second, index),
{
}

/// A bring-up begins in a valid progress.
pub proof fn lemma_start_is_valid(config: Config)
    ensures
        Progress::start(config).valid(),
{
}

/// Whatever the host reports, a valid progress stays valid, never goes back,
/// and keeps its configuration.
pub proof fn lemma_advance_keeps_valid(progress: Progress, response: Response)
    requires
        progress.valid(),
    ensures
        progress.advance(response).valid(),
        progress.advance(response).index >= progress.index,
        progress.advance(response).config == progress.config,
        progress.failed ==> progress.advance(response) == progress,
        progress.aborted ==> progress.advance(response) == progress,
{
    if !progress.failed && !progress.aborted && progress.index < STEPS {
        lemma_steps_follow_banks(progress.config, progress.index as int);
    }
}

/// The same for a whole series of reports.
pub proof fn lemma_run_keeps_valid(progress: Progress, responses: Seq<Response>)
    requires
        progress.valid(),
    ensures
        progress.run(responses).valid(),
        progress.run(responses).index >= progress.index,
        progress.run(responses).config == progress.config,
        progress.failed ==> progress.run(responses) == progress,
        progress.aborted ==> progress.run(responses) == progress,
    decreases responses.len(),
{
    if responses.len() > 0 {
        lemma_run_keeps_valid(progress, responses.drop_last());
        lemma_advance_keeps_valid(progress.run(responses.drop_last()), responses.last());
    }
}

/// In a valid progress no step is ever refused: the register of the step
/// that is due lives in the bank that is recorded as selected.
pub proof fn lemma_never_refused(progress: Progress)
    requires
        progress.valid(),
    ensures
        !(progress.pending() is Refused),
        progress.index < STEPS ==> step_or_refusal(
            progress.bank,
            progress.config,
            progress.index as int,
        ) == Ok::<Step, InvalidBank>(spec_step(progress.config, progress.index as int)),
{
    if progress.index < STEPS {
        lemma_steps_follow_banks(progress.config, progress.index as int);
    }
}

/// The recorded bank changes with one report only: that the write of a bank
/// selection went through.  It then becomes the bank that was written, and
/// the sequence moves on by one step.
pub proof fn lemma_bank_record_follows_selection(progress: Progress, response: Response)
    requires
        progress.valid(),
    ensures
        progress.advance(response).bank != progress.bank ==> response == Response::Written
            && spec_step(progress.config, progress.index as int) is SelectBank,
        !progress.failed && !progress.aborted && progress.index < STEPS && response
            == Response::Written ==> (spec_step(
            progress.config,
            progress.index as int,
        ) matches Step::SelectBank { bank, .. } ==> progress.advance(response).bank == bank
            && progress.advance(response).index == progress.index + 1),
{
    lemma_never_refused(progress);
}

/// Two bring-ups with different configurations that get the same reports
/// are always at the same step, and what is pending differs at most in the
/// value that a write carries.
pub proof fn lemma_traffic_is_fixed(first: Config, second: Config, responses: Seq<Response>)
    ensures
        Progress::start(first).run(responses).index == Progress::start(second).run(responses).index,
        Progress::start(first).run(responses).read == Progress::start(second).run(responses).read,
        Progress::start(first).run(responses).failed == Progress::start(second).run(
            responses,
        ).failed,
        Progress::start(first).run(responses).aborted == Progress::start(second).run(
            responses,
        ).aborted,
        Progress::start(first).run(responses).bank == Progress::start(second).run(responses).bank,
        same_traffic(
            Progress::start(first).run(responses).pending(),
            Progress::start(second).run(responses).pending(),
        ),
    decreases responses.len(),
{
    let a = Progress::start(first).run(responses);
    let b = Progress::start(second).run(responses);
    lemma_run_keeps_valid(Progress::start(first), responses);
    lemma_run_keeps_valid(Progress::start(second), responses);
    if responses.len() > 0 {
        let before_a = Progress::start(first).run(responses.drop_last());
        let before_b = Progress::start(second).run(responses.drop_last());
        lemma_traffic_is_fixed(first, second, responses.drop_last());
        lemma_run_keeps_valid(Progress::start(first), responses.drop_last());
        lemma_run_keeps_valid(Progress::start(second), responses.drop_last());
        lemma_never_refused(before_a);
        lemma_never_refused(before_b);
        if before_a.index < STEPS {
            lemma_order_is_fixed(first, second, before_a.index as int);
        }
    }
    lemma_never_refused(a);
    lemma_never_refused(b);
    if a.index < STEPS {
        lemma_order_is_fixed(first, second, a.index as int);
    }
}

/// If the identity register returns anything but the expected value, the
/// bring-up has failed: nothing is pending but the failure, no report
/// changes that, and no ready handle will be handed out.
pub proof fn lemma_wrong_identity_fails(progress: Progress, identity: u8, later: Seq<Response>)
    requires
        progress.valid(),
        !progress.failed,
        !progress.aborted,
        progress.index == IDENTITY_STEP,
        identity != WHO_AM_I_VALUE,
    ensures
        progress.pending() == Action::Transfer(Transaction::Read { address: WHO_AM_I, len: 1 }),
        progress.advance(Response::Read(identity)).failed,
        progress.advance(Response::Read(identity)).run(later).pending() == Action::Failed,
        !progress.advance(Response::Read(identity)).run(later).done(),
{
    lemma_never_refused(progress);
    lemma_advance_keeps_valid(progress, Response::Read(identity));
    lemma_run_keeps_valid(progress.advance(Response::Read(identity)), later);
}

/// In a bring-up that has failed, the only write that was ever pending is
/// the one that resets the device: `earlier` is how many of the reports had
/// come in at some point before.
pub proof fn lemma_failure_wrote_reset_only(config: Config, responses: Seq<Response>, earlier: int)
    requires
        0 <= earlier <= responses.len(),
        Progress::start(config).run(responses).failed,
    ensures
        Progress::start(config).run(responses.take(earlier)).pending() matches Action::Transfer(
            Transaction::Write { address, .. },
        ) ==> address == DEVICE_CONFIG,
{
    let start = Progress::start(config);
    let then = start.run(responses.take(earlier));
    lemma_run_keeps_valid(start, responses);
    lemma_run_keeps_valid(start, responses.take(earlier));
    lemma_run_splits(start, responses, earlier);
    lemma_run_keeps_valid(then, responses.skip(earlier));
    lemma_never_refused(then);
}

/// Reports can be handed in in two parts.
pub proof fn lemma_run_splits(progress: Progress, responses: Seq<Response>, at: int)
    requires
        0 <= at <= responses.len(),
    ensures
        progress.run(responses) == progress.run(responses.take(at)).run(responses.skip(at)),
    decreases responses.len(),
{
    if at == responses.len() {
        assert(responses.take(at) == responses);
        assert(responses.skip(at).len() == 0);
    } else {
        let shorter = responses.drop_last();
        lemma_run_splits(progress, shorter, at);
        assert(shorter.take(at) == responses.take(at));
        assert(shorter.skip(at) == responses.skip(at).drop_last());
        assert(responses.skip(at).last() == responses.last());
    }
}

/// A read-modify-write is one read of the register followed by one write to
/// the same register.  The value written is what was read, with the bits of
/// the update's mask replaced and every other bit as it was read.
pub proof fn lemma_modify_is_read_then_write(progress: Progress, current: u8)
    requires
        progress.valid(),
        !progress.failed,
        !progress.aborted,
        progress.index < STEPS,
        progress.read is None,
        spec_step(progress.config, progress.index as int) is Modify,
    ensures
        spec_step(progress.config, progress.index as int) matches Step::Modify { register, update }
            ==> {
            let value = update.spec_apply(current);
            &&& progress.pending() == Action::Transfer(register.spec_read())
            &&& progress.advance(Response::Read(current)).pending() == Action::Transfer(
                register.spec_write(value),
            )
            &&& progress.advance(Response::Read(current)).advance(Response::Written)
                == progress.next()
            &&& value & !update.mask == current & !update.mask
            &&& value & update.mask == update.bits & update.mask
        },
{
    lemma_never_refused(progress);
    lemma_advance_keeps_valid(progress, Response::Read(current));
    lemma_never_refused(progress.advance(Response::Read(current)));
    match spec_step(progress.config, progress.index as int) {
        Step::Modify { register, update } => {
            update.lemma_apply_touches_mask_only(current);
        },
        _ => {},
    }
}

/// The two halves of a twelve-bit watermark go to the two watermark
/// registers: the low byte fills the first, bits 11 to 8 fill the low nibble
/// of the second, whose high nibble stays as it was read.  Together the two
/// give the watermark back.
pub proof fn lemma_watermark_is_split(config: Config, low_before: u8, high_before: u8)
    requires
        config.fifo_watermark < 4096,
    ensures
        spec_step(config, 14) matches Step::Modify { register, update } ==> register == (Register {
            bank: BANK0,
            address: FIFO_CONFIG2,
        }) && update.spec_apply(low_before) == config.fifo_watermark & 0xFF,
        spec_step(config, 15) matches Step::Modify { register, update } ==> register == (Register {
            bank: BANK0,
            address: FIFO_CONFIG3,
        }) && update.spec_apply(high_before) & 0x0F == (config.fifo_watermark >> 8) & 0xF
            && update.spec_apply(high_before) & 0xF0 == high_before & 0xF0,
        (spec_watermark_high(config.fifo_watermark) as u16) << 8 | (spec_watermark_low(
            config.fifo_watermark,
        ) as u16) == config.fifo_watermark,
{
    let w = config.fifo_watermark;
    lemma_watermark_bits(w, low_before, high_before);
}

proof fn lemma_watermark_bits(w: u16, low_before: u8, high_before: u8)
    by (bit_vector)
    requires
        w < 4096,
    ensures
        ({
            let low = (w & 0xFF) as u8;
            let high = ((w >> 8) & 0xF) as u8;
            let first_bits = (0u8 & !0xFFu8) | spec_place(0xFFu8, low);
            let second_bits = (0u8 & !0x0Fu8) | spec_place(0x0Fu8, high);
            let first = (low_before & !(0u8 | 0xFFu8)) | (first_bits & (0u8 | 0xFFu8));
            let second = (high_before & !(0u8 | 0x0Fu8)) | (second_bits & (0u8 | 0x0Fu8));
            &&& first == w & 0xFF
            &&& second & 0x0F == (w >> 8) & 0xF
            &&& second & 0xF0 == high_before & 0xF0
            &&& (high as u16) << 8 | (low as u16) == w
        }),
{
}

/// A bus transaction that fails ends the bring-up on the spot: nothing is
/// pending any more, whatever is reported afterwards, and no ready handle
/// will be handed out.
pub proof fn lemma_bus_fault_aborts(progress: Progress, later: Seq<Response>)
    requires
        progress.valid(),
        progress.pending() is Transfer,
    ensures
        progress.advance(Response::Fault).run(later).pending() == Action::Aborted,
        !progress.advance(Response::Fault).run(later).done(),
        progress.advance(Response::Fault).bank == progress.bank,
        progress.advance(Response::Fault).index == progress.index,
{
    lemma_advance_keeps_valid(progress, Response::Fault);
    lemma_run_keeps_valid(progress.advance(Response::Fault), later);
}

impl Progress {
    /// What a bus that works reports on what is pending, when a read of the
    /// register at `address` in bank `bank` returns `device(bank, address)`.
    pub open spec fn answer(self, device: spec_fn(u8, u8) -> u8) -> Response {
        match self.pending() {
            Action::Transfer(Transaction::Read { address, .. }) => Response::Read(
                device(self.bank, address),
            ),
            Action::Transfer(Transaction::Write { .. }) => Response::Written,
            _ => Response::Elapsed,
        }
    }

    /// The progress after a bus that works has answered `count` times.
    pub open spec fn serve(self, device: spec_fn(u8, u8) -> u8, count: nat) -> Progress
        decreases count,
    {
        if count == 0 {
            self
        } else {
            let before = self.serve(device, (count - 1) as nat);
            before.advance(before.answer(device))
        }
    }

    /// The progress at the beginning of step `index`, when all went well.
    pub open spec fn at(config: Config, index: int) -> Progress {
        Progress {
            config,
            index: index as usize,
            read: None,
            failed: false,
            aborted: false,
            bank: bank_before(index),
        }
    }
}

/// Number of answers it takes to get to the beginning of step `index`: two
/// for each read-modify-write on the way, one for every other step.
pub open spec fn answers_before(config: Config, index: int) -> nat
    decreases index,
{
    if index <= 0 {
        0
    } else {
        answers_before(config, index - 1) + if spec_step(config, index - 1) is Modify {
            2nat
        } else {
            1nat
        }
    }
}

/// With a bus that works and a sensor that identifies itself as expected,
/// the bring-up gets through every step, whatever else the registers hold,
/// and it ends with bank 0 selected and the ready handle due.
pub proof fn lemma_bring_up_completes(config: Config, device: spec_fn(u8, u8) -> u8, index: int)
    requires
        device(BANK0, WHO_AM_I) == WHO_AM_I_VALUE,
        0 <= index <= STEPS,
    ensures
        Progress::start(config).serve(device, answers_before(config, index)) == Progress::at(
            config,
            index,
        ),
        Progress::at(config, index).valid(),
        index == STEPS ==> Progress::at(config, index).done() && Progress::at(config, index).bank
            == BANK0,
    decreases index,
{
    if index > 0 {
        let start = Progress::start(config);
        let before = answers_before(config, index - 1);
        lemma_bring_up_completes(config, device, index - 1);
        let here = Progress::at(config, index - 1);
        lemma_never_refused(here);
        lemma_steps_follow_banks(config, index - 1);
        let once = here.advance(here.answer(device));
        assert(start.serve(device, before + 1) == once);
        if spec_step(config, index - 1) is Modify {
            lemma_advance_keeps_valid(here, here.answer(device));
            lemma_never_refused(once);
            assert(start.serve(device, before + 2) == once.advance(once.answer(device)));
        }
    }
}

} // verus!
