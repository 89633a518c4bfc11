//! The register map: addresses by bank, and the fields of each register.
//!
//! A field constant is the mask of the bits the field occupies.

use vstd::prelude::*;

verus! {

// Bank 0

/// Device configuration.
pub const DEVICE_CONFIG: u8 = 0x11;

/// Field of `DEVICE_CONFIG`. Writing 1 starts a software reset.
pub const SOFT_RESET_CONFIG: u8 = 0x01;

/// Electrical behaviour of the interrupt pins.
pub const INT_CONFIG: u8 = 0x14;

/// Field of `INT_CONFIG`. 0 active low, 1 active high.
pub const INT1_POLARITY: u8 = 0x01;

/// Field of `INT_CONFIG`. 0 open drain, 1 push-pull.
pub const INT1_DRIVE_CIRCUIT: u8 = 0x02;

/// Field of `INT_CONFIG`. 0 pulsed, 1 latched.
pub const INT1_MODE: u8 = 0x04;

/// FIFO operating mode.
pub const FIFO_CONFIG: u8 = 0x16;

/// Field of `FIFO_CONFIG`. 0 bypass, 1 stream to FIFO, 2 or 3 stop on full.
pub const FIFO_MODE: u8 = 0xC0;

/// High byte of the FIFO fill count; the low byte follows it.
pub const FIFO_COUNTH: u8 = 0x2E;

/// Register through which the FIFO is read.
pub const FIFO_DATA: u8 = 0x30;

/// Interface configuration 0.
pub const INTF_CONFIG0: u8 = 0x4C;

/// Field of `INTF_CONFIG0`. Which serial interfaces are disabled.
pub const UI_SIFS_CFG: u8 = 0x03;

/// Field of `INTF_CONFIG0`. 1 reports sensor data big-endian.
pub const SENSOR_DATA_ENDIAN: u8 = 0x10;

/// Field of `INTF_CONFIG0`. 1 reports the FIFO count big-endian.
pub const FIFO_COUNT_ENDIAN: u8 = 0x20;

/// Interface configuration 1.
pub const INTF_CONFIG1: u8 = 0x4D;

/// Field of `INTF_CONFIG1`. 1 if an external clock is fed in.
pub const RTC_MODE: u8 = 0x04;

/// Field of `INTF_CONFIG1`. Adaptive full-scale range; 1 disables it.
pub const AFSR: u8 = 0xC0;

/// Power management.
pub const PWR_MGMT0: u8 = 0x4E;

/// Field of `PWR_MGMT0`. Accelerometer power mode.
pub const ACCEL_MODE: u8 = 0x03;

/// Field of `PWR_MGMT0`. Gyroscope power mode; 3 is low noise.
pub const GYRO_MODE: u8 = 0x0C;

/// Gyroscope range and rate.
pub const GYRO_CONFIG0: u8 = 0x4F;

/// Field of `GYRO_CONFIG0`. Gyroscope output data rate.
pub const GYRO_ODR: u8 = 0x0F;

/// Field of `GYRO_CONFIG0`. Gyroscope full-scale range; 0 is the widest.
pub const GYRO_FS_SEL: u8 = 0xE0;

/// Accelerometer range and rate.
pub const ACCEL_CONFIG0: u8 = 0x50;

/// Field of `ACCEL_CONFIG0`. Accelerometer output data rate.
pub const ACCEL_ODR: u8 = 0x0F;

/// Field of `ACCEL_CONFIG0`. Accelerometer full-scale range; 0 is the widest.
pub const ACCEL_FS_SEL: u8 = 0xE0;

/// Gyroscope filter order.
pub const GYRO_CONFIG1: u8 = 0x51;

/// Field of `GYRO_CONFIG1`. Order of the gyroscope filter; 0 is first order.
pub const GYRO_UI_FILT_ORD: u8 = 0x0C;

/// Filter bandwidths.
pub const GYRO_ACCEL_CONFIG0: u8 = 0x52;

/// Field of `GYRO_ACCEL_CONFIG0`. Bandwidth of the gyroscope low-pass filter.
pub const GYRO_UI_FILT_BW: u8 = 0x0F;

/// Field of `GYRO_ACCEL_CONFIG0`. Bandwidth of the accelerometer low-pass filter.
pub const ACCEL_UI_FILT_BW: u8 = 0xF0;

/// Accelerometer filter order.
pub const ACCEL_CONFIG1: u8 = 0x53;

/// Field of `ACCEL_CONFIG1`. Order of the accelerometer filter; 0 is first order.
pub const ACCEL_UI_FILT_ORD: u8 = 0x18;

/// Time stamps.
pub const TMST_CONFIG: u8 = 0x54;

/// Field of `TMST_CONFIG`. 1 enables the time stamp register.
pub const TMST_EN: u8 = 0x01;

/// Field of `TMST_CONFIG`. 1 stamps the FSYNC event.
pub const TMST_FSYNC_EN: u8 = 0x02;

/// Field of `TMST_CONFIG`. 1 reports the time since the last sample.
pub const TMST_DELTA_EN: u8 = 0x04;

/// Field of `TMST_CONFIG`. 0 is 1 us per count, 1 is 16 us per count.
pub const TMST_RES: u8 = 0x08;

/// Field of `TMST_CONFIG`. 1 latches the time stamp into registers.
pub const TMST_TO_REGS_EN: u8 = 0x10;

/// What a FIFO packet holds.
pub const FIFO_CONFIG1: u8 = 0x5F;

/// Field of `FIFO_CONFIG1`. 1 puts accelerometer data in the FIFO.
pub const FIFO_ACCEL_EN: u8 = 0x01;

/// Field of `FIFO_CONFIG1`. 1 puts gyroscope data in the FIFO.
pub const FIFO_GYRO_EN: u8 = 0x02;

/// Field of `FIFO_CONFIG1`. 1 puts the temperature in the FIFO.
pub const FIFO_TEMP_EN: u8 = 0x04;

/// Field of `FIFO_CONFIG1`. 1 puts the FSYNC time stamp in the FIFO.
pub const FIFO_TMST_FSYNC_EN: u8 = 0x08;

/// Field of `FIFO_CONFIG1`. 1 extends the samples to 20 bits.
pub const FIFO_HIRES_EN: u8 = 0x10;

/// Field of `FIFO_CONFIG1`. 1 raises the interrupt as long as the fill count is at or above the watermark.
pub const FIFO_WM_GT_TH: u8 = 0x20;

/// Low byte of the FIFO watermark.
pub const FIFO_CONFIG2: u8 = 0x60;

/// Field of `FIFO_CONFIG2`. Bits 7 to 0 of the watermark.
pub const FIFO_WM_7_0: u8 = 0xFF;

/// High bits of the FIFO watermark.
pub const FIFO_CONFIG3: u8 = 0x61;

/// Field of `FIFO_CONFIG3`. Bits 11 to 8 of the watermark.
pub const FIFO_WM_11_8: u8 = 0x0F;

/// How interrupts are cleared.
pub const INT_CONFIG0: u8 = 0x63;

/// Field of `INT_CONFIG0`. 2 clears the FIFO threshold interrupt when a byte of the FIFO is read.
pub const FIFO_THS_INT_CLEAR: u8 = 0x0C;

/// Interrupt timing.
pub const INT_CONFIG1: u8 = 0x64;

/// Field of `INT_CONFIG1`. Must be 0 for the interrupt pins to work.
pub const INT_ASYNC_RESET: u8 = 0x10;

/// What is routed to interrupt pin 1.
pub const INT_SOURCE0: u8 = 0x65;

/// Field of `INT_SOURCE0`. 1 routes the FIFO threshold interrupt to pin 1.
pub const FIFO_THS_INT1_EN: u8 = 0x04;

/// Identity of the device.
pub const WHO_AM_I: u8 = 0x75;

// Bank 1

/// Switches of the gyroscope filters.
pub const GYRO_CONFIG_STATIC2: u8 = 0x0B;

/// Field of `GYRO_CONFIG_STATIC2`. 1 disables the notch filter.
pub const GYRO_NF_DIS: u8 = 0x01;

/// Field of `GYRO_CONFIG_STATIC2`. 1 disables the anti-alias filter.
pub const GYRO_AAF_DIS: u8 = 0x02;

/// Gyroscope anti-alias filter, delta.
pub const GYRO_CONFIG_STATIC3: u8 = 0x0C;

/// Field of `GYRO_CONFIG_STATIC3`. Corner of the gyroscope anti-alias filter.
pub const GYRO_AAF_DELT: u8 = 0x3F;

/// Gyroscope anti-alias filter, delta squared, low byte.
pub const GYRO_CONFIG_STATIC4: u8 = 0x0D;

/// Field of `GYRO_CONFIG_STATIC4`. Bits 7 to 0 of the squared corner.
pub const GYRO_AAF_DELTSQR_7_0: u8 = 0xFF;

/// Gyroscope anti-alias filter, delta squared and shift.
pub const GYRO_CONFIG_STATIC5: u8 = 0x0E;

/// Field of `GYRO_CONFIG_STATIC5`. Bits 11 to 8 of the squared corner.
pub const GYRO_AAF_DELTSQR_11_8: u8 = 0x0F;

/// Field of `GYRO_CONFIG_STATIC5`. Bit shift of the gyroscope anti-alias filter.
pub const GYRO_AAF_BITSHIFT: u8 = 0xF0;

/// Function of pin 9.
pub const INTF_CONFIG5: u8 = 0x7B;

/// Field of `INTF_CONFIG5`. 0 interrupt 2, 1 FSYNC, 2 clock input.
pub const PIN9_FUNCTION: u8 = 0x06;

// Bank 2

/// Accelerometer anti-alias filter, switch and delta.
pub const ACCEL_CONFIG_STATIC2: u8 = 0x03;

/// Field of `ACCEL_CONFIG_STATIC2`. 1 disables the anti-alias filter.
pub const ACCEL_AAF_DIS: u8 = 0x01;

/// Field of `ACCEL_CONFIG_STATIC2`. Corner of the accelerometer anti-alias filter.
pub const ACCEL_AAF_DELT: u8 = 0x7E;

/// Accelerometer anti-alias filter, delta squared, low byte.
pub const ACCEL_CONFIG_STATIC3: u8 = 0x04;

/// Field of `ACCEL_CONFIG_STATIC3`. Bits 7 to 0 of the squared corner.
pub const ACCEL_AAF_DELTSQR_7_0: u8 = 0xFF;

/// Accelerometer anti-alias filter, delta squared and shift.
pub const ACCEL_CONFIG_STATIC4: u8 = 0x05;

/// Field of `ACCEL_CONFIG_STATIC4`. Bits 11 to 8 of the squared corner.
pub const ACCEL_AAF_DELTSQR_11_8: u8 = 0x0F;

/// Field of `ACCEL_CONFIG_STATIC4`. Bit shift of the accelerometer anti-alias filter.
pub const ACCEL_AAF_BITSHIFT: u8 = 0xF0;

// Every bank

/// Address of the bank-select register, the same in every bank.
pub const REG_BANK_SEL: u8 = 0x76;

/// Field of the bank-select register: the number of the bank to select.
pub const BANK_SEL: u8 = 0x07;

} // verus!
