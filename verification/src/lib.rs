//! Driver logic for the ICM-426xx family of six-axis inertial sensors.
//!
//! The crate never touches a bus.  Each operation is described as the bus
//! transactions and delays the host has to perform, and the host hands back
//! what the device answered.

use vstd::prelude::*;

pub mod config;
pub mod fifo;
pub mod ll;
pub mod ready;
pub mod register_bank;
pub mod registers;
pub mod uninitialized;

pub use config::Config;

verus! {

/// State of a handle whose sensor has not been brought up.
#[derive(Debug)]
pub struct Uninitialized;

/// State of a handle whose sensor is measuring.
#[derive(Debug)]
pub struct Ready;

/// Top-level handle of the sensor.  `State` is `Uninitialized` or `Ready`.
pub struct ICM42688<SPI, State> {
    pub(crate) ll: crate::ll::ICM42688<SPI>,
    pub(crate) _state: State,
}

impl<SPI, State> ICM42688<SPI, State> {
    /// The low-level handle inside.
    pub closed spec fn low_level(&self) -> crate::ll::ICM42688<SPI> {
        self.ll
    }
}

} // verus!
