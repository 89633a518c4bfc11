//! The low-level handle: the bus device and the host's record of the bank
//! that is selected on the sensor.

use crate::register_bank::{InvalidBank, RegisterBank, BANK0};
use vstd::prelude::*;

verus! {

/// The bus device, together with the number of the register bank that the
/// host believes to be selected.
///
/// The sensor keeps the selected bank itself; this record mirrors it.  Every
/// register accessor is handed out by `bank`, which compares against it.
pub struct ICM42688<SPI> {
    spi: SPI,
    bank: u8,
}

impl<SPI> ICM42688<SPI> {
    /// The recorded bank.
    pub closed spec fn active_bank(&self) -> u8 {
        self.bank
    }

    /// The bus device.
    pub closed spec fn device(&self) -> SPI {
        self.spi
    }

    /// Wraps a bus device.  After power-up the sensor has bank 0 selected.
    pub fn new(spi: SPI) -> (ll: Self)
        ensures
            ll.active_bank() == BANK0,
            ll.device() == spi,
    {
        ICM42688 { spi, bank: BANK0 }
    }

    /// Records that `bank` is now selected on the sensor.  To be called
    /// directly after the write to the bank-select register has gone through.
    pub fn set_bank(&mut self, bank: u8)
        ensures
            final(self).active_bank() == bank,
            final(self).device() == old(self).device(),
    {
        self.bank = bank;
    }

    /// The recorded bank.
    pub fn current_bank(&self) -> (bank: u8)
        ensures
            bank == self.active_bank(),
    {
        self.bank
    }

    /// Access to the registers of bank `BANK`.  Refused, before anything is
    /// sent, unless `BANK` is the recorded bank.
    pub fn bank<const BANK: u8>(&self) -> (r: Result<RegisterBank<'_, SPI, BANK>, InvalidBank>)
        ensures
            self.active_bank() == BANK ==> r is Ok && r->Ok_0.handle() == *self,
            self.active_bank() != BANK ==> r == Err::<RegisterBank<'_, SPI, BANK>, InvalidBank>(
                InvalidBank { requested: BANK, active: self.active_bank() },
            ),
    {
        if self.bank == BANK {
            Ok(RegisterBank::new(self))
        } else {
            Err(InvalidBank { requested: BANK, active: self.bank })
        }
    }

    /// The bus device, for the host to perform a transaction on.
    pub fn spi(&mut self) -> (spi: &mut SPI)
        ensures
            *spi == old(self).device(),
            final(self).device() == *final(spi),
            final(self).active_bank() == old(self).active_bank(),
    {
        &mut self.spi
    }

    /// Gives the bus device back.
    pub fn release(self) -> (spi: SPI)
        ensures
            spi == self.device(),
    {
        self.spi
    }
}

} // verus!
