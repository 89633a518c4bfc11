//! What a handle can do once the sensor is measuring: draining the FIFO.
//!
//! Draining takes two reads.  The first returns how many bytes the FIFO
//! holds, the second returns that many bytes, or as many as the host has
//! room for.  `crate::fifo::decode` turns them into samples.

use crate::fifo::{be_u16, spec_be_u16};
use crate::ll;
use crate::register_bank::{InvalidBank, Transaction, BANK0};
use crate::registers::{FIFO_COUNTH, FIFO_DATA};
use crate::{Ready, ICM42688};
use vstd::prelude::*;

verus! {

/// The transaction for which `read_fifo_count` asks, or its refusal, when
/// `active` is the recorded bank.
pub open spec fn spec_read_fifo_count(active: u8) -> Result<Transaction, InvalidBank> {
    if active == BANK0 {
        Ok(Transaction::Read { address: FIFO_COUNTH, len: 2 })
    } else {
        Err(InvalidBank { requested: BANK0, active })
    }
}

/// Number of bytes that `read_fifo` asks for: all that the FIFO holds, but
/// no more than there is room for.
pub open spec fn spec_read_len(fifo_count: u16, capacity: usize) -> usize {
    if fifo_count <= capacity {
        fifo_count as usize
    } else {
        capacity
    }
}

/// The transaction for which `read_fifo` asks, or its refusal, when `active`
/// is the recorded bank.
pub open spec fn spec_read_fifo(active: u8, fifo_count: u16, capacity: usize) -> Result<
    Transaction,
    InvalidBank,
> {
    if active == BANK0 {
        Ok(Transaction::Read { address: FIFO_DATA, len: spec_read_len(fifo_count, capacity) })
    } else {
        Err(InvalidBank { requested: BANK0, active })
    }
}

impl<SPI> ICM42688<SPI, Ready> {
    /// Direct access to the low-level handle.
    pub fn ll(&mut self) -> (ll: &mut ll::ICM42688<SPI>)
        ensures
            *ll == old(self).low_level(),
            final(self).low_level() == *final(ll),
    {
        &mut self.ll
    }

    /// The one read that returns the FIFO's fill count: two bytes, the high
    /// byte first.  Refused unless bank 0 is recorded as selected.
    pub fn read_fifo_count(&self) -> (r: Result<Transaction, InvalidBank>)
        ensures
            r == spec_read_fifo_count(self.low_level().active_bank()),
    {
        let bank0 = self.ll.bank::<0>()?;
        Ok(bank0.fifo_counth().read_burst(2))
    }

    /// The fill count in bytes, from the two bytes that the read returned.
    pub fn fifo_count(high: u8, low: u8) -> (count: u16)
        ensures
            count == spec_be_u16(high, low),
            count == high * 256 + low,
    {
        be_u16(high, low)
    }

    /// The one burst read that drains the FIFO into a buffer of `capacity`
    /// bytes when the FIFO holds `fifo_count` bytes.  Refused unless bank 0
    /// is recorded as selected.
    pub fn read_fifo(&self, fifo_count: u16, capacity: usize) -> (r: Result<
        Transaction,
        InvalidBank,
    >)
        ensures
            r == spec_read_fifo(self.low_level().active_bank(), fifo_count, capacity),
    {
        let bank0 = self.ll.bank::<0>()?;
        let len: usize = if fifo_count as usize <= capacity {
            fifo_count as usize
        } else {
            capacity
        };
        Ok(bank0.fifo_data().read_burst(len))
    }
}

} // verus!
