//! Registers, their bit-fields and the transactions that reach them.
//!
//! A register is eight bits wide and lives in one of three banks.  A field is
//! named by its mask; a value written to a field is placed at the lowest bit
//! of that mask.

use crate::ll::ICM42688;
use crate::registers::{
    ACCEL_CONFIG0, ACCEL_CONFIG1, ACCEL_CONFIG_STATIC2, ACCEL_CONFIG_STATIC3,
    ACCEL_CONFIG_STATIC4, DEVICE_CONFIG, FIFO_CONFIG, FIFO_CONFIG1, FIFO_CONFIG2, FIFO_CONFIG3,
    FIFO_COUNTH, FIFO_DATA, GYRO_ACCEL_CONFIG0, GYRO_CONFIG0, GYRO_CONFIG1, GYRO_CONFIG_STATIC2,
    GYRO_CONFIG_STATIC3, GYRO_CONFIG_STATIC4, GYRO_CONFIG_STATIC5, INTF_CONFIG0, INTF_CONFIG1,
    INTF_CONFIG5, INT_CONFIG, INT_CONFIG0, INT_CONFIG1, INT_SOURCE0, PWR_MGMT0, REG_BANK_SEL,
    TMST_CONFIG, WHO_AM_I,
};
use vstd::prelude::*;

verus! {

/// Bank 0: the registers of everyday operation.
pub const BANK0: u8 = 0;

/// Bank 1: gyroscope filters and pin functions.
pub const BANK1: u8 = 1;

/// Bank 2: accelerometer filters.
pub const BANK2: u8 = 2;

/// Flag in the first byte of a frame that marks a read.
pub const READ_FLAG: u8 = 0x80;

/// The bits of the first byte of a frame that carry the register address.
pub const ADDRESS_MASK: u8 = 0x7F;

/// Index of the lowest set bit of `mask`, and 0 for an empty mask.
pub open spec fn spec_field_shift(mask: u8) -> u8 {
    if mask & 0x01 != 0 {
        0
    } else if mask & 0x02 != 0 {
        1
    } else if mask & 0x04 != 0 {
        2
    } else if mask & 0x08 != 0 {
        3
    } else if mask & 0x10 != 0 {
        4
    } else if mask & 0x20 != 0 {
        5
    } else if mask & 0x40 != 0 {
        6
    } else if mask & 0x80 != 0 {
        7
    } else {
        0
    }
}

/// Index of the lowest set bit of `mask`, and 0 for an empty mask.
#[verifier::when_used_as_spec(spec_field_shift)]
pub fn field_shift(mask: u8) -> (shift: u8)
    ensures
        shift == spec_field_shift(mask),
        shift <= 7,
{
    if mask & 0x01 != 0 {
        0
    } else if mask & 0x02 != 0 {
        1
    } else if mask & 0x04 != 0 {
        2
    } else if mask & 0x08 != 0 {
        3
    } else if mask & 0x10 != 0 {
        4
    } else if mask & 0x20 != 0 {
        5
    } else if mask & 0x40 != 0 {
        6
    } else if mask & 0x80 != 0 {
        7
    } else {
        0
    }
}

/// `value` moved to the position of the field `mask`; what does not fit in
/// the field is cut off.
pub open spec fn spec_place(mask: u8, value: u8) -> u8 {
    (value << spec_field_shift(mask)) & mask
}

/// `value` moved to the position of the field `mask`; what does not fit in
/// the field is cut off.
#[verifier::when_used_as_spec(spec_place)]
pub fn place(mask: u8, value: u8) -> (bits: u8)
    ensures
        bits == spec_place(mask, value),
        bits & !mask == 0,
{
    let shift: u8 = field_shift(mask);
    let bits: u8 = (value << shift) & mask;
    assert(((value << shift) & mask) & !mask == 0) by (bit_vector);
    bits
}

/// New contents for some fields of one register.
///
/// `mask` holds the bits that are replaced, `bits` what they are replaced
/// with.  Every other bit of the register keeps what it held.
#[derive(Clone, Copy, Debug, PartialEq, Eq, Structural)]
pub struct Update {
    pub mask: u8,
    pub bits: u8,
}

impl Update {
    /// An update that changes nothing.
    pub open spec fn spec_new() -> Update {
        Update { mask: 0, bits: 0 }
    }

    /// An update that changes nothing.
    #[verifier::when_used_as_spec(spec_new)]
    pub fn new() -> (u: Update)
        ensures
            u == Update::spec_new(),
    {
        Update { mask: 0, bits: 0 }
    }

    /// This update, and then `value` in the field `field`.
    pub open spec fn spec_set(self, field: u8, value: u8) -> Update {
        Update { mask: self.mask | field, bits: (self.bits & !field) | spec_place(field, value) }
    }

    /// This update, and then `value` in the field `field`.
    #[verifier::when_used_as_spec(spec_set)]
    pub fn set(self, field: u8, value: u8) -> (u: Update)
        ensures
            u == self.spec_set(field, value),
    {
        Update { mask: self.mask | field, bits: (self.bits & !field) | place(field, value) }
    }

    /// What the register holds after the update, if it held `current`.
    pub open spec fn spec_apply(self, current: u8) -> u8 {
        (current & !self.mask) | (self.bits & self.mask)
    }

    /// What the register holds after the update, if it held `current`.
    #[verifier::when_used_as_spec(spec_apply)]
    pub fn apply(self, current: u8) -> (value: u8)
        ensures
            value == self.spec_apply(current),
            value & !self.mask == current & !self.mask,
            value & self.mask == self.bits & self.mask,
    {
        proof {
            self.lemma_apply_touches_mask_only(current);
        }
        (current & !self.mask) | (self.bits & self.mask)
    }

    /// Applying an update replaces the bits of its mask and leaves every
    /// other bit as it was.
    pub proof fn lemma_apply_touches_mask_only(self, current: u8)
        ensures
            self.spec_apply(current) & !self.mask == current & !self.mask,
            self.spec_apply(current) & self.mask == self.bits & self.mask,
    {
        let mask: u8 = self.mask;
        let bits: u8 = self.bits;
        assert(((current & !mask) | (bits & mask)) & !mask == current & !mask) by (bit_vector);
        assert(((current & !mask) | (bits & mask)) & mask == bits & mask) by (bit_vector);
    }
}

/// One framed transfer on the bus.
#[derive(Clone, Copy, Debug, PartialEq, Eq, Structural)]
pub enum Transaction {
    /// Read `len` bytes, starting at the register `address`.
    Read { address: u8, len: usize },
    /// Replace the contents of the register `address` with `value`.
    Write { address: u8, value: u8 },
}

impl Transaction {
    /// The bytes that go out on the bus: the address byte, with its top bit
    /// set for a read and clear for a write, then one zero byte for each byte
    /// to be read, or the value to be written.
    pub open spec fn spec_frame(self) -> Seq<u8> {
        match self {
            Transaction::Read { address, len } => seq![address | READ_FLAG] + Seq::new(
                len as nat,
                |i: int| 0u8,
            ),
            Transaction::Write { address, value } => seq![address & ADDRESS_MASK, value],
        }
    }

    /// The bytes that go out on the bus.  In the answer to a read, the byte
    /// at index `i + 1` is byte `i` of what was read.
    pub fn frame(&self) -> (bytes: Vec<u8>)
        ensures
            bytes@ == self.spec_frame(),
    {
        match *self {
            Transaction::Read { address, len } => {
                let mut bytes: Vec<u8> = Vec::new();
                bytes.push(address | READ_FLAG);
                let mut i: usize = 0;
                while i < len
                    invariant
                        i <= len,
                        bytes@ == seq![address | READ_FLAG] + Seq::new(i as nat, |j: int| 0u8),
                    decreases len - i,
                {
                    bytes.push(0);
                    i = i + 1;
                }
                bytes
            },
            Transaction::Write { address, value } => {
                let mut bytes: Vec<u8> = Vec::new();
                bytes.push(address & ADDRESS_MASK);
                bytes.push(value);
                bytes
            },
        }
    }
}

/// A register of the device: its bank and its address in that bank.
///
/// Outside this crate a value of this type is only had from a
/// `RegisterBank`, that is, for the bank that the host has recorded as
/// selected.
#[derive(Clone, Copy, Debug, PartialEq, Eq, Structural)]
#[non_exhaustive]
pub struct Register {
    pub bank: u8,
    pub address: u8,
}

impl Register {
    /// The one transaction that reads this register.
    pub open spec fn spec_read(&self) -> Transaction {
        Transaction::Read { address: self.address, len: 1 }
    }

    /// The one transaction that replaces the whole register with `value`.
    pub open spec fn spec_write(&self, value: u8) -> Transaction {
        Transaction::Write { address: self.address, value }
    }

    /// The one transaction that reads this register.
    #[verifier::when_used_as_spec(spec_read)]
    pub fn read(&self) -> (t: Transaction)
        ensures
            t == self.spec_read(),
    {
        Transaction::Read { address: self.address, len: 1 }
    }

    /// The one transaction that reads `len` bytes through this register.
    pub fn read_burst(&self, len: usize) -> (t: Transaction)
        ensures
            t == (Transaction::Read { address: self.address, len }),
    {
        Transaction::Read { address: self.address, len }
    }

    /// The one transaction that replaces the whole register with `value`.
    #[verifier::when_used_as_spec(spec_write)]
    pub fn write(&self, value: u8) -> (t: Transaction)
        ensures
            t == self.spec_write(value),
    {
        Transaction::Write { address: self.address, value }
    }

    /// The second half of a read-modify-write.  The first half is `read`;
    /// `current` is what it returned.  The register gets `update` applied to
    /// `current`.
    pub fn modify(&self, current: u8, update: Update) -> (t: Transaction)
        ensures
            t == self.spec_write(update.spec_apply(current)),
    {
        Transaction::Write { address: self.address, value: update.apply(current) }
    }
}

/// Why no accessor was handed out: the bank asked for is not the one the host
/// has recorded as selected.
#[derive(Clone, Copy, Debug, PartialEq, Eq, Structural)]
pub struct InvalidBank {
    pub requested: u8,
    pub active: u8,
}

/// Access to the registers of bank `BANK`, held while that bank is selected.
///
/// It borrows the low-level handle, so the recorded bank cannot change while
/// it is alive.
pub struct RegisterBank<'a, SPI, const BANK: u8> {
    ll: &'a ICM42688<SPI>,
}

impl<'a, SPI, const BANK: u8> RegisterBank<'a, SPI, BANK> {
    /// The handle this accessor was made from.
    pub closed spec fn handle(&self) -> ICM42688<SPI> {
        *self.ll
    }

    pub(crate) fn new(ll: &'a ICM42688<SPI>) -> (r: Self)
        requires
            ll.active_bank() == BANK,
        ensures
            r.handle() == *ll,
    {
        RegisterBank { ll }
    }

    /// The bank-select register.
    pub fn reg_bank_sel(&self) -> (r: Register)
        ensures
            r == (Register { bank: BANK, address: REG_BANK_SEL }),
    {
        Register { bank: BANK, address: REG_BANK_SEL }
    }
}

impl<'a, SPI> RegisterBank<'a, SPI, 0> {
    /// Device configuration.
    pub fn device_config(&self) -> (r: Register)
        ensures
            r == (Register { bank: BANK0, address: DEVICE_CONFIG }),
    {
        Register { bank: BANK0, address: DEVICE_CONFIG }
    }

    /// Electrical behaviour of the interrupt pins.
    pub fn int_config(&self) -> (r: Register)
        ensures
            r == (Register { bank: BANK0, address: INT_CONFIG }),
    {
        Register { bank: BANK0, address: INT_CONFIG }
    }

    /// FIFO operating mode.
    pub fn fifo_config(&self) -> (r: Register)
        ensures
            r == (Register { bank: BANK0, address: FIFO_CONFIG }),
    {
        Register { bank: BANK0, address: FIFO_CONFIG }
    }

    /// High byte of the FIFO fill count; the low byte follows it.
    pub fn fifo_counth(&self) -> (r: Register)
        ensures
            r == (Register { bank: BANK0, address: FIFO_COUNTH }),
    {
        Register { bank: BANK0, address: FIFO_COUNTH }
    }

    /// Register through which the FIFO is read.
    pub fn fifo_data(&self) -> (r: Register)
        ensures
            r == (Register { bank: BANK0, address: FIFO_DATA }),
    {
        Register { bank: BANK0, address: FIFO_DATA }
    }

    /// Interface configuration 0.
    pub fn intf_config0(&self) -> (r: Register)
        ensures
            r == (Register { bank: BANK0, address: INTF_CONFIG0 }),
    {
        Register { bank: BANK0, address: INTF_CONFIG0 }
    }

    /// Interface configuration 1.
    pub fn intf_config1(&self) -> (r: Register)
        ensures
            r == (Register { bank: BANK0, address: INTF_CONFIG1 }),
    {
        Register { bank: BANK0, address: INTF_CONFIG1 }
    }

    /// Power management.
    pub fn pwr_mgmt0(&self) -> (r: Register)
        ensures
            r == (Register { bank: BANK0, address: PWR_MGMT0 }),
    {
        Register { bank: BANK0, address: PWR_MGMT0 }
    }

    /// Gyroscope range and rate.
    pub fn gyro_config0(&self) -> (r: Register)
        ensures
            r == (Register { bank: BANK0, address: GYRO_CONFIG0 }),
    {
        Register { bank: BANK0, address: GYRO_CONFIG0 }
    }

    /// Accelerometer range and rate.
    pub fn accel_config0(&self) -> (r: Register)
        ensures
            r == (Register { bank: BANK0, address: ACCEL_CONFIG0 }),
    {
        Register { bank: BANK0, address: ACCEL_CONFIG0 }
    }

    /// Gyroscope filter order.
    pub fn gyro_config1(&self) -> (r: Register)
        ensures
            r == (Register { bank: BANK0, address: GYRO_CONFIG1 }),
    {
        Register { bank: BANK0, address: GYRO_CONFIG1 }
    }

    /// Filter bandwidths.
    pub fn gyro_accel_config0(&self) -> (r: Register)
        ensures
            r == (Register { bank: BANK0, address: GYRO_ACCEL_CONFIG0 }),
    {
        Register { bank: BANK0, address: GYRO_ACCEL_CONFIG0 }
    }

    /// Accelerometer filter order.
    pub fn accel_config1(&self) -> (r: Register)
        ensures
            r == (Register { bank: BANK0, address: ACCEL_CONFIG1 }),
    {
        Register { bank: BANK0, address: ACCEL_CONFIG1 }
    }

    /// Time stamps.
    pub fn tmst_config(&self) -> (r: Register)
        ensures
            r == (Register { bank: BANK0, address: TMST_CONFIG }),
    {
        Register { bank: BANK0, address: TMST_CONFIG }
    }

    /// What a FIFO packet holds.
    pub fn fifo_config1(&self) -> (r: Register)
        ensures
            r == (Register { bank: BANK0, address: FIFO_CONFIG1 }),
    {
        Register { bank: BANK0, address: FIFO_CONFIG1 }
    }

    /// Low byte of the FIFO watermark.
    pub fn fifo_config2(&self) -> (r: Register)
        ensures
            r == (Register { bank: BANK0, address: FIFO_CONFIG2 }),
    {
        Register { bank: BANK0, address: FIFO_CONFIG2 }
    }

    /// High bits of the FIFO watermark.
    pub fn fifo_config3(&self) -> (r: Register)
        ensures
            r == (Register { bank: BANK0, address: FIFO_CONFIG3 }),
    {
        Register { bank: BANK0, address: FIFO_CONFIG3 }
    }

    /// How interrupts are cleared.
    pub fn int_config0(&self) -> (r: Register)
        ensures
            r == (Register { bank: BANK0, address: INT_CONFIG0 }),
    {
        Register { bank: BANK0, address: INT_CONFIG0 }
    }

    /// Interrupt timing.
    pub fn int_config1(&self) -> (r: Register)
        ensures
            r == (Register { bank: BANK0, address: INT_CONFIG1 }),
    {
        Register { bank: BANK0, address: INT_CONFIG1 }
    }

    /// What is routed to interrupt pin 1.
    pub fn int_source0(&self) -> (r: Register)
        ensures
            r == (Register { bank: BANK0, address: INT_SOURCE0 }),
    {
        Register { bank: BANK0, address: INT_SOURCE0 }
    }

    /// Identity of the device.
    pub fn who_am_i(&self) -> (r: Register)
        ensures
            r == (Register { bank: BANK0, address: WHO_AM_I }),
    {
        Register { bank: BANK0, address: WHO_AM_I }
    }
}

impl<'a, SPI> RegisterBank<'a, SPI, 1> {
    /// Switches of the gyroscope filters.
    pub fn gyro_config_static2(&self) -> (r: Register)
        ensures
            r == (Register { bank: BANK1, address: GYRO_CONFIG_STATIC2 }),
    {
        Register { bank: BANK1, address: GYRO_CONFIG_STATIC2 }
    }

    /// Gyroscope anti-alias filter, delta.
    pub fn gyro_config_static3(&self) -> (r: Register)
        ensures
            r == (Register { bank: BANK1, address: GYRO_CONFIG_STATIC3 }),
    {
        Register { bank: BANK1, address: GYRO_CONFIG_STATIC3 }
    }

    /// Gyroscope anti-alias filter, delta squared, low byte.
    pub fn gyro_config_static4(&self) -> (r: Register)
        ensures
            r == (Register { bank: BANK1, address: GYRO_CONFIG_STATIC4 }),
    {
        Register { bank: BANK1, address: GYRO_CONFIG_STATIC4 }
    }

    /// Gyroscope anti-alias filter, delta squared and shift.
    pub fn gyro_config_static5(&self) -> (r: Register)
        ensures
            r == (Register { bank: BANK1, address: GYRO_CONFIG_STATIC5 }),
    {
        Register { bank: BANK1, address: GYRO_CONFIG_STATIC5 }
    }

    /// Function of pin 9.
    pub fn intf_config5(&self) -> (r: Register)
        ensures
            r == (Register { bank: BANK1, address: INTF_CONFIG5 }),
    {
        Register { bank: BANK1, address: INTF_CONFIG5 }
    }
}

impl<'a, SPI> RegisterBank<'a, SPI, 2> {
    /// Accelerometer anti-alias filter, switch and delta.
    pub fn accel_config_static2(&self) -> (r: Register)
        ensures
            r == (Register { bank: BANK2, address: ACCEL_CONFIG_STATIC2 }),
    {
        Register { bank: BANK2, address: ACCEL_CONFIG_STATIC2 }
    }

    /// Accelerometer anti-alias filter, delta squared, low byte.
    pub fn accel_config_static3(&self) -> (r: Register)
        ensures
            r == (Register { bank: BANK2, address: ACCEL_CONFIG_STATIC3 }),
    {
        Register { bank: BANK2, address: ACCEL_CONFIG_STATIC3 }
    }

    /// Accelerometer anti-alias filter, delta squared and shift.
    pub fn accel_config_static4(&self) -> (r: Register)
        ensures
            r == (Register { bank: BANK2, address: ACCEL_CONFIG_STATIC4 }),
    {
        Register { bank: BANK2, address: ACCEL_CONFIG_STATIC4 }
    }
}

} // verus!
