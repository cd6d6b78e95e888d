//! The indirect (MMD) register access protocol: reaching a register
//! space addressed by a 5-bit device address and a 16-bit register
//! address, using only the two well-known MMD control and data
//! registers of the base address space.

use vstd::prelude::*;

use crate::miim::{BusOp, Miim};
use crate::Phy;

verus! {

/// The value of register 13, the MMD control register: a 2-bit function
/// field in the top bits and a 5-bit device address in the low bits.
#[derive(Clone, Copy, Debug, PartialEq, Eq, Structural)]
pub struct MmdAddress {
    bits: u16,
}

impl View for MmdAddress {
    type V = u16;

    closed spec fn view(&self) -> u16 {
        self.bits
    }
}

/// The MMD control word selecting the address function for `device_address`;
/// the device address is masked to its 5-bit field.
pub open spec fn spec_mmd_address_word(device_address: u8) -> u16 {
    MmdAddress::ADDRESS | (device_address as u16 & MmdAddress::DEVAD_MASK)
}

/// The MMD control word selecting the data (no post-increment) function
/// for `device_address`, as produced by switching an address-function
/// word over to the data function.
pub open spec fn spec_mmd_data_word(device_address: u8) -> u16 {
    (spec_mmd_address_word(device_address) & !MmdAddress::ADDRESS) | MmdAddress::DATA_NO_POSTINC
}

impl MmdAddress {
    /// The address of the MMD control register.
    pub const CONTROL_ADDRESS: u8 = 13;

    /// The address of the MMD data register.
    pub const DATA_ADDRESS: u8 = 14;

    /// The mask of the 5-bit device address field.
    pub const DEVAD_MASK: u16 = 0b11111;

    /// Function field: the next data-register write sets the extended
    /// register address.
    pub const ADDRESS: u16 = 0b00u16 << 14;

    /// Function field: the data register exchanges the addressed
    /// extended register's contents, without post-increment.
    pub const DATA_NO_POSTINC: u16 = 0b01u16 << 14;

    /// Function field: data access with post-increment on reads and
    /// writes.
    pub const DATA_POSTINC_RW: u16 = 0b10u16 << 14;

    /// Function field: data access with post-increment on writes only.
    pub const DATA_POSTINC_W: u16 = 0b11u16 << 14;

    /// The control word selecting the address function for the given
    /// device address.
    ///
    /// The device address is masked to its 5-bit field: an out-of-range
    /// input is silently masked, exactly as the field is laid out in
    /// the register, not rejected.
    pub fn device_address(device_address: u8) -> (r: Self)
        ensures
            r@ == spec_mmd_address_word(device_address),
    {
        let mut me = MmdAddress { bits: Self::ADDRESS };
        me.set_device_address(device_address);
        me
    }

    /// Merge the device address value into the control word.
    ///
    /// The address is masked with [`Self::DEVAD_MASK`] to keep it
    /// within its 5-bit field.
    pub fn set_device_address(&mut self, address: u8)
        ensures
            final(self)@ == old(self)@ | (address as u16 & MmdAddress::DEVAD_MASK),
    {
        self.bits = self.bits | (address as u16 & Self::DEVAD_MASK);
    }

    /// Clear every bit of `mask` in the control word.
    pub fn remove(&mut self, mask: u16)
        ensures
            final(self)@ == old(self)@ & !mask,
    {
        self.bits = self.bits & !mask;
    }

    /// Set every bit of `mask` in the control word.
    pub fn insert(&mut self, mask: u16)
        ensures
            final(self)@ == old(self)@ | mask,
    {
        self.bits = self.bits | mask;
    }

    /// The raw control word.
    pub fn bits(&self) -> (r: u16)
        ensures
            r == self@,
    {
        self.bits
    }
}

/// The four-step indirect register access sequences.
pub struct Mmd;

impl Mmd {
    /// Read the extended register `reg_address` of MMD device
    /// `device_address`: set the address function and device, write the
    /// target register address, switch to the data function, and read
    /// the data register.
    ///
    /// The value read is whatever the device reported; nothing more can
    /// be promised of it.
    pub fn read<M: Miim, P: Phy<M>>(phy: &mut P, device_address: u8, reg_address: u16) -> (data:
        u16)
        ensures
            final(phy).addr() == old(phy).addr(),
            final(phy).bus() == old(phy).bus().push(
                BusOp::Write(
                    old(phy).addr(),
                    MmdAddress::CONTROL_ADDRESS,
                    spec_mmd_address_word(device_address),
                ),
            ).push(
                BusOp::Write(old(phy).addr(), MmdAddress::DATA_ADDRESS, reg_address),
            ).push(
                BusOp::Write(
                    old(phy).addr(),
                    MmdAddress::CONTROL_ADDRESS,
                    spec_mmd_data_word(device_address),
                ),
            ).push(BusOp::Read(old(phy).addr(), MmdAddress::DATA_ADDRESS, data)),
    {
        phy.mmd_read(device_address, reg_address)
    }

    /// Write `reg_data` to the extended register `reg_address` of MMD
    /// device `device_address`, by the same four-step sequence as
    /// [`Self::read`], with the final data-register operation a write.
    pub fn write<M: Miim, P: Phy<M>>(
        phy: &mut P,
        device_address: u8,
        reg_address: u16,
        reg_data: u16,
    )
        ensures
            final(phy).addr() == old(phy).addr(),
            final(phy).bus() == old(phy).bus().push(
                BusOp::Write(
                    old(phy).addr(),
                    MmdAddress::CONTROL_ADDRESS,
                    spec_mmd_address_word(device_address),
                ),
            ).push(
                BusOp::Write(old(phy).addr(), MmdAddress::DATA_ADDRESS, reg_address),
            ).push(
                BusOp::Write(
                    old(phy).addr(),
                    MmdAddress::CONTROL_ADDRESS,
                    spec_mmd_data_word(device_address),
                ),
            ).push(BusOp::Write(old(phy).addr(), MmdAddress::DATA_ADDRESS, reg_data)),
    {
        phy.mmd_write(device_address, reg_address, reg_data);
    }
}

} // verus!
