//! The shared-reference variant of the management-bus transport.

use vstd::prelude::*;

verus! {

/// A trait used for implementing access to the Media Independent
/// Interface of an IEEE 802.3 compatible PHY through a shared reference.
///
/// Platforms whose bus peripheral can be driven through `&self` (for
/// example behind a lock) implement this trait; nothing is promised of
/// the values exchanged, so no proof rests on an implementation.
pub trait Mii {
    /// Read an MII register.
    fn read(&self, phy: u8, reg: u8) -> u16;

    /// Write an MII register.
    fn write(&mut self, phy: u8, reg: u8, data: u16);
}

} // verus!
