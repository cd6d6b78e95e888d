//! Typed views over the well-known MIIM registers.
//!
//! Each register type stores the raw 16-bit value it was constructed
//! from: construction is total and never rejects a bit pattern, unknown
//! bits are preserved on round-trip, and the named accessors simply
//! ignore them.

use vstd::prelude::*;

use crate::miim::{BusOp, Miim};
use crate::Phy;

verus! {

/// Whether every bit of `mask` is set in `bits`.
pub open spec fn flag_set(bits: u16, mask: u16) -> bool {
    bits & mask == mask
}

/// `bits` with every bit of `mask` set when `value` is true, cleared
/// when it is false.
pub open spec fn with_flag(bits: u16, mask: u16, value: bool) -> u16 {
    if value {
        bits | mask
    } else {
        bits & !mask
    }
}

/// Register 0, the Base Control Register.
#[derive(Clone, Copy, Debug, PartialEq, Eq, Structural)]
pub struct Bcr {
    bits: u16,
}

impl View for Bcr {
    type V = u16;

    closed spec fn view(&self) -> u16 {
        self.bits
    }
}

impl Bcr {
    /// The register address of the BCR register.
    pub const ADDRESS: u8 = 0;

    /// Software reset; the PHY clears this bit itself once its internal
    /// reset has completed.
    pub const RESET: u16 = 1u16 << 15;

    /// Loopback mode.
    pub const LOOPBACK: u16 = 1u16 << 14;

    /// The low bit of the two-bit speed selector.
    pub const SPEED_SEL_LSB: u16 = 1u16 << 13;

    /// Autonegotiation enable.
    pub const AUTONEG_ENABLE: u16 = 1u16 << 12;

    /// Power down.
    pub const POWER_DOWN: u16 = 1u16 << 11;

    /// Electrical isolation.
    pub const ISOLATE: u16 = 1u16 << 10;

    /// Restart the autonegotiation process.
    pub const RESTART_AUTONEG: u16 = 1u16 << 9;

    /// Full duplex when set, half duplex when clear.
    pub const DUPLEX_MODE: u16 = 1u16 << 8;

    /// Collision test signal.
    pub const COLLISION_TEST: u16 = 1u16 << 7;

    /// The high bit of the two-bit speed selector.
    pub const SPEED_SEL_MSB: u16 = 1u16 << 6;

    /// Unidirectional communications mode.
    pub const UNIDIRECTIONAL_ENABLE: u16 = 1u16 << 5;

    /// Build the register view from a raw 16-bit value; total, and the
    /// raw value is kept as it is.
    pub fn new(bits: u16) -> (r: Self)
        ensures
            r@ == bits,
    {
        Bcr { bits }
    }

    /// The raw register value.
    pub fn bits(&self) -> (r: u16)
        ensures
            r == self@,
    {
        self.bits
    }

    /// Configure unidirectional communications mode.
    pub fn set_unidirectional(&mut self, value: bool)
        ensures
            final(self)@ == with_flag(old(self)@, Bcr::UNIDIRECTIONAL_ENABLE, value),
    {
        if value {
            self.bits = self.bits | Self::UNIDIRECTIONAL_ENABLE;
        } else {
            self.bits = self.bits & !Self::UNIDIRECTIONAL_ENABLE;
        }
    }

    /// Get whether the PHY is configured for unidirectional
    /// communications mode.
    pub fn unidirectional(&self) -> (r: bool)
        ensures
            r == flag_set(self@, Bcr::UNIDIRECTIONAL_ENABLE),
    {
        self.bits & Self::UNIDIRECTIONAL_ENABLE == Self::UNIDIRECTIONAL_ENABLE
    }

    /// Enable or disable the collision test signal.
    pub fn set_collision_test(&mut self, value: bool)
        ensures
            final(self)@ == with_flag(old(self)@, Bcr::COLLISION_TEST, value),
    {
        if value {
            self.bits = self.bits | Self::COLLISION_TEST;
        } else {
            self.bits = self.bits & !Self::COLLISION_TEST;
        }
    }

    /// Determine whether the collision test signal is enabled.
    pub fn collision_test(&self) -> (r: bool)
        ensures
            r == flag_set(self@, Bcr::COLLISION_TEST),
    {
        self.bits & Self::COLLISION_TEST == Self::COLLISION_TEST
    }

    /// Enable or disable full duplex. The PHY ignores this flag while
    /// autonegotiation is enabled.
    pub fn set_full_duplex(&mut self, value: bool)
        ensures
            final(self)@ == with_flag(old(self)@, Bcr::DUPLEX_MODE, value),
    {
        if value {
            self.bits = self.bits | Self::DUPLEX_MODE;
        } else {
            self.bits = self.bits & !Self::DUPLEX_MODE;
        }
    }

    /// `true` if full duplex is enabled. The PHY ignores this flag while
    /// autonegotiation is enabled.
    pub fn full_duplex(&self) -> (r: bool)
        ensures
            r == flag_set(self@, Bcr::DUPLEX_MODE),
    {
        self.bits & Self::DUPLEX_MODE == Self::DUPLEX_MODE
    }

    /// Enable or disable electrical isolation mode.
    pub fn set_isolated(&mut self, value: bool)
        ensures
            final(self)@ == with_flag(old(self)@, Bcr::ISOLATE, value),
    {
        if value {
            self.bits = self.bits | Self::ISOLATE;
        } else {
            self.bits = self.bits & !Self::ISOLATE;
        }
    }

    /// Determine whether electrical isolation mode is enabled.
    pub fn isolated(&self) -> (r: bool)
        ensures
            r == flag_set(self@, Bcr::ISOLATE),
    {
        self.bits & Self::ISOLATE == Self::ISOLATE
    }

    /// Enable or disable power down mode.
    pub fn set_power_down(&mut self, value: bool)
        ensures
            final(self)@ == with_flag(old(self)@, Bcr::POWER_DOWN, value),
    {
        if value {
            self.bits = self.bits | Self::POWER_DOWN;
        } else {
            self.bits = self.bits & !Self::POWER_DOWN;
        }
    }

    /// Determine whether power down mode is enabled.
    pub fn power_down(&self) -> (r: bool)
        ensures
            r == flag_set(self@, Bcr::POWER_DOWN),
    {
        self.bits & Self::POWER_DOWN == Self::POWER_DOWN
    }

    /// Enable or disable autonegotiation.
    pub fn set_autonegotiation(&mut self, value: bool)
        ensures
            final(self)@ == with_flag(old(self)@, Bcr::AUTONEG_ENABLE, value),
    {
        if value {
            self.bits = self.bits | Self::AUTONEG_ENABLE;
        } else {
            self.bits = self.bits & !Self::AUTONEG_ENABLE;
        }
    }

    /// Determine if autonegotiation is enabled.
    pub fn autonegotiation(&self) -> (r: bool)
        ensures
            r == flag_set(self@, Bcr::AUTONEG_ENABLE),
    {
        self.bits & Self::AUTONEG_ENABLE == Self::AUTONEG_ENABLE
    }

    /// Enable or disable loopback mode.
    pub fn set_loopback(&mut self, value: bool)
        ensures
            final(self)@ == with_flag(old(self)@, Bcr::LOOPBACK, value),
    {
        if value {
            self.bits = self.bits | Self::LOOPBACK;
        } else {
            self.bits = self.bits & !Self::LOOPBACK;
        }
    }

    /// Determine whether loopback mode is enabled.
    pub fn loopback(&self) -> (r: bool)
        ensures
            r == flag_set(self@, Bcr::LOOPBACK),
    {
        self.bits & Self::LOOPBACK == Self::LOOPBACK
    }

    /// Request (or withdraw the request for) a PHY reset.
    pub fn reset(&mut self, value: bool)
        ensures
            final(self)@ == with_flag(old(self)@, Bcr::RESET, value),
    {
        if value {
            self.bits = self.bits | Self::RESET;
        } else {
            self.bits = self.bits & !Self::RESET;
        }
    }

    /// Determine if the PHY is currently resetting.
    pub fn is_resetting(&self) -> (r: bool)
        ensures
            r == flag_set(self@, Bcr::RESET),
    {
        self.bits & Self::RESET == Self::RESET
    }

    /// Request a restart of the autonegotiation process.
    pub fn restart_autonegotiation(&mut self)
        ensures
            final(self)@ == with_flag(old(self)@, Bcr::RESTART_AUTONEG, true),
    {
        self.bits = self.bits | Self::RESTART_AUTONEG;
    }
}

/// Register 1, the Base Status Register.
///
/// This register reports part of the PHY's capabilities, and contains
/// status flags.
#[derive(Clone, Copy, Debug, PartialEq, Eq, Structural)]
pub struct Bsr {
    bits: u16,
}

impl View for Bsr {
    type V = u16;

    closed spec fn view(&self) -> u16 {
        self.bits
    }
}

impl Bsr {
    /// The register address of the BSR.
    pub const ADDRESS: u8 = 1;

    /// The PHY supports 100BASE-T4.
    pub const BASE100_T4: u16 = 1u16 << 15;

    /// The PHY supports 100BASE-X full duplex.
    pub const BASE100_X_FD: u16 = 1u16 << 14;

    /// The PHY supports 100BASE-X half duplex.
    pub const BASE100_X_HD: u16 = 1u16 << 13;

    /// The PHY supports 10 Mb/s full duplex.
    pub const MBPS10_FD: u16 = 1u16 << 12;

    /// The PHY supports 10 Mb/s half duplex.
    pub const MBPS10_HD: u16 = 1u16 << 11;

    /// The PHY supports 100BASE-T2 full duplex.
    pub const BASE100_T2_FD: u16 = 1u16 << 10;

    /// The PHY supports 100BASE-T2 half duplex.
    pub const BASE100_T2_HD: u16 = 1u16 << 9;

    /// Extended status data is present in register 15.
    pub const EXTENDED_STATUS: u16 = 1u16 << 8;

    /// The PHY supports unidirectional communication.
    pub const UNIDIRECTIONAL: u16 = 1u16 << 7;

    /// The PHY accepts management frames without a preamble.
    pub const MF_PREAMBLE_SUPPRESSION: u16 = 1u16 << 6;

    /// Autonegotiation has completed.
    pub const AUTONEG_COMPLETE: u16 = 1u16 << 5;

    /// A remote fault was detected.
    pub const REMOTE_FAULT: u16 = 1u16 << 4;

    /// The PHY can perform autonegotiation.
    pub const AUTONEG_ABLE: u16 = 1u16 << 3;

    /// The link is up.
    pub const LINK_STATUS: u16 = 1u16 << 2;

    /// A jabber condition was detected.
    pub const JABBER_DETECT: u16 = 1u16 << 1;

    /// Extended capabilities are accessible through the extended
    /// register set.
    pub const EXTENDED_CAPABILITIES: u16 = 1u16 << 0;

    /// Build the register view from a raw 16-bit value; total, and the
    /// raw value is kept as it is.
    pub fn new(bits: u16) -> (r: Self)
        ensures
            r@ == bits,
    {
        Bsr { bits }
    }

    /// The raw register value.
    pub fn bits(&self) -> (r: u16)
        ensures
            r == self@,
    {
        self.bits
    }

    /// Check if autonegotiation has completed.
    pub fn autoneg_completed(&self) -> (r: bool)
        ensures
            r == flag_set(self@, Bsr::AUTONEG_COMPLETE),
    {
        self.bits & Self::AUTONEG_COMPLETE == Self::AUTONEG_COMPLETE
    }

    /// Check if the PHY has determined that the link is up.
    pub fn phy_link_up(&self) -> (r: bool)
        ensures
            r == flag_set(self@, Bsr::LINK_STATUS),
    {
        self.bits & Self::LINK_STATUS == Self::LINK_STATUS
    }
}

/// Registers 4 and 5, the autonegotiation capability registers.
///
/// The same layout describes the abilities the local PHY advertises
/// (register 4) and the abilities a remote PHY advertised (register 5).
#[derive(Clone, Copy, Debug, PartialEq, Eq, Structural)]
pub struct AutoNegCap {
    bits: u16,
}

impl View for AutoNegCap {
    type V = u16;

    closed spec fn view(&self) -> u16 {
        self.bits
    }
}

impl AutoNegCap {
    /// The address of the local autonegotiation capabilities register.
    pub const LOCAL_CAP_ADDRESS: u8 = 4;

    /// The address of the partner autonegotiation capabilities register.
    pub const PARTNER_CAP_ADDRESS: u8 = 5;

    /// More next pages follow.
    pub const NEXT_PAGE: u16 = 1u16 << 15;

    /// A remote fault is signalled.
    pub const REMOTE_FAULT: u16 = 1u16 << 13;

    /// Extended next pages are supported.
    pub const EXTENDED_NEXT_PAGE: u16 = 1u16 << 12;

    /// Technology ability: 10BASE-T half duplex.
    pub const TECH_10BASE_T: u16 = 1u16 << 11;

    /// Technology ability: 10BASE-T full duplex.
    pub const TECH_10BASE_T_FD: u16 = 1u16 << 10;

    /// Technology ability: 100BASE-TX half duplex.
    pub const TECH_100BASE_TX: u16 = 1u16 << 9;

    /// Technology ability: 100BASE-TX full duplex.
    pub const TECH_100BASE_TX_FD: u16 = 1u16 << 8;

    /// Technology ability: 100BASE-T4.
    pub const TECH_100BASE_T4: u16 = 1u16 << 7;

    /// Technology ability: symmetric pause.
    pub const PAUSE: u16 = 1u16 << 6;

    /// Technology ability: asymmetric pause.
    pub const ASYMMETRIC_PAUSE: u16 = 1u16 << 5;

    /// Selector field pattern: IEEE Std 802.3.
    pub const SEL_802_3: u16 = 0b00001;

    /// Selector field pattern: IEEE Std 802.9 ISLAN-16T.
    pub const SEL_802_9_ISLAN_16T: u16 = 0b00010;

    /// Selector field pattern: IEEE Std 802.5.
    pub const SEL_802_5: u16 = 0b00011;

    /// Selector field pattern: IEEE Std 1394.
    pub const SEL_1394: u16 = 0b00101;

    /// Build the register view from a raw 16-bit value; total, and the
    /// raw value is kept as it is.
    pub fn new(bits: u16) -> (r: Self)
        ensures
            r@ == bits,
    {
        AutoNegCap { bits }
    }

    /// The capability word with no bit set.
    pub fn empty() -> (r: Self)
        ensures
            r@ == 0u16,
    {
        AutoNegCap { bits: 0 }
    }

    /// The raw register value.
    pub fn bits(&self) -> (r: u16)
        ensures
            r == self@,
    {
        self.bits
    }

    /// Whether every bit of `mask` is set in this capability word.
    pub fn contains(&self, mask: u16) -> (r: bool)
        ensures
            r == flag_set(self@, mask),
    {
        self.bits & mask == mask
    }
}

/// Register 5 or register 8, the Next Page register.
#[derive(Clone, Copy, Debug, PartialEq, Eq, Structural)]
pub struct NextPage {
    bits: u16,
}

impl View for NextPage {
    type V = u16;

    closed spec fn view(&self) -> u16 {
        self.bits
    }
}

impl NextPage {
    /// The address of the transmit register.
    pub const TRANSMIT_ADDR: u8 = 7;

    /// The mask used for masking out the data portion of the register.
    pub const DATA_MASK: u16 = 0x7FF;

    /// More next pages follow.
    pub const NEXT_PAGE: u16 = 1u16 << 15;

    /// The ACK flag.
    pub const ACK: u16 = 1u16 << 14;

    /// The page is a message page.
    pub const MESSAGE_PAGE: u16 = 1u16 << 13;

    /// The ACK2 flag.
    pub const ACK2: u16 = 1u16 << 12;

    /// The toggle bit.
    pub const TOGGLE: u16 = 1u16 << 11;

    /// Build the register view from a raw 16-bit value; total, and the
    /// raw value is kept as it is.
    pub fn from_bits(bits: u16) -> (r: Self)
        ensures
            r@ == bits,
    {
        NextPage { bits }
    }

    /// The raw register value.
    pub fn bits(&self) -> (r: u16)
        ensures
            r == self@,
    {
        self.bits
    }

    /// The data portion of this next page.
    pub fn data(&self) -> (r: u16)
        ensures
            r == self@ & NextPage::DATA_MASK,
    {
        self.bits & Self::DATA_MASK
    }

    /// Set the data of this next page. Only the low 11 bits of `data`
    /// are used; they are masked with [`Self::DATA_MASK`] and merged
    /// into the register.
    pub fn set_data(&mut self, data: u16)
        ensures
            final(self)@ == old(self)@ | (data & NextPage::DATA_MASK),
    {
        self.bits = self.bits | (data & Self::DATA_MASK);
    }

    /// Set or clear the ACK flag.
    pub fn set_ack(&mut self, value: bool)
        ensures
            final(self)@ == with_flag(old(self)@, NextPage::ACK, value),
    {
        if value {
            self.bits = self.bits | Self::ACK;
        } else {
            self.bits = self.bits & !Self::ACK;
        }
    }

    /// Check if the ACK flag is set.
    pub fn ack(&self) -> (r: bool)
        ensures
            r == flag_set(self@, NextPage::ACK),
    {
        self.bits & Self::ACK == Self::ACK
    }

    /// Set or clear the ACK2 flag.
    pub fn set_ack2(&mut self, value: bool)
        ensures
            final(self)@ == with_flag(old(self)@, NextPage::ACK2, value),
    {
        if value {
            self.bits = self.bits | Self::ACK2;
        } else {
            self.bits = self.bits & !Self::ACK2;
        }
    }

    /// Check if the ACK2 flag is set.
    pub fn ack2(&self) -> (r: bool)
        ensures
            r == flag_set(self@, NextPage::ACK2),
    {
        self.bits & Self::ACK2 == Self::ACK2
    }

    /// Set or clear the message page flag.
    pub fn set_message_page(&mut self, value: bool)
        ensures
            final(self)@ == with_flag(old(self)@, NextPage::MESSAGE_PAGE, value),
    {
        if value {
            self.bits = self.bits | Self::MESSAGE_PAGE;
        } else {
            self.bits = self.bits & !Self::MESSAGE_PAGE;
        }
    }

    /// Check if the message page flag is set.
    pub fn message_page(&self) -> (r: bool)
        ensures
            r == flag_set(self@, NextPage::MESSAGE_PAGE),
    {
        self.bits & Self::MESSAGE_PAGE == Self::MESSAGE_PAGE
    }

    /// Set or clear the toggle bit.
    pub fn set_toggle_bit(&mut self, value: bool)
        ensures
            final(self)@ == with_flag(old(self)@, NextPage::TOGGLE, value),
    {
        if value {
            self.bits = self.bits | Self::TOGGLE;
        } else {
            self.bits = self.bits & !Self::TOGGLE;
        }
    }

    /// Check if the toggle bit is set.
    pub fn toggle_bit(&self) -> (r: bool)
        ensures
            r == flag_set(self@, NextPage::TOGGLE),
    {
        self.bits & Self::TOGGLE == Self::TOGGLE
    }

    /// Read the next page from the register the provided
    /// Autonegotiation Expansion register points at, falling back to
    /// `default_next_page` if the PHY does not report the location.
    pub fn new<M: Miim, P: Phy<M>>(ane: Ane, default_next_page: u8, phy: &mut P) -> (r: Self)
        ensures
            final(phy).addr() == old(phy).addr(),
            final(phy).bus() == old(phy).bus().push(
                BusOp::Read(old(phy).addr(), spec_next_page_location(ane@, default_next_page), r@),
            ),
    {
        let location = ane.next_page_location(default_next_page);
        let value = phy.read(location);
        NextPage { bits: value }
    }
}

/// The register the next page is to be read from, as reported by the
/// Autonegotiation Expansion register, or `default_value` when the PHY
/// does not report the location.
pub open spec fn spec_next_page_location(ane: u16, default_value: u8) -> u8 {
    if flag_set(ane, Ane::RX_NEXT_PAGE_LOC_ABLE) {
        if flag_set(ane, Ane::RX_NEXT_PAGE_LOC) {
            8u8
        } else {
            5u8
        }
    } else {
        default_value
    }
}

/// Register 6, the Autonegotiation Expansion register.
#[derive(Clone, Copy, Debug, PartialEq, Eq, Structural)]
pub struct Ane {
    bits: u16,
}

impl View for Ane {
    type V = u16;

    closed spec fn view(&self) -> u16 {
        self.bits
    }
}

impl Ane {
    /// The address of the Autonegotiation Expansion register.
    pub const ADDRESS: u8 = 6;

    /// The PHY reports where received next pages are stored.
    pub const RX_NEXT_PAGE_LOC_ABLE: u16 = 1u16 << 6;

    /// Received next pages are stored in register 8 when set, in
    /// register 5 when clear.
    pub const RX_NEXT_PAGE_LOC: u16 = 1u16 << 5;

    /// A parallel detection fault occurred.
    pub const PARALLEL_DETECTION_FAULT: u16 = 1u16 << 4;

    /// The link partner supports next pages.
    pub const LINK_PARTNER_NEXT_PAGE_ABLE: u16 = 1u16 << 3;

    /// The local PHY supports next pages.
    pub const NEXT_PAGE_ABLE: u16 = 1u16 << 2;

    /// A page was received.
    pub const PAGE_RECEIVED: u16 = 1u16 << 1;

    /// The link partner can perform autonegotiation.
    pub const LINK_PARTNER_AUTONEG_ABLE: u16 = 1u16 << 0;

    /// Build the register view from a raw 16-bit value; total, and the
    /// raw value is kept as it is.
    pub fn new(bits: u16) -> (r: Self)
        ensures
            r@ == bits,
    {
        Ane { bits }
    }

    /// The raw register value.
    pub fn bits(&self) -> (r: u16)
        ensures
            r == self@,
    {
        self.bits
    }

    /// Determine the register the next page is located in.
    ///
    /// When the PHY does not report the location, the next page may be
    /// located in either register 5 or 8, and `default_value` is
    /// returned instead.
    pub fn next_page_location(&self, default_value: u8) -> (r: u8)
        ensures
            r == spec_next_page_location(self@, default_value),
    {
        if self.bits & Self::RX_NEXT_PAGE_LOC_ABLE == Self::RX_NEXT_PAGE_LOC_ABLE {
            if self.bits & Self::RX_NEXT_PAGE_LOC == Self::RX_NEXT_PAGE_LOC {
                8
            } else {
                5
            }
        } else {
            default_value
        }
    }

    /// A parallel detection fault occurred.
    pub fn parallel_detection_fault(&self) -> (r: bool)
        ensures
            r == flag_set(self@, Ane::PARALLEL_DETECTION_FAULT),
    {
        self.bits & Self::PARALLEL_DETECTION_FAULT == Self::PARALLEL_DETECTION_FAULT
    }

    /// A page was received.
    pub fn page_received(&self) -> (r: bool)
        ensures
            r == flag_set(self@, Ane::PAGE_RECEIVED),
    {
        self.bits & Self::PAGE_RECEIVED == Self::PAGE_RECEIVED
    }

    /// The link partner supports next pages.
    pub fn partner_next_page_able(&self) -> (r: bool)
        ensures
            r == flag_set(self@, Ane::LINK_PARTNER_NEXT_PAGE_ABLE),
    {
        self.bits & Self::LINK_PARTNER_NEXT_PAGE_ABLE == Self::LINK_PARTNER_NEXT_PAGE_ABLE
    }

    /// The link partner is autonegotiation capable.
    pub fn partner_autoneg_capable(&self) -> (r: bool)
        ensures
            r == flag_set(self@, Ane::LINK_PARTNER_AUTONEG_ABLE),
    {
        self.bits & Self::LINK_PARTNER_AUTONEG_ABLE == Self::LINK_PARTNER_AUTONEG_ABLE
    }
}

/// Register 15, the Extended Status Register.
#[derive(Clone, Copy, Debug, PartialEq, Eq, Structural)]
pub struct Esr {
    bits: u16,
}

impl View for Esr {
    type V = u16;

    closed spec fn view(&self) -> u16 {
        self.bits
    }
}

impl Esr {
    /// The address of the Extended Status Register.
    pub const ADDRESS: u8 = 15;

    /// The PHY supports 1000BASE-X full duplex.
    pub const BASE1000_X_FD: u16 = 1u16 << 15;

    /// The PHY supports 1000BASE-X half duplex.
    pub const BASE1000_X_HD: u16 = 1u16 << 14;

    /// The PHY supports 1000BASE-T full duplex.
    pub const BASE1000_T_FD: u16 = 1u16 << 13;

    /// The PHY supports 1000BASE-T half duplex.
    pub const BASE1000_T_HD: u16 = 1u16 << 12;

    /// Build the register view from a raw 16-bit value; total, and the
    /// raw value is kept as it is.
    pub fn new(bits: u16) -> (r: Self)
        ensures
            r@ == bits,
    {
        Esr { bits }
    }

    /// The raw register value.
    pub fn bits(&self) -> (r: u16)
        ensures
            r == self@,
    {
        self.bits
    }
}

} // verus!
