//! Driver for the TI DP83xxx series PHYs.

use vstd::prelude::*;

use crate::miim::{op_data, BusOp, Miim};
use crate::phy::{spec_advanced_speed, AdvancedPhySpeed, PhySpeed, PhyWithSpeed};
use crate::registers::{flag_set, Bsr, Esr};
use crate::{AutoNegotiationAdvertisement, ExtendedPhyStatus, Pause, Phy, SelectorField};

verus! {

/// The contents of the PHYSTS register, the chip's device status word.
#[derive(Clone, Copy, Debug, PartialEq, Eq, Structural)]
pub struct Physts {
    bits: u16,
}

impl View for Physts {
    type V = u16;

    closed spec fn view(&self) -> u16 {
        self.bits
    }
}

/// The operating speed a PHYSTS value reports: nothing while the link
/// is down, else one of the four basic speed and duplex combinations.
pub open spec fn spec_physts_speed(v: u16) -> Option<PhySpeed> {
    if !flag_set(v, Physts::LINK_STATUS) {
        None
    } else if flag_set(v, Physts::FULL_DUPLEX) && flag_set(v, Physts::MBIT10) {
        Some(PhySpeed::FullDuplexBase10T)
    } else if flag_set(v, Physts::FULL_DUPLEX) {
        Some(PhySpeed::FullDuplexBase100Tx)
    } else if flag_set(v, Physts::MBIT10) {
        Some(PhySpeed::HalfDuplexBase10T)
    } else {
        Some(PhySpeed::HalfDuplexBase100Tx)
    }
}

impl Physts {
    /// The address of the PHYSTS register.
    pub const ADDRESS: u8 = 0x19;

    /// The link operates at full duplex.
    pub const FULL_DUPLEX: u16 = 1u16 << 2;

    /// The link operates at 10 Mb/s.
    pub const MBIT10: u16 = 1u16 << 1;

    /// The link is up.
    pub const LINK_STATUS: u16 = 1u16 << 0;

    /// Build the register view from a raw 16-bit value; total, and the
    /// raw value is kept as it is.
    pub fn new(bits: u16) -> (r: Self)
        ensures
            r@ == bits,
    {
        Physts { bits }
    }

    /// The raw register value.
    pub fn bits(&self) -> (r: u16)
        ensures
            r == self@,
    {
        self.bits
    }

    /// Decode the operating speed this status word reports.
    pub fn link_speed(&self) -> (r: Option<PhySpeed>)
        ensures
            r == spec_physts_speed(self@),
    {
        let full_duplex = self.bits & Self::FULL_DUPLEX == Self::FULL_DUPLEX;
        let mbit_10 = self.bits & Self::MBIT10 == Self::MBIT10;
        let link = self.bits & Self::LINK_STATUS == Self::LINK_STATUS;
        if !link {
            None
        } else if full_duplex && mbit_10 {
            Some(PhySpeed::FullDuplexBase10T)
        } else if full_duplex {
            Some(PhySpeed::FullDuplexBase100Tx)
        } else if mbit_10 {
            Some(PhySpeed::HalfDuplexBase10T)
        } else {
            Some(PhySpeed::HalfDuplexBase100Tx)
        }
    }
}

/// The best advertisement a DP83xxx can send out: every basic
/// technology ability, 100BASE-T4 included.
pub open spec fn spec_dp83xxx_best_ad() -> AutoNegotiationAdvertisement {
    AutoNegotiationAdvertisement {
        selector_field: SelectorField::Std802_3,
        hd_10base_t: true,
        fd_10base_t: true,
        hd_100base_tx: true,
        fd_100base_tx: true,
        base100_t4: true,
        pause: Pause::NoPause,
    }
}

/// A DP83xxx series PHY; the `PTP` parameter records whether the chip
/// performs hardware PTP timestamping.
pub struct DP83XXX<MIIM: Miim, const PTP: bool> {
    phy_addr: u8,
    miim: MIIM,
}

/// DP83640 with hardware PTP stamping.
pub type DP83640<MIIM> = DP83XXX<MIIM, true>;

/// DP83848.
pub type DP83848<MIIM> = DP83XXX<MIIM, false>;

impl<MIIM: Miim, const PTP: bool> DP83XXX<MIIM, PTP> {
    /// The address of the interrupt enable and status register.
    pub const INTERRUPT_REG: u8 = 0x1B;

    /// Enable bit for the link status change interrupt.
    pub const INTERRUPT_REG_EN_LINK_CHANGE: u16 = 1u16 << 5;

    /// A mask for determining if the Link Status Change Interrupt
    /// occurred.
    pub const INTERRUPT_REG_INT_LINK_CHANGE: u16 = 1u16 << 13;

    /// Create a new DP83xxx at `phy_addr`, backed by the given `miim`.
    pub fn new(miim: MIIM, phy_addr: u8) -> (r: Self)
        ensures
            r.addr() == phy_addr,
            r.bus() == miim.log(),
            r.best_ad() == spec_dp83xxx_best_ad(),
    {
        DP83XXX { phy_addr, miim }
    }

    /// Enable the link status change interrupt.
    pub fn interrupt_enable(&mut self)
        ensures
            final(self).addr() == old(self).addr(),
            final(self).bus() == old(self).bus().push(
                BusOp::Write(
                    old(self).addr(),
                    Self::INTERRUPT_REG,
                    Self::INTERRUPT_REG_EN_LINK_CHANGE,
                ),
            ),
    {
        self.write(Self::INTERRUPT_REG, Self::INTERRUPT_REG_EN_LINK_CHANGE);
    }

    /// Get the link speed at which the PHY is currently operating, by
    /// reading and decoding the PHYSTS register.
    pub fn link_speed(&mut self) -> (r: Option<PhySpeed>)
        ensures
            final(self).addr() == old(self).addr(),
            final(self).bus() == old(self).bus().push(
                BusOp::Read(old(self).addr(), Physts::ADDRESS, op_data(final(self).bus().last())),
            ),
            r == spec_physts_speed(op_data(final(self).bus().last())),
    {
        let v = self.read(Physts::ADDRESS);
        proof {
            assert(final(self).bus().last() == BusOp::Read(old(self).addr(), Physts::ADDRESS, v));
        }
        let physts = Physts::new(v);
        physts.link_speed()
    }

    /// Get the value of the interrupt register.
    pub fn get_interrupt_reg_val(&mut self) -> (r: u16)
        ensures
            final(self).addr() == old(self).addr(),
            final(self).bus() == old(self).bus().push(
                BusOp::Read(old(self).addr(), Self::INTERRUPT_REG, r),
            ),
    {
        self.read(Self::INTERRUPT_REG)
    }

    /// Check whether a link is established or not: autonegotiation has
    /// completed and the link is up. The second status read is skipped
    /// when the first already shows autonegotiation incomplete.
    pub fn link_established(&mut self) -> (r: bool)
        ensures
            final(self).addr() == old(self).addr(),
            ({
                let pre = old(self).bus();
                let post = final(self).bus();
                let a = old(self).addr();
                let v = op_data(crate::appended(pre, post, 0));
                let w = op_data(crate::appended(pre, post, 1));
                if flag_set(v, Bsr::AUTONEG_COMPLETE) {
                    &&& post == pre.push(BusOp::Read(a, Bsr::ADDRESS, v)).push(
                        BusOp::Read(a, Bsr::ADDRESS, w),
                    )
                    &&& r == flag_set(w, Bsr::LINK_STATUS)
                } else {
                    &&& post == pre.push(BusOp::Read(a, Bsr::ADDRESS, v))
                    &&& r == false
                }
            }),
    {
        self.autoneg_completed() && self.phy_link_up()
    }

    /// Release the underlying [`Miim`].
    pub fn release(self) -> (miim: MIIM)
        ensures
            miim.log() == self.bus(),
    {
        self.miim
    }

    /// The ESR of this chip: it has none, so no register is touched.
    pub fn esr(&self) -> (r: Option<Esr>)
        ensures
            r is None,
    {
        None
    }

    /// The extended status of this chip: it has none, so no register is
    /// touched.
    pub fn extended_status(&self) -> (r: Option<ExtendedPhyStatus>)
        ensures
            r is None,
    {
        None
    }
}

impl<MIIM: Miim, const PTP: bool> Phy<MIIM> for DP83XXX<MIIM, PTP> {
    closed spec fn bus(&self) -> Seq<BusOp> {
        self.miim.log()
    }

    closed spec fn addr(&self) -> u8 {
        self.phy_addr
    }

    closed spec fn best_ad(&self) -> AutoNegotiationAdvertisement {
        spec_dp83xxx_best_ad()
    }

    fn best_supported_advertisement(&self) -> (ad: AutoNegotiationAdvertisement) {
        AutoNegotiationAdvertisement {
            selector_field: SelectorField::Std802_3,
            hd_10base_t: true,
            fd_10base_t: true,
            hd_100base_tx: true,
            fd_100base_tx: true,
            base100_t4: true,
            pause: Pause::NoPause,
        }
    }

    fn get_miim(&self) -> (miim: &MIIM) {
        &self.miim
    }

    fn get_phy_addr(&self) -> (addr: u8) {
        self.phy_addr
    }

    fn read(&mut self, address: u8) -> (data: u16) {
        let phy = self.phy_addr;
        self.miim.read(phy, address)
    }

    fn write(&mut self, address: u8, value: u16) {
        let phy = self.phy_addr;
        self.miim.write(phy, address, value)
    }
}

impl<MIIM: Miim, const PTP: bool> PhyWithSpeed<MIIM> for DP83XXX<MIIM, PTP> {
    fn get_link_speed(&mut self) -> Option<AdvancedPhySpeed> {
        let speed = self.link_speed();
        match speed {
            Some(s) => Some(AdvancedPhySpeed::from_basic(s)),
            None => None,
        }
    }
}

} // verus!
