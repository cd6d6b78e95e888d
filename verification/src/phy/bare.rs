//! A bare PHY that does not have any compile-time configuration
//! assigned to it.

use vstd::prelude::*;

use crate::miim::{op_data, BusOp, Miim};
use crate::registers::Bsr;
use crate::{
    spec_best_autoneg_ad, spec_status_from_bsr, AutoNegotiationAdvertisement, Pause, Phy,
    PhyStatus,
};

verus! {

/// The best advertisement a bare PHY derives from the status its chip
/// reported, with the caller's pause mode in place of the default.
pub open spec fn spec_bare_best_ad(status: PhyStatus, pause: Pause) -> AutoNegotiationAdvertisement {
    AutoNegotiationAdvertisement { pause, ..spec_best_autoneg_ad(status) }
}

/// A base PHY, usable with any chip: its best supported advertisement
/// is not a compile-time fact but is derived from the status register
/// at construction time.
#[derive(Debug)]
pub struct BarePhy<MIIM: Miim> {
    phy_address: u8,
    miim: MIIM,
    best_supported_advertisement: AutoNegotiationAdvertisement,
}

impl<MIIM: Miim> BarePhy<MIIM> {
    /// Create a new bare PHY with the given MIIM, at the given PHY
    /// address, using `pause` as the advertised pause mode.
    ///
    /// The PHY calculates its best supported advertisement on the fly
    /// from the status register read through `miim`.
    pub fn new(miim: MIIM, phy_address: u8, pause: Pause) -> (r: Self)
        ensures
            r.addr() == phy_address,
            r.bus() == miim.log().push(
                BusOp::Read(phy_address, Bsr::ADDRESS, op_data(r.bus().last())),
            ),
            r.best_ad() == spec_bare_best_ad(
                spec_status_from_bsr(op_data(r.bus().last())),
                pause,
            ),
    {
        let mut me = BarePhy {
            phy_address,
            miim,
            best_supported_advertisement: AutoNegotiationAdvertisement::default(),
        };
        let status = me.status();
        let mut ana = status.best_autoneg_ad();
        ana.pause = pause;
        me.best_supported_advertisement = ana;
        me
    }

    /// Release the underlying MIIM.
    pub fn release(self) -> (miim: MIIM)
        ensures
            miim.log() == self.bus(),
    {
        self.miim
    }

    /// Change the PHY address.
    pub fn set_phy_addr(&mut self, phy_address: u8)
        ensures
            final(self).addr() == phy_address,
            final(self).bus() == old(self).bus(),
            final(self).best_ad() == old(self).best_ad(),
    {
        self.phy_address = phy_address;
    }
}

impl<MIIM: Miim> Phy<MIIM> for BarePhy<MIIM> {
    closed spec fn bus(&self) -> Seq<BusOp> {
        self.miim.log()
    }

    closed spec fn addr(&self) -> u8 {
        self.phy_address
    }

    closed spec fn best_ad(&self) -> AutoNegotiationAdvertisement {
        self.best_supported_advertisement
    }

    fn best_supported_advertisement(&self) -> (ad: AutoNegotiationAdvertisement) {
        self.best_supported_advertisement
    }

    fn get_miim(&self) -> (miim: &MIIM) {
        &self.miim
    }

    fn get_phy_addr(&self) -> (addr: u8) {
        self.phy_address
    }

    fn read(&mut self, address: u8) -> (data: u16) {
        let phy = self.phy_address;
        self.miim.read(phy, address)
    }

    fn write(&mut self, address: u8, value: u16) {
        let phy = self.phy_address;
        self.miim.write(phy, address, value)
    }
}

/// The ways identifying a chip behind a bare PHY can fail.
#[derive(Clone, Copy, Debug, PartialEq, Eq, Structural)]
pub enum IdentPhyError {
    /// The PHY reports no extended capabilities, so it has no readable
    /// identifier.
    PhyIdentUnavailable,
    /// The PHY identifier does not belong to the requested chip.
    IncorrectPhyIdent,
}

} // verus!
