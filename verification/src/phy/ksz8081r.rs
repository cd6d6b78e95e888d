//! Driver for the Microchip KSZ8081R PHY.

use vstd::prelude::*;

use crate::miim::{op_data, BusOp, Miim};
use crate::phy::{AdvancedPhySpeed, PhySpeed, PhyWithSpeed};
use crate::phy::bare::{BarePhy, IdentPhyError};
use crate::registers::{flag_set, Bsr, Esr};
use crate::{
    appended, spec_status_from_bsr, AutoNegotiationAdvertisement, ExtendedPhyStatus, Pause, Phy,
    SelectorField,
};

verus! {

/// The contents of the PhyControl1 register, the chip's operation-mode
/// status word.
#[derive(Clone, Copy, Debug, PartialEq, Eq, Structural)]
pub struct PhyControl1 {
    bits: u16,
}

impl View for PhyControl1 {
    type V = u16;

    closed spec fn view(&self) -> u16 {
        self.bits
    }
}

/// The operating speed a PhyControl1 value reports: nothing when
/// neither speed bit is set, else one of the four basic speed and
/// duplex combinations.
pub open spec fn spec_control1_speed(v: u16) -> Option<PhySpeed> {
    if flag_set(v, PhyControl1::FULL_DUPLEX) {
        if flag_set(v, PhyControl1::MBIT10) {
            Some(PhySpeed::FullDuplexBase10T)
        } else if flag_set(v, PhyControl1::MBIT100) {
            Some(PhySpeed::FullDuplexBase100Tx)
        } else {
            None
        }
    } else {
        if flag_set(v, PhyControl1::MBIT10) {
            Some(PhySpeed::HalfDuplexBase10T)
        } else if flag_set(v, PhyControl1::MBIT100) {
            Some(PhySpeed::HalfDuplexBase100Tx)
        } else {
            None
        }
    }
}

impl PhyControl1 {
    /// The address of the PhyControl1 register.
    pub const ADDRESS: u8 = 0x1E;

    /// Pause handling is enabled.
    pub const ENABLE_PAUSE: u16 = 1u16 << 9;

    /// The link is up.
    pub const LINK_STATUS: u16 = 1u16 << 8;

    /// Signal polarity is reversed.
    pub const POLARITY_STATUS: u16 = 1u16 << 7;

    /// The MDI/MDI-X state.
    pub const MID_MIDX_STATE: u16 = 1u16 << 5;

    /// Signal energy was detected on the line.
    pub const ENERGY_DETECT: u16 = 1u16 << 4;

    /// The PHY is isolated.
    pub const PHY_ISOLATE: u16 = 1u16 << 3;

    /// The link operates at full duplex.
    pub const FULL_DUPLEX: u16 = 1u16 << 2;

    /// The link operates at 100 Mb/s.
    pub const MBIT100: u16 = 1u16 << 1;

    /// The link operates at 10 Mb/s.
    pub const MBIT10: u16 = 1u16 << 0;

    /// Build the register view from a raw 16-bit value; total, and the
    /// raw value is kept as it is.
    pub fn new(bits: u16) -> (r: Self)
        ensures
            r@ == bits,
    {
        PhyControl1 { bits }
    }

    /// The raw register value.
    pub fn bits(&self) -> (r: u16)
        ensures
            r == self@,
    {
        self.bits
    }

    /// Decode the operating speed this status word reports.
    pub fn link_speed(&self) -> (r: Option<PhySpeed>)
        ensures
            r == spec_control1_speed(self@),
    {
        let full_duplex = self.bits & Self::FULL_DUPLEX == Self::FULL_DUPLEX;
        let mbit_10 = self.bits & Self::MBIT10 == Self::MBIT10;
        let mbit_100 = self.bits & Self::MBIT100 == Self::MBIT100;
        if full_duplex {
            if mbit_10 {
                Some(PhySpeed::FullDuplexBase10T)
            } else if mbit_100 {
                Some(PhySpeed::FullDuplexBase100Tx)
            } else {
                None
            }
        } else {
            if mbit_10 {
                Some(PhySpeed::HalfDuplexBase10T)
            } else if mbit_100 {
                Some(PhySpeed::HalfDuplexBase100Tx)
            } else {
                None
            }
        }
    }
}

/// The best advertisement a KSZ8081R can send out: every basic
/// technology ability, 100BASE-T4 included.
pub open spec fn spec_ksz8081r_best_ad() -> AutoNegotiationAdvertisement {
    AutoNegotiationAdvertisement {
        selector_field: SelectorField::Std802_3,
        hd_10base_t: true,
        fd_10base_t: true,
        hd_100base_tx: true,
        fd_100base_tx: true,
        base100_t4: true,
        pause: Pause::NoPause,
    }
}

/// A KSZ8081R.
pub struct KSZ8081R<MIIM: Miim> {
    phy_addr: u8,
    miim: MIIM,
}

impl<MIIM: Miim> KSZ8081R<MIIM> {
    /// The address of the interrupt enable and status register.
    pub const INTERRUPT_REG: u8 = 0x1B;

    /// Enable bit for the link-up interrupt.
    pub const INTERRUPT_REG_EN_LINK_UP: u16 = 1u16 << 8;

    /// Enable bit for the link-down interrupt.
    pub const INTERRUPT_REG_EN_LINK_DOWN: u16 = 1u16 << 10;

    /// A mask for determining if the Link Up Interrupt occurred.
    pub const INTERRUPT_REG_INT_LINK_UP: u16 = 1u16 << 0;

    /// A mask for determining if the Link Down Interrupt occurred.
    pub const INTERRUPT_REG_INT_LINK_DOWN: u16 = 1u16 << 2;

    /// The PHY identifier of the KSZ8081R family, ignoring the revision
    /// digit.
    pub const PHY_IDENT: u32 = 0x00221560;

    /// Create a new KSZ8081R at `phy_addr`, backed by the given `miim`.
    pub fn new(miim: MIIM, phy_addr: u8) -> (r: Self)
        ensures
            r.addr() == phy_addr,
            r.bus() == miim.log(),
            r.best_ad() == spec_ksz8081r_best_ad(),
    {
        KSZ8081R { phy_addr, miim }
    }

    /// Identify the chip behind a bare PHY and take it over as a
    /// KSZ8081R, when its PHY identifier matches this family.
    ///
    /// On failure the bare PHY is handed back with the error, so the
    /// caller can keep using the bus.
    pub fn try_from_bare(bare: BarePhy<MIIM>) -> (r: Result<Self, (IdentPhyError, BarePhy<MIIM>)>)
        ensures
            ({
                let pre = bare.bus();
                let a = bare.addr();
                match r {
                    Ok(c) => {
                        let v = op_data(appended(pre, c.bus(), 0));
                        let msb = op_data(appended(pre, c.bus(), 1));
                        let lsb = op_data(appended(pre, c.bus(), 2));
                        &&& c.addr() == a
                        &&& c.bus() == pre.push(BusOp::Read(a, Bsr::ADDRESS, v)).push(
                            BusOp::Read(a, 2u8, msb),
                        ).push(BusOp::Read(a, 3u8, lsb))
                        &&& spec_status_from_bsr(v).extended_caps
                        &&& (((msb as u32) << 16u32) | (lsb as u32)) & 0xFFFFFFF0u32
                            == Self::PHY_IDENT
                    },
                    Err((e, b)) => {
                        let v = op_data(appended(pre, b.bus(), 0));
                        let msb = op_data(appended(pre, b.bus(), 1));
                        let lsb = op_data(appended(pre, b.bus(), 2));
                        &&& b.addr() == a
                        &&& b.best_ad() == bare.best_ad()
                        &&& if spec_status_from_bsr(v).extended_caps {
                            &&& e == IdentPhyError::IncorrectPhyIdent
                            &&& b.bus() == pre.push(BusOp::Read(a, Bsr::ADDRESS, v)).push(
                                BusOp::Read(a, 2u8, msb),
                            ).push(BusOp::Read(a, 3u8, lsb))
                            &&& (((msb as u32) << 16u32) | (lsb as u32)) & 0xFFFFFFF0u32
                                != Self::PHY_IDENT
                        } else {
                            &&& e == IdentPhyError::PhyIdentUnavailable
                            &&& b.bus() == pre.push(BusOp::Read(a, Bsr::ADDRESS, v))
                        }
                    },
                }
            }),
    {
        let mut bare = bare;
        let ident = bare.phy_ident();
        match ident {
            None => Err((IdentPhyError::PhyIdentUnavailable, bare)),
            Some(id) => {
                if id & 0xFFFFFFF0u32 == Self::PHY_IDENT {
                    let addr = bare.get_phy_addr();
                    Ok(Self::new(bare.release(), addr))
                } else {
                    Err((IdentPhyError::IncorrectPhyIdent, bare))
                }
            },
        }
    }

    /// Enable the link up and link down interrupts.
    pub fn interrupt_enable(&mut self)
        ensures
            final(self).addr() == old(self).addr(),
            final(self).bus() == old(self).bus().push(
                BusOp::Write(
                    old(self).addr(),
                    Self::INTERRUPT_REG,
                    Self::INTERRUPT_REG_EN_LINK_UP | Self::INTERRUPT_REG_EN_LINK_DOWN,
                ),
            ),
    {
        self.write(
            Self::INTERRUPT_REG,
            Self::INTERRUPT_REG_EN_LINK_UP | Self::INTERRUPT_REG_EN_LINK_DOWN,
        );
    }

    /// Get the link speed at which the PHY is currently operating, by
    /// reading and decoding the PhyControl1 register.
    pub fn link_speed(&mut self) -> (r: Option<PhySpeed>)
        ensures
            final(self).addr() == old(self).addr(),
            final(self).bus() == old(self).bus().push(
                BusOp::Read(
                    old(self).addr(),
                    PhyControl1::ADDRESS,
                    op_data(final(self).bus().last()),
                ),
            ),
            r == spec_control1_speed(op_data(final(self).bus().last())),
    {
        let v = self.read(PhyControl1::ADDRESS);
        proof {
            assert(final(self).bus().last() == BusOp::Read(
                old(self).addr(),
                PhyControl1::ADDRESS,
                v,
            ));
        }
        let ctrl = PhyControl1::new(v);
        ctrl.link_speed()
    }

    /// Get the value of the interrupt register.
    ///
    /// Use [`Self::INTERRUPT_REG_INT_LINK_UP`] and
    /// [`Self::INTERRUPT_REG_INT_LINK_DOWN`] to determine the type of
    /// interrupt that occurred.
    pub fn get_interrupt_reg_val(&mut self) -> (r: u16)
        ensures
            final(self).addr() == old(self).addr(),
            final(self).bus() == old(self).bus().push(
                BusOp::Read(old(self).addr(), Self::INTERRUPT_REG, r),
            ),
    {
        self.read(Self::INTERRUPT_REG)
    }

    /// Check whether a link is established or not: autonegotiation has
    /// completed and the link is up. The second status read is skipped
    /// when the first already shows autonegotiation incomplete.
    pub fn link_established(&mut self) -> (r: bool)
        ensures
            final(self).addr() == old(self).addr(),
            ({
                let pre = old(self).bus();
                let post = final(self).bus();
                let a = old(self).addr();
                let v = op_data(appended(pre, post, 0));
                let w = op_data(appended(pre, post, 1));
                if flag_set(v, Bsr::AUTONEG_COMPLETE) {
                    &&& post == pre.push(BusOp::Read(a, Bsr::ADDRESS, v)).push(
                        BusOp::Read(a, Bsr::ADDRESS, w),
                    )
                    &&& r == flag_set(w, Bsr::LINK_STATUS)
                } else {
                    &&& post == pre.push(BusOp::Read(a, Bsr::ADDRESS, v))
                    &&& r == false
                }
            }),
    {
        self.autoneg_completed() && self.phy_link_up()
    }

    /// Release the underlying [`Miim`].
    pub fn release(self) -> (miim: MIIM)
        ensures
            miim.log() == self.bus(),
    {
        self.miim
    }

    /// The ESR of this chip: it has none, so no register is touched.
    pub fn esr(&self) -> (r: Option<Esr>)
        ensures
            r is None,
    {
        None
    }

    /// The extended status of this chip: it has none, so no register is
    /// touched.
    pub fn extended_status(&self) -> (r: Option<ExtendedPhyStatus>)
        ensures
            r is None,
    {
        None
    }
}

impl<MIIM: Miim> Phy<MIIM> for KSZ8081R<MIIM> {
    closed spec fn bus(&self) -> Seq<BusOp> {
        self.miim.log()
    }

    closed spec fn addr(&self) -> u8 {
        self.phy_addr
    }

    closed spec fn best_ad(&self) -> AutoNegotiationAdvertisement {
        spec_ksz8081r_best_ad()
    }

    fn best_supported_advertisement(&self) -> (ad: AutoNegotiationAdvertisement) {
        AutoNegotiationAdvertisement {
            selector_field: SelectorField::Std802_3,
            hd_10base_t: true,
            fd_10base_t: true,
            hd_100base_tx: true,
            fd_100base_tx: true,
            base100_t4: true,
            pause: Pause::NoPause,
        }
    }

    fn get_miim(&self) -> (miim: &MIIM) {
        &self.miim
    }

    fn get_phy_addr(&self) -> (addr: u8) {
        self.phy_addr
    }

    fn read(&mut self, address: u8) -> (data: u16) {
        let phy = self.phy_addr;
        self.miim.read(phy, address)
    }

    fn write(&mut self, address: u8, value: u16) {
        let phy = self.phy_addr;
        self.miim.write(phy, address, value)
    }
}

impl<MIIM: Miim> PhyWithSpeed<MIIM> for KSZ8081R<MIIM> {
    fn get_link_speed(&mut self) -> Option<AdvancedPhySpeed> {
        let speed = self.link_speed();
        match speed {
            Some(s) => Some(AdvancedPhySpeed::from_basic(s)),
            None => None,
        }
    }
}

} // verus!
