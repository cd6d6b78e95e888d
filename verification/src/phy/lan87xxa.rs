//! Driver for the SMSC LAN87xxA (LAN8742A, LAN8720A) Ethernet PHYs.

use vstd::prelude::*;

use crate::miim::{op_data, BusOp, Miim};
use crate::mmd::{spec_mmd_address_word, spec_mmd_data_word, MmdAddress};
use crate::phy::{AdvancedPhySpeed, PhySpeed, PhyWithSpeed};
use crate::phy::bare::{BarePhy, IdentPhyError};
use crate::registers::{flag_set, with_flag, AutoNegCap, Bcr, Bsr, Esr};
use crate::{
    appended, spec_ad_word, spec_status_from_bsr, AutoNegotiationAdvertisement, ExtendedPhyStatus,
    Pause, Phy, PhyStatus, SelectorField,
};

verus! {

/// SMSC LAN8720A Ethernet PHY.
pub type LAN8720A<MIIM> = LAN87xxA<MIIM, false>;

/// SMSC LAN8742A Ethernet PHY.
pub type LAN8742A<MIIM> = LAN87xxA<MIIM, true>;

/// The link speeds supported by this PHY, as laid out in the speed
/// field of its Special Status Register.
#[derive(Clone, Copy, Debug, PartialEq, Eq, Structural)]
pub enum LinkSpeed {
    /// 10BaseT - Half duplex
    BaseT10HalfDuplex,
    /// 10BaseT - Full duplex
    BaseT10FullDuplex,
    /// 100BaseT - Half duplex
    BaseT100HalfDuplex,
    /// 100BaseT - Full duplex
    BaseT100FullDuplex,
}

/// The speed a value of the Special Status Register's 3-bit speed field
/// names, or nothing for the reserved values.
pub open spec fn spec_link_speed_from_u8(val: u8) -> Option<LinkSpeed> {
    if val == 0b001u8 {
        Some(LinkSpeed::BaseT10HalfDuplex)
    } else if val == 0b101u8 {
        Some(LinkSpeed::BaseT10FullDuplex)
    } else if val == 0b010u8 {
        Some(LinkSpeed::BaseT100HalfDuplex)
    } else if val == 0b110u8 {
        Some(LinkSpeed::BaseT100FullDuplex)
    } else {
        None
    }
}

/// The speed-field value a link speed is reported as.
pub open spec fn spec_link_speed_to_u8(speed: LinkSpeed) -> u8 {
    match speed {
        LinkSpeed::BaseT10HalfDuplex => 0b001u8,
        LinkSpeed::BaseT10FullDuplex => 0b101u8,
        LinkSpeed::BaseT100HalfDuplex => 0b010u8,
        LinkSpeed::BaseT100FullDuplex => 0b110u8,
    }
}

/// The basic speed enumeration value this chip speed corresponds to.
pub open spec fn spec_link_speed_basic(speed: LinkSpeed) -> PhySpeed {
    match speed {
        LinkSpeed::BaseT10HalfDuplex => PhySpeed::HalfDuplexBase10T,
        LinkSpeed::BaseT10FullDuplex => PhySpeed::FullDuplexBase10T,
        LinkSpeed::BaseT100HalfDuplex => PhySpeed::HalfDuplexBase100Tx,
        LinkSpeed::BaseT100FullDuplex => PhySpeed::FullDuplexBase100Tx,
    }
}

impl LinkSpeed {
    /// Decode a value of the Special Status Register's 3-bit speed
    /// field; the reserved values name no speed and are rejected.
    pub fn from_u8(val: u8) -> (r: Option<LinkSpeed>)
        ensures
            r == spec_link_speed_from_u8(val),
    {
        if val == 0b001 {
            Some(LinkSpeed::BaseT10HalfDuplex)
        } else if val == 0b101 {
            Some(LinkSpeed::BaseT10FullDuplex)
        } else if val == 0b010 {
            Some(LinkSpeed::BaseT100HalfDuplex)
        } else if val == 0b110 {
            Some(LinkSpeed::BaseT100FullDuplex)
        } else {
            None
        }
    }

    /// The speed-field value this link speed is reported as.
    pub fn to_u8(self) -> (r: u8)
        ensures
            r == spec_link_speed_to_u8(self),
    {
        match self {
            LinkSpeed::BaseT10HalfDuplex => 0b001,
            LinkSpeed::BaseT10FullDuplex => 0b101,
            LinkSpeed::BaseT100HalfDuplex => 0b010,
            LinkSpeed::BaseT100FullDuplex => 0b110,
        }
    }

    /// Widen this chip speed into the basic speed enumeration.
    pub fn as_basic(self) -> (r: PhySpeed)
        ensures
            r == spec_link_speed_basic(self),
    {
        match self {
            LinkSpeed::BaseT10HalfDuplex => PhySpeed::HalfDuplexBase10T,
            LinkSpeed::BaseT10FullDuplex => PhySpeed::FullDuplexBase10T,
            LinkSpeed::BaseT100HalfDuplex => PhySpeed::HalfDuplexBase100Tx,
            LinkSpeed::BaseT100FullDuplex => PhySpeed::FullDuplexBase100Tx,
        }
    }
}

/// Decoding the speed-field value a link speed encodes to gives that
/// speed back: the speed field round-trips over all four speeds.
pub proof fn lemma_link_speed_u8_round_trip(speed: LinkSpeed)
    ensures
        spec_link_speed_from_u8(spec_link_speed_to_u8(speed)) == Some(speed),
{
}

/// All interrupt sources supported by this chip.
#[derive(Clone, Copy, Debug, PartialEq, Eq, Structural)]
pub enum Interrupt {
    /// A page was received during auto negotiation
    AutoNegotiationPageRecvd,
    /// A fault occurred during parallel detection
    ParallelDetectionFault,
    /// The last page transferred during auto negotiation was ACK'd
    AutoNegotiationLpAck,
    /// The link went down
    LinkDown,
    /// A remote fault occurred
    RemoteFault,
    /// Auto negotiation completed
    AutoNegotiationComplete,
    /// PoE Energy was turned on
    EnergyOn,
    /// A Wake on Lan packet was received (only reported by the LAN8742A)
    WoL,
}

/// The interrupt-register bit an interrupt source is reported and
/// enabled by.
pub open spec fn spec_interrupt_mask(source: Interrupt) -> u16 {
    match source {
        Interrupt::AutoNegotiationPageRecvd => InterruptReg::INT1_AUTO_NEG_PAGE_RECVD,
        Interrupt::ParallelDetectionFault => InterruptReg::INT2_PARALLEL_DETECTION_FAULT,
        Interrupt::AutoNegotiationLpAck => InterruptReg::INT3_AUTO_NEG_LP_ACK,
        Interrupt::LinkDown => InterruptReg::INT4_LINK_DOWN,
        Interrupt::RemoteFault => InterruptReg::INT5_REMOTE_FAULT,
        Interrupt::AutoNegotiationComplete => InterruptReg::INT6_AUTO_NEG_COMPLETE,
        Interrupt::EnergyOn => InterruptReg::INT7_ENERGYON,
        Interrupt::WoL => InterruptReg::INT8_WOL,
    }
}

impl Interrupt {
    /// The interrupt-register bit this interrupt source is reported and
    /// enabled by.
    pub fn mask(self) -> (r: u16)
        ensures
            r == spec_interrupt_mask(self),
    {
        match self {
            Interrupt::AutoNegotiationPageRecvd => InterruptReg::INT1_AUTO_NEG_PAGE_RECVD,
            Interrupt::ParallelDetectionFault => InterruptReg::INT2_PARALLEL_DETECTION_FAULT,
            Interrupt::AutoNegotiationLpAck => InterruptReg::INT3_AUTO_NEG_LP_ACK,
            Interrupt::LinkDown => InterruptReg::INT4_LINK_DOWN,
            Interrupt::RemoteFault => InterruptReg::INT5_REMOTE_FAULT,
            Interrupt::AutoNegotiationComplete => InterruptReg::INT6_AUTO_NEG_COMPLETE,
            Interrupt::EnergyOn => InterruptReg::INT7_ENERGYON,
            Interrupt::WoL => InterruptReg::INT8_WOL,
        }
    }
}

/// The chip's interrupt source and mask registers.
#[derive(Clone, Copy, Debug, PartialEq, Eq, Structural)]
pub struct InterruptReg {
    bits: u16,
}

impl View for InterruptReg {
    type V = u16;

    closed spec fn view(&self) -> u16 {
        self.bits
    }
}

impl InterruptReg {
    /// The address of the interrupt source register; reading it clears
    /// the pending interrupts.
    pub const SOURCE_ADDR: u8 = 29;

    /// The address of the interrupt mask register.
    pub const MASK_ADDR: u8 = 30;

    /// A page was received during auto negotiation.
    pub const INT1_AUTO_NEG_PAGE_RECVD: u16 = 1u16 << 1;

    /// A fault occurred during parallel detection.
    pub const INT2_PARALLEL_DETECTION_FAULT: u16 = 1u16 << 2;

    /// The last page transferred during auto negotiation was ACK'd.
    pub const INT3_AUTO_NEG_LP_ACK: u16 = 1u16 << 3;

    /// The link went down.
    pub const INT4_LINK_DOWN: u16 = 1u16 << 4;

    /// A remote fault occurred.
    pub const INT5_REMOTE_FAULT: u16 = 1u16 << 5;

    /// Auto negotiation completed.
    pub const INT6_AUTO_NEG_COMPLETE: u16 = 1u16 << 6;

    /// PoE energy was turned on.
    pub const INT7_ENERGYON: u16 = 1u16 << 7;

    /// A Wake on LAN packet was received (only reported by the
    /// LAN8742A).
    pub const INT8_WOL: u16 = 1u16 << 8;

    /// Build the register view from a raw 16-bit value; total, and the
    /// raw value is kept as it is.
    pub fn new(bits: u16) -> (r: Self)
        ensures
            r@ == bits,
    {
        InterruptReg { bits }
    }

    /// The raw register value.
    pub fn bits(&self) -> (r: u16)
        ensures
            r == self@,
    {
        self.bits
    }
}

/// The chip's Special Status Register.
#[derive(Clone, Copy, Debug, PartialEq, Eq, Structural)]
pub struct Ssr {
    bits: u16,
}

impl View for Ssr {
    type V = u16;

    closed spec fn view(&self) -> u16 {
        self.bits
    }
}

impl Ssr {
    /// The address of the Special Status Register.
    pub const ADDRESS: u8 = 31;

    /// Autonegotiation is done.
    pub const AUTONEG_DONE: u16 = 1u16 << 12;

    /// The link operates at full duplex.
    pub const FULL_DUPLEX: u16 = 1u16 << 4;

    /// The link operates at 100 Mb/s.
    pub const MBIT100: u16 = 1u16 << 3;

    /// The link operates at 10 Mb/s.
    pub const MBIT10: u16 = 1u16 << 2;

    /// Build the register view from a raw 16-bit value; total, and the
    /// raw value is kept as it is.
    pub fn new(bits: u16) -> (r: Self)
        ensures
            r@ == bits,
    {
        Ssr { bits }
    }

    /// The raw register value.
    pub fn bits(&self) -> (r: u16)
        ensures
            r == self@,
    {
        self.bits
    }
}

/// The best advertisement a LAN87xxA can send out: every basic
/// technology ability except 100BASE-T4, which the chip does not
/// support.
pub open spec fn spec_lan87xxa_best_ad() -> AutoNegotiationAdvertisement {
    AutoNegotiationAdvertisement {
        selector_field: SelectorField::Std802_3,
        hd_10base_t: true,
        fd_10base_t: true,
        hd_100base_tx: true,
        fd_100base_tx: true,
        base100_t4: false,
        pause: Pause::NoPause,
    }
}

/// The capabilities this chip family has, as its datasheet states them.
pub open spec fn spec_lan87xxa_status() -> PhyStatus {
    PhyStatus {
        base100_t4: false,
        fd_100base_x: true,
        hd_100base_x: true,
        fd_10mbps: true,
        hd_10mbps: true,
        extended_status: false,
        unidirectional: false,
        preamble_suppression: false,
        autonegotiation: true,
        extended_caps: true,
    }
}

/// Whether a Base Status Register value and a Special Status Register
/// value together report the link as established: the link is up,
/// autonegotiation is complete, and the Special Status Register
/// confirms autonegotiation as done.
pub open spec fn spec_lan87xxa_link_established(bsr: u16, ssr: u16) -> bool {
    flag_set(bsr, Bsr::LINK_STATUS) && flag_set(bsr, Bsr::AUTONEG_COMPLETE) && (ssr
        & Ssr::AUTONEG_DONE != 0)
}

/// An SMSC LAN87xxA Ethernet PHY.
///
/// `HAS_MMD` records whether the chip has the extended (MMD) register
/// set whose wakeup control register is cleared at initialization.
///
/// This type should not be used directly. Use [`LAN8720A`] or
/// [`LAN8742A`] instead.
pub struct LAN87xxA<M: Miim, const HAS_MMD: bool> {
    phy_addr: u8,
    miim: M,
}

impl<M: Miim, const HAS_MMD: bool> LAN87xxA<M, HAS_MMD> {
    /// The MMD device address of the wakeup register block.
    pub const WUCSR_DEVICE: u8 = 3;

    /// The extended register address of the Wakeup Control and Status
    /// Register.
    pub const PHY_REG_WUCSR: u16 = 0x8010;

    /// Create a new LAN87xxA based PHY.
    pub fn new(miim: M, phy_addr: u8) -> (r: Self)
        ensures
            r.addr() == phy_addr,
            r.bus() == miim.log(),
            r.best_ad() == spec_lan87xxa_best_ad(),
    {
        LAN87xxA { miim, phy_addr }
    }

    /// Initialize the PHY: clear the wakeup control register where the
    /// chip has one, write the best supported advertisement, and enable
    /// and restart autonegotiation.
    pub fn phy_init(&mut self)
        ensures
            final(self).addr() == old(self).addr(),
            ({
                let a = old(self).addr();
                let base = if HAS_MMD {
                    old(self).bus().push(
                        BusOp::Write(
                            a,
                            MmdAddress::CONTROL_ADDRESS,
                            spec_mmd_address_word(Self::WUCSR_DEVICE),
                        ),
                    ).push(
                        BusOp::Write(a, MmdAddress::DATA_ADDRESS, Self::PHY_REG_WUCSR),
                    ).push(
                        BusOp::Write(
                            a,
                            MmdAddress::CONTROL_ADDRESS,
                            spec_mmd_data_word(Self::WUCSR_DEVICE),
                        ),
                    ).push(BusOp::Write(a, MmdAddress::DATA_ADDRESS, 0u16))
                } else {
                    old(self).bus()
                };
                let v0 = op_data(final(self).bus()[base.len() as int]);
                let st = spec_status_from_bsr(v0);
                let mid = if st.extended_caps {
                    base.push(BusOp::Read(a, Bsr::ADDRESS, v0)).push(
                        BusOp::Write(
                            a,
                            AutoNegCap::LOCAL_CAP_ADDRESS,
                            spec_ad_word(spec_lan87xxa_best_ad(), st),
                        ),
                    )
                } else {
                    base.push(BusOp::Read(a, Bsr::ADDRESS, v0))
                };
                let v1 = op_data(final(self).bus()[mid.len() as int]);
                final(self).bus() == mid.push(BusOp::Read(a, Bcr::ADDRESS, v1)).push(
                    BusOp::Write(
                        a,
                        Bcr::ADDRESS,
                        with_flag(
                            with_flag(v1, Bcr::AUTONEG_ENABLE, true),
                            Bcr::RESTART_AUTONEG,
                            true,
                        ),
                    ),
                )
            }),
    {
        if HAS_MMD {
            // Clear WU CSR
            self.mmd_write(Self::WUCSR_DEVICE, Self::PHY_REG_WUCSR, 0);
        }
        let ad = self.best_supported_advertisement();
        self.set_autonegotiation_advertisement(ad);
        let mut bcr = self.bcr();
        bcr.set_autonegotiation(true);
        bcr.restart_autonegotiation();
        let bits = bcr.bits();
        self.write(Bcr::ADDRESS, bits);
    }

    /// Get the link speed from the Special Status Register's 3-bit
    /// speed field.
    ///
    /// If this returns `None`, some sort of corruption occurred, or the
    /// PHY is in an illegal state.
    pub fn link_speed(&mut self) -> (r: Option<LinkSpeed>)
        ensures
            final(self).addr() == old(self).addr(),
            final(self).bus() == old(self).bus().push(
                BusOp::Read(old(self).addr(), Ssr::ADDRESS, op_data(final(self).bus().last())),
            ),
            r == spec_link_speed_from_u8(
                ((op_data(final(self).bus().last()) >> 2u16) & 0b111u16) as u8,
            ),
    {
        let link_data = self.read(Ssr::ADDRESS);
        proof {
            assert(final(self).bus().last() == BusOp::Read(
                old(self).addr(),
                Ssr::ADDRESS,
                link_data,
            ));
        }
        let field = ((link_data >> 2u16) & 0b111u16) as u8;
        LinkSpeed::from_u8(field)
    }

    /// Check if the link is up: established only if the status register
    /// reports it up with autonegotiation complete, and the Special
    /// Status Register confirms autonegotiation as done.
    pub fn link_established(&mut self) -> (r: bool)
        ensures
            final(self).addr() == old(self).addr(),
            ({
                let pre = old(self).bus();
                let post = final(self).bus();
                let a = old(self).addr();
                let v = op_data(appended(pre, post, 0));
                let w = op_data(appended(pre, post, 1));
                &&& post == pre.push(BusOp::Read(a, Bsr::ADDRESS, v)).push(
                    BusOp::Read(a, Ssr::ADDRESS, w),
                )
                &&& r == spec_lan87xxa_link_established(v, w)
            }),
    {
        let bsr = self.bsr();
        let ssr = self.read(Ssr::ADDRESS);
        bsr.phy_link_up() && bsr.autoneg_completed() && ssr & Ssr::AUTONEG_DONE != 0
    }

    /// Poll [`Self::link_established`] until a link is established,
    /// giving up after `max_polls` polls.
    ///
    /// When a link comes up is entirely up to the far end of the cable,
    /// so the bound is the caller's policy. Returns whether a poll
    /// observed the link established.
    pub fn block_until_link(&mut self, max_polls: u64) -> (established: bool)
        ensures
            final(self).addr() == old(self).addr(),
            ({
                let pre = old(self).bus();
                let post = final(self).bus();
                let a = old(self).addr();
                let polls = post.skip(pre.len() as int);
                &&& post.take(pre.len() as int) == pre
                &&& polls.len() % 2 == 0
                &&& polls.len() <= 2 * max_polls
                &&& forall|i: int|
                    0 <= i < polls.len() ==> (#[trigger] polls[i]) == BusOp::Read(
                        a,
                        if i % 2 == 0 {
                            Bsr::ADDRESS
                        } else {
                            Ssr::ADDRESS
                        },
                        op_data(polls[i]),
                    )
                &&& (established <==> polls.len() > 0 && spec_lan87xxa_link_established(
                    op_data(polls[polls.len() - 2]),
                    op_data(polls[polls.len() - 1]),
                ))
                &&& (!established ==> polls.len() == 2 * max_polls)
            }),
    {
        let ghost pre = self.bus();
        let mut polls_done: u64 = 0;
        let mut established = false;
        #[verifier::loop_isolation(false)]
        while !established && polls_done < max_polls
            invariant
                self.addr() == old(self).addr(),
                self.bus().len() == pre.len() + 2 * polls_done,
                self.bus().take(pre.len() as int) == pre,
                polls_done <= max_polls,
                forall|i: int|
                    pre.len() <= i < self.bus().len() ==> (#[trigger] self.bus()[i])
                        == BusOp::Read(
                        old(self).addr(),
                        if (i - pre.len()) % 2 == 0 {
                            Bsr::ADDRESS
                        } else {
                            Ssr::ADDRESS
                        },
                        op_data(self.bus()[i]),
                    ),
                established ==> polls_done > 0 && spec_lan87xxa_link_established(
                    op_data(self.bus()[self.bus().len() - 2]),
                    op_data(self.bus()[self.bus().len() - 1]),
                ),
                !established && polls_done > 0 ==> !spec_lan87xxa_link_established(
                    op_data(self.bus()[self.bus().len() - 2]),
                    op_data(self.bus()[self.bus().len() - 1]),
                ),
            decreases max_polls - polls_done,
        {
            established = self.link_established();
            polls_done = polls_done + 1;
            proof {
                assert(self.bus().take(pre.len() as int) =~= pre);
            }
        }
        proof {
            let post = self.bus();
            let polls = post.skip(pre.len() as int);
            assert forall|i: int| 0 <= i < polls.len() implies (#[trigger] polls[i]) == BusOp::Read(
                old(self).addr(),
                if i % 2 == 0 {
                    Bsr::ADDRESS
                } else {
                    Ssr::ADDRESS
                },
                op_data(polls[i]),
            ) by {
                assert(polls[i] == post[pre.len() + i]);
            }
            if polls.len() > 0 {
                assert(polls[polls.len() - 2] == post[post.len() - 2]);
                assert(polls[polls.len() - 1] == post[post.len() - 1]);
            }
        }
        established
    }

    /// Enable an interrupt: read the interrupt mask register, set the
    /// interrupt's bit, and write the mask back.
    pub fn enable_interrupt(&mut self, interrupt: Interrupt)
        ensures
            final(self).addr() == old(self).addr(),
            ({
                let pre = old(self).bus();
                let post = final(self).bus();
                let a = old(self).addr();
                let v = op_data(appended(pre, post, 0));
                post == pre.push(BusOp::Read(a, InterruptReg::MASK_ADDR, v)).push(
                    BusOp::Write(a, InterruptReg::MASK_ADDR, v | spec_interrupt_mask(interrupt)),
                )
            }),
    {
        let v = self.read(InterruptReg::MASK_ADDR);
        let mask = interrupt.mask();
        self.write(InterruptReg::MASK_ADDR, v | mask);
    }

    /// Read and clear all pending interrupts: reading the source
    /// register clears them in the chip, and the active ones are stored
    /// in order at the front of `interrupt_storage`; entries beyond the
    /// active count keep what the caller put there.
    #[verifier::rlimit(40)]
    #[verifier::spinoff_prover]
    pub fn read_and_clear_active_interrupts(
        &mut self,
        interrupt_storage: &mut [Option<Interrupt>; 8],
    )
        ensures
            final(self).addr() == old(self).addr(),
            final(self).bus() == old(self).bus().push(
                BusOp::Read(
                    old(self).addr(),
                    InterruptReg::SOURCE_ADDR,
                    op_data(final(self).bus().last()),
                ),
            ),
            ({
                let ints = spec_active_interrupts(op_data(final(self).bus().last()));
                final(interrupt_storage)@ == ints.map_values(|x: Interrupt| Some(x)) + old(
                    interrupt_storage,
                )@.skip(ints.len() as int)
            }),
    {
        let reg_val = self.read(InterruptReg::SOURCE_ADDR);
        proof {
            assert(final(self).bus().last() == BusOp::Read(
                old(self).addr(),
                InterruptReg::SOURCE_ADDR,
                reg_val,
            ));
        }
        let mut int_idx: usize = 0;
        if reg_val & InterruptReg::INT1_AUTO_NEG_PAGE_RECVD == InterruptReg::INT1_AUTO_NEG_PAGE_RECVD {
            interrupt_storage[int_idx] = Some(Interrupt::AutoNegotiationPageRecvd);
            int_idx = int_idx + 1;
        }
        proof {
            let done = spec_active_prefix1(reg_val);
            assert(int_idx == done.len());
            assert forall|j: int| 0 <= j < 8 implies interrupt_storage@[j] == (if j < done.len() {
                Some(done[j])
            } else {
                old(interrupt_storage)@[j]
            }) by {
            }
        }
        if reg_val & InterruptReg::INT2_PARALLEL_DETECTION_FAULT == InterruptReg::INT2_PARALLEL_DETECTION_FAULT {
            interrupt_storage[int_idx] = Some(Interrupt::ParallelDetectionFault);
            int_idx = int_idx + 1;
        }
        proof {
            let done = spec_active_prefix2(reg_val);
            assert(int_idx == done.len());
            assert forall|j: int| 0 <= j < 8 implies interrupt_storage@[j] == (if j < done.len() {
                Some(done[j])
            } else {
                old(interrupt_storage)@[j]
            }) by {
            }
        }
        if reg_val & InterruptReg::INT3_AUTO_NEG_LP_ACK == InterruptReg::INT3_AUTO_NEG_LP_ACK {
            interrupt_storage[int_idx] = Some(Interrupt::AutoNegotiationLpAck);
            int_idx = int_idx + 1;
        }
        proof {
            let done = spec_active_prefix3(reg_val);
            assert(int_idx == done.len());
            assert forall|j: int| 0 <= j < 8 implies interrupt_storage@[j] == (if j < done.len() {
                Some(done[j])
            } else {
                old(interrupt_storage)@[j]
            }) by {
            }
        }
        if reg_val & InterruptReg::INT4_LINK_DOWN == InterruptReg::INT4_LINK_DOWN {
            interrupt_storage[int_idx] = Some(Interrupt::LinkDown);
            int_idx = int_idx + 1;
        }
        proof {
            let done = spec_active_prefix4(reg_val);
            assert(int_idx == done.len());
            assert forall|j: int| 0 <= j < 8 implies interrupt_storage@[j] == (if j < done.len() {
                Some(done[j])
            } else {
                old(interrupt_storage)@[j]
            }) by {
            }
        }
        if reg_val & InterruptReg::INT5_REMOTE_FAULT == InterruptReg::INT5_REMOTE_FAULT {
            interrupt_storage[int_idx] = Some(Interrupt::RemoteFault);
            int_idx = int_idx + 1;
        }
        proof {
            let done = spec_active_prefix5(reg_val);
            assert(int_idx == done.len());
            assert forall|j: int| 0 <= j < 8 implies interrupt_storage@[j] == (if j < done.len() {
                Some(done[j])
            } else {
                old(interrupt_storage)@[j]
            }) by {
            }
        }
        if reg_val & InterruptReg::INT6_AUTO_NEG_COMPLETE == InterruptReg::INT6_AUTO_NEG_COMPLETE {
            interrupt_storage[int_idx] = Some(Interrupt::AutoNegotiationComplete);
            int_idx = int_idx + 1;
        }
        proof {
            let done = spec_active_prefix6(reg_val);
            assert(int_idx == done.len());
            assert forall|j: int| 0 <= j < 8 implies interrupt_storage@[j] == (if j < done.len() {
                Some(done[j])
            } else {
                old(interrupt_storage)@[j]
            }) by {
            }
        }
        if reg_val & InterruptReg::INT7_ENERGYON == InterruptReg::INT7_ENERGYON {
            interrupt_storage[int_idx] = Some(Interrupt::EnergyOn);
            int_idx = int_idx + 1;
        }
        proof {
            let done = spec_active_prefix7(reg_val);
            assert(int_idx == done.len());
            assert forall|j: int| 0 <= j < 8 implies interrupt_storage@[j] == (if j < done.len() {
                Some(done[j])
            } else {
                old(interrupt_storage)@[j]
            }) by {
            }
        }
        if reg_val & InterruptReg::INT8_WOL == InterruptReg::INT8_WOL {
            interrupt_storage[int_idx] = Some(Interrupt::WoL);
            int_idx = int_idx + 1;
        }
        proof {
            let done = spec_active_interrupts(reg_val);
            assert(int_idx == done.len());
            assert forall|j: int| 0 <= j < 8 implies interrupt_storage@[j] == (if j < done.len() {
                Some(done[j])
            } else {
                old(interrupt_storage)@[j]
            }) by {
            }
        }
        proof {
            let done = spec_active_interrupts(reg_val);
            assert(interrupt_storage@ =~= done.map_values(|x: Interrupt| Some(x)) + old(
                interrupt_storage,
            )@.skip(done.len() as int));
        }
    }

    /// Release the underlying [`Miim`].
    pub fn release(self) -> (miim: M)
        ensures
            miim.log() == self.bus(),
    {
        self.miim
    }

    /// The capabilities of this chip family, as its datasheet states
    /// them; no register is touched.
    pub fn status(&self) -> (status: PhyStatus)
        ensures
            status == spec_lan87xxa_status(),
    {
        PhyStatus {
            base100_t4: false,
            fd_100base_x: true,
            hd_100base_x: true,
            fd_10mbps: true,
            hd_10mbps: true,
            extended_status: false,
            unidirectional: false,
            preamble_suppression: false,
            autonegotiation: true,
            extended_caps: true,
        }
    }

    /// The ESR of this chip: it has none, so no register is touched.
    pub fn esr(&self) -> (r: Option<Esr>)
        ensures
            r is None,
    {
        None
    }

    /// The extended status of this chip: it has none, so no register is
    /// touched.
    pub fn extended_status(&self) -> (r: Option<ExtendedPhyStatus>)
        ensures
            r is None,
    {
        None
    }

    /// Identify the chip behind a bare PHY and take it over as a
    /// LAN87xxA, when its PHY identifier matches this chip.
    ///
    /// On failure the bare PHY is handed back with the error, so the
    /// caller can keep using the bus.
    pub fn try_from_bare(bare: BarePhy<M>) -> (r: Result<Self, (IdentPhyError, BarePhy<M>)>)
        ensures
            ({
                let pre = bare.bus();
                let a = bare.addr();
                match r {
                    Ok(c) => {
                        let v = op_data(appended(pre, c.bus(), 0));
                        let msb = op_data(appended(pre, c.bus(), 1));
                        let lsb = op_data(appended(pre, c.bus(), 2));
                        &&& c.addr() == a
                        &&& c.bus() == pre.push(BusOp::Read(a, Bsr::ADDRESS, v)).push(
                            BusOp::Read(a, 2u8, msb),
                        ).push(BusOp::Read(a, 3u8, lsb))
                        &&& spec_status_from_bsr(v).extended_caps
                        &&& (((msb as u32) << 16u32) | (lsb as u32)) & 0xFFFFFFF0u32
                            == Self::spec_phy_ident()
                    },
                    Err((e, b)) => {
                        let v = op_data(appended(pre, b.bus(), 0));
                        let msb = op_data(appended(pre, b.bus(), 1));
                        let lsb = op_data(appended(pre, b.bus(), 2));
                        &&& b.addr() == a
                        &&& b.best_ad() == bare.best_ad()
                        &&& if spec_status_from_bsr(v).extended_caps {
                            &&& e == IdentPhyError::IncorrectPhyIdent
                            &&& b.bus() == pre.push(BusOp::Read(a, Bsr::ADDRESS, v)).push(
                                BusOp::Read(a, 2u8, msb),
                            ).push(BusOp::Read(a, 3u8, lsb))
                            &&& (((msb as u32) << 16u32) | (lsb as u32)) & 0xFFFFFFF0u32
                                != Self::spec_phy_ident()
                        } else {
                            &&& e == IdentPhyError::PhyIdentUnavailable
                            &&& b.bus() == pre.push(BusOp::Read(a, Bsr::ADDRESS, v))
                        }
                    },
                }
            }),
    {
        let mut bare = bare;
        let ident = bare.phy_ident();
        match ident {
            None => Err((IdentPhyError::PhyIdentUnavailable, bare)),
            Some(id) => {
                let expected: u32 = if HAS_MMD {
                    0x0007C130
                } else {
                    0x0007C0F0
                };
                if id & 0xFFFFFFF0u32 == expected {
                    let addr = bare.get_phy_addr();
                    Ok(Self::new(bare.release(), addr))
                } else {
                    Err((IdentPhyError::IncorrectPhyIdent, bare))
                }
            },
        }
    }
}

impl<M: Miim, const HAS_MMD: bool> LAN87xxA<M, HAS_MMD> {
    /// The PHY identifier of this chip, ignoring the revision digit:
    /// the LAN8742A and the LAN8720A identify themselves differently.
    pub open spec fn spec_phy_ident() -> u32 {
        if HAS_MMD {
            0x0007C130u32
        } else {
            0x0007C0F0u32
        }
    }
}

/// The active interrupts the first source bit contributes.
pub open spec fn spec_active_prefix1(v: u16) -> Seq<Interrupt> {
    if flag_set(v, InterruptReg::INT1_AUTO_NEG_PAGE_RECVD) {
        Seq::<Interrupt>::empty().push(Interrupt::AutoNegotiationPageRecvd)
    } else {
        Seq::<Interrupt>::empty()
    }
}

/// The active interrupts the first two source bits contribute.
pub open spec fn spec_active_prefix2(v: u16) -> Seq<Interrupt> {
    if flag_set(v, InterruptReg::INT2_PARALLEL_DETECTION_FAULT) {
        spec_active_prefix1(v).push(Interrupt::ParallelDetectionFault)
    } else {
        spec_active_prefix1(v)
    }
}

/// The active interrupts the first three source bits contribute.
pub open spec fn spec_active_prefix3(v: u16) -> Seq<Interrupt> {
    if flag_set(v, InterruptReg::INT3_AUTO_NEG_LP_ACK) {
        spec_active_prefix2(v).push(Interrupt::AutoNegotiationLpAck)
    } else {
        spec_active_prefix2(v)
    }
}

/// The active interrupts the first four source bits contribute.
pub open spec fn spec_active_prefix4(v: u16) -> Seq<Interrupt> {
    if flag_set(v, InterruptReg::INT4_LINK_DOWN) {
        spec_active_prefix3(v).push(Interrupt::LinkDown)
    } else {
        spec_active_prefix3(v)
    }
}

/// The active interrupts the first five source bits contribute.
pub open spec fn spec_active_prefix5(v: u16) -> Seq<Interrupt> {
    if flag_set(v, InterruptReg::INT5_REMOTE_FAULT) {
        spec_active_prefix4(v).push(Interrupt::RemoteFault)
    } else {
        spec_active_prefix4(v)
    }
}

/// The active interrupts the first six source bits contribute.
pub open spec fn spec_active_prefix6(v: u16) -> Seq<Interrupt> {
    if flag_set(v, InterruptReg::INT6_AUTO_NEG_COMPLETE) {
        spec_active_prefix5(v).push(Interrupt::AutoNegotiationComplete)
    } else {
        spec_active_prefix5(v)
    }
}

/// The active interrupts the first seven source bits contribute.
pub open spec fn spec_active_prefix7(v: u16) -> Seq<Interrupt> {
    if flag_set(v, InterruptReg::INT7_ENERGYON) {
        spec_active_prefix6(v).push(Interrupt::EnergyOn)
    } else {
        spec_active_prefix6(v)
    }
}

/// The interrupt sources an interrupt source register value reports as
/// active, in the fixed order the driver stores them in.
pub open spec fn spec_active_interrupts(v: u16) -> Seq<Interrupt> {
    if flag_set(v, InterruptReg::INT8_WOL) {
        spec_active_prefix7(v).push(Interrupt::WoL)
    } else {
        spec_active_prefix7(v)
    }
}

impl<M: Miim, const HAS_MMD: bool> Phy<M> for LAN87xxA<M, HAS_MMD> {
    closed spec fn bus(&self) -> Seq<BusOp> {
        self.miim.log()
    }

    closed spec fn addr(&self) -> u8 {
        self.phy_addr
    }

    closed spec fn best_ad(&self) -> AutoNegotiationAdvertisement {
        spec_lan87xxa_best_ad()
    }

    fn best_supported_advertisement(&self) -> (ad: AutoNegotiationAdvertisement) {
        AutoNegotiationAdvertisement {
            selector_field: SelectorField::Std802_3,
            hd_10base_t: true,
            fd_10base_t: true,
            hd_100base_tx: true,
            fd_100base_tx: true,
            base100_t4: false,
            pause: Pause::NoPause,
        }
    }

    fn get_miim(&self) -> (miim: &M) {
        &self.miim
    }

    fn get_phy_addr(&self) -> (addr: u8) {
        self.phy_addr
    }

    fn read(&mut self, address: u8) -> (data: u16) {
        let phy = self.phy_addr;
        self.miim.read(phy, address)
    }

    fn write(&mut self, address: u8, value: u16) {
        let phy = self.phy_addr;
        self.miim.write(phy, address, value)
    }
}

impl<M: Miim, const HAS_MMD: bool> PhyWithSpeed<M> for LAN87xxA<M, HAS_MMD> {
    fn get_link_speed(&mut self) -> Option<AdvancedPhySpeed> {
        let speed = self.link_speed();
        match speed {
            Some(s) => Some(AdvancedPhySpeed::from_basic(s.as_basic())),
            None => None,
        }
    }
}

} // verus!
