//! Access to the MIIM management interface described by IEEE standard
//! 802.3: typed views over the well-known PHY registers, the indirect
//! (MMD) register access protocol, the translation between structured
//! autonegotiation advertisements and their wire encoding, and a
//! generic PHY contract that concrete chip drivers build on.

mod mii;

pub use mii::Mii;

mod miim;

pub use miim::{BusOp, Miim, ScriptedMiim};

mod mmd;

pub use mmd::{Mmd, MmdAddress};

pub mod registers;

pub mod phy;

use vstd::prelude::*;

use crate::miim::op_data;
use crate::registers::{flag_set, with_flag, AutoNegCap, Bcr, Bsr, Esr};

verus! {

/// All basic link speeds possibly supported by the PHY.
#[derive(Clone, Copy, Debug, PartialEq, Eq, Structural)]
pub enum LinkSpeed {
    /// 1000 Mbps
    Mpbs1000,
    /// 100 Mbps
    Mbps100,
    /// 10 Mbps
    Mpbs10,
    /// An illegal link speed is configured
    Illegal,
}

/// The speed the two speed-selector bits of the Base Control Register
/// encode. The combination with both bits set is reserved and decodes
/// to [`LinkSpeed::Illegal`]; it is reported, never coerced to a legal
/// speed.
pub open spec fn spec_link_speed(msb: bool, lsb: bool) -> LinkSpeed {
    if msb && lsb {
        LinkSpeed::Illegal
    } else if msb {
        LinkSpeed::Mpbs1000
    } else if lsb {
        LinkSpeed::Mbps100
    } else {
        LinkSpeed::Mpbs10
    }
}

/// The Base Control Register bits encoding a legal link speed; zero for
/// [`LinkSpeed::Illegal`], which has no encoding.
pub open spec fn spec_speed_bits(speed: LinkSpeed) -> u16 {
    match speed {
        LinkSpeed::Mpbs1000 => Bcr::SPEED_SEL_MSB,
        LinkSpeed::Mbps100 => Bcr::SPEED_SEL_LSB,
        LinkSpeed::Mpbs10 => 0u16,
        LinkSpeed::Illegal => 0u16,
    }
}

/// The failures of translating register contents from or to their
/// semantic form.
#[derive(Clone, Copy, Debug, PartialEq, Eq, Structural)]
pub enum PhyError {
    /// A capability register holds no recognized selector field
    /// pattern; the register contents are malformed.
    UnknownSelectorField,
    /// The reserved speed-selector combination cannot be encoded back
    /// into the Base Control Register.
    IllegalLinkSpeed,
}

impl LinkSpeed {
    /// Decode the speed selector of a Base Control Register value.
    /// Total: the reserved combination decodes to [`LinkSpeed::Illegal`].
    pub fn from_bcr(bcr: &Bcr) -> (speed: LinkSpeed)
        ensures
            speed == spec_link_speed(
                flag_set(bcr@, Bcr::SPEED_SEL_MSB),
                flag_set(bcr@, Bcr::SPEED_SEL_LSB),
            ),
    {
        let msb = bcr.bits() & Bcr::SPEED_SEL_MSB == Bcr::SPEED_SEL_MSB;
        let lsb = bcr.bits() & Bcr::SPEED_SEL_LSB == Bcr::SPEED_SEL_LSB;
        if msb && lsb {
            LinkSpeed::Illegal
        } else if msb {
            LinkSpeed::Mpbs1000
        } else if lsb {
            LinkSpeed::Mbps100
        } else {
            LinkSpeed::Mpbs10
        }
    }

    /// Encode this link speed as Base Control Register bits.
    ///
    /// Total over the three legal speeds; the illegal speed has no
    /// representation and is rejected.
    pub fn to_bcr(self) -> (r: Result<Bcr, PhyError>)
        ensures
            r is Err <==> self == LinkSpeed::Illegal,
            r matches Ok(bcr) ==> bcr@ == spec_speed_bits(self),
    {
        match self {
            LinkSpeed::Mpbs1000 => Ok(Bcr::new(Bcr::SPEED_SEL_MSB)),
            LinkSpeed::Mbps100 => Ok(Bcr::new(Bcr::SPEED_SEL_LSB)),
            LinkSpeed::Mpbs10 => Ok(Bcr::new(0)),
            LinkSpeed::Illegal => Err(PhyError::IllegalLinkSpeed),
        }
    }
}

/// Decoding the encoded bits of a legal link speed gives that speed
/// back: the speed-selector encode/decode pair round-trips over
/// every speed that has an encoding.
pub proof fn lemma_link_speed_round_trip(speed: LinkSpeed)
    requires
        speed != LinkSpeed::Illegal,
    ensures
        spec_link_speed(
            flag_set(spec_speed_bits(speed), Bcr::SPEED_SEL_MSB),
            flag_set(spec_speed_bits(speed), Bcr::SPEED_SEL_LSB),
        ) == speed,
{
    assert((1u16 << 6) & (1u16 << 6) == (1u16 << 6) && (1u16 << 6) & (1u16 << 13) != (1u16 << 13)
        && (1u16 << 13) & (1u16 << 13) == (1u16 << 13) && (1u16 << 13) & (1u16 << 6) != (1u16 << 6)
        && 0u16 & (1u16 << 6) != (1u16 << 6) && 0u16 & (1u16 << 13) != (1u16 << 13))
        by (bit_vector);
}

/// The status register of a PHY.
///
/// This struct describes what functions the PHY is capable of.
#[derive(Clone, Copy, Debug, PartialEq, Eq, Structural)]
pub struct PhyStatus {
    /// The PHY supports 100BASE-T4
    pub base100_t4: bool,
    /// The PHY supports 100BASE-X Full Duplex
    pub fd_100base_x: bool,
    /// The PHY supports 100BASE-X Half Duplex
    pub hd_100base_x: bool,
    /// The PHY supports 10 Mb/s full duplex
    pub fd_10mbps: bool,
    /// The PHY supports 10 Mb/s half duplex
    pub hd_10mbps: bool,
    /// The PHY has extended status data in register 15
    pub extended_status: bool,
    /// The PHY supports unidirectional communication
    pub unidirectional: bool,
    /// The PHY is capable of accepting management frames
    /// that are not preceded by the preamble
    pub preamble_suppression: bool,
    /// The PHY can perform autonegotiation
    pub autonegotiation: bool,
    /// The PHY supports extended capabilities, accessible
    /// through the extended register set
    pub extended_caps: bool,
}

/// The capability bits a Base Status Register value reports, as named
/// fields.
pub open spec fn spec_status_from_bsr(v: u16) -> PhyStatus {
    PhyStatus {
        base100_t4: flag_set(v, Bsr::BASE100_T4),
        fd_100base_x: flag_set(v, Bsr::BASE100_X_FD),
        hd_100base_x: flag_set(v, Bsr::BASE100_X_HD),
        fd_10mbps: flag_set(v, Bsr::MBPS10_FD),
        hd_10mbps: flag_set(v, Bsr::MBPS10_HD),
        extended_status: flag_set(v, Bsr::EXTENDED_STATUS),
        unidirectional: flag_set(v, Bsr::UNIDIRECTIONAL),
        preamble_suppression: flag_set(v, Bsr::MF_PREAMBLE_SUPPRESSION),
        autonegotiation: flag_set(v, Bsr::AUTONEG_ABLE),
        extended_caps: flag_set(v, Bsr::EXTENDED_CAPABILITIES),
    }
}

/// The advertisement that requests exactly the capabilities `status`
/// reports as present, with the selector field and pause mode at their
/// defaults.
pub open spec fn spec_best_autoneg_ad(status: PhyStatus) -> AutoNegotiationAdvertisement {
    AutoNegotiationAdvertisement {
        selector_field: SelectorField::Std802_3,
        hd_10base_t: status.hd_10mbps,
        fd_10base_t: status.fd_10mbps,
        hd_100base_tx: status.hd_100base_x,
        fd_100base_tx: status.fd_100base_x,
        base100_t4: status.base100_t4,
        pause: Pause::NoPause,
    }
}

impl PhyStatus {
    /// Read the named capability fields out of a Base Status Register.
    pub fn from_bsr(bsr: &Bsr) -> (status: PhyStatus)
        ensures
            status == spec_status_from_bsr(bsr@),
    {
        let v = bsr.bits();
        PhyStatus {
            base100_t4: v & Bsr::BASE100_T4 == Bsr::BASE100_T4,
            fd_100base_x: v & Bsr::BASE100_X_FD == Bsr::BASE100_X_FD,
            hd_100base_x: v & Bsr::BASE100_X_HD == Bsr::BASE100_X_HD,
            fd_10mbps: v & Bsr::MBPS10_FD == Bsr::MBPS10_FD,
            hd_10mbps: v & Bsr::MBPS10_HD == Bsr::MBPS10_HD,
            extended_status: v & Bsr::EXTENDED_STATUS == Bsr::EXTENDED_STATUS,
            unidirectional: v & Bsr::UNIDIRECTIONAL == Bsr::UNIDIRECTIONAL,
            preamble_suppression: v & Bsr::MF_PREAMBLE_SUPPRESSION == Bsr::MF_PREAMBLE_SUPPRESSION,
            autonegotiation: v & Bsr::AUTONEG_ABLE == Bsr::AUTONEG_ABLE,
            extended_caps: v & Bsr::EXTENDED_CAPABILITIES == Bsr::EXTENDED_CAPABILITIES,
        }
    }

    /// Create the best autonegotiation advertisement that we can: every
    /// technology ability this status reports as present is requested.
    ///
    /// The returned advertisement has default values for
    /// `selector_field` and `pause`. Those fields must be configured
    /// manually, or left to their defaults.
    pub fn best_autoneg_ad(&self) -> (ad: AutoNegotiationAdvertisement)
        ensures
            ad == spec_best_autoneg_ad(*self),
    {
        let mut ad = AutoNegotiationAdvertisement::default();
        if self.base100_t4 {
            ad.base100_t4 = true;
        }
        if self.fd_100base_x {
            ad.fd_100base_tx = true;
        }
        if self.hd_100base_x {
            ad.hd_100base_tx = true;
        }
        if self.fd_10mbps {
            ad.fd_10base_t = true;
        }
        if self.hd_10mbps {
            ad.hd_10base_t = true;
        }
        ad
    }
}

/// The extended status register of a PHY.
///
/// This struct describes what extended functions the PHY is capable of.
///
/// This register is only valid if the field `extended_status` in the
/// [`PhyStatus`] describing this PHY is `true`.
#[derive(Clone, Copy, Debug, PartialEq, Eq, Structural)]
pub struct ExtendedPhyStatus {
    /// The PHY supports 1000BASE-X Full Duplex
    pub fd_1000base_x: bool,
    /// The PHY supports 1000BASE-X Half Duplex
    pub hd_1000base_x: bool,
    /// The PHY supports 1000BASE-T Full Duplex
    pub fd_1000base_t: bool,
    /// The PHY supports 1000BASE-T Half Duplex
    pub hd_1000base_t: bool,
}

/// The capability bits an Extended Status Register value reports, as
/// named fields.
pub open spec fn spec_extended_status_from_esr(v: u16) -> ExtendedPhyStatus {
    ExtendedPhyStatus {
        fd_1000base_x: flag_set(v, Esr::BASE1000_X_FD),
        hd_1000base_x: flag_set(v, Esr::BASE1000_X_HD),
        fd_1000base_t: flag_set(v, Esr::BASE1000_T_FD),
        hd_1000base_t: flag_set(v, Esr::BASE1000_T_HD),
    }
}

impl ExtendedPhyStatus {
    /// Read the named capability fields out of an Extended Status
    /// Register.
    pub fn from_esr(esr: &Esr) -> (status: ExtendedPhyStatus)
        ensures
            status == spec_extended_status_from_esr(esr@),
    {
        let v = esr.bits();
        ExtendedPhyStatus {
            fd_1000base_x: v & Esr::BASE1000_X_FD == Esr::BASE1000_X_FD,
            hd_1000base_x: v & Esr::BASE1000_X_HD == Esr::BASE1000_X_HD,
            fd_1000base_t: v & Esr::BASE1000_T_FD == Esr::BASE1000_T_FD,
            hd_1000base_t: v & Esr::BASE1000_T_HD == Esr::BASE1000_T_HD,
        }
    }
}

/// The selector field, describing the type of autonegotiation message
/// sent by a PHY.
///
/// In practice, [`SelectorField::Std802_3`] is used almost exclusively.
#[derive(Clone, Copy, Debug, PartialEq, Eq, Structural)]
pub enum SelectorField {
    /// The message is an IEEE Std 802.3 message
    Std802_3,
    /// The message is an IEEE Std 802.9 ISLAN-16T message
    Std802_9Islan16t,
    /// The message is an IEEE Std 802.5 message
    Std802_5,
    /// The message is an IEEE Std 1394 message
    Std1394,
}

impl Default for SelectorField {
    /// The default selector field is IEEE Std 802.3.
    fn default() -> (r: Self)
        ensures
            r == SelectorField::Std802_3,
    {
        SelectorField::Std802_3
    }
}

/// Decode the selector field of a capability register value by testing
/// the selector patterns in fixed precedence order: 802.3 first, then
/// 802.5, then 802.9 ISLAN-16T, then 1394; the first pattern wholly
/// contained in the value wins. A value containing none of the
/// patterns is malformed and decodes to `None`.
pub open spec fn spec_selector_decode(v: u16) -> Option<SelectorField> {
    if flag_set(v, AutoNegCap::SEL_802_3) {
        Some(SelectorField::Std802_3)
    } else if flag_set(v, AutoNegCap::SEL_802_5) {
        Some(SelectorField::Std802_5)
    } else if flag_set(v, AutoNegCap::SEL_802_9_ISLAN_16T) {
        Some(SelectorField::Std802_9Islan16t)
    } else if flag_set(v, AutoNegCap::SEL_1394) {
        Some(SelectorField::Std1394)
    } else {
        None
    }
}

/// The selector field pattern a selector value is encoded as.
pub open spec fn spec_selector_bits(sf: SelectorField) -> u16 {
    match sf {
        SelectorField::Std802_3 => AutoNegCap::SEL_802_3,
        SelectorField::Std802_9Islan16t => AutoNegCap::SEL_802_9_ISLAN_16T,
        SelectorField::Std802_5 => AutoNegCap::SEL_802_5,
        SelectorField::Std1394 => AutoNegCap::SEL_1394,
    }
}

impl SelectorField {
    /// Decode the selector field of a capability register.
    ///
    /// The patterns are tested in the fixed precedence order of
    /// [`spec_selector_decode`]; a value with no recognized selector
    /// pattern is malformed register contents and is rejected.
    pub fn from_cap(cap: &AutoNegCap) -> (r: Result<SelectorField, PhyError>)
        ensures
            match spec_selector_decode(cap@) {
                Some(sf) => r == Ok::<SelectorField, PhyError>(sf),
                None => r == Err::<SelectorField, PhyError>(PhyError::UnknownSelectorField),
            },
    {
        if cap.contains(AutoNegCap::SEL_802_3) {
            Ok(SelectorField::Std802_3)
        } else if cap.contains(AutoNegCap::SEL_802_5) {
            Ok(SelectorField::Std802_5)
        } else if cap.contains(AutoNegCap::SEL_802_9_ISLAN_16T) {
            Ok(SelectorField::Std802_9Islan16t)
        } else if cap.contains(AutoNegCap::SEL_1394) {
            Ok(SelectorField::Std1394)
        } else {
            Err(PhyError::UnknownSelectorField)
        }
    }

    /// The capability register bits this selector value is encoded as.
    pub fn cap_bits(self) -> (r: u16)
        ensures
            r == spec_selector_bits(self),
    {
        match self {
            SelectorField::Std802_3 => AutoNegCap::SEL_802_3,
            SelectorField::Std802_9Islan16t => AutoNegCap::SEL_802_9_ISLAN_16T,
            SelectorField::Std802_5 => AutoNegCap::SEL_802_5,
            SelectorField::Std1394 => AutoNegCap::SEL_1394,
        }
    }
}

/// Selector decode is first-match-wins in the fixed precedence order:
/// any value containing the 802.3 pattern decodes to 802.3, whatever
/// other selector bits are set, and a value containing no recognized
/// pattern decodes to nothing at all.
pub proof fn lemma_selector_precedence(v: u16)
    ensures
        flag_set(v, AutoNegCap::SEL_802_3) ==> spec_selector_decode(v) == Some(
            SelectorField::Std802_3,
        ),
        spec_selector_decode(v) is None <==> {
            &&& !flag_set(v, AutoNegCap::SEL_802_3)
            &&& !flag_set(v, AutoNegCap::SEL_802_5)
            &&& !flag_set(v, AutoNegCap::SEL_802_9_ISLAN_16T)
            &&& !flag_set(v, AutoNegCap::SEL_1394)
        },
{
}

/// The pause mode supported by this PHY
#[derive(Clone, Copy, Debug, PartialEq, Eq, Structural)]
pub enum Pause {
    /// The PHY supports no PAUSE modes
    NoPause,
    /// The PHY supports asymmetric PAUSE mode toward its link partner
    AsymmetricPartner,
    /// The PHY supports symmetric PAUSE mode
    Symmetric,
    /// The PHY supports both symmetric pause and asymmetric PAUSE
    /// towards the local device
    SymmetricAndAsymmetricLocal,
}

impl Default for Pause {
    /// The default pause mode advertises no pause ability.
    fn default() -> (r: Self)
        ensures
            r == Pause::NoPause,
    {
        Pause::NoPause
    }
}

/// The pause mode the two pause bits of a capability register encode:
/// the asymmetric-pause bit and the (symmetric) pause bit, in all four
/// combinations.
pub open spec fn spec_pause_decode(asym: bool, pause: bool) -> Pause {
    if asym && pause {
        Pause::SymmetricAndAsymmetricLocal
    } else if asym {
        Pause::AsymmetricPartner
    } else if pause {
        Pause::Symmetric
    } else {
        Pause::NoPause
    }
}

/// The capability register bits a pause mode is encoded as.
pub open spec fn spec_pause_bits(pause: Pause) -> u16 {
    match pause {
        Pause::NoPause => 0u16,
        Pause::AsymmetricPartner => AutoNegCap::ASYMMETRIC_PAUSE,
        Pause::Symmetric => AutoNegCap::PAUSE,
        Pause::SymmetricAndAsymmetricLocal => AutoNegCap::ASYMMETRIC_PAUSE | AutoNegCap::PAUSE,
    }
}

impl Pause {
    /// Decode the pause mode of a capability register. Total over all
    /// four combinations of the two pause bits.
    pub fn from_cap(cap: &AutoNegCap) -> (r: Pause)
        ensures
            r == spec_pause_decode(
                flag_set(cap@, AutoNegCap::ASYMMETRIC_PAUSE),
                flag_set(cap@, AutoNegCap::PAUSE),
            ),
    {
        let asym = cap.contains(AutoNegCap::ASYMMETRIC_PAUSE);
        let pause = cap.contains(AutoNegCap::PAUSE);
        if asym && pause {
            Pause::SymmetricAndAsymmetricLocal
        } else if asym {
            Pause::AsymmetricPartner
        } else if pause {
            Pause::Symmetric
        } else {
            Pause::NoPause
        }
    }

    /// The capability register bits this pause mode is encoded as.
    pub fn cap_bits(self) -> (r: u16)
        ensures
            r == spec_pause_bits(self),
    {
        match self {
            Pause::NoPause => 0u16,
            Pause::AsymmetricPartner => AutoNegCap::ASYMMETRIC_PAUSE,
            Pause::Symmetric => AutoNegCap::PAUSE,
            Pause::SymmetricAndAsymmetricLocal => AutoNegCap::ASYMMETRIC_PAUSE | AutoNegCap::PAUSE,
        }
    }
}

/// Decoding the bits a pause mode encodes to gives that mode back:
/// encode then decode is the identity on all four pause modes.
pub proof fn lemma_pause_round_trip(pause: Pause)
    ensures
        spec_pause_decode(
            flag_set(spec_pause_bits(pause), AutoNegCap::ASYMMETRIC_PAUSE),
            flag_set(spec_pause_bits(pause), AutoNegCap::PAUSE),
        ) == pause,
{
    assert(0u16 & (1u16 << 5) != (1u16 << 5) && 0u16 & (1u16 << 6) != (1u16 << 6) && (1u16 << 5) & (
    1u16 << 5) == (1u16 << 5) && (1u16 << 5) & (1u16 << 6) != (1u16 << 6) && (1u16 << 6) & (1u16
        << 5) != (1u16 << 5) && (1u16 << 6) & (1u16 << 6) == (1u16 << 6) && ((1u16 << 5) | (1u16
        << 6)) & (1u16 << 5) == (1u16 << 5) && ((1u16 << 5) | (1u16 << 6)) & (1u16 << 6) == (1u16
        << 6)) by (bit_vector);
}

/// Encoding the mode two pause bits decode to reproduces exactly those
/// two bits: decode then encode loses nothing, for all four
/// combinations.
pub proof fn lemma_pause_bits_round_trip(asym: bool, pause: bool)
    ensures
        flag_set(spec_pause_bits(spec_pause_decode(asym, pause)), AutoNegCap::ASYMMETRIC_PAUSE)
            == asym,
        flag_set(spec_pause_bits(spec_pause_decode(asym, pause)), AutoNegCap::PAUSE) == pause,
{
    assert(0u16 & (1u16 << 5) != (1u16 << 5) && 0u16 & (1u16 << 6) != (1u16 << 6) && (1u16 << 5) & (
    1u16 << 5) == (1u16 << 5) && (1u16 << 5) & (1u16 << 6) != (1u16 << 6) && (1u16 << 6) & (1u16
        << 5) != (1u16 << 5) && (1u16 << 6) & (1u16 << 6) == (1u16 << 6) && ((1u16 << 5) | (1u16
        << 6)) & (1u16 << 5) == (1u16 << 5) && ((1u16 << 5) | (1u16 << 6)) & (1u16 << 6) == (1u16
        << 6)) by (bit_vector);
}

/// An autonegotiation advertisement: the public, protocol-agnostic
/// description of what this side is willing to negotiate.
#[derive(Clone, Copy, Debug, PartialEq, Eq, Structural)]
pub struct AutoNegotiationAdvertisement {
    /// The type of message sent
    pub selector_field: SelectorField,
    /// The PHY supports 10BASE-T
    pub hd_10base_t: bool,
    /// The PHY supports 10BASE-T Full Duplex
    pub fd_10base_t: bool,
    /// The PHY supports 100BASE-TX
    pub hd_100base_tx: bool,
    /// The PHY supports 100BASE-TX Full Duplex
    pub fd_100base_tx: bool,
    /// The PHY supports 100BASE-T4
    pub base100_t4: bool,
    /// The pause mode supported by the PHY
    pub pause: Pause,
}

impl Default for AutoNegotiationAdvertisement {
    /// An advertisement that requests nothing: all technology abilities
    /// off, the selector field and pause mode at their defaults.
    fn default() -> (r: Self)
        ensures
            r == (AutoNegotiationAdvertisement {
                selector_field: SelectorField::Std802_3,
                hd_10base_t: false,
                fd_10base_t: false,
                hd_100base_tx: false,
                fd_100base_tx: false,
                base100_t4: false,
                pause: Pause::NoPause,
            }),
    {
        AutoNegotiationAdvertisement {
            selector_field: SelectorField::Std802_3,
            hd_10base_t: false,
            fd_10base_t: false,
            hd_100base_tx: false,
            fd_100base_tx: false,
            base100_t4: false,
            pause: Pause::NoPause,
        }
    }
}

/// The capability register word that writing advertisement `ad` on a
/// PHY whose status is `status` produces.
///
/// Each technology ability bit is set only when both the advertisement
/// requests it and the status confirms the chip supports that exact
/// speed and duplex combination; 100BASE-T4 has no status cross-check
/// bit in this model and passes through unconditionally. The selector
/// field and the pause mode are inserted verbatim: they are
/// declarative, not capability-gated.
pub open spec fn spec_ad_word(ad: AutoNegotiationAdvertisement, status: PhyStatus) -> u16 {
    (if ad.hd_10base_t && status.hd_10mbps {
        AutoNegCap::TECH_10BASE_T
    } else {
        0u16
    }) | (if ad.fd_10base_t && status.fd_10mbps {
        AutoNegCap::TECH_10BASE_T_FD
    } else {
        0u16
    }) | (if ad.hd_100base_tx && status.hd_100base_x {
        AutoNegCap::TECH_100BASE_TX
    } else {
        0u16
    }) | (if ad.fd_100base_tx && status.fd_100base_x {
        AutoNegCap::TECH_100BASE_TX_FD
    } else {
        0u16
    }) | (if ad.base100_t4 {
        AutoNegCap::TECH_100BASE_T4
    } else {
        0u16
    }) | spec_selector_bits(ad.selector_field) | spec_pause_bits(ad.pause)
}

/// The advertisement a capability register value describes, or `None`
/// when its selector field holds no recognized pattern.
pub open spec fn spec_ad_decode(v: u16) -> Option<AutoNegotiationAdvertisement> {
    match spec_selector_decode(v) {
        Some(sf) => Some(
            AutoNegotiationAdvertisement {
                selector_field: sf,
                hd_10base_t: flag_set(v, AutoNegCap::TECH_10BASE_T),
                fd_10base_t: flag_set(v, AutoNegCap::TECH_10BASE_T_FD),
                hd_100base_tx: flag_set(v, AutoNegCap::TECH_100BASE_TX),
                fd_100base_tx: flag_set(v, AutoNegCap::TECH_100BASE_TX_FD),
                base100_t4: flag_set(v, AutoNegCap::TECH_100BASE_T4),
                pause: spec_pause_decode(
                    flag_set(v, AutoNegCap::ASYMMETRIC_PAUSE),
                    flag_set(v, AutoNegCap::PAUSE),
                ),
            },
        ),
        None => None,
    }
}

/// The advertisement word never carries a technology ability bit unless
/// both the advertisement requests that ability and the status confirms
/// it, and it carries the bit whenever both hold; 100BASE-T4 follows
/// the advertisement alone.
pub proof fn lemma_ad_word_gated(ad: AutoNegotiationAdvertisement, status: PhyStatus)
    ensures
        flag_set(spec_ad_word(ad, status), AutoNegCap::TECH_10BASE_T) <==> (ad.hd_10base_t
            && status.hd_10mbps),
        flag_set(spec_ad_word(ad, status), AutoNegCap::TECH_10BASE_T_FD) <==> (ad.fd_10base_t
            && status.fd_10mbps),
        flag_set(spec_ad_word(ad, status), AutoNegCap::TECH_100BASE_TX) <==> (ad.hd_100base_tx
            && status.hd_100base_x),
        flag_set(spec_ad_word(ad, status), AutoNegCap::TECH_100BASE_TX_FD) <==> (ad.fd_100base_tx
            && status.fd_100base_x),
        flag_set(spec_ad_word(ad, status), AutoNegCap::TECH_100BASE_T4) <==> ad.base100_t4,
{
    let t1: u16 = if ad.hd_10base_t && status.hd_10mbps {
        AutoNegCap::TECH_10BASE_T
    } else {
        0u16
    };
    let t2: u16 = if ad.fd_10base_t && status.fd_10mbps {
        AutoNegCap::TECH_10BASE_T_FD
    } else {
        0u16
    };
    let t3: u16 = if ad.hd_100base_tx && status.hd_100base_x {
        AutoNegCap::TECH_100BASE_TX
    } else {
        0u16
    };
    let t4: u16 = if ad.fd_100base_tx && status.fd_100base_x {
        AutoNegCap::TECH_100BASE_TX_FD
    } else {
        0u16
    };
    let t5: u16 = if ad.base100_t4 {
        AutoNegCap::TECH_100BASE_T4
    } else {
        0u16
    };
    let sel = spec_selector_bits(ad.selector_field);
    let pb = spec_pause_bits(ad.pause);
    assert(sel == 1u16 || sel == 2u16 || sel == 3u16 || sel == 5u16);
    assert(pb == 0u16 || pb == (1u16 << 5) || pb == (1u16 << 6) || pb == ((1u16 << 5) | (1u16
        << 6)));
    assert(spec_ad_word(ad, status) == (t1 | t2 | t3 | t4 | t5 | sel | pb));
    assert((1u16 << 11) != 0u16 && (1u16 << 10) != 0u16 && (1u16 << 9) != 0u16 && (1u16 << 8)
        != 0u16 && (1u16 << 7) != 0u16) by (bit_vector);
    assert(((t1 | t2 | t3 | t4 | t5 | sel | pb) & (1u16 << 11) == (1u16 << 11) <==> t1 == (1u16
        << 11)) && ((t1 | t2 | t3 | t4 | t5 | sel | pb) & (1u16 << 10) == (1u16 << 10) <==> t2 == (
    1u16 << 10)) && ((t1 | t2 | t3 | t4 | t5 | sel | pb) & (1u16 << 9) == (1u16 << 9) <==> t3 == (
    1u16 << 9)) && ((t1 | t2 | t3 | t4 | t5 | sel | pb) & (1u16 << 8) == (1u16 << 8) <==> t4 == (
    1u16 << 8)) && ((t1 | t2 | t3 | t4 | t5 | sel | pb) & (1u16 << 7) == (1u16 << 7) <==> t5 == (
    1u16 << 7))) by (bit_vector)
        requires
            t1 == (1u16 << 11) || t1 == 0u16,
            t2 == (1u16 << 10) || t2 == 0u16,
            t3 == (1u16 << 9) || t3 == 0u16,
            t4 == (1u16 << 8) || t4 == 0u16,
            t5 == (1u16 << 7) || t5 == 0u16,
            sel == 1u16 || sel == 2u16 || sel == 3u16 || sel == 5u16,
            pb == 0u16 || pb == (1u16 << 5) || pb == (1u16 << 6) || pb == ((1u16 << 5) | (1u16
                << 6)),
    ;
}

/// The operation at offset `i` of what `post` appended beyond `pre`.
pub open spec fn appended(pre: Seq<BusOp>, post: Seq<BusOp>, i: int) -> BusOp {
    post[pre.len() + i]
}

/// An IEEE 802.3 compatible PHY.
///
/// A concrete chip driver supplies the chip-specific facts — its
/// station address, its best supported advertisement, and the transport
/// carrying single register reads and writes — and inherits all the
/// register sequencing below. Every derived method's contract pins down
/// the exact sequence of bus operations performed, over the transport's
/// ghost log.
pub trait Phy<M: Miim>: Sized {
    /// The log of the underlying management bus, oldest operation
    /// first.
    spec fn bus(&self) -> Seq<BusOp>;

    /// The station address of this PHY.
    spec fn addr(&self) -> u8;

    /// The best advertisement this PHY can send out, as a spec-level
    /// value.
    spec fn best_ad(&self) -> AutoNegotiationAdvertisement;

    /// The best advertisement this PHY can send out.
    ///
    /// "Best", in this case, means largest amount of supported
    /// features.
    fn best_supported_advertisement(&self) -> (ad: AutoNegotiationAdvertisement)
        ensures
            ad == self.best_ad(),
    ;

    /// Get a reference to the Media Independent Interface ([`Miim`])
    /// for this PHY.
    fn get_miim(&self) -> (miim: &M)
        ensures
            miim.log() == self.bus(),
    ;

    /// Get the address of this PHY.
    fn get_phy_addr(&self) -> (addr: u8)
        ensures
            addr == self.addr(),
    ;

    /// Read a PHY register over MIIM.
    fn read(&mut self, address: u8) -> (data: u16)
        ensures
            final(self).addr() == old(self).addr(),
            final(self).best_ad() == old(self).best_ad(),
            final(self).bus() == old(self).bus().push(
                BusOp::Read(old(self).addr(), address, data),
            ),
    ;

    /// Write a PHY register over MIIM.
    fn write(&mut self, address: u8, value: u16)
        ensures
            final(self).addr() == old(self).addr(),
            final(self).best_ad() == old(self).best_ad(),
            final(self).bus() == old(self).bus().push(
                BusOp::Write(old(self).addr(), address, value),
            ),
    ;

    /// Get the raw value of the Base Control Register of this PHY.
    fn bcr(&mut self) -> (r: Bcr)
        ensures
            final(self).addr() == old(self).addr(),
            final(self).best_ad() == old(self).best_ad(),
            final(self).bus() == old(self).bus().push(
                BusOp::Read(old(self).addr(), Bcr::ADDRESS, r@),
            ),
    {
        let v = self.read(Bcr::ADDRESS);
        Bcr::new(v)
    }

    /// Check if the PHY is currently resetting.
    fn is_resetting(&mut self) -> (r: bool)
        ensures
            final(self).addr() == old(self).addr(),
            final(self).best_ad() == old(self).best_ad(),
            final(self).bus() == old(self).bus().push(
                BusOp::Read(old(self).addr(), Bcr::ADDRESS, op_data(final(self).bus().last())),
            ),
            r == flag_set(op_data(final(self).bus().last()), Bcr::RESET),
    {
        let bcr = self.bcr();
        proof {
            assert(final(self).bus().last() == BusOp::Read(old(self).addr(), Bcr::ADDRESS, bcr@));
        }
        bcr.is_resetting()
    }

    /// Reset the PHY: read the Base Control Register, set its reset
    /// bit, and write it back. The PHY clears the bit autonomously when
    /// its internal reset completes; verify that the reset finished by
    /// checking [`Self::is_resetting`] `== false` before continuing
    /// usage.
    fn reset(&mut self)
        ensures
            final(self).addr() == old(self).addr(),
            final(self).best_ad() == old(self).best_ad(),
            ({
                let v = op_data(appended(old(self).bus(), final(self).bus(), 0));
                final(self).bus() == old(self).bus().push(
                    BusOp::Read(old(self).addr(), Bcr::ADDRESS, v),
                ).push(
                    BusOp::Write(old(self).addr(), Bcr::ADDRESS, with_flag(v, Bcr::RESET, true)),
                )
            }),
    {
        let mut bcr = self.bcr();
        bcr.reset(true);
        let bits = bcr.bits();
        self.write(Bcr::ADDRESS, bits);
    }

    /// Perform a reset, then poll the Base Control Register until the
    /// PHY reports the reset as completed, giving up after `max_polls`
    /// polls.
    ///
    /// The reset completes when the PHY itself clears the reset bit, so
    /// the poll count needed is entirely up to the hardware; the bound
    /// is the caller's policy. Returns whether a poll observed the
    /// reset bit clear; the polling stops exactly at the first poll
    /// that observes it clear, never before.
    fn blocking_reset(&mut self, max_polls: u64) -> (completed: bool)
        ensures
            final(self).addr() == old(self).addr(),
            final(self).best_ad() == old(self).best_ad(),
            ({
                let pre = old(self).bus();
                let post = final(self).bus();
                let a = old(self).addr();
                let v = op_data(appended(pre, post, 0));
                let polls = post.skip(pre.len() + 2int);
                &&& post.len() >= pre.len() + 2
                &&& post.take(pre.len() as int) == pre
                &&& appended(pre, post, 0) == BusOp::Read(a, Bcr::ADDRESS, v)
                &&& appended(pre, post, 1) == BusOp::Write(
                    a,
                    Bcr::ADDRESS,
                    with_flag(v, Bcr::RESET, true),
                )
                &&& polls.len() <= max_polls
                &&& forall|i: int|
                    0 <= i < polls.len() ==> (#[trigger] polls[i]) == BusOp::Read(
                        a,
                        Bcr::ADDRESS,
                        op_data(polls[i]),
                    )
                &&& forall|i: int|
                    0 <= i < polls.len() - 1 ==> flag_set(op_data(#[trigger] polls[i]), Bcr::RESET)
                &&& (completed <==> polls.len() > 0 && !flag_set(
                    op_data(polls.last()),
                    Bcr::RESET,
                ))
                &&& (!completed ==> polls.len() == max_polls)
            }),
    {
        let ghost pre = self.bus();
        self.reset();
        let ghost start = self.bus();
        let mut polls_done: u64 = 0;
        let mut completed = false;
        #[verifier::loop_isolation(false)]
        while !completed && polls_done < max_polls
            invariant
                start.len() == pre.len() + 2,
                self.addr() == old(self).addr(),
                self.best_ad() == old(self).best_ad(),
                self.bus().len() == start.len() + polls_done,
                self.bus().take(start.len() as int) == start,
                polls_done <= max_polls,
                forall|i: int|
                    start.len() <= i < self.bus().len() ==> (#[trigger] self.bus()[i])
                        == BusOp::Read(
                        old(self).addr(),
                        Bcr::ADDRESS,
                        op_data(self.bus()[i]),
                    ),
                forall|i: int|
                    start.len() <= i < self.bus().len() - 1 ==> flag_set(
                        op_data(#[trigger] self.bus()[i]),
                        Bcr::RESET,
                    ),
                completed ==> polls_done > 0 && !flag_set(op_data(self.bus().last()), Bcr::RESET),
                !completed && polls_done > 0 ==> flag_set(op_data(self.bus().last()), Bcr::RESET),
            decreases max_polls - polls_done,
        {
            completed = !self.is_resetting();
            polls_done = polls_done + 1;
            proof {
                assert(self.bus().take(start.len() as int) =~= start);
            }
        }
        proof {
            let post = self.bus();
            let polls = post.skip(pre.len() + 2int);
            assert(post[pre.len() as int] == post.take(start.len() as int)[pre.len() as int]);
            assert(post[pre.len() + 1int] == post.take(start.len() as int)[pre.len() + 1int]);
            assert(post.take(pre.len() as int) =~= pre);
            assert forall|i: int| 0 <= i < polls.len() implies (#[trigger] polls[i]) == BusOp::Read(
                old(self).addr(),
                Bcr::ADDRESS,
                op_data(polls[i]),
            ) by {
                assert(polls[i] == post[start.len() + i]);
            }
            assert forall|i: int|
                0 <= i < polls.len() - 1 implies flag_set(
                op_data(#[trigger] polls[i]),
                Bcr::RESET,
            ) by {
                assert(polls[i] == post[start.len() + i]);
            }
            if polls.len() > 0 {
                assert(polls.last() == post.last());
            }
        }
        completed
    }

    /// Get the raw value of the Base Status Register of this PHY.
    fn bsr(&mut self) -> (r: Bsr)
        ensures
            final(self).addr() == old(self).addr(),
            final(self).best_ad() == old(self).best_ad(),
            final(self).bus() == old(self).bus().push(
                BusOp::Read(old(self).addr(), Bsr::ADDRESS, r@),
            ),
    {
        let v = self.read(Bsr::ADDRESS);
        Bsr::new(v)
    }

    /// Check if the PHY reports its link as being up.
    fn phy_link_up(&mut self) -> (r: bool)
        ensures
            final(self).addr() == old(self).addr(),
            final(self).best_ad() == old(self).best_ad(),
            final(self).bus() == old(self).bus().push(
                BusOp::Read(old(self).addr(), Bsr::ADDRESS, op_data(final(self).bus().last())),
            ),
            r == flag_set(op_data(final(self).bus().last()), Bsr::LINK_STATUS),
    {
        let bsr = self.bsr();
        proof {
            assert(final(self).bus().last() == BusOp::Read(old(self).addr(), Bsr::ADDRESS, bsr@));
        }
        bsr.phy_link_up()
    }

    /// Check if the PHY reports its autonegotiation process as having
    /// completed.
    fn autoneg_completed(&mut self) -> (r: bool)
        ensures
            final(self).addr() == old(self).addr(),
            final(self).best_ad() == old(self).best_ad(),
            final(self).bus() == old(self).bus().push(
                BusOp::Read(old(self).addr(), Bsr::ADDRESS, op_data(final(self).bus().last())),
            ),
            r == flag_set(op_data(final(self).bus().last()), Bsr::AUTONEG_COMPLETE),
    {
        let bsr = self.bsr();
        proof {
            assert(final(self).bus().last() == BusOp::Read(old(self).addr(), Bsr::ADDRESS, bsr@));
        }
        bsr.autoneg_completed()
    }

    /// Read the status register for this PHY.
    fn status(&mut self) -> (status: PhyStatus)
        ensures
            final(self).addr() == old(self).addr(),
            final(self).best_ad() == old(self).best_ad(),
            final(self).bus() == old(self).bus().push(
                BusOp::Read(old(self).addr(), Bsr::ADDRESS, op_data(final(self).bus().last())),
            ),
            status == spec_status_from_bsr(op_data(final(self).bus().last())),
    {
        let bsr = self.bsr();
        proof {
            assert(final(self).bus().last() == BusOp::Read(old(self).addr(), Bsr::ADDRESS, bsr@));
        }
        PhyStatus::from_bsr(&bsr)
    }

    /// Read the ESR for this PHY. Returns `None`, without touching the
    /// register, if `extended_status` in [`Self::status`] is false.
    fn esr(&mut self) -> (r: Option<Esr>)
        ensures
            final(self).addr() == old(self).addr(),
            final(self).best_ad() == old(self).best_ad(),
            ({
                let pre = old(self).bus();
                let post = final(self).bus();
                let a = old(self).addr();
                let v = op_data(appended(pre, post, 0));
                if spec_status_from_bsr(v).extended_status {
                    r matches Some(esr) && post == pre.push(BusOp::Read(a, Bsr::ADDRESS, v)).push(
                        BusOp::Read(a, Esr::ADDRESS, esr@),
                    )
                } else {
                    r is None && post == pre.push(BusOp::Read(a, Bsr::ADDRESS, v))
                }
            }),
    {
        let status = self.status();
        if status.extended_status {
            let v = self.read(Esr::ADDRESS);
            Some(Esr::new(v))
        } else {
            None
        }
    }

    /// Read the Extended Status Register for this PHY and decode its
    /// capability bits.
    ///
    /// Returns `None` if `extended_status` in [`Self::status`] is
    /// false.
    fn extended_status(&mut self) -> (r: Option<ExtendedPhyStatus>)
        ensures
            final(self).addr() == old(self).addr(),
            final(self).best_ad() == old(self).best_ad(),
            ({
                let pre = old(self).bus();
                let post = final(self).bus();
                let a = old(self).addr();
                let v = op_data(appended(pre, post, 0));
                let w = op_data(appended(pre, post, 1));
                if spec_status_from_bsr(v).extended_status {
                    &&& post == pre.push(BusOp::Read(a, Bsr::ADDRESS, v)).push(
                        BusOp::Read(a, Esr::ADDRESS, w),
                    )
                    &&& r == Some(spec_extended_status_from_esr(w))
                } else {
                    r is None && post == pre.push(BusOp::Read(a, Bsr::ADDRESS, v))
                }
            }),
    {
        let esr = self.esr();
        match esr {
            Some(esr) => Some(ExtendedPhyStatus::from_esr(&esr)),
            None => None,
        }
    }

    /// Read the PHY identifier for this PHY: two sequential register
    /// reads concatenated into a 32-bit value.
    ///
    /// Returns `None` if `extended_caps` in [`Self::status`] is false.
    fn phy_ident(&mut self) -> (r: Option<u32>)
        ensures
            final(self).addr() == old(self).addr(),
            final(self).best_ad() == old(self).best_ad(),
            ({
                let pre = old(self).bus();
                let post = final(self).bus();
                let a = old(self).addr();
                let v = op_data(appended(pre, post, 0));
                let msb = op_data(appended(pre, post, 1));
                let lsb = op_data(appended(pre, post, 2));
                if spec_status_from_bsr(v).extended_caps {
                    &&& post == pre.push(BusOp::Read(a, Bsr::ADDRESS, v)).push(
                        BusOp::Read(a, 2u8, msb),
                    ).push(BusOp::Read(a, 3u8, lsb))
                    &&& r == Some(((msb as u32) << 16u32) | (lsb as u32))
                } else {
                    r is None && post == pre.push(BusOp::Read(a, Bsr::ADDRESS, v))
                }
            }),
    {
        let status = self.status();
        if status.extended_caps {
            let msb = self.read(2);
            let lsb = self.read(3);
            Some(((msb as u32) << 16u32) | (lsb as u32))
        } else {
            None
        }
    }

    /// Set the autonegotiation advertisement.
    ///
    /// Each technology ability is advertised only when both `ad`
    /// requests it and the status register confirms the chip supports
    /// it; see [`spec_ad_word`]. This is a no-op if `extended_caps` in
    /// [`Self::status`] is false: a chip without extended capabilities
    /// has no addressable advertisement register.
    fn set_autonegotiation_advertisement(&mut self, ad: AutoNegotiationAdvertisement)
        ensures
            final(self).addr() == old(self).addr(),
            final(self).best_ad() == old(self).best_ad(),
            ({
                let pre = old(self).bus();
                let post = final(self).bus();
                let a = old(self).addr();
                let v = op_data(appended(pre, post, 0));
                if spec_status_from_bsr(v).extended_caps {
                    post == pre.push(BusOp::Read(a, Bsr::ADDRESS, v)).push(
                        BusOp::Write(
                            a,
                            AutoNegCap::LOCAL_CAP_ADDRESS,
                            spec_ad_word(ad, spec_status_from_bsr(v)),
                        ),
                    )
                } else {
                    post == pre.push(BusOp::Read(a, Bsr::ADDRESS, v))
                }
            }),
    {
        let status = self.status();
        if !status.extended_caps {
            return ;
        }
        let word = (if ad.hd_10base_t && status.hd_10mbps {
            AutoNegCap::TECH_10BASE_T
        } else {
            0u16
        }) | (if ad.fd_10base_t && status.fd_10mbps {
            AutoNegCap::TECH_10BASE_T_FD
        } else {
            0u16
        }) | (if ad.hd_100base_tx && status.hd_100base_x {
            AutoNegCap::TECH_100BASE_TX
        } else {
            0u16
        }) | (if ad.fd_100base_tx && status.fd_100base_x {
            AutoNegCap::TECH_100BASE_TX_FD
        } else {
            0u16
        }) | (if ad.base100_t4 {
            AutoNegCap::TECH_100BASE_T4
        } else {
            0u16
        }) | ad.selector_field.cap_bits() | ad.pause.cap_bits();
        self.write(AutoNegCap::LOCAL_CAP_ADDRESS, word);
    }

    /// Get the capabilities the autonegotiation partner of this PHY
    /// advertised.
    ///
    /// A partner capability word whose selector field holds no
    /// recognized pattern is malformed register contents and is
    /// reported as an error, never defaulted.
    fn get_autonegotiation_partner_caps(&mut self) -> (r: Result<
        AutoNegotiationAdvertisement,
        PhyError,
    >)
        ensures
            final(self).addr() == old(self).addr(),
            final(self).best_ad() == old(self).best_ad(),
            final(self).bus() == old(self).bus().push(
                BusOp::Read(
                    old(self).addr(),
                    AutoNegCap::PARTNER_CAP_ADDRESS,
                    op_data(final(self).bus().last()),
                ),
            ),
            ({
                let v = op_data(final(self).bus().last());
                match spec_ad_decode(v) {
                    Some(ad) => r == Ok::<AutoNegotiationAdvertisement, PhyError>(ad),
                    None => r == Err::<AutoNegotiationAdvertisement, PhyError>(
                        PhyError::UnknownSelectorField,
                    ),
                }
            }),
    {
        let v = self.read(AutoNegCap::PARTNER_CAP_ADDRESS);
        proof {
            assert(final(self).bus().last() == BusOp::Read(
                old(self).addr(),
                AutoNegCap::PARTNER_CAP_ADDRESS,
                v,
            ));
        }
        let cap = AutoNegCap::new(v);
        let selector_field = match SelectorField::from_cap(&cap) {
            Ok(sf) => sf,
            Err(e) => {
                return Err(e);
            },
        };
        Ok(
            AutoNegotiationAdvertisement {
                selector_field,
                hd_10base_t: cap.contains(AutoNegCap::TECH_10BASE_T),
                fd_10base_t: cap.contains(AutoNegCap::TECH_10BASE_T_FD),
                hd_100base_tx: cap.contains(AutoNegCap::TECH_100BASE_TX),
                fd_100base_tx: cap.contains(AutoNegCap::TECH_100BASE_TX_FD),
                base100_t4: cap.contains(AutoNegCap::TECH_100BASE_T4),
                pause: Pause::from_cap(&cap),
            },
        )
    }

    /// Read the Autonegotiation Expansion register.
    ///
    /// Returns `None` if `extended_caps` in [`Self::status`] is false.
    fn ane(&mut self) -> (r: Option<crate::registers::Ane>)
        ensures
            final(self).addr() == old(self).addr(),
            final(self).best_ad() == old(self).best_ad(),
            ({
                let pre = old(self).bus();
                let post = final(self).bus();
                let a = old(self).addr();
                let v = op_data(appended(pre, post, 0));
                if spec_status_from_bsr(v).extended_caps {
                    r matches Some(ane) && post == pre.push(BusOp::Read(a, Bsr::ADDRESS, v)).push(
                        BusOp::Read(a, crate::registers::Ane::ADDRESS, ane@),
                    )
                } else {
                    r is None && post == pre.push(BusOp::Read(a, Bsr::ADDRESS, v))
                }
            }),
    {
        let status = self.status();
        if status.extended_caps {
            let v = self.read(crate::registers::Ane::ADDRESS);
            Some(crate::registers::Ane::new(v))
        } else {
            None
        }
    }

    /// Read an MMD register through the indirect access protocol; see
    /// [`Mmd::read`].
    fn mmd_read(&mut self, mmd_address: u8, reg_address: u16) -> (data: u16)
        ensures
            final(self).addr() == old(self).addr(),
            final(self).best_ad() == old(self).best_ad(),
            final(self).bus() == old(self).bus().push(
                BusOp::Write(
                    old(self).addr(),
                    MmdAddress::CONTROL_ADDRESS,
                    crate::mmd::spec_mmd_address_word(mmd_address),
                ),
            ).push(
                BusOp::Write(old(self).addr(), MmdAddress::DATA_ADDRESS, reg_address),
            ).push(
                BusOp::Write(
                    old(self).addr(),
                    MmdAddress::CONTROL_ADDRESS,
                    crate::mmd::spec_mmd_data_word(mmd_address),
                ),
            ).push(BusOp::Read(old(self).addr(), MmdAddress::DATA_ADDRESS, data)),
    {
        let mut ctrl = MmdAddress::device_address(mmd_address);
        self.write(MmdAddress::CONTROL_ADDRESS, ctrl.bits());
        self.write(MmdAddress::DATA_ADDRESS, reg_address);
        ctrl.remove(MmdAddress::ADDRESS);
        ctrl.insert(MmdAddress::DATA_NO_POSTINC);
        self.write(MmdAddress::CONTROL_ADDRESS, ctrl.bits());
        self.read(MmdAddress::DATA_ADDRESS)
    }

    /// Write an MMD register through the indirect access protocol; see
    /// [`Mmd::write`].
    fn mmd_write(&mut self, device_address: u8, reg_address: u16, reg_value: u16)
        ensures
            final(self).addr() == old(self).addr(),
            final(self).best_ad() == old(self).best_ad(),
            final(self).bus() == old(self).bus().push(
                BusOp::Write(
                    old(self).addr(),
                    MmdAddress::CONTROL_ADDRESS,
                    crate::mmd::spec_mmd_address_word(device_address),
                ),
            ).push(
                BusOp::Write(old(self).addr(), MmdAddress::DATA_ADDRESS, reg_address),
            ).push(
                BusOp::Write(
                    old(self).addr(),
                    MmdAddress::CONTROL_ADDRESS,
                    crate::mmd::spec_mmd_data_word(device_address),
                ),
            ).push(BusOp::Write(old(self).addr(), MmdAddress::DATA_ADDRESS, reg_value)),
    {
        let mut ctrl = MmdAddress::device_address(device_address);
        self.write(MmdAddress::CONTROL_ADDRESS, ctrl.bits());
        self.write(MmdAddress::DATA_ADDRESS, reg_address);
        ctrl.remove(MmdAddress::ADDRESS);
        ctrl.insert(MmdAddress::DATA_NO_POSTINC);
        self.write(MmdAddress::CONTROL_ADDRESS, ctrl.bits());
        self.write(MmdAddress::DATA_ADDRESS, reg_value);
    }
}

/// An "advanced link speed" enum that covers more than just the basic
/// ones described by the standard.
#[derive(Clone, Copy, Debug, PartialEq, Eq, Structural)]
#[allow(missing_docs)]
pub enum AdvancedLinkSpeed {
    HalfDuplexBase10T,
    FullDuplexBase10T,
    HalfDuplexBase100Tx,
    FullDuplexBase100Tx,
    HalfDuplexBase1000T,
    FullDuplexBase1000T,
    HalfDuplexBase1000Tx,
    FullDuplexBase1000Tx,
}

} // verus!
