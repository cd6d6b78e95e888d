//! Checks of the concrete chip drivers: register sequences and
//! vendor-specific decodes, over a scripted transport.

use ieee802_3_miim::phy::lan87xxa::{Interrupt, LinkSpeed, LAN8720A, LAN8742A};
use ieee802_3_miim::phy::{
    AdvancedPhySpeed, BarePhy, IdentPhyError, PhySpeed, PhyWithSpeed, DP83848, KSZ8081R,
};
use ieee802_3_miim::{BusOp, Pause, Phy, ScriptedMiim};

#[test]
fn lan8742a_phy_init_clears_wucsr_then_configures_autoneg() {
    // the BSR reports extended capabilities and all four basic
    // abilities; the BCR reads back as zero
    let bsr = (1 << 0) | (1 << 11) | (1 << 12) | (1 << 13) | (1 << 14);
    let mut phy: LAN8742A<ScriptedMiim> = LAN8742A::new(ScriptedMiim::new(vec![bsr, 0x0000]), 0);
    phy.phy_init();
    let mock = phy.release();
    let ops = mock.operations();
    assert_eq!(ops.len(), 8);
    // the four-step MMD write clearing the wakeup register
    assert_eq!(ops[0], BusOp::Write(0, 13, 0x0003));
    assert_eq!(ops[1], BusOp::Write(0, 14, 0x8010));
    assert_eq!(ops[2], BusOp::Write(0, 13, 0x4003));
    assert_eq!(ops[3], BusOp::Write(0, 14, 0x0000));
    // the advertisement, gated by the status: all abilities but T4
    assert_eq!(ops[4], BusOp::Read(0, 1, bsr));
    let ad_word = (1 << 11) | (1 << 10) | (1 << 9) | (1 << 8) | 0b00001;
    assert_eq!(ops[5], BusOp::Write(0, 4, ad_word));
    // autonegotiation enabled and restarted by read-modify-write
    assert_eq!(ops[6], BusOp::Read(0, 0, 0x0000));
    assert_eq!(ops[7], BusOp::Write(0, 0, (1 << 12) | (1 << 9)));
}

#[test]
fn lan8720a_phy_init_skips_the_wucsr_clear() {
    let bsr = (1 << 0) | (1 << 11) | (1 << 12) | (1 << 13) | (1 << 14);
    let mut phy: LAN8720A<ScriptedMiim> = LAN8720A::new(ScriptedMiim::new(vec![bsr, 0x0000]), 0);
    phy.phy_init();
    let mock = phy.release();
    assert_eq!(mock.operations().len(), 4);
    assert_eq!(mock.operations()[0], BusOp::Read(0, 1, bsr));
}

#[test]
fn lan87xxa_link_speed_decodes_the_ssr_field() {
    let cases: [(u16, Option<LinkSpeed>); 5] = [
        (0b001 << 2, Some(LinkSpeed::BaseT10HalfDuplex)),
        (0b101 << 2, Some(LinkSpeed::BaseT10FullDuplex)),
        (0b010 << 2, Some(LinkSpeed::BaseT100HalfDuplex)),
        (0b110 << 2, Some(LinkSpeed::BaseT100FullDuplex)),
        (0b000, None),
    ];
    for (ssr, expected) in cases {
        let mut phy: LAN8720A<ScriptedMiim> = LAN8720A::new(ScriptedMiim::new(vec![ssr]), 0);
        assert_eq!(phy.link_speed(), expected);
        let mock = phy.release();
        assert_eq!(mock.operations()[0], BusOp::Read(0, 31, ssr));
    }
    // bits outside the field do not disturb the decode
    let mut phy: LAN8720A<ScriptedMiim> =
        LAN8720A::new(ScriptedMiim::new(vec![0x1000 | (0b110 << 2)]), 0);
    assert_eq!(phy.link_speed(), Some(LinkSpeed::BaseT100FullDuplex));
}

#[test]
fn lan87xxa_link_speed_from_u8_rejects_reserved_values() {
    assert_eq!(LinkSpeed::from_u8(0b001), Some(LinkSpeed::BaseT10HalfDuplex));
    assert_eq!(LinkSpeed::from_u8(0b101), Some(LinkSpeed::BaseT10FullDuplex));
    assert_eq!(LinkSpeed::from_u8(0b010), Some(LinkSpeed::BaseT100HalfDuplex));
    assert_eq!(LinkSpeed::from_u8(0b110), Some(LinkSpeed::BaseT100FullDuplex));
    assert_eq!(LinkSpeed::from_u8(0b000), None);
    assert_eq!(LinkSpeed::from_u8(0b011), None);
    assert_eq!(LinkSpeed::from_u8(0b111), None);
    for speed in [
        LinkSpeed::BaseT10HalfDuplex,
        LinkSpeed::BaseT10FullDuplex,
        LinkSpeed::BaseT100HalfDuplex,
        LinkSpeed::BaseT100FullDuplex,
    ] {
        assert_eq!(LinkSpeed::from_u8(speed.to_u8()), Some(speed));
    }
}

#[test]
fn lan87xxa_link_established_needs_all_three_conditions() {
    // link up, autonegotiation complete, and the SSR confirmation
    let good_bsr = (1 << 2) | (1 << 5);
    let good_ssr = 1 << 12;
    let mut phy: LAN8720A<ScriptedMiim> =
        LAN8720A::new(ScriptedMiim::new(vec![good_bsr, good_ssr]), 0);
    assert!(phy.link_established());
    let mock = phy.release();
    assert_eq!(mock.operations().len(), 2);

    // autonegotiation done missing from the SSR
    let mut phy: LAN8720A<ScriptedMiim> =
        LAN8720A::new(ScriptedMiim::new(vec![good_bsr, 0x0000]), 0);
    assert!(!phy.link_established());

    // link down
    let mut phy: LAN8720A<ScriptedMiim> =
        LAN8720A::new(ScriptedMiim::new(vec![1 << 5, good_ssr]), 0);
    assert!(!phy.link_established());
}

#[test]
fn lan87xxa_block_until_link_polls_in_pairs() {
    let good_bsr = (1 << 2) | (1 << 5);
    let good_ssr = 1 << 12;
    let mut phy: LAN8720A<ScriptedMiim> =
        LAN8720A::new(ScriptedMiim::new(vec![0, 0, good_bsr, good_ssr]), 0);
    assert!(phy.block_until_link(5));
    let mock = phy.release();
    let ops = mock.operations();
    assert_eq!(ops.len(), 4);
    assert_eq!(ops[2], BusOp::Read(0, 1, good_bsr));
    assert_eq!(ops[3], BusOp::Read(0, 31, good_ssr));

    let mut phy: LAN8720A<ScriptedMiim> =
        LAN8720A::new(ScriptedMiim::new(vec![0, 0, 0, 0, 0, 0]), 0);
    assert!(!phy.block_until_link(2));
    let mock = phy.release();
    assert_eq!(mock.operations().len(), 4);
}

#[test]
fn lan87xxa_enable_interrupt_merges_the_mask() {
    let mut phy: LAN8720A<ScriptedMiim> = LAN8720A::new(ScriptedMiim::new(vec![1 << 1]), 0);
    phy.enable_interrupt(Interrupt::EnergyOn);
    let mock = phy.release();
    let ops = mock.operations();
    assert_eq!(ops.len(), 2);
    assert_eq!(ops[0], BusOp::Read(0, 30, 1 << 1));
    assert_eq!(ops[1], BusOp::Write(0, 30, (1 << 1) | (1 << 7)));
}

#[test]
fn lan87xxa_reads_and_stores_active_interrupts_in_order() {
    // source bits 1, 4 and 7: page received, link down, energy on
    let source = (1 << 1) | (1 << 4) | (1 << 7);
    let mut phy: LAN8720A<ScriptedMiim> = LAN8720A::new(ScriptedMiim::new(vec![source]), 0);
    let mut storage: [Option<Interrupt>; 8] = [None; 8];
    storage[3] = Some(Interrupt::RemoteFault);
    phy.read_and_clear_active_interrupts(&mut storage);
    assert_eq!(storage[0], Some(Interrupt::AutoNegotiationPageRecvd));
    assert_eq!(storage[1], Some(Interrupt::LinkDown));
    assert_eq!(storage[2], Some(Interrupt::EnergyOn));
    // entries beyond the active count keep what the caller put there
    assert_eq!(storage[3], Some(Interrupt::RemoteFault));
    assert_eq!(storage[4], None);
    let mock = phy.release();
    assert_eq!(mock.operations()[0], BusOp::Read(0, 29, source));
}

#[test]
fn lan87xxa_stores_all_eight_interrupts() {
    let source = 0b1_1111_1110;
    let mut phy: LAN8742A<ScriptedMiim> = LAN8742A::new(ScriptedMiim::new(vec![source]), 0);
    let mut storage: [Option<Interrupt>; 8] = [None; 8];
    phy.read_and_clear_active_interrupts(&mut storage);
    assert_eq!(
        storage,
        [
            Some(Interrupt::AutoNegotiationPageRecvd),
            Some(Interrupt::ParallelDetectionFault),
            Some(Interrupt::AutoNegotiationLpAck),
            Some(Interrupt::LinkDown),
            Some(Interrupt::RemoteFault),
            Some(Interrupt::AutoNegotiationComplete),
            Some(Interrupt::EnergyOn),
            Some(Interrupt::WoL),
        ]
    );
}

#[test]
fn lan87xxa_status_states_the_datasheet_capabilities() {
    let phy: LAN8720A<ScriptedMiim> = LAN8720A::new(ScriptedMiim::new(vec![]), 0);
    let status = phy.status();
    assert!(!status.base100_t4);
    assert!(status.fd_100base_x);
    assert!(status.hd_100base_x);
    assert!(status.fd_10mbps);
    assert!(status.hd_10mbps);
    assert!(!status.extended_status);
    assert!(status.autonegotiation);
    assert!(status.extended_caps);
    assert!(phy.esr().is_none());
    assert!(phy.extended_status().is_none());
    // no register was touched for any of it
    let mock = phy.release();
    assert_eq!(mock.operations().len(), 0);
}

#[test]
fn ksz8081r_interrupt_enable_writes_both_enable_bits() {
    let mut phy = KSZ8081R::new(ScriptedMiim::new(vec![]), 3);
    phy.interrupt_enable();
    let mock = phy.release();
    assert_eq!(
        mock.operations()[0],
        BusOp::Write(3, 0x1B, (1 << 8) | (1 << 10))
    );
}

#[test]
fn ksz8081r_link_speed_decodes_control1() {
    let cases: [(u16, Option<PhySpeed>); 6] = [
        (0b001, Some(PhySpeed::HalfDuplexBase10T)),
        (0b010, Some(PhySpeed::HalfDuplexBase100Tx)),
        (0b101, Some(PhySpeed::FullDuplexBase10T)),
        (0b110, Some(PhySpeed::FullDuplexBase100Tx)),
        (0b100, None),
        (0b000, None),
    ];
    for (ctrl, expected) in cases {
        let mut phy = KSZ8081R::new(ScriptedMiim::new(vec![ctrl]), 3);
        assert_eq!(phy.link_speed(), expected);
        let mock = phy.release();
        assert_eq!(mock.operations()[0], BusOp::Read(3, 0x1E, ctrl));
    }
}

#[test]
fn ksz8081r_get_interrupt_reg_val_reads_the_register() {
    let mut phy = KSZ8081R::new(ScriptedMiim::new(vec![0x0405]), 3);
    assert_eq!(phy.get_interrupt_reg_val(), 0x0405);
    let mock = phy.release();
    assert_eq!(mock.operations()[0], BusOp::Read(3, 0x1B, 0x0405));
}

#[test]
fn ksz8081r_link_established_short_circuits() {
    // autonegotiation incomplete: the second read is skipped
    let mut phy = KSZ8081R::new(ScriptedMiim::new(vec![0x0000]), 3);
    assert!(!phy.link_established());
    let mock = phy.release();
    assert_eq!(mock.operations().len(), 1);

    // complete and up: two reads
    let mut phy = KSZ8081R::new(ScriptedMiim::new(vec![1 << 5, 1 << 2]), 3);
    assert!(phy.link_established());
    let mock = phy.release();
    assert_eq!(mock.operations().len(), 2);
}

#[test]
fn ksz8081r_get_link_speed_widens_the_basic_speed() {
    let mut phy = KSZ8081R::new(ScriptedMiim::new(vec![0b110]), 3);
    assert_eq!(
        phy.get_link_speed(),
        Some(AdvancedPhySpeed::FullDuplexBase100Tx)
    );
}

#[test]
fn dp83848_link_speed_decodes_physts() {
    let cases: [(u16, Option<PhySpeed>); 5] = [
        (0b111, Some(PhySpeed::FullDuplexBase10T)),
        (0b101, Some(PhySpeed::FullDuplexBase100Tx)),
        (0b011, Some(PhySpeed::HalfDuplexBase10T)),
        (0b001, Some(PhySpeed::HalfDuplexBase100Tx)),
        (0b110, None),
    ];
    for (physts, expected) in cases {
        let mut phy = DP83848::new(ScriptedMiim::new(vec![physts]), 4);
        assert_eq!(phy.link_speed(), expected);
        let mock = phy.release();
        assert_eq!(mock.operations()[0], BusOp::Read(4, 0x19, physts));
    }
}

#[test]
fn dp83848_interrupt_enable_writes_the_enable_bit() {
    let mut phy = DP83848::new(ScriptedMiim::new(vec![]), 4);
    phy.interrupt_enable();
    let mock = phy.release();
    assert_eq!(mock.operations()[0], BusOp::Write(4, 0x1B, 1 << 5));
}

#[test]
fn ksz8081r_try_from_bare_checks_the_identifier() {
    // matching identifier, ignoring the revision digit
    let bare = BarePhy::new(
        ScriptedMiim::new(vec![0, 1, 0x0022, 0x1565]),
        8,
        Pause::NoPause,
    );
    let phy = KSZ8081R::try_from_bare(bare).unwrap();
    assert_eq!(phy.get_phy_addr(), 8);

    // a foreign identifier: the error hands the bare PHY back
    let bare = BarePhy::new(
        ScriptedMiim::new(vec![0, 1, 0x1234, 0x5678]),
        8,
        Pause::NoPause,
    );
    match KSZ8081R::try_from_bare(bare) {
        Err((e, bare)) => {
            assert_eq!(e, IdentPhyError::IncorrectPhyIdent);
            assert_eq!(bare.get_phy_addr(), 8);
        },
        Ok(_) => panic!("a foreign identifier was accepted"),
    }

    // no extended capabilities: no identifier to read
    let bare = BarePhy::new(ScriptedMiim::new(vec![0, 0]), 8, Pause::NoPause);
    match KSZ8081R::try_from_bare(bare) {
        Err((e, _)) => assert_eq!(e, IdentPhyError::PhyIdentUnavailable),
        Ok(_) => panic!("a missing identifier was accepted"),
    }
}

#[test]
fn lan87xxa_try_from_bare_distinguishes_the_two_chips() {
    let bare = BarePhy::new(
        ScriptedMiim::new(vec![0, 1, 0x0007, 0xC131]),
        2,
        Pause::NoPause,
    );
    assert!(LAN8742A::try_from_bare(bare).is_ok());

    let bare = BarePhy::new(
        ScriptedMiim::new(vec![0, 1, 0x0007, 0xC0F3]),
        2,
        Pause::NoPause,
    );
    assert!(LAN8720A::try_from_bare(bare).is_ok());

    // the 8720A identifier is not the 8742A identifier
    let bare = BarePhy::new(
        ScriptedMiim::new(vec![0, 1, 0x0007, 0xC0F3]),
        2,
        Pause::NoPause,
    );
    match LAN8742A::try_from_bare(bare) {
        Err((e, _)) => assert_eq!(e, IdentPhyError::IncorrectPhyIdent),
        Ok(_) => panic!("an 8720A identifier was accepted as an 8742A"),
    }
}

#[test]
fn advanced_speed_widens_every_basic_speed() {
    assert_eq!(
        AdvancedPhySpeed::from_basic(PhySpeed::HalfDuplexBase10T),
        AdvancedPhySpeed::HalfDuplexBase10T
    );
    assert_eq!(
        AdvancedPhySpeed::from_basic(PhySpeed::FullDuplexBase10T),
        AdvancedPhySpeed::FullDuplexBase10T
    );
    assert_eq!(
        AdvancedPhySpeed::from_basic(PhySpeed::HalfDuplexBase100Tx),
        AdvancedPhySpeed::HalfDuplexBase100Tx
    );
    assert_eq!(
        AdvancedPhySpeed::from_basic(PhySpeed::FullDuplexBase100Tx),
        AdvancedPhySpeed::FullDuplexBase100Tx
    );
}

#[test]
fn lan87xxa_chip_speed_widens_to_the_basic_speed() {
    assert_eq!(
        LinkSpeed::BaseT10HalfDuplex.as_basic(),
        PhySpeed::HalfDuplexBase10T
    );
    assert_eq!(
        LinkSpeed::BaseT100FullDuplex.as_basic(),
        PhySpeed::FullDuplexBase100Tx
    );
}
