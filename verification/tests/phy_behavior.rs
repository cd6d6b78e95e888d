//! Checks of the generic PHY register sequencing over a scripted
//! transport: every test pins down the exact bus operations performed.

use ieee802_3_miim::phy::BarePhy;
use ieee802_3_miim::registers::{Ane, NextPage};
use ieee802_3_miim::{BusOp, Pause, Phy, PhyError, ScriptedMiim, SelectorField};

/// A bare PHY at the given station address whose first scripted read
/// (consumed by construction) returns `bsr`, then `reads` in order.
fn phy_with_script(addr: u8, bsr: u16, reads: &[u16]) -> BarePhy<ScriptedMiim> {
    let mut script = vec![bsr];
    script.extend_from_slice(reads);
    BarePhy::new(ScriptedMiim::new(script), addr, Pause::NoPause)
}

#[test]
fn bcr_and_bsr_return_raw_register_values() {
    let mut phy = phy_with_script(2, 0x0000, &[0xA5C3, 0x1234]);
    assert_eq!(phy.bcr().bits(), 0xA5C3);
    assert_eq!(phy.bsr().bits(), 0x1234);
    let mock = phy.release();
    let ops = mock.operations();
    assert_eq!(ops[1], BusOp::Read(2, 0, 0xA5C3));
    assert_eq!(ops[2], BusOp::Read(2, 1, 0x1234));
}

#[test]
fn status_decodes_the_bsr() {
    let mut phy = phy_with_script(2, 0x0000, &[(1 << 14) | (1 << 11) | 1]);
    let status = phy.status();
    assert!(status.fd_100base_x);
    assert!(status.hd_10mbps);
    assert!(status.extended_caps);
    assert!(!status.hd_100base_x);
    assert!(!status.extended_status);
}

#[test]
fn reset_sets_the_reset_bit_on_the_read_value() {
    let mut phy = phy_with_script(7, 0x0000, &[0x1234]);
    phy.reset();
    let mock = phy.release();
    let ops = mock.operations();
    assert_eq!(ops.len(), 3);
    assert_eq!(ops[1], BusOp::Read(7, 0, 0x1234));
    assert_eq!(ops[2], BusOp::Write(7, 0, 0x9234));
}

#[test]
fn is_resetting_reports_the_reset_bit() {
    let mut phy = phy_with_script(7, 0x0000, &[0x8000, 0x0000]);
    assert!(phy.is_resetting());
    assert!(!phy.is_resetting());
}

#[test]
fn blocking_reset_stops_exactly_when_the_bit_clears() {
    // the mock keeps the reset bit high for two polls, then drops it
    let mut phy = phy_with_script(1, 0x0000, &[0x0000, 0x8000, 0x8000, 0x0000]);
    let completed = phy.blocking_reset(10);
    assert!(completed);
    let mock = phy.release();
    let ops = mock.operations();
    // construction read, reset read-modify-write, then exactly 3 polls
    assert_eq!(ops.len(), 6);
    assert_eq!(ops[1], BusOp::Read(1, 0, 0x0000));
    assert_eq!(ops[2], BusOp::Write(1, 0, 0x8000));
    assert_eq!(ops[3], BusOp::Read(1, 0, 0x8000));
    assert_eq!(ops[4], BusOp::Read(1, 0, 0x8000));
    assert_eq!(ops[5], BusOp::Read(1, 0, 0x0000));
}

#[test]
fn blocking_reset_gives_up_after_the_poll_bound() {
    let mut phy = phy_with_script(1, 0x0000, &[0x8000, 0x8000, 0x8000, 0x8000]);
    let completed = phy.blocking_reset(3);
    assert!(!completed);
    let mock = phy.release();
    // construction read, 2 reset ops, exactly 3 polls
    assert_eq!(mock.operations().len(), 6);
}

#[test]
fn blocking_reset_with_zero_polls_only_resets() {
    let mut phy = phy_with_script(1, 0x0000, &[]);
    let completed = phy.blocking_reset(0);
    assert!(!completed);
    let mock = phy.release();
    assert_eq!(mock.operations().len(), 3);
}

#[test]
fn mmd_read_masks_the_device_address_and_uses_four_steps() {
    let mut phy = phy_with_script(5, 0x0000, &[0xBEEF]);
    // device address 37 is out of the 5-bit range: 37 & 0x1F == 5
    let data = phy.mmd_read(37, 0x1234);
    assert_eq!(data, 0xBEEF);
    let mock = phy.release();
    let ops = mock.operations();
    // three writes and one read
    assert_eq!(ops.len(), 5);
    assert_eq!(ops[1], BusOp::Write(5, 13, 0x0005));
    assert_eq!(ops[2], BusOp::Write(5, 14, 0x1234));
    assert_eq!(ops[3], BusOp::Write(5, 13, 0x4005));
    assert_eq!(ops[4], BusOp::Read(5, 14, 0xBEEF));
}

#[test]
fn mmd_write_masks_the_device_address_and_uses_four_steps() {
    let mut phy = phy_with_script(5, 0x0000, &[]);
    let value = 0xCAFE;
    phy.mmd_write(37, 0x1234, value);
    let mock = phy.release();
    let ops = mock.operations();
    // four writes
    assert_eq!(ops.len(), 5);
    assert_eq!(ops[1], BusOp::Write(5, 13, 0x0005));
    assert_eq!(ops[2], BusOp::Write(5, 14, 0x1234));
    assert_eq!(ops[3], BusOp::Write(5, 13, 0x4005));
    assert_eq!(ops[4], BusOp::Write(5, 14, 0xCAFE));
}

#[test]
fn esr_is_read_only_when_the_status_announces_it() {
    // extended status present: the ESR is read
    let mut phy = phy_with_script(3, 0x0000, &[1 << 8, 0xA000]);
    let esr = phy.esr().unwrap();
    assert_eq!(esr.bits(), 0xA000);
    let mock = phy.release();
    assert_eq!(mock.operations().len(), 3);

    // extended status absent: nothing is read beyond the BSR
    let mut phy = phy_with_script(3, 0x0000, &[0x0000]);
    assert!(phy.esr().is_none());
    let mock = phy.release();
    assert_eq!(mock.operations().len(), 2);
}

#[test]
fn extended_status_decodes_the_esr() {
    let mut phy = phy_with_script(3, 0x0000, &[1 << 8, (1 << 15) | (1 << 13)]);
    let ext = phy.extended_status().unwrap();
    assert!(ext.fd_1000base_x);
    assert!(!ext.hd_1000base_x);
    assert!(ext.fd_1000base_t);
    assert!(!ext.hd_1000base_t);
}

#[test]
fn phy_ident_concatenates_two_reads() {
    let mut phy = phy_with_script(3, 0x0000, &[0x0001, 0x0022, 0x1550]);
    assert_eq!(phy.phy_ident(), Some(0x00221550));
    let mock = phy.release();
    let ops = mock.operations();
    assert_eq!(ops[2], BusOp::Read(3, 2, 0x0022));
    assert_eq!(ops[3], BusOp::Read(3, 3, 0x1550));

    // without extended capabilities there is no identifier
    let mut phy = phy_with_script(3, 0x0000, &[0x0000]);
    assert_eq!(phy.phy_ident(), None);
}

#[test]
fn advertisement_write_is_gated_by_the_status() {
    // the chip supports both 10 Mb/s modes and 100BASE-X half duplex,
    // but not 100BASE-X full duplex
    let bsr = (1 << 0) | (1 << 11) | (1 << 12) | (1 << 13);
    let mut phy = phy_with_script(4, 0x0000, &[bsr]);
    let mut ad = phy.best_supported_advertisement();
    // ask for everything, the pause mode included
    ad.hd_10base_t = true;
    ad.fd_10base_t = true;
    ad.hd_100base_tx = true;
    ad.fd_100base_tx = true;
    ad.base100_t4 = true;
    ad.pause = Pause::Symmetric;
    ad.selector_field = SelectorField::Std802_3;
    phy.set_autonegotiation_advertisement(ad);
    let mock = phy.release();
    let ops = mock.operations();
    assert_eq!(ops.len(), 3);
    // the 100BASE-TX full-duplex bit (1 << 8) stays clear: the chip
    // cannot provide it; 100BASE-T4 passes through ungated
    let word = (1 << 11) | (1 << 10) | (1 << 9) | (1 << 7) | 0b00001 | (1 << 6);
    assert_eq!(ops[2], BusOp::Write(4, 4, word));
}

#[test]
fn advertisement_write_is_skipped_without_extended_capabilities() {
    let mut phy = phy_with_script(4, 0x0000, &[0x0000]);
    let ad = phy.best_supported_advertisement();
    phy.set_autonegotiation_advertisement(ad);
    let mock = phy.release();
    // only the construction read and the status read: no write
    assert_eq!(mock.operations().len(), 2);
}

#[test]
fn partner_caps_decode_the_capability_word() {
    let word = 0b00001 | (1 << 11) | (1 << 10) | (1 << 9) | (1 << 8) | (1 << 7) | (1 << 5) | (1
        << 6);
    let mut phy = phy_with_script(4, 0x0000, &[word]);
    let ad = phy.get_autonegotiation_partner_caps().unwrap();
    assert_eq!(ad.selector_field, SelectorField::Std802_3);
    assert!(ad.hd_10base_t);
    assert!(ad.fd_10base_t);
    assert!(ad.hd_100base_tx);
    assert!(ad.fd_100base_tx);
    assert!(ad.base100_t4);
    assert_eq!(ad.pause, Pause::SymmetricAndAsymmetricLocal);
    let mock = phy.release();
    assert_eq!(mock.operations()[1], BusOp::Read(4, 5, word));
}

#[test]
fn partner_caps_with_no_selector_are_malformed() {
    let word = (1 << 11) | (1 << 6);
    let mut phy = phy_with_script(4, 0x0000, &[word]);
    assert_eq!(
        phy.get_autonegotiation_partner_caps(),
        Err(PhyError::UnknownSelectorField)
    );
}

#[test]
fn ane_is_read_only_with_extended_capabilities() {
    let mut phy = phy_with_script(6, 0x0000, &[0x0001, (1 << 4) | (1 << 1)]);
    let ane = phy.ane().unwrap();
    assert!(ane.parallel_detection_fault());
    assert!(ane.page_received());
    let mock = phy.release();
    assert_eq!(mock.operations()[2], BusOp::Read(6, 6, (1 << 4) | (1 << 1)));

    let mut phy = phy_with_script(6, 0x0000, &[0x0000]);
    assert!(phy.ane().is_none());
}

#[test]
fn bare_phy_derives_its_best_advertisement() {
    let bsr = (1 << 11) | (1 << 12) | (1 << 13) | (1 << 14);
    let phy = BarePhy::new(ScriptedMiim::new(vec![bsr]), 9, Pause::Symmetric);
    let ad = phy.best_supported_advertisement();
    assert!(ad.hd_10base_t);
    assert!(ad.fd_10base_t);
    assert!(ad.hd_100base_tx);
    assert!(ad.fd_100base_tx);
    assert!(!ad.base100_t4);
    assert_eq!(ad.pause, Pause::Symmetric);
    assert_eq!(ad.selector_field, SelectorField::Std802_3);
}

#[test]
fn bare_phy_address_can_be_changed() {
    let mut phy = phy_with_script(9, 0x0000, &[0x1111]);
    assert_eq!(phy.get_phy_addr(), 9);
    phy.set_phy_addr(12);
    assert_eq!(phy.get_phy_addr(), 12);
    let value = phy.read(17);
    assert_eq!(value, 0x1111);
    let mock = phy.release();
    let ops = mock.operations();
    assert_eq!(ops[0], BusOp::Read(9, 1, 0x0000));
    assert_eq!(ops[1], BusOp::Read(12, 17, 0x1111));
}

#[test]
fn next_page_reads_the_register_the_ane_points_at() {
    let mut phy = phy_with_script(2, 0x0000, &[0x8123]);
    let ane = Ane::new((1 << 6) | (1 << 5));
    let page = NextPage::new(ane, 5, &mut phy);
    assert_eq!(page.bits(), 0x8123);
    assert_eq!(page.data(), 0x0123);
    let mock = phy.release();
    assert_eq!(mock.operations()[1], BusOp::Read(2, 8, 0x8123));
}
