//! Table-driven checks of the register models: named accessors against
//! the reference bit layout, over all-zero, all-one and single-bit
//! patterns, and raw-value preservation on round-trip.

use ieee802_3_miim::registers::{Ane, Bcr, Bsr, Esr, NextPage};

#[test]
fn bcr_accessors_all_zero() {
    let bcr = Bcr::new(0x0000);
    assert!(!bcr.is_resetting());
    assert!(!bcr.loopback());
    assert!(!bcr.autonegotiation());
    assert!(!bcr.power_down());
    assert!(!bcr.isolated());
    assert!(!bcr.full_duplex());
    assert!(!bcr.collision_test());
    assert!(!bcr.unidirectional());
}

#[test]
fn bcr_accessors_all_one() {
    let bcr = Bcr::new(0xFFFF);
    assert!(bcr.is_resetting());
    assert!(bcr.loopback());
    assert!(bcr.autonegotiation());
    assert!(bcr.power_down());
    assert!(bcr.isolated());
    assert!(bcr.full_duplex());
    assert!(bcr.collision_test());
    assert!(bcr.unidirectional());
}

#[test]
fn bcr_single_bits_match_layout() {
    assert!(Bcr::new(1 << 15).is_resetting());
    assert!(Bcr::new(1 << 14).loopback());
    assert!(Bcr::new(1 << 12).autonegotiation());
    assert!(Bcr::new(1 << 11).power_down());
    assert!(Bcr::new(1 << 10).isolated());
    assert!(Bcr::new(1 << 8).full_duplex());
    assert!(Bcr::new(1 << 7).collision_test());
    assert!(Bcr::new(1 << 5).unidirectional());
    // a single foreign bit trips no accessor
    let stray = Bcr::new(1 << 4);
    assert!(!stray.is_resetting());
    assert!(!stray.loopback());
    assert!(!stray.autonegotiation());
    assert!(!stray.unidirectional());
}

#[test]
fn bcr_mutators_set_and_clear() {
    let mut bcr = Bcr::new(0);
    bcr.reset(true);
    assert_eq!(bcr.bits(), 1 << 15);
    assert!(bcr.is_resetting());
    bcr.reset(false);
    assert_eq!(bcr.bits(), 0);

    bcr.set_loopback(true);
    bcr.set_autonegotiation(true);
    assert_eq!(bcr.bits(), (1 << 14) | (1 << 12));
    bcr.set_loopback(false);
    assert_eq!(bcr.bits(), 1 << 12);

    bcr.restart_autonegotiation();
    assert_eq!(bcr.bits(), (1 << 12) | (1 << 9));
}

#[test]
fn bcr_preserves_unknown_bits() {
    // construction keeps the raw value; mutators touch only their bit
    let mut bcr = Bcr::new(0x0013);
    assert_eq!(bcr.bits(), 0x0013);
    bcr.set_power_down(true);
    assert_eq!(bcr.bits(), 0x0013 | (1 << 11));
    bcr.set_power_down(false);
    assert_eq!(bcr.bits(), 0x0013);
}

#[test]
fn bsr_accessors_match_layout() {
    assert!(!Bsr::new(0x0000).autoneg_completed());
    assert!(!Bsr::new(0x0000).phy_link_up());
    assert!(Bsr::new(0xFFFF).autoneg_completed());
    assert!(Bsr::new(0xFFFF).phy_link_up());
    assert!(Bsr::new(1 << 5).autoneg_completed());
    assert!(Bsr::new(1 << 2).phy_link_up());
    assert!(!Bsr::new(1 << 5).phy_link_up());
    assert!(!Bsr::new(1 << 2).autoneg_completed());
    assert_eq!(Bsr::new(0xA5A5).bits(), 0xA5A5);
}

#[test]
fn next_page_data_is_masked() {
    assert_eq!(NextPage::from_bits(0xFFFF).data(), 0x07FF);
    assert_eq!(NextPage::from_bits(0x0800).data(), 0x0000);
    assert_eq!(NextPage::from_bits(0x0123).data(), 0x0123);

    let mut page = NextPage::from_bits(0x8000);
    page.set_data(0xFFFF);
    assert_eq!(page.bits(), 0x8000 | 0x07FF);
    assert_eq!(page.data(), 0x07FF);
}

#[test]
fn next_page_flags() {
    let mut page = NextPage::from_bits(0);
    page.set_ack(true);
    page.set_ack2(true);
    page.set_message_page(true);
    page.set_toggle_bit(true);
    assert_eq!(page.bits(), (1 << 14) | (1 << 12) | (1 << 13) | (1 << 11));
    assert!(page.ack());
    assert!(page.ack2());
    assert!(page.message_page());
    assert!(page.toggle_bit());
    page.set_ack(false);
    assert!(!page.ack());
    assert!(page.ack2());
}

#[test]
fn ane_next_page_location() {
    // location reported: register 8 when the location bit is set
    let ane = Ane::new((1 << 6) | (1 << 5));
    assert_eq!(ane.next_page_location(7), 8);
    // location reported: register 5 when the location bit is clear
    let ane = Ane::new(1 << 6);
    assert_eq!(ane.next_page_location(7), 5);
    // location not reported: the caller's default wins
    let ane = Ane::new(1 << 5);
    assert_eq!(ane.next_page_location(7), 7);
    let ane = Ane::new(0);
    assert_eq!(ane.next_page_location(5), 5);
}

#[test]
fn ane_accessors_match_layout() {
    let ane = Ane::new(0xFFFF);
    assert!(ane.parallel_detection_fault());
    assert!(ane.page_received());
    assert!(ane.partner_next_page_able());
    assert!(ane.partner_autoneg_capable());
    let ane = Ane::new(0);
    assert!(!ane.parallel_detection_fault());
    assert!(!ane.page_received());
    assert!(!ane.partner_next_page_able());
    assert!(!ane.partner_autoneg_capable());
    assert!(Ane::new(1 << 4).parallel_detection_fault());
    assert!(Ane::new(1 << 1).page_received());
    assert!(Ane::new(1 << 3).partner_next_page_able());
    assert!(Ane::new(1 << 0).partner_autoneg_capable());
}

#[test]
fn esr_keeps_raw_bits() {
    assert_eq!(Esr::new(0xF000).bits(), 0xF000);
    assert_eq!(Esr::new(0x0001).bits(), 0x0001);
}
