//! Drivers for concrete PHY chips, built on the generic [`Phy`]
//! contract.

mod bare;

pub use bare::{BarePhy, IdentPhyError};

pub mod dp83xxx;

pub use dp83xxx::{DP83XXX, DP83640, DP83848};

mod ksz8081r;

pub use ksz8081r::{PhyControl1, KSZ8081R};

pub mod lan87xxa;

pub use lan87xxa::{Interrupt, LAN87xxA, LAN8720A, LAN8742A};

use vstd::prelude::*;

use crate::miim::Miim;
use crate::Phy;

verus! {

/// Basic link speeds, supported by (almost all) PHYs.
#[derive(Clone, Copy, Debug, PartialEq, Eq, Structural)]
pub enum PhySpeed {
    /// 10BaseT - Half duplex
    HalfDuplexBase10T,
    /// 10BaseT - Full duplex
    FullDuplexBase10T,
    /// 100BaseTx - Half duplex
    HalfDuplexBase100Tx,
    /// 100BaseTx - Full duplex
    FullDuplexBase100Tx,
}

/// An "advanced link speed" enum that covers more than just the basic
/// ones described by the standard.
#[derive(Clone, Copy, Debug, PartialEq, Eq, Structural)]
#[allow(missing_docs)]
pub enum AdvancedPhySpeed {
    HalfDuplexBase10T,
    FullDuplexBase10T,
    HalfDuplexBase100Tx,
    FullDuplexBase100Tx,
    HalfDuplexBase1000T,
    FullDuplexBase1000T,
    HalfDuplexBase1000Tx,
    FullDuplexBase1000Tx,
}

/// The advanced speed a basic speed corresponds to.
pub open spec fn spec_advanced_speed(speed: PhySpeed) -> AdvancedPhySpeed {
    match speed {
        PhySpeed::HalfDuplexBase10T => AdvancedPhySpeed::HalfDuplexBase10T,
        PhySpeed::FullDuplexBase10T => AdvancedPhySpeed::FullDuplexBase10T,
        PhySpeed::HalfDuplexBase100Tx => AdvancedPhySpeed::HalfDuplexBase100Tx,
        PhySpeed::FullDuplexBase100Tx => AdvancedPhySpeed::FullDuplexBase100Tx,
    }
}

impl AdvancedPhySpeed {
    /// Widen a basic link speed into the advanced enumeration.
    pub fn from_basic(speed: PhySpeed) -> (r: Self)
        ensures
            r == spec_advanced_speed(speed),
    {
        match speed {
            PhySpeed::HalfDuplexBase10T => AdvancedPhySpeed::HalfDuplexBase10T,
            PhySpeed::FullDuplexBase10T => AdvancedPhySpeed::FullDuplexBase10T,
            PhySpeed::HalfDuplexBase100Tx => AdvancedPhySpeed::HalfDuplexBase100Tx,
            PhySpeed::FullDuplexBase100Tx => AdvancedPhySpeed::FullDuplexBase100Tx,
        }
    }
}

/// A PHY that also supports determining the link speed and duplex mode
/// it is currently operating at.
///
/// How the speed is read out is vendor-specific, so no register
/// sequence is promised here; each chip's own `link_speed` method
/// carries the exact contract.
pub trait PhyWithSpeed<M: Miim>: Phy<M> {
    /// Get the link speed at which this PHY is currently operating.
    fn get_link_speed(&mut self) -> Option<AdvancedPhySpeed>;
}

} // verus!
