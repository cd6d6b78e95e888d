//! The management-bus transport: a two-wire interface carrying single
//! 16-bit register reads and writes, addressed by a 5-bit station (PHY)
//! address and a 5-bit register address.

use vstd::prelude::*;

verus! {

/// One operation performed on the management bus.
#[derive(Clone, Copy, Debug, PartialEq, Eq, Structural)]
pub enum BusOp {
    /// A register read: station address, register address, value returned.
    Read(u8, u8, u16),
    /// A register write: station address, register address, value written.
    Write(u8, u8, u16),
}

/// The 16-bit value carried by a bus operation: the data a read returned,
/// or the data a write sent.
pub open spec fn op_data(op: BusOp) -> u16 {
    match op {
        BusOp::Read(_, _, data) => data,
        BusOp::Write(_, _, data) => data,
    }
}

/// Access to the Media Independent Interface management bus of an
/// IEEE 802.3 compatible PHY.
///
/// The contract records every bus operation in a ghost log, so that the
/// register sequences built on top of this trait can be pinned down
/// exactly. Nothing is promised about the value a read returns: a real
/// bus hands back whatever the hardware reports at that moment, garbage
/// included.
pub trait Miim: Sized {
    /// The operations performed on this bus so far, oldest first.
    spec fn log(&self) -> Seq<BusOp>;

    /// Read an MII register.
    fn read(&mut self, phy: u8, reg: u8) -> (data: u16)
        ensures
            final(self).log() == old(self).log().push(BusOp::Read(phy, reg, data)),
    ;

    /// Write to an MII register.
    fn write(&mut self, phy: u8, reg: u8, data: u16)
        ensures
            final(self).log() == old(self).log().push(BusOp::Write(phy, reg, data)),
    ;
}

/// A scripted transport for exercising PHY drivers without hardware:
/// reads return values laid out in advance, and every bus operation is
/// recorded so a test can check the exact register sequence a driver
/// produced.
#[derive(Debug)]
pub struct ScriptedMiim {
    script: Vec<u16>,
    cursor: usize,
    ops: Vec<BusOp>,
}

impl ScriptedMiim {
    /// Create a transport whose successive reads return `script`'s
    /// elements in order, then zero once the script is exhausted.
    pub fn new(script: Vec<u16>) -> (r: Self)
        ensures
            r.log() == Seq::<BusOp>::empty(),
    {
        ScriptedMiim { script, cursor: 0, ops: Vec::new() }
    }

    /// The operations performed so far, as plain data.
    pub fn operations(&self) -> (r: &Vec<BusOp>)
        ensures
            r@ == self.log(),
    {
        &self.ops
    }
}

impl Miim for ScriptedMiim {
    closed spec fn log(&self) -> Seq<BusOp> {
        self.ops@
    }

    fn read(&mut self, phy: u8, reg: u8) -> (data: u16) {
        let data: u16 = if self.cursor < self.script.len() {
            let d = self.script[self.cursor];
            self.cursor += 1;
            d
        } else {
            0
        };
        self.ops.push(BusOp::Read(phy, reg, data));
        data
    }

    fn write(&mut self, phy: u8, reg: u8, data: u16) {
        self.ops.push(BusOp::Write(phy, reg, data));
    }
}

} // verus!
