//! One scatter-gather descriptor as the device lays it out.
//!
//! A descriptor takes 0x34 bytes and starts on a 64-byte boundary; offsets
//! 0x10 to 0x17 are reserved.
use crate::pac::generic::Reg;
use vstd::prelude::*;

pub mod app;
pub mod buf_addr;
pub mod buf_addr_msb;
pub mod control;
pub mod nxt_desc;
pub mod nxt_desc_msb;
pub mod status;

verus! {

/// Next-descriptor pointer, low word.
pub type NxtDesc = Reg<nxt_desc::NxtDescSpec>;

/// Next-descriptor pointer, high word.
pub type NxtDescMsb = Reg<nxt_desc_msb::NxtDescMsbSpec>;

/// Buffer address, low word.
pub type BufAddr = Reg<buf_addr::BufAddrSpec>;

/// Buffer address, high word.
pub type BufAddrMsb = Reg<buf_addr_msb::BufAddrMsbSpec>;

/// Control word.
pub type Control = Reg<control::ControlSpec>;

/// Status word.
pub type Status = Reg<status::StatusSpec>;

/// One application word.
pub type App = Reg<app::AppSpec>;

/// One scatter-gather descriptor as the device lays it out.
pub struct RegisterBlock {
    /// Offset 0x00: next-descriptor pointer, low word.
    pub nxt_desc: NxtDesc,
    /// Offset 0x04: next-descriptor pointer, high word.
    pub nxt_desc_msb: NxtDescMsb,
    /// Offset 0x08: buffer address, low word.
    pub buf_addr: BufAddr,
    /// Offset 0x0c: buffer address, high word.
    pub buf_addr_msb: BufAddrMsb,
    /// Offset 0x18: control word.
    pub control: Control,
    /// Offset 0x1c: status word.
    pub status: Status,
    /// Offset 0x20: the five application words.
    pub app: [App; 5],
}

impl RegisterBlock {
    /// A block with every register at zero.
    pub fn new() -> (block: Self)
        ensures
            block.nxt_desc@ == 0,
            block.nxt_desc_msb@ == 0,
            block.buf_addr@ == 0,
            block.buf_addr_msb@ == 0,
            block.control@ == 0,
            block.status@ == 0,
            forall|n: int| 0 <= n < 5 ==> (#[trigger] block.app[n])@ == 0,
    {
        RegisterBlock {
            nxt_desc: Reg::new(0),
            nxt_desc_msb: Reg::new(0),
            buf_addr: Reg::new(0),
            buf_addr_msb: Reg::new(0),
            control: Reg::new(0),
            status: Reg::new(0),
            app: [Reg::new(0), Reg::new(0), Reg::new(0), Reg::new(0), Reg::new(0)],
        }
    }

    /// Offset 0x00: next-descriptor pointer, low word.
    pub fn nxt_desc(&self) -> (reg: &NxtDesc)
        ensures
            *reg == self.nxt_desc,
    {
        &self.nxt_desc
    }

    /// Offset 0x04: next-descriptor pointer, high word.
    pub fn nxt_desc_msb(&self) -> (reg: &NxtDescMsb)
        ensures
            *reg == self.nxt_desc_msb,
    {
        &self.nxt_desc_msb
    }

    /// Offset 0x08: buffer address, low word.
    pub fn buf_addr(&self) -> (reg: &BufAddr)
        ensures
            *reg == self.buf_addr,
    {
        &self.buf_addr
    }

    /// Offset 0x0c: buffer address, high word.
    pub fn buf_addr_msb(&self) -> (reg: &BufAddrMsb)
        ensures
            *reg == self.buf_addr_msb,
    {
        &self.buf_addr_msb
    }

    /// Offset 0x18: control word.
    pub fn control(&self) -> (reg: &Control)
        ensures
            *reg == self.control,
    {
        &self.control
    }

    /// Offset 0x1c: status word.
    pub fn status(&self) -> (reg: &Status)
        ensures
            *reg == self.status,
    {
        &self.status
    }

    /// Offset 0x20 + 4 * `n`: application word `n`.
    pub fn app(&self, n: usize) -> (reg: &App)
        requires
            n < 5,
        ensures
            *reg == self.app[n as int],
    {
        &self.app[n]
    }
}

} // verus!
