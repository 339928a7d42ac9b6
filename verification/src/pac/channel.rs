//! The six registers of one channel.
//!
//! Both channels of the engine have this layout; the transmit channel usually
//! sits at offset 0 of the device and the receive channel at offset 0x30.
use crate::pac::generic::Reg;
use vstd::prelude::*;

pub mod curdesc;
pub mod curdesc_msb;
pub mod dmacr;
pub mod dmasr;
pub mod taildesc;
pub mod taildesc_msb;

verus! {

/// Control register.
pub type Dmacr = Reg<dmacr::DmacrSpec>;

/// Status register.
pub type Dmasr = Reg<dmasr::DmasrSpec>;

/// Current-descriptor pointer, low word.
pub type Curdesc = Reg<curdesc::CurdescSpec>;

/// Current-descriptor pointer, high word.
pub type CurdescMsb = Reg<curdesc_msb::CurdescMsbSpec>;

/// Tail-descriptor pointer, low word.
pub type Taildesc = Reg<taildesc::TaildescSpec>;

/// Tail-descriptor pointer, high word.
pub type TaildescMsb = Reg<taildesc_msb::TaildescMsbSpec>;

/// The six registers of one channel.
pub struct RegisterBlock {
    /// Offset 0x00: control register.
    pub dmacr: Dmacr,
    /// Offset 0x04: status register.
    pub dmasr: Dmasr,
    /// Offset 0x08: current-descriptor pointer, low word.
    pub curdesc: Curdesc,
    /// Offset 0x0c: current-descriptor pointer, high word.
    pub curdesc_msb: CurdescMsb,
    /// Offset 0x10: tail-descriptor pointer, low word.
    pub taildesc: Taildesc,
    /// Offset 0x14: tail-descriptor pointer, high word.
    pub taildesc_msb: TaildescMsb,
}

impl RegisterBlock {
    /// A block with every register at zero.
    pub fn new() -> (block: Self)
        ensures
            block.dmacr@ == 0,
            block.dmasr@ == 0,
            block.curdesc@ == 0,
            block.curdesc_msb@ == 0,
            block.taildesc@ == 0,
            block.taildesc_msb@ == 0,
    {
        RegisterBlock {
            dmacr: Reg::new(0),
            dmasr: Reg::new(0),
            curdesc: Reg::new(0),
            curdesc_msb: Reg::new(0),
            taildesc: Reg::new(0),
            taildesc_msb: Reg::new(0),
        }
    }

    /// Offset 0x00: control register.
    pub fn dmacr(&self) -> (reg: &Dmacr)
        ensures
            *reg == self.dmacr,
    {
        &self.dmacr
    }

    /// Offset 0x04: status register.
    pub fn dmasr(&self) -> (reg: &Dmasr)
        ensures
            *reg == self.dmasr,
    {
        &self.dmasr
    }

    /// Offset 0x08: current-descriptor pointer, low word.
    pub fn curdesc(&self) -> (reg: &Curdesc)
        ensures
            *reg == self.curdesc,
    {
        &self.curdesc
    }

    /// Offset 0x0c: current-descriptor pointer, high word.
    pub fn curdesc_msb(&self) -> (reg: &CurdescMsb)
        ensures
            *reg == self.curdesc_msb,
    {
        &self.curdesc_msb
    }

    /// Offset 0x10: tail-descriptor pointer, low word.
    pub fn taildesc(&self) -> (reg: &Taildesc)
        ensures
            *reg == self.taildesc,
    {
        &self.taildesc
    }

    /// Offset 0x14: tail-descriptor pointer, high word.
    pub fn taildesc_msb(&self) -> (reg: &TaildescMsb)
        ensures
            *reg == self.taildesc_msb,
    {
        &self.taildesc_msb
    }
}

} // verus!
