//! The register map of the whole device.
//!
//! The transmit half starts at offset 0 and the receive half at offset 0x30.
//! Registers that the two halves share a layout for are typed by the channel
//! register modules.
use crate::pac::generic::Reg;
use vstd::prelude::*;

pub mod mm2s_curdesc;
pub mod mm2s_curdesc_msb;
pub mod mm2s_length;
pub mod mm2s_sa;
pub mod mm2s_sa_msb;
pub mod mm2s_taildesc;
pub mod mm2s_taildesc_msb;
pub mod s2mm_curdesc;
pub mod s2mm_curdesc_msb;
pub mod s2mm_da;
pub mod s2mm_da_msb;
pub mod s2mm_dmacr;
pub mod s2mm_length;
pub mod s2mm_taildesc;
pub mod sg_ctl;

verus! {

/// Transmit control register.
pub type Mm2sDmacr = Reg<crate::pac::channel::dmacr::DmacrSpec>;

/// Transmit status register.
pub type Mm2sDmasr = Reg<crate::pac::channel::dmasr::DmasrSpec>;

/// Transmit current-descriptor pointer, low word.
pub type Mm2sCurdesc = Reg<mm2s_curdesc::Mm2sCurdescSpec>;

/// Transmit current-descriptor pointer, high word.
pub type Mm2sCurdescMsb = Reg<mm2s_curdesc_msb::Mm2sCurdescMsbSpec>;

/// Transmit tail-descriptor pointer, low word.
pub type Mm2sTaildesc = Reg<mm2s_taildesc::Mm2sTaildescSpec>;

/// Transmit tail-descriptor pointer, high word.
pub type Mm2sTaildescMsb = Reg<mm2s_taildesc_msb::Mm2sTaildescMsbSpec>;

/// Transmit source address, low word.
pub type Mm2sSa = Reg<mm2s_sa::Mm2sSaSpec>;

/// Transmit source address, high word.
pub type Mm2sSaMsb = Reg<mm2s_sa_msb::Mm2sSaMsbSpec>;

/// Transmit byte count.
pub type Mm2sLength = Reg<mm2s_length::Mm2sLengthSpec>;

/// Cache and user signals of descriptor accesses.
pub type SgCtl = Reg<sg_ctl::SgCtlSpec>;

/// Receive control register.
pub type S2mmDmacr = Reg<s2mm_dmacr::S2mmDmacrSpec>;

/// Receive status register.
pub type S2mmDmasr = Reg<crate::pac::channel::dmasr::DmasrSpec>;

/// Receive current-descriptor pointer, low word.
pub type S2mmCurdesc = Reg<s2mm_curdesc::S2mmCurdescSpec>;

/// Receive current-descriptor pointer, high word.
pub type S2mmCurdescMsb = Reg<s2mm_curdesc_msb::S2mmCurdescMsbSpec>;

/// Receive tail-descriptor pointer, low word.
pub type S2mmTaildesc = Reg<s2mm_taildesc::S2mmTaildescSpec>;

/// Receive tail-descriptor pointer, high word.
pub type S2mmTaildescMsb = Reg<crate::pac::channel::taildesc_msb::TaildescMsbSpec>;

/// Receive destination address, low word.
pub type S2mmDa = Reg<s2mm_da::S2mmDaSpec>;

/// Receive destination address, high word.
pub type S2mmDaMsb = Reg<s2mm_da_msb::S2mmDaMsbSpec>;

/// Receive byte count.
pub type S2mmLength = Reg<s2mm_length::S2mmLengthSpec>;

/// The register map of the whole device.
pub struct RegisterBlock {
    /// Offset 0x00: transmit control register.
    pub mm2s_dmacr: Mm2sDmacr,
    /// Offset 0x04: transmit status register.
    pub mm2s_dmasr: Mm2sDmasr,
    /// Offset 0x08: transmit current-descriptor pointer, low word.
    pub mm2s_curdesc: Mm2sCurdesc,
    /// Offset 0x0c: transmit current-descriptor pointer, high word.
    pub mm2s_curdesc_msb: Mm2sCurdescMsb,
    /// Offset 0x10: transmit tail-descriptor pointer, low word.
    pub mm2s_taildesc: Mm2sTaildesc,
    /// Offset 0x14: transmit tail-descriptor pointer, high word.
    pub mm2s_taildesc_msb: Mm2sTaildescMsb,
    /// Offset 0x18: transmit source address, low word.
    pub mm2s_sa: Mm2sSa,
    /// Offset 0x1c: transmit source address, high word.
    pub mm2s_sa_msb: Mm2sSaMsb,
    /// Offset 0x28: transmit byte count.
    pub mm2s_length: Mm2sLength,
    /// Offset 0x2c: cache and user signals of descriptor accesses.
    pub sg_ctl: SgCtl,
    /// Offset 0x30: receive control register.
    pub s2mm_dmacr: S2mmDmacr,
    /// Offset 0x34: receive status register.
    pub s2mm_dmasr: S2mmDmasr,
    /// Offset 0x38: receive current-descriptor pointer, low word.
    pub s2mm_curdesc: S2mmCurdesc,
    /// Offset 0x3c: receive current-descriptor pointer, high word.
    pub s2mm_curdesc_msb: S2mmCurdescMsb,
    /// Offset 0x40: receive tail-descriptor pointer, low word.
    pub s2mm_taildesc: S2mmTaildesc,
    /// Offset 0x44: receive tail-descriptor pointer, high word.
    pub s2mm_taildesc_msb: S2mmTaildescMsb,
    /// Offset 0x48: receive destination address, low word.
    pub s2mm_da: S2mmDa,
    /// Offset 0x4c: receive destination address, high word.
    pub s2mm_da_msb: S2mmDaMsb,
    /// Offset 0x58: receive byte count.
    pub s2mm_length: S2mmLength,
}

impl RegisterBlock {
    /// A block with every register at zero.
    pub fn new() -> (block: Self)
        ensures
            block.mm2s_dmacr@ == 0,
            block.mm2s_dmasr@ == 0,
            block.mm2s_curdesc@ == 0,
            block.mm2s_curdesc_msb@ == 0,
            block.mm2s_taildesc@ == 0,
            block.mm2s_taildesc_msb@ == 0,
            block.mm2s_sa@ == 0,
            block.mm2s_sa_msb@ == 0,
            block.mm2s_length@ == 0,
            block.sg_ctl@ == 0,
            block.s2mm_dmacr@ == 0,
            block.s2mm_dmasr@ == 0,
            block.s2mm_curdesc@ == 0,
            block.s2mm_curdesc_msb@ == 0,
            block.s2mm_taildesc@ == 0,
            block.s2mm_taildesc_msb@ == 0,
            block.s2mm_da@ == 0,
            block.s2mm_da_msb@ == 0,
            block.s2mm_length@ == 0,
    {
        RegisterBlock {
            mm2s_dmacr: Reg::new(0),
            mm2s_dmasr: Reg::new(0),
            mm2s_curdesc: Reg::new(0),
            mm2s_curdesc_msb: Reg::new(0),
            mm2s_taildesc: Reg::new(0),
            mm2s_taildesc_msb: Reg::new(0),
            mm2s_sa: Reg::new(0),
            mm2s_sa_msb: Reg::new(0),
            mm2s_length: Reg::new(0),
            sg_ctl: Reg::new(0),
            s2mm_dmacr: Reg::new(0),
            s2mm_dmasr: Reg::new(0),
            s2mm_curdesc: Reg::new(0),
            s2mm_curdesc_msb: Reg::new(0),
            s2mm_taildesc: Reg::new(0),
            s2mm_taildesc_msb: Reg::new(0),
            s2mm_da: Reg::new(0),
            s2mm_da_msb: Reg::new(0),
            s2mm_length: Reg::new(0),
        }
    }

    /// Offset 0x00: transmit control register.
    pub fn mm2s_dmacr(&self) -> (reg: &Mm2sDmacr)
        ensures
            *reg == self.mm2s_dmacr,
    {
        &self.mm2s_dmacr
    }

    /// Offset 0x04: transmit status register.
    pub fn mm2s_dmasr(&self) -> (reg: &Mm2sDmasr)
        ensures
            *reg == self.mm2s_dmasr,
    {
        &self.mm2s_dmasr
    }

    /// Offset 0x08: transmit current-descriptor pointer, low word.
    pub fn mm2s_curdesc(&self) -> (reg: &Mm2sCurdesc)
        ensures
            *reg == self.mm2s_curdesc,
    {
        &self.mm2s_curdesc
    }

    /// Offset 0x0c: transmit current-descriptor pointer, high word.
    pub fn mm2s_curdesc_msb(&self) -> (reg: &Mm2sCurdescMsb)
        ensures
            *reg == self.mm2s_curdesc_msb,
    {
        &self.mm2s_curdesc_msb
    }

    /// Offset 0x10: transmit tail-descriptor pointer, low word.
    pub fn mm2s_taildesc(&self) -> (reg: &Mm2sTaildesc)
        ensures
            *reg == self.mm2s_taildesc,
    {
        &self.mm2s_taildesc
    }

    /// Offset 0x14: transmit tail-descriptor pointer, high word.
    pub fn mm2s_taildesc_msb(&self) -> (reg: &Mm2sTaildescMsb)
        ensures
            *reg == self.mm2s_taildesc_msb,
    {
        &self.mm2s_taildesc_msb
    }

    /// Offset 0x18: transmit source address, low word.
    pub fn mm2s_sa(&self) -> (reg: &Mm2sSa)
        ensures
            *reg == self.mm2s_sa,
    {
        &self.mm2s_sa
    }

    /// Offset 0x1c: transmit source address, high word.
    pub fn mm2s_sa_msb(&self) -> (reg: &Mm2sSaMsb)
        ensures
            *reg == self.mm2s_sa_msb,
    {
        &self.mm2s_sa_msb
    }

    /// Offset 0x28: transmit byte count.
    pub fn mm2s_length(&self) -> (reg: &Mm2sLength)
        ensures
            *reg == self.mm2s_length,
    {
        &self.mm2s_length
    }

    /// Offset 0x2c: cache and user signals of descriptor accesses.
    pub fn sg_ctl(&self) -> (reg: &SgCtl)
        ensures
            *reg == self.sg_ctl,
    {
        &self.sg_ctl
    }

    /// Offset 0x30: receive control register.
    pub fn s2mm_dmacr(&self) -> (reg: &S2mmDmacr)
        ensures
            *reg == self.s2mm_dmacr,
    {
        &self.s2mm_dmacr
    }

    /// Offset 0x34: receive status register.
    pub fn s2mm_dmasr(&self) -> (reg: &S2mmDmasr)
        ensures
            *reg == self.s2mm_dmasr,
    {
        &self.s2mm_dmasr
    }

    /// Offset 0x38: receive current-descriptor pointer, low word.
    pub fn s2mm_curdesc(&self) -> (reg: &S2mmCurdesc)
        ensures
            *reg == self.s2mm_curdesc,
    {
        &self.s2mm_curdesc
    }

    /// Offset 0x3c: receive current-descriptor pointer, high word.
    pub fn s2mm_curdesc_msb(&self) -> (reg: &S2mmCurdescMsb)
        ensures
            *reg == self.s2mm_curdesc_msb,
    {
        &self.s2mm_curdesc_msb
    }

    /// Offset 0x40: receive tail-descriptor pointer, low word.
    pub fn s2mm_taildesc(&self) -> (reg: &S2mmTaildesc)
        ensures
            *reg == self.s2mm_taildesc,
    {
        &self.s2mm_taildesc
    }

    /// Offset 0x44: receive tail-descriptor pointer, high word.
    pub fn s2mm_taildesc_msb(&self) -> (reg: &S2mmTaildescMsb)
        ensures
            *reg == self.s2mm_taildesc_msb,
    {
        &self.s2mm_taildesc_msb
    }

    /// Offset 0x48: receive destination address, low word.
    pub fn s2mm_da(&self) -> (reg: &S2mmDa)
        ensures
            *reg == self.s2mm_da,
    {
        &self.s2mm_da
    }

    /// Offset 0x4c: receive destination address, high word.
    pub fn s2mm_da_msb(&self) -> (reg: &S2mmDaMsb)
        ensures
            *reg == self.s2mm_da_msb,
    {
        &self.s2mm_da_msb
    }

    /// Offset 0x58: receive byte count.
    pub fn s2mm_length(&self) -> (reg: &S2mmLength)
        ensures
            *reg == self.s2mm_length,
    {
        &self.s2mm_length
    }
}

} // verus!
