//! Register-level view of the DMA engine: the register block of one channel,
//! the register map of the whole device, and the scatter-gather descriptor.
//!
//! Every register here is an image in ordinary memory (see
//! [`generic::Reg`]); nothing in this module touches a device.
use vstd::prelude::*;

pub mod axi_dma;
pub mod channel;
pub mod generic;
pub mod sg_desc;

verus! {

/// Handle on the register map of the device.
#[allow(non_camel_case_types)]
pub struct AXI_DMA;

impl AXI_DMA {
    /// Address at which the register map is usually placed.
    pub fn ptr() -> (address: usize)
        ensures
            address == 0x6010_0000,
    {
        0x6010_0000
    }
}

/// Handle on the descriptor layout.
#[allow(non_camel_case_types)]
pub struct SG_DESC;

impl SG_DESC {
    /// Descriptors have no fixed place: the layout is anchored at zero.
    pub fn ptr() -> (address: usize)
        ensures
            address == 0,
    {
        0
    }
}

} // verus!
