//! Source address of a direct-mode transmit, low word.
use crate::pac::generic::{
    FieldReader, FieldWriter, Readable, RegisterSpec, Resettable, Writable, field_of, raw_field,
};
use vstd::prelude::*;

verus! {

/// Names this register: source address of a direct-mode transmit, low word.
pub struct Mm2sSaSpec;

impl RegisterSpec for Mm2sSaSpec {

}

impl Readable for Mm2sSaSpec {

}

impl Writable for Mm2sSaSpec {

}

impl Resettable for Mm2sSaSpec {
    open spec fn spec_reset_value() -> u32 {
        0
    }

    fn reset_value() -> u32 {
        0
    }
}

/// What a read of this register returns.
pub type R = crate::pac::generic::R<Mm2sSaSpec>;

/// What a write to this register takes.
pub type W = crate::pac::generic::W<Mm2sSaSpec>;

/// The `src_addr` field as read.
pub type SrcAddrR = FieldReader<u32>;

/// A pending write of the `src_addr` field.
pub type SrcAddrW<REG> = FieldWriter<REG, 32, u32>;

impl R {
    /// Bits 0 to 31: the low half of the address the device reads from.
    pub fn src_addr(&self) -> (field: SrcAddrR)
        ensures
            field@ == field_of(self@, 0, 32),
    {
        SrcAddrR::new(raw_field(self.bits(), 0, 32))
    }
}

impl W {
    /// Bits 0 to 31: the low half of the address the device reads from.
    pub fn src_addr(self) -> (field: SrcAddrW<Mm2sSaSpec>)
        ensures
            field.before() == self@,
            field.offset() == 0,
    {
        SrcAddrW::new(self, 0)
    }
}

} // verus!
