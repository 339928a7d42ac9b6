//! Buffer address, low word.
use crate::pac::generic::{
    FieldReader, FieldWriter, Readable, RegisterSpec, Resettable, Writable, field_of, raw_field,
};
use vstd::prelude::*;

verus! {

/// Names this register: buffer address, low word.
pub struct BufAddrSpec;

impl RegisterSpec for BufAddrSpec {

}

impl Readable for BufAddrSpec {

}

impl Writable for BufAddrSpec {

}

impl Resettable for BufAddrSpec {
    open spec fn spec_reset_value() -> u32 {
        0
    }

    fn reset_value() -> u32 {
        0
    }
}

/// What a read of this register returns.
pub type R = crate::pac::generic::R<BufAddrSpec>;

/// What a write to this register takes.
pub type W = crate::pac::generic::W<BufAddrSpec>;

/// The `buf_addr` field as read.
pub type BufAddrR = FieldReader<u32>;

/// A pending write of the `buf_addr` field.
pub type BufAddrW<REG> = FieldWriter<REG, 32, u32>;

impl R {
    /// Bits 0 to 31: the low half of the address of the data buffer.
    pub fn buf_addr(&self) -> (field: BufAddrR)
        ensures
            field@ == field_of(self@, 0, 32),
    {
        BufAddrR::new(raw_field(self.bits(), 0, 32))
    }
}

impl W {
    /// Bits 0 to 31: the low half of the address of the data buffer.
    pub fn buf_addr(self) -> (field: BufAddrW<BufAddrSpec>)
        ensures
            field.before() == self@,
            field.offset() == 0,
    {
        BufAddrW::new(self, 0)
    }
}

} // verus!
