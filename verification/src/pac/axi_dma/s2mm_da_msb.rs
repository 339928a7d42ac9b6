//! Destination address of a direct-mode receive, high word.
use crate::pac::generic::{
    FieldReader, FieldWriter, Readable, RegisterSpec, Resettable, Writable, field_of, raw_field,
};
use vstd::prelude::*;

verus! {

/// Names this register: destination address of a direct-mode receive, high
/// word.
pub struct S2mmDaMsbSpec;

impl RegisterSpec for S2mmDaMsbSpec {

}

impl Readable for S2mmDaMsbSpec {

}

impl Writable for S2mmDaMsbSpec {

}

impl Resettable for S2mmDaMsbSpec {
    open spec fn spec_reset_value() -> u32 {
        0
    }

    fn reset_value() -> u32 {
        0
    }
}

/// What a read of this register returns.
pub type R = crate::pac::generic::R<S2mmDaMsbSpec>;

/// What a write to this register takes.
pub type W = crate::pac::generic::W<S2mmDaMsbSpec>;

/// The `dst_addr` field as read.
pub type DstAddrR = FieldReader<u32>;

/// A pending write of the `dst_addr` field.
pub type DstAddrW<REG> = FieldWriter<REG, 32, u32>;

impl R {
    /// Bits 0 to 31: the high half of the address the device writes to.
    pub fn dst_addr(&self) -> (field: DstAddrR)
        ensures
            field@ == field_of(self@, 0, 32),
    {
        DstAddrR::new(raw_field(self.bits(), 0, 32))
    }
}

impl W {
    /// Bits 0 to 31: the high half of the address the device writes to.
    pub fn dst_addr(self) -> (field: DstAddrW<S2mmDaMsbSpec>)
        ensures
            field.before() == self@,
            field.offset() == 0,
    {
        DstAddrW::new(self, 0)
    }
}

} // verus!
