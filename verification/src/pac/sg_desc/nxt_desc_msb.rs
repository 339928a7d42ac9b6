//! Next-descriptor pointer, high word.
use crate::pac::generic::{
    FieldReader, FieldWriter, Readable, RegisterSpec, Resettable, Writable, field_of, raw_field,
};
use vstd::prelude::*;

verus! {

/// Names this register: next-descriptor pointer, high word.
pub struct NxtDescMsbSpec;

impl RegisterSpec for NxtDescMsbSpec {

}

impl Readable for NxtDescMsbSpec {

}

impl Writable for NxtDescMsbSpec {

}

impl Resettable for NxtDescMsbSpec {
    open spec fn spec_reset_value() -> u32 {
        0
    }

    fn reset_value() -> u32 {
        0
    }
}

/// What a read of this register returns.
pub type R = crate::pac::generic::R<NxtDescMsbSpec>;

/// What a write to this register takes.
pub type W = crate::pac::generic::W<NxtDescMsbSpec>;

/// The `nxt_desc_ptr` field as read.
pub type NxtDescPtrR = FieldReader<u32>;

/// A pending write of the `nxt_desc_ptr` field.
pub type NxtDescPtrW<REG> = FieldWriter<REG, 32, u32>;

impl R {
    /// Bits 0 to 31: the high half of the address of the descriptor that
    /// follows this one.
    pub fn nxt_desc_ptr(&self) -> (field: NxtDescPtrR)
        ensures
            field@ == field_of(self@, 0, 32),
    {
        NxtDescPtrR::new(raw_field(self.bits(), 0, 32))
    }
}

impl W {
    /// Bits 0 to 31: the high half of the address of the descriptor that
    /// follows this one.
    pub fn nxt_desc_ptr(self) -> (field: NxtDescPtrW<NxtDescMsbSpec>)
        ensures
            field.before() == self@,
            field.offset() == 0,
    {
        NxtDescPtrW::new(self, 0)
    }
}

} // verus!
