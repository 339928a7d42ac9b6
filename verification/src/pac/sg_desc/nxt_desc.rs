//! Next-descriptor pointer, low word.
use crate::pac::generic::{
    FieldReader, FieldWriter, Readable, RegisterSpec, Resettable, Writable, field_of, raw_field,
};
use vstd::prelude::*;

verus! {

/// Names this register: next-descriptor pointer, low word.
pub struct NxtDescSpec;

impl RegisterSpec for NxtDescSpec {

}

impl Readable for NxtDescSpec {

}

impl Writable for NxtDescSpec {

}

impl Resettable for NxtDescSpec {
    open spec fn spec_reset_value() -> u32 {
        0
    }

    fn reset_value() -> u32 {
        0
    }
}

/// What a read of this register returns.
pub type R = crate::pac::generic::R<NxtDescSpec>;

/// What a write to this register takes.
pub type W = crate::pac::generic::W<NxtDescSpec>;

/// The `nxt_desc_ptr` field as read.
pub type NxtDescPtrR = FieldReader<u32>;

/// A pending write of the `nxt_desc_ptr` field.
pub type NxtDescPtrW<REG> = FieldWriter<REG, 26, u32>;

impl R {
    /// Bits 6 to 31: the address of the descriptor that follows this one,
    /// without its low six bits, which are zero.
    pub fn nxt_desc_ptr(&self) -> (field: NxtDescPtrR)
        ensures
            field@ == field_of(self@, 6, 26),
    {
        NxtDescPtrR::new(raw_field(self.bits(), 6, 26))
    }
}

impl W {
    /// Bits 6 to 31: the address of the descriptor that follows this one,
    /// without its low six bits, which are zero.
    pub fn nxt_desc_ptr(self) -> (field: NxtDescPtrW<NxtDescSpec>)
        ensures
            field.before() == self@,
            field.offset() == 6,
    {
        NxtDescPtrW::new(self, 6)
    }
}

} // verus!
