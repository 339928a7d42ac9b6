//! Current-descriptor pointer of one channel, low word.
use crate::pac::generic::{
    FieldReader, FieldWriter, Readable, RegisterSpec, Resettable, Writable, field_of, raw_field,
};
use vstd::prelude::*;

verus! {

/// Names this register: current-descriptor pointer of one channel, low word.
pub struct CurdescSpec;

impl RegisterSpec for CurdescSpec {

}

impl Readable for CurdescSpec {

}

impl Writable for CurdescSpec {

}

impl Resettable for CurdescSpec {
    open spec fn spec_reset_value() -> u32 {
        0
    }

    fn reset_value() -> u32 {
        0
    }
}

/// What a read of this register returns.
pub type R = crate::pac::generic::R<CurdescSpec>;

/// What a write to this register takes.
pub type W = crate::pac::generic::W<CurdescSpec>;

/// The `curdesc_ptr` field as read.
pub type CurdescPtrR = FieldReader<u32>;

/// A pending write of the `curdesc_ptr` field.
pub type CurdescPtrW<REG> = FieldWriter<REG, 26, u32>;

impl R {
    /// Bits 6 to 31: the address of the descriptor the channel starts from,
    /// without its low six bits, which are zero.
    pub fn curdesc_ptr(&self) -> (field: CurdescPtrR)
        ensures
            field@ == field_of(self@, 6, 26),
    {
        CurdescPtrR::new(raw_field(self.bits(), 6, 26))
    }
}

impl W {
    /// Bits 6 to 31: the address of the descriptor the channel starts from,
    /// without its low six bits, which are zero.
    pub fn curdesc_ptr(self) -> (field: CurdescPtrW<CurdescSpec>)
        ensures
            field.before() == self@,
            field.offset() == 6,
    {
        CurdescPtrW::new(self, 6)
    }
}

} // verus!
