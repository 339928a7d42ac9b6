//! Current-descriptor pointer of the receive channel, high word.
use crate::pac::generic::{
    FieldReader, FieldWriter, Readable, RegisterSpec, Resettable, Writable, field_of, raw_field,
};
use vstd::prelude::*;

verus! {

/// Names this register: current-descriptor pointer of the receive channel, high
/// word.
pub struct S2mmCurdescMsbSpec;

impl RegisterSpec for S2mmCurdescMsbSpec {

}

impl Readable for S2mmCurdescMsbSpec {

}

impl Writable for S2mmCurdescMsbSpec {

}

impl Resettable for S2mmCurdescMsbSpec {
    open spec fn spec_reset_value() -> u32 {
        0
    }

    fn reset_value() -> u32 {
        0
    }
}

/// What a read of this register returns.
pub type R = crate::pac::generic::R<S2mmCurdescMsbSpec>;

/// What a write to this register takes.
pub type W = crate::pac::generic::W<S2mmCurdescMsbSpec>;

/// The `curdesc_ptr` field as read.
pub type CurdescPtrR = FieldReader<u32>;

/// A pending write of the `curdesc_ptr` field.
pub type CurdescPtrW<REG> = FieldWriter<REG, 32, u32>;

impl R {
    /// Bits 0 to 31: the high half of the address of the descriptor the channel
    /// starts from.
    pub fn curdesc_ptr(&self) -> (field: CurdescPtrR)
        ensures
            field@ == field_of(self@, 0, 32),
    {
        CurdescPtrR::new(raw_field(self.bits(), 0, 32))
    }
}

impl W {
    /// Bits 0 to 31: the high half of the address of the descriptor the channel
    /// starts from.
    pub fn curdesc_ptr(self) -> (field: CurdescPtrW<S2mmCurdescMsbSpec>)
        ensures
            field.before() == self@,
            field.offset() == 0,
    {
        CurdescPtrW::new(self, 0)
    }
}

} // verus!
