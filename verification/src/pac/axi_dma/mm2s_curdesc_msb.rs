//! Current-descriptor pointer of the transmit channel, high word.
use crate::pac::generic::{
    FieldReader, FieldWriter, Readable, RegisterSpec, Resettable, Writable, field_of, raw_field,
};
use vstd::prelude::*;

verus! {

/// Names this register: current-descriptor pointer of the transmit channel,
/// high word.
pub struct Mm2sCurdescMsbSpec;

impl RegisterSpec for Mm2sCurdescMsbSpec {

}

impl Readable for Mm2sCurdescMsbSpec {

}

impl Writable for Mm2sCurdescMsbSpec {

}

impl Resettable for Mm2sCurdescMsbSpec {
    open spec fn spec_reset_value() -> u32 {
        0
    }

    fn reset_value() -> u32 {
        0
    }
}

/// What a read of this register returns.
pub type R = crate::pac::generic::R<Mm2sCurdescMsbSpec>;

/// What a write to this register takes.
pub type W = crate::pac::generic::W<Mm2sCurdescMsbSpec>;

/// The `curdesc_ptr` field as read.
pub type CurdescPtrR = FieldReader<u32>;

/// A pending write of the `curdesc_ptr` field.
pub type CurdescPtrW<REG> = FieldWriter<REG, 32, u32>;

impl R {
    /// Bits 0 to 31: the high half of the address of the descriptor the channel
    /// starts from.
    pub fn curdesc_ptr(&self) -> (field: CurdescPtrR)
        ensures
            field@ == field_of(self@, 0, 32),
    {
        CurdescPtrR::new(raw_field(self.bits(), 0, 32))
    }
}

impl W {
    /// Bits 0 to 31: the high half of the address of the descriptor the channel
    /// starts from.
    pub fn curdesc_ptr(self) -> (field: CurdescPtrW<Mm2sCurdescMsbSpec>)
        ensures
            field.before() == self@,
            field.offset() == 0,
    {
        CurdescPtrW::new(self, 0)
    }
}

} // verus!
