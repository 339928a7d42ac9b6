//! Tail-descriptor pointer of the transmit channel, high word.
use crate::pac::generic::{
    FieldReader, FieldWriter, Readable, RegisterSpec, Resettable, Writable, field_of, raw_field,
};
use vstd::prelude::*;

verus! {

/// Names this register: tail-descriptor pointer of the transmit channel, high
/// word.
pub struct Mm2sTaildescMsbSpec;

impl RegisterSpec for Mm2sTaildescMsbSpec {

}

impl Readable for Mm2sTaildescMsbSpec {

}

impl Writable for Mm2sTaildescMsbSpec {

}

impl Resettable for Mm2sTaildescMsbSpec {
    open spec fn spec_reset_value() -> u32 {
        0
    }

    fn reset_value() -> u32 {
        0
    }
}

/// What a read of this register returns.
pub type R = crate::pac::generic::R<Mm2sTaildescMsbSpec>;

/// What a write to this register takes.
pub type W = crate::pac::generic::W<Mm2sTaildescMsbSpec>;

/// The `taildesc_ptr` field as read.
pub type TaildescPtrR = FieldReader<u32>;

/// A pending write of the `taildesc_ptr` field.
pub type TaildescPtrW<REG> = FieldWriter<REG, 32, u32>;

impl R {
    /// Bits 0 to 31: the high half of the address of the descriptor the channel
    /// pauses after.
    pub fn taildesc_ptr(&self) -> (field: TaildescPtrR)
        ensures
            field@ == field_of(self@, 0, 32),
    {
        TaildescPtrR::new(raw_field(self.bits(), 0, 32))
    }
}

impl W {
    /// Bits 0 to 31: the high half of the address of the descriptor the channel
    /// pauses after.
    pub fn taildesc_ptr(self) -> (field: TaildescPtrW<Mm2sTaildescMsbSpec>)
        ensures
            field.before() == self@,
            field.offset() == 0,
    {
        TaildescPtrW::new(self, 0)
    }
}

} // verus!
