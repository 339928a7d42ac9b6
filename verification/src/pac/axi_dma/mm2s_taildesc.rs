//! Tail-descriptor pointer of the transmit channel, low word.
use crate::pac::generic::{
    FieldReader, FieldWriter, Readable, RegisterSpec, Resettable, Writable, field_of, raw_field,
};
use vstd::prelude::*;

verus! {

/// Names this register: tail-descriptor pointer of the transmit channel, low
/// word.
pub struct Mm2sTaildescSpec;

impl RegisterSpec for Mm2sTaildescSpec {

}

impl Readable for Mm2sTaildescSpec {

}

impl Writable for Mm2sTaildescSpec {

}

impl Resettable for Mm2sTaildescSpec {
    open spec fn spec_reset_value() -> u32 {
        0
    }

    fn reset_value() -> u32 {
        0
    }
}

/// What a read of this register returns.
pub type R = crate::pac::generic::R<Mm2sTaildescSpec>;

/// What a write to this register takes.
pub type W = crate::pac::generic::W<Mm2sTaildescSpec>;

/// The `taildesc_ptr` field as read.
pub type TaildescPtrR = FieldReader<u32>;

/// A pending write of the `taildesc_ptr` field.
pub type TaildescPtrW<REG> = FieldWriter<REG, 26, u32>;

impl R {
    /// Bits 6 to 31: the address of the descriptor the channel pauses after,
    /// without its low six bits, which are zero.
    pub fn taildesc_ptr(&self) -> (field: TaildescPtrR)
        ensures
            field@ == field_of(self@, 6, 26),
    {
        TaildescPtrR::new(raw_field(self.bits(), 6, 26))
    }
}

impl W {
    /// Bits 6 to 31: the address of the descriptor the channel pauses after,
    /// without its low six bits, which are zero.
    pub fn taildesc_ptr(self) -> (field: TaildescPtrW<Mm2sTaildescSpec>)
        ensures
            field.before() == self@,
            field.offset() == 6,
    {
        TaildescPtrW::new(self, 6)
    }
}

} // verus!
