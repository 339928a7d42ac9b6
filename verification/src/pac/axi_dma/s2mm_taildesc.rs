//! Tail-descriptor pointer of the receive channel, low word.
use crate::pac::generic::{
    FieldReader, FieldWriter, Readable, RegisterSpec, Resettable, Writable, field_of, raw_field,
};
use vstd::prelude::*;

verus! {

/// Names this register: tail-descriptor pointer of the receive channel, low
/// word.
pub struct S2mmTaildescSpec;

impl RegisterSpec for S2mmTaildescSpec {

}

impl Readable for S2mmTaildescSpec {

}

impl Writable for S2mmTaildescSpec {

}

impl Resettable for S2mmTaildescSpec {
    open spec fn spec_reset_value() -> u32 {
        0
    }

    fn reset_value() -> u32 {
        0
    }
}

/// What a read of this register returns.
pub type R = crate::pac::generic::R<S2mmTaildescSpec>;

/// What a write to this register takes.
pub type W = crate::pac::generic::W<S2mmTaildescSpec>;

/// The `taildesc_ptr` field as read.
pub type TaildescPtrR = FieldReader<u32>;

/// A pending write of the `taildesc_ptr` field.
pub type TaildescPtrW<REG> = FieldWriter<REG, 26, u32>;

impl R {
    /// Bits 6 to 31: the address of the descriptor the channel pauses after,
    /// without its low six bits, which are zero.
    pub fn taildesc_ptr(&self) -> (field: TaildescPtrR)
        ensures
            field@ == field_of(self@, 6, 26),
    {
        TaildescPtrR::new(raw_field(self.bits(), 6, 26))
    }
}

impl W {
    /// Bits 6 to 31: the address of the descriptor the channel pauses after,
    /// without its low six bits, which are zero.
    pub fn taildesc_ptr(self) -> (field: TaildescPtrW<S2mmTaildescSpec>)
        ensures
            field.before() == self@,
            field.offset() == 6,
    {
        TaildescPtrW::new(self, 6)
    }
}

} // verus!
