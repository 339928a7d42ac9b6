//! Tail-descriptor pointer of one channel, low word.
use crate::pac::generic::{
    FieldReader, FieldWriter, Readable, RegisterSpec, Resettable, Writable, field_of, raw_field,
};
use vstd::prelude::*;

verus! {

/// Names this register: tail-descriptor pointer of one channel, low word.
pub struct TaildescSpec;

impl RegisterSpec for TaildescSpec {

}

impl Readable for TaildescSpec {

}

impl Writable for TaildescSpec {

}

impl Resettable for TaildescSpec {
    open spec fn spec_reset_value() -> u32 {
        0
    }

    fn reset_value() -> u32 {
        0
    }
}

/// What a read of this register returns.
pub type R = crate::pac::generic::R<TaildescSpec>;

/// What a write to this register takes.
pub type W = crate::pac::generic::W<TaildescSpec>;

/// The `taildesc_ptr` field as read.
pub type TaildescPtrR = FieldReader<u32>;

/// A pending write of the `taildesc_ptr` field.
pub type TaildescPtrW<REG> = FieldWriter<REG, 26, u32>;

impl R {
    /// Bits 6 to 31: the address of the descriptor the channel pauses after,
    /// without its low six bits, which are zero.
    pub fn taildesc_ptr(&self) -> (field: TaildescPtrR)
        ensures
            field@ == field_of(self@, 6, 26),
    {
        TaildescPtrR::new(raw_field(self.bits(), 6, 26))
    }
}

impl W {
    /// Bits 6 to 31: the address of the descriptor the channel pauses after,
    /// without its low six bits, which are zero.
    pub fn taildesc_ptr(self) -> (field: TaildescPtrW<TaildescSpec>)
        ensures
            field.before() == self@,
            field.offset() == 6,
    {
        TaildescPtrW::new(self, 6)
    }
}

} // verus!
