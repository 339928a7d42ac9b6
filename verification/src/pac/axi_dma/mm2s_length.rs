//! Byte count of a direct-mode transmit.
use crate::pac::generic::{
    FieldReader, FieldWriter, Readable, RegisterSpec, Resettable, Writable, field_of, raw_field,
};
use vstd::prelude::*;

verus! {

/// Names this register: byte count of a direct-mode transmit.
pub struct Mm2sLengthSpec;

impl RegisterSpec for Mm2sLengthSpec {

}

impl Readable for Mm2sLengthSpec {

}

impl Writable for Mm2sLengthSpec {

}

impl Resettable for Mm2sLengthSpec {
    open spec fn spec_reset_value() -> u32 {
        0
    }

    fn reset_value() -> u32 {
        0
    }
}

/// What a read of this register returns.
pub type R = crate::pac::generic::R<Mm2sLengthSpec>;

/// What a write to this register takes.
pub type W = crate::pac::generic::W<Mm2sLengthSpec>;

/// The `length` field as read.
pub type LengthR = FieldReader<u32>;

/// A pending write of the `length` field.
pub type LengthW<REG> = FieldWriter<REG, 26, u32>;

impl R {
    /// Bits 0 to 25: number of bytes to send; writing it starts the transfer.
    pub fn length(&self) -> (field: LengthR)
        ensures
            field@ == field_of(self@, 0, 26),
    {
        LengthR::new(raw_field(self.bits(), 0, 26))
    }
}

impl W {
    /// Bits 0 to 25: number of bytes to send; writing it starts the transfer.
    pub fn length(self) -> (field: LengthW<Mm2sLengthSpec>)
        ensures
            field.before() == self@,
            field.offset() == 0,
    {
        LengthW::new(self, 0)
    }
}

} // verus!
