//! One of the five application words of a descriptor.
use crate::pac::generic::{
    FieldReader, FieldWriter, Readable, RegisterSpec, Resettable, Writable, field_of, raw_field,
};
use vstd::prelude::*;

verus! {

/// Names this register: one of the five application words of a descriptor.
pub struct AppSpec;

impl RegisterSpec for AppSpec {

}

impl Readable for AppSpec {

}

impl Writable for AppSpec {

}

impl Resettable for AppSpec {
    open spec fn spec_reset_value() -> u32 {
        0
    }

    fn reset_value() -> u32 {
        0
    }
}

/// What a read of this register returns.
pub type R = crate::pac::generic::R<AppSpec>;

/// What a write to this register takes.
pub type W = crate::pac::generic::W<AppSpec>;

/// The `app` field as read.
pub type AppR = FieldReader<u32>;

/// A pending write of the `app` field.
pub type AppW<REG> = FieldWriter<REG, 32, u32>;

impl R {
    /// Bits 0 to 31: application data; the driver core only ever clears it.
    pub fn app(&self) -> (field: AppR)
        ensures
            field@ == field_of(self@, 0, 32),
    {
        AppR::new(raw_field(self.bits(), 0, 32))
    }
}

impl W {
    /// Bits 0 to 31: application data; the driver core only ever clears it.
    pub fn app(self) -> (field: AppW<AppSpec>)
        ensures
            field.before() == self@,
            field.offset() == 0,
    {
        AppW::new(self, 0)
    }
}

} // verus!
