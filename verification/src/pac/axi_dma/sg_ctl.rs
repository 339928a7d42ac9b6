//! Cache and user signals of descriptor accesses.
use crate::pac::generic::{
    FieldReader, FieldWriter, Readable, RegisterSpec, Resettable, Writable, field_of,
    lemma_mask_values, raw_field,
};
use vstd::prelude::*;

verus! {

/// Names this register: cache and user signals of descriptor accesses.
pub struct SgCtlSpec;

impl RegisterSpec for SgCtlSpec {

}

impl Readable for SgCtlSpec {

}

impl Writable for SgCtlSpec {

}

impl Resettable for SgCtlSpec {
    open spec fn spec_reset_value() -> u32 {
        0
    }

    fn reset_value() -> u32 {
        0
    }
}

/// What a read of this register returns.
pub type R = crate::pac::generic::R<SgCtlSpec>;

/// What a write to this register takes.
pub type W = crate::pac::generic::W<SgCtlSpec>;

/// The `sg_cache` field as read.
pub type SgCacheR = FieldReader<u8>;

/// A pending write of the `sg_cache` field.
pub type SgCacheW<REG> = FieldWriter<REG, 4, u8>;

/// The `sg_user` field as read.
pub type SgUserR = FieldReader<u8>;

/// A pending write of the `sg_user` field.
pub type SgUserW<REG> = FieldWriter<REG, 4, u8>;

impl R {
    /// Bits 0 to 3: cache attribute driven on descriptor reads and writes.
    pub fn sg_cache(&self) -> (field: SgCacheR)
        ensures
            field@ == field_of(self@, 0, 4),
    {
        let value = raw_field(self.bits(), 0, 4);
        proof {
            lemma_mask_values();
        }
        SgCacheR::new(value as u8)
    }

    /// Bits 8 to 11: user attribute driven on descriptor reads and writes.
    pub fn sg_user(&self) -> (field: SgUserR)
        ensures
            field@ == field_of(self@, 8, 4),
    {
        let value = raw_field(self.bits(), 8, 4);
        proof {
            lemma_mask_values();
        }
        SgUserR::new(value as u8)
    }
}

impl W {
    /// Bits 0 to 3: cache attribute driven on descriptor reads and writes.
    pub fn sg_cache(self) -> (field: SgCacheW<SgCtlSpec>)
        ensures
            field.before() == self@,
            field.offset() == 0,
    {
        SgCacheW::new(self, 0)
    }

    /// Bits 8 to 11: user attribute driven on descriptor reads and writes.
    pub fn sg_user(self) -> (field: SgUserW<SgCtlSpec>)
        ensures
            field.before() == self@,
            field.offset() == 8,
    {
        SgUserW::new(self, 8)
    }
}

} // verus!
