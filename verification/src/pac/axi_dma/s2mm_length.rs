//! Byte count of a direct-mode receive.
use crate::pac::generic::{
    BitReader, BitWriter, Readable, RegisterSpec, Resettable, Writable, bit_of, raw_bit, with_bit,
};
use vstd::prelude::*;

verus! {

/// Names this register: byte count of a direct-mode receive.
pub struct S2mmLengthSpec;

impl RegisterSpec for S2mmLengthSpec {

}

impl Readable for S2mmLengthSpec {

}

impl Writable for S2mmLengthSpec {

}

impl Resettable for S2mmLengthSpec {
    open spec fn spec_reset_value() -> u32 {
        0
    }

    fn reset_value() -> u32 {
        0
    }
}

/// What a read of this register returns.
pub type R = crate::pac::generic::R<S2mmLengthSpec>;

/// What a write to this register takes.
pub type W = crate::pac::generic::W<S2mmLengthSpec>;

/// Lowest bit of the register; its purpose is not documented and it is best
/// left alone.
#[derive(Clone, Copy, Debug, PartialEq, Eq)]
pub enum CtlLtInitializeToTx {
    /// Bit clear: the bit is clear.
    Disable,
    /// Bit set: the bit is set.
    Enable,
}

/// The `ctl_lt_initialize_to_tx` bit as read.
pub type CtlLtInitializeToTxR = BitReader<CtlLtInitializeToTx>;

impl CtlLtInitializeToTxR {
    /// The bit as a named value.
    pub fn variant(&self) -> (value: CtlLtInitializeToTx)
        ensures
            value == (if self@ {
                CtlLtInitializeToTx::Enable
            } else {
                CtlLtInitializeToTx::Disable
            }),
    {
        if self.bit() {
            CtlLtInitializeToTx::Enable
        } else {
            CtlLtInitializeToTx::Disable
        }
    }

    /// Whether the bit is clear: the bit is clear.
    pub fn is_disable(&self) -> (yes: bool)
        ensures
            yes == !self@,
    {
        !self.bit()
    }

    /// Whether the bit is set: the bit is set.
    pub fn is_enable(&self) -> (yes: bool)
        ensures
            yes == self@,
    {
        self.bit()
    }
}

/// A pending write of the `ctl_lt_initialize_to_tx` bit.
pub type CtlLtInitializeToTxW<REG> = BitWriter<REG, CtlLtInitializeToTx>;

impl<REG> CtlLtInitializeToTxW<REG> {
    /// Clears the bit: the bit is clear.
    pub fn disable(self) -> (w: crate::pac::generic::W<REG>)
        ensures
            w@ == with_bit(self.before(), self.offset(), false),
    {
        self.bit(false)
    }

    /// Sets the bit: the bit is set.
    pub fn enable(self) -> (w: crate::pac::generic::W<REG>)
        ensures
            w@ == with_bit(self.before(), self.offset(), true),
    {
        self.bit(true)
    }
}

impl R {
    /// Bit 0: lowest bit of the register; its purpose is not documented and it
    /// is best left alone.
    pub fn ctl_lt_initialize_to_tx(&self) -> (field: CtlLtInitializeToTxR)
        ensures
            field@ == bit_of(self@, 0),
    {
        CtlLtInitializeToTxR::new(raw_bit(self.bits(), 0))
    }
}

impl W {
    /// Bit 0: lowest bit of the register; its purpose is not documented and it
    /// is best left alone.
    pub fn ctl_lt_initialize_to_tx(self) -> (field: CtlLtInitializeToTxW<S2mmLengthSpec>)
        ensures
            field.before() == self@,
            field.offset() == 0,
    {
        CtlLtInitializeToTxW::new(self, 0)
    }
}

} // verus!
