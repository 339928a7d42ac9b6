//! Control word of a descriptor.
use crate::pac::generic::{
    BitReader, BitWriter, FieldReader, FieldWriter, Readable, RegisterSpec, Resettable, Writable,
    bit_of, field_of, raw_bit, raw_field, with_bit,
};
use vstd::prelude::*;

verus! {

/// Names this register: control word of a descriptor.
pub struct ControlSpec;

impl RegisterSpec for ControlSpec {

}

impl Readable for ControlSpec {

}

impl Writable for ControlSpec {

}

impl Resettable for ControlSpec {
    open spec fn spec_reset_value() -> u32 {
        0
    }

    fn reset_value() -> u32 {
        0
    }
}

/// What a read of this register returns.
pub type R = crate::pac::generic::R<ControlSpec>;

/// What a write to this register takes.
pub type W = crate::pac::generic::W<ControlSpec>;

/// The `buf_len` field as read.
pub type BufLenR = FieldReader<u32>;

/// A pending write of the `buf_len` field.
pub type BufLenW<REG> = FieldWriter<REG, 26, u32>;

/// End-of-frame mark: the descriptor ends a packet.
#[derive(Clone, Copy, Debug, PartialEq, Eq)]
pub enum Eof {
    /// Bit clear: the packet goes on.
    False,
    /// Bit set: the packet ends here.
    True,
}

/// The `eof` bit as read.
pub type EofR = BitReader<Eof>;

impl EofR {
    /// The bit as a named value.
    pub fn variant(&self) -> (value: Eof)
        ensures
            value == (if self@ {
                Eof::True
            } else {
                Eof::False
            }),
    {
        if self.bit() {
            Eof::True
        } else {
            Eof::False
        }
    }

    /// Whether the bit is clear: the packet goes on.
    pub fn is_false(&self) -> (yes: bool)
        ensures
            yes == !self@,
    {
        !self.bit()
    }

    /// Whether the bit is set: the packet ends here.
    pub fn is_true(&self) -> (yes: bool)
        ensures
            yes == self@,
    {
        self.bit()
    }
}

/// A pending write of the `eof` bit.
pub type EofW<REG> = BitWriter<REG, Eof>;

impl<REG> EofW<REG> {
    /// Clears the bit: the packet goes on.
    pub fn false_(self) -> (w: crate::pac::generic::W<REG>)
        ensures
            w@ == with_bit(self.before(), self.offset(), false),
    {
        self.bit(false)
    }

    /// Sets the bit: the packet ends here.
    pub fn true_(self) -> (w: crate::pac::generic::W<REG>)
        ensures
            w@ == with_bit(self.before(), self.offset(), true),
    {
        self.bit(true)
    }
}

/// Start-of-frame mark: the descriptor begins a packet.
#[derive(Clone, Copy, Debug, PartialEq, Eq)]
pub enum Sof {
    /// Bit clear: the packet began earlier.
    False,
    /// Bit set: the packet begins here.
    True,
}

/// The `sof` bit as read.
pub type SofR = BitReader<Sof>;

impl SofR {
    /// The bit as a named value.
    pub fn variant(&self) -> (value: Sof)
        ensures
            value == (if self@ {
                Sof::True
            } else {
                Sof::False
            }),
    {
        if self.bit() {
            Sof::True
        } else {
            Sof::False
        }
    }

    /// Whether the bit is clear: the packet began earlier.
    pub fn is_false(&self) -> (yes: bool)
        ensures
            yes == !self@,
    {
        !self.bit()
    }

    /// Whether the bit is set: the packet begins here.
    pub fn is_true(&self) -> (yes: bool)
        ensures
            yes == self@,
    {
        self.bit()
    }
}

/// A pending write of the `sof` bit.
pub type SofW<REG> = BitWriter<REG, Sof>;

impl<REG> SofW<REG> {
    /// Clears the bit: the packet began earlier.
    pub fn false_(self) -> (w: crate::pac::generic::W<REG>)
        ensures
            w@ == with_bit(self.before(), self.offset(), false),
    {
        self.bit(false)
    }

    /// Sets the bit: the packet begins here.
    pub fn true_(self) -> (w: crate::pac::generic::W<REG>)
        ensures
            w@ == with_bit(self.before(), self.offset(), true),
    {
        self.bit(true)
    }
}

impl R {
    /// Bits 0 to 25: number of bytes the descriptor covers.
    pub fn buf_len(&self) -> (field: BufLenR)
        ensures
            field@ == field_of(self@, 0, 26),
    {
        BufLenR::new(raw_field(self.bits(), 0, 26))
    }

    /// Bit 26: end-of-frame mark: the descriptor ends a packet.
    pub fn eof(&self) -> (field: EofR)
        ensures
            field@ == bit_of(self@, 26),
    {
        EofR::new(raw_bit(self.bits(), 26))
    }

    /// Bit 27: start-of-frame mark: the descriptor begins a packet.
    pub fn sof(&self) -> (field: SofR)
        ensures
            field@ == bit_of(self@, 27),
    {
        SofR::new(raw_bit(self.bits(), 27))
    }
}

impl W {
    /// Bits 0 to 25: number of bytes the descriptor covers.
    pub fn buf_len(self) -> (field: BufLenW<ControlSpec>)
        ensures
            field.before() == self@,
            field.offset() == 0,
    {
        BufLenW::new(self, 0)
    }

    /// Bit 26: end-of-frame mark: the descriptor ends a packet.
    pub fn eof(self) -> (field: EofW<ControlSpec>)
        ensures
            field.before() == self@,
            field.offset() == 26,
    {
        EofW::new(self, 26)
    }

    /// Bit 27: start-of-frame mark: the descriptor begins a packet.
    pub fn sof(self) -> (field: SofW<ControlSpec>)
        ensures
            field.before() == self@,
            field.offset() == 27,
    {
        SofW::new(self, 27)
    }
}

} // verus!
