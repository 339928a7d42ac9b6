//! Register cells, their reader and writer values, and the bit-field algebra
//! that every register module of this crate is specified with.
//!
//! A [`Reg`] is a software image of one 32-bit device register. Reading it
//! yields an [`R`], writing goes through a [`W`]; single-bit and multi-bit
//! fields are taken out of an `R` as [`BitReader`] / [`FieldReader`] values and
//! put into a `W` through [`BitWriter`] / [`FieldWriter`] values. Everything is
//! specified over four spec functions on plain words: [`bit_of`],
//! [`field_of`], [`with_bit`] and [`with_field`].
use std::marker::PhantomData;
use vstd::prelude::*;

verus! {

/// All-ones word of `width` low bits (`width >= 32` gives the full word).
pub open spec fn mask_of(width: u32) -> u32 {
    if width >= 32 {
        0xffff_ffffu32
    } else {
        ((1u32 << width) - 1) as u32
    }
}

/// Bit `at` of `word`.
pub open spec fn bit_of(word: u32, at: u32) -> bool {
    (word >> at) & 1 != 0
}

/// The `width`-bit field of `word` whose least significant bit is `at`.
pub open spec fn field_of(word: u32, at: u32, width: u32) -> u32 {
    (word >> at) & mask_of(width)
}

/// `word` with bit `at` replaced by `on`.
pub open spec fn with_bit(word: u32, at: u32, on: bool) -> u32 {
    if on {
        word | (1u32 << at)
    } else {
        word & !(1u32 << at)
    }
}

/// `word` with the `width`-bit field at `at` replaced by the low `width` bits
/// of `value`.
pub open spec fn with_field(word: u32, at: u32, width: u32, value: u32) -> u32 {
    (word & !(mask_of(width) << at)) | ((value & mask_of(width)) << at)
}

/// The masks of the field widths that occur in this crate, as literals.
pub proof fn lemma_mask_values()
    by (bit_vector)
    ensures
        mask_of(1) == 0x1,
        mask_of(4) == 0xf,
        mask_of(8) == 0xff,
        mask_of(16) == 0xffff,
        mask_of(26) == 0x03ff_ffff,
        mask_of(32) == 0xffff_ffff,
{
}

/// A field never exceeds its mask, and a mask of fewer than 32 bits is below
/// the next power of two.
pub proof fn lemma_field_bound(word: u32, at: u32, width: u32)
    by (bit_vector)
    ensures
        field_of(word, at, width) <= mask_of(width),
        field_of(word, at, width) & mask_of(width) == field_of(word, at, width),
{
}

/// The zero word has every bit clear and every field zero.
pub proof fn lemma_zero_word(at: u32, width: u32)
    by (bit_vector)
    requires
        at < 32,
    ensures
        !bit_of(0, at),
        field_of(0, at, width) == 0,
{
}

/// Writing a bit changes that bit and no other.
pub proof fn lemma_bit_after_bit(word: u32, at: u32, on: bool, other: u32)
    by (bit_vector)
    requires
        at < 32,
        other < 32,
    ensures
        bit_of(with_bit(word, at, on), other) == (if other == at {
            on
        } else {
            bit_of(word, other)
        }),
{
}

/// Writing a bit leaves every field untouched that does not contain it.
pub proof fn lemma_field_after_bit(word: u32, at: u32, on: bool, other: u32, width: u32)
    by (bit_vector)
    requires
        at < 32,
        other <= 32,
        width <= 32,
        other + width <= 32,
        at < other || other + width <= at,
    ensures
        field_of(with_bit(word, at, on), other, width) == field_of(word, other, width),
{
}

/// A field reads back as the low bits of what was written into it.
pub proof fn lemma_field_after_field(word: u32, at: u32, width: u32, value: u32)
    by (bit_vector)
    requires
        at <= 32,
        1 <= width <= 32,
        at + width <= 32,
    ensures
        field_of(with_field(word, at, width, value), at, width) == value & mask_of(width),
{
}

/// Writing a field leaves every field untouched that does not overlap it.
pub proof fn lemma_field_after_other_field(
    word: u32,
    at: u32,
    width: u32,
    value: u32,
    other: u32,
    other_width: u32,
)
    by (bit_vector)
    requires
        at <= 32,
        1 <= width <= 32,
        at + width <= 32,
        other <= 32,
        other_width <= 32,
        other + other_width <= 32,
        other + other_width <= at || at + width <= other,
    ensures
        field_of(with_field(word, at, width, value), other, other_width) == field_of(
            word,
            other,
            other_width,
        ),
{
}

/// Writing a field leaves every bit untouched that lies outside it.
pub proof fn lemma_bit_after_field(word: u32, at: u32, width: u32, value: u32, other: u32)
    by (bit_vector)
    requires
        at <= 32,
        1 <= width <= 32,
        at + width <= 32,
        other < 32,
        other < at || at + width <= other,
    ensures
        bit_of(with_field(word, at, width, value), other) == bit_of(word, other),
{
}

/// Marks the type that names one register.
pub trait RegisterSpec {

}

/// A register that software may read.
pub trait Readable: RegisterSpec {

}

/// A register that software may write.
pub trait Writable: RegisterSpec {

}

/// A register with a documented value after reset.
pub trait Resettable: RegisterSpec {
    /// The word the register holds after reset.
    spec fn spec_reset_value() -> u32;

    /// The word the register holds after reset.
    fn reset_value() -> (value: u32)
        ensures
            value == Self::spec_reset_value(),
    ;
}

/// What was read from a register.
pub struct R<REG> {
    bits: u32,
    _reg: PhantomData<REG>,
}

impl<REG> R<REG> {
    /// The word that was read.
    pub closed spec fn view(&self) -> u32 {
        self.bits
    }

    /// The raw word.
    pub fn bits(&self) -> (bits: u32)
        ensures
            bits == self@,
    {
        self.bits
    }
}

/// What is about to be written to a register.
pub struct W<REG> {
    bits: u32,
    _reg: PhantomData<REG>,
}

impl<REG> W<REG> {
    /// The word that will be written.
    pub closed spec fn view(&self) -> u32 {
        self.bits
    }

    /// Replaces the whole word.
    pub fn bits(self, bits: u32) -> (w: Self)
        ensures
            w@ == bits,
    {
        W { bits, _reg: PhantomData }
    }

    /// The word as it stands.
    pub fn raw(&self) -> (bits: u32)
        ensures
            bits == self@,
    {
        self.bits
    }
}

/// A multi-bit field taken out of a register.
pub struct FieldReader<FI> {
    bits: FI,
}

impl<FI: Copy> FieldReader<FI> {
    /// The value of the field.
    pub closed spec fn view(&self) -> FI {
        self.bits
    }

    pub(crate) fn new(bits: FI) -> (field: Self)
        ensures
            field@ == bits,
    {
        FieldReader { bits }
    }

    /// The value of the field.
    pub fn bits(&self) -> (bits: FI)
        ensures
            bits == self@,
    {
        self.bits
    }
}

/// A single-bit field taken out of a register; `FI` names its meaning.
pub struct BitReader<FI> {
    bits: bool,
    _field: PhantomData<FI>,
}

impl<FI> BitReader<FI> {
    /// Whether the bit is set.
    pub closed spec fn view(&self) -> bool {
        self.bits
    }

    pub(crate) fn new(bits: bool) -> (field: Self)
        ensures
            field@ == bits,
    {
        BitReader { bits, _field: PhantomData }
    }

    /// Whether the bit is set.
    pub fn bit(&self) -> (bit: bool)
        ensures
            bit == self@,
    {
        self.bits
    }

    /// Whether the bit is clear.
    pub fn bit_is_clear(&self) -> (clear: bool)
        ensures
            clear == !self@,
    {
        !self.bits
    }

    /// Whether the bit is set.
    pub fn bit_is_set(&self) -> (set: bool)
        ensures
            set == self@,
    {
        self.bits
    }
}

/// Exec counterpart of [`mask_of`].
pub(crate) fn mask(width: u8) -> (m: u32)
    ensures
        m == mask_of(width as u32),
{
    if width >= 32 {
        0xffff_ffffu32
    } else {
        let shift: u32 = width as u32;
        assert((1u32 << shift) >= 1) by (bit_vector)
            requires
                shift < 32,
        ;
        (1u32 << shift) - 1
    }
}

/// Exec counterpart of [`bit_of`].
pub(crate) fn raw_bit(word: u32, at: u8) -> (bit: bool)
    requires
        at < 32,
    ensures
        bit == bit_of(word, at as u32),
{
    (word >> (at as u32)) & 1 != 0
}

/// Exec counterpart of [`field_of`].
pub(crate) fn raw_field(word: u32, at: u8, width: u8) -> (field: u32)
    requires
        at < 32,
    ensures
        field == field_of(word, at as u32, width as u32),
        field <= mask_of(width as u32),
{
    proof {
        lemma_field_bound(word, at as u32, width as u32);
    }
    (word >> (at as u32)) & mask(width)
}

/// A pending write to one single-bit field of a register.
pub struct BitWriter<REG, FI> {
    w: W<REG>,
    o: u8,
    _field: PhantomData<FI>,
}

impl<REG, FI> BitWriter<REG, FI> {
    #[verifier::type_invariant]
    spec fn in_word(self) -> bool {
        self.o < 32
    }

    /// The word before this field is written.
    pub closed spec fn before(&self) -> u32 {
        self.w@
    }

    /// The position of the bit.
    pub closed spec fn offset(&self) -> u32 {
        self.o as u32
    }

    pub(crate) fn new(w: W<REG>, o: u8) -> (field: Self)
        requires
            o < 32,
        ensures
            field.before() == w@,
            field.offset() == o,
    {
        BitWriter { w, o, _field: PhantomData }
    }

    /// Writes the bit.
    pub fn bit(self, value: bool) -> (w: W<REG>)
        ensures
            w@ == with_bit(self.before(), self.offset(), value),
    {
        proof {
            use_type_invariant(&self);
        }
        let at: u32 = self.o as u32;
        let word = self.w.raw();
        if value {
            self.w.bits(word | (1u32 << at))
        } else {
            self.w.bits(word & !(1u32 << at))
        }
    }

    /// Sets the bit.
    pub fn set_bit(self) -> (w: W<REG>)
        ensures
            w@ == with_bit(self.before(), self.offset(), true),
    {
        self.bit(true)
    }

    /// Clears the bit.
    pub fn clear_bit(self) -> (w: W<REG>)
        ensures
            w@ == with_bit(self.before(), self.offset(), false),
    {
        self.bit(false)
    }
}

/// A pending write to one `WI`-bit field of a register.
pub struct FieldWriter<REG, const WI: u8, FI> {
    w: W<REG>,
    o: u8,
    _field: PhantomData<FI>,
}

impl<REG, const WI: u8, FI> FieldWriter<REG, WI, FI> {
    #[verifier::type_invariant]
    spec fn in_word(self) -> bool {
        1 <= WI && self.o + WI <= 32
    }

    /// The word before this field is written.
    pub closed spec fn before(&self) -> u32 {
        self.w@
    }

    /// The position of the least significant bit of the field.
    pub closed spec fn offset(&self) -> u32 {
        self.o as u32
    }

    pub(crate) fn new(w: W<REG>, o: u8) -> (field: Self)
        requires
            1 <= WI,
            o + WI <= 32,
        ensures
            field.before() == w@,
            field.offset() == o,
    {
        FieldWriter { w, o, _field: PhantomData }
    }

    /// Writes the low `WI` bits of `value` into the field.
    pub(crate) fn put(self, value: u32) -> (w: W<REG>)
        ensures
            w@ == with_field(self.before(), self.offset(), WI as u32, value),
    {
        proof {
            use_type_invariant(&self);
        }
        let at: u32 = self.o as u32;
        let m = mask(WI);
        let word = self.w.raw();
        self.w.bits((word & !(m << at)) | ((value & m) << at))
    }
}

impl<REG, const WI: u8> FieldWriter<REG, WI, u32> {
    /// Writes the low `WI` bits of `value` into the field.
    pub fn bits(self, value: u32) -> (w: W<REG>)
        ensures
            w@ == with_field(self.before(), self.offset(), WI as u32, value),
    {
        self.put(value)
    }
}

impl<REG, const WI: u8> FieldWriter<REG, WI, u8> {
    /// Writes the low `WI` bits of `value` into the field.
    pub fn bits(self, value: u8) -> (w: W<REG>)
        ensures
            w@ == with_field(self.before(), self.offset(), WI as u32, value as u32),
    {
        self.put(value as u32)
    }
}

/// The image of one 32-bit register.
///
/// The image is ordinary memory: it holds what software last wrote or what
/// [`Reg::load`] last recorded from the device. Moving words between the image
/// and the device is left to the owner of the image.
pub struct Reg<REG> {
    value: u32,
    _reg: PhantomData<REG>,
}

impl<REG> Reg<REG> {
    /// The word the image holds.
    pub closed spec fn view(&self) -> u32 {
        self.value
    }

    /// An image that holds `bits`.
    pub fn new(bits: u32) -> (reg: Self)
        ensures
            reg@ == bits,
    {
        Reg { value: bits, _reg: PhantomData }
    }

    /// Records `bits` as the word the device holds.
    pub fn load(&mut self, bits: u32)
        ensures
            final(self)@ == bits,
    {
        self.value = bits;
    }
}

impl<REG: Readable> Reg<REG> {
    /// Reads the register.
    pub fn read(&self) -> (r: R<REG>)
        ensures
            r@ == self@,
    {
        R { bits: self.value, _reg: PhantomData }
    }
}

/// Whether `f`, handed a writer that holds `before`, can return one that
/// holds `after`.
pub open spec fn writes_to<REG, F: FnOnce(W<REG>) -> W<REG>>(
    f: F,
    before: u32,
    after: u32,
) -> bool {
    exists|w: W<REG>, o: W<REG>| w@ == before && o@ == after && call_ensures(f, (w,), o)
}

/// Whether `f`, handed a reader and a writer that both hold `before`, can
/// return a writer that holds `after`.
pub open spec fn modifies_to<REG, F: FnOnce(&R<REG>, W<REG>) -> W<REG>>(
    f: F,
    before: u32,
    after: u32,
) -> bool {
    exists|r: R<REG>, w: W<REG>, o: W<REG>|
        r@ == before && w@ == before && o@ == after && call_ensures(f, (&r, w), o)
}

impl<REG: Resettable + Writable> Reg<REG> {
    /// Writes the reset value.
    pub fn reset(&mut self)
        ensures
            final(self)@ == REG::spec_reset_value(),
    {
        self.value = REG::reset_value();
    }

    /// Writes what `f` makes of the reset value.
    pub fn write<F: FnOnce(W<REG>) -> W<REG>>(&mut self, f: F)
        requires
            forall|w: W<REG>| w@ == REG::spec_reset_value() ==> call_requires(f, (w,)),
        ensures
            writes_to(f, REG::spec_reset_value(), final(self)@),
    {
        let w = W { bits: REG::reset_value(), _reg: PhantomData };
        let o = f(w);
        self.value = o.raw();
    }
}

impl<REG: Writable> Reg<REG> {
    /// Writes what `f` makes of the zero word.
    pub fn write_with_zero<F: FnOnce(W<REG>) -> W<REG>>(&mut self, f: F)
        requires
            forall|w: W<REG>| w@ == 0 ==> call_requires(f, (w,)),
        ensures
            writes_to(f, 0, final(self)@),
    {
        let w = W { bits: 0, _reg: PhantomData };
        let o = f(w);
        self.value = o.raw();
    }
}

impl<REG: Readable + Writable> Reg<REG> {
    /// Reads the register, and writes back what `f` makes of the word read.
    pub fn modify<F: FnOnce(&R<REG>, W<REG>) -> W<REG>>(&mut self, f: F)
        requires
            forall|r: R<REG>, w: W<REG>|
                r@ == old(self)@ && w@ == old(self)@ ==> call_requires(f, (&r, w)),
        ensures
            modifies_to(f, old(self)@, final(self)@),
    {
        let r = R { bits: self.value, _reg: PhantomData };
        let w = W { bits: self.value, _reg: PhantomData };
        let o = f(&r, w);
        self.value = o.raw();
    }
}

} // verus!
