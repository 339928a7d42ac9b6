//! One buffer descriptor: the unit of work the device fetches from memory.
//!
//! A descriptor names a piece of a data buffer, carries the frame marks of
//! that piece, and points at the descriptor that follows it in the ring. The
//! device writes the status word back when it is done with the piece.
use crate::buffer::BufPtr;
use crate::errno::AxiDMAErr;
use crate::pac::generic::{
    bit_of, field_of, lemma_bit_after_bit, lemma_bit_after_field, lemma_field_after_bit,
    lemma_field_after_field, lemma_mask_values, lemma_zero_word, with_bit, with_field, Reg, R, W,
};
use crate::pac::sg_desc::buf_addr::BufAddrSpec;
use crate::pac::sg_desc::buf_addr_msb::BufAddrMsbSpec;
use crate::pac::sg_desc::control::ControlSpec;
use crate::pac::sg_desc::nxt_desc::NxtDescSpec;
use crate::pac::sg_desc::nxt_desc_msb::NxtDescMsbSpec;
use crate::pac::sg_desc::RegisterBlock;
use vstd::prelude::*;

verus! {

/// The longest piece a descriptor can name: its length field has 26 bits.
pub const BD_LEN_LIMIT: usize = 0x03ff_ffff;

/// Descriptors start on multiples of this many bytes.
pub const BD_ALIGNMENT: usize = 64;

/// Byte offset of the low word of the next-descriptor pointer.
pub const BD_NXT_DESC: usize = 0x00;

/// Byte offset of the high word of the next-descriptor pointer.
pub const BD_NXT_DESC_MSB: usize = 0x04;

/// Byte offset of the low word of the buffer address.
pub const BD_BUF_ADDR: usize = 0x08;

/// Byte offset of the high word of the buffer address.
pub const BD_BUF_ADDR_MSB: usize = 0x0c;

/// Byte offset of the control word.
pub const BD_CONTROL: usize = 0x18;

/// Byte offset of the status word.
pub const BD_STATUS: usize = 0x1c;

/// Byte offset of the first of the five application words.
pub const BD_APP: usize = 0x20;

/// The number of bytes of a descriptor that the device looks at.
pub const BD_SIZE: usize = 0x34;

/// How many descriptors a buffer of `len` bytes takes when none may name
/// more than `max` bytes: `len / max`, rounded up.
pub open spec fn bd_needed(len: int, max: int) -> int {
    (len + max - 1) / max
}

/// The length of piece `k` of a buffer of `len` bytes cut into pieces of
/// `max` bytes: `max`, but for the last piece, which takes what is left.
pub open spec fn piece_len(len: int, max: int, k: int) -> int {
    if len - k * max > max {
        max
    } else {
        len - k * max
    }
}

/// Joins the two halves of a 64-bit address.
pub open spec fn join_words(high: u32, low: u32) -> u64 {
    ((high as u64) << 32) | (low as u64)
}

/// The address a pair of pointer words names: the high word, and the low word
/// whose bits 6 to 31 are address bits 6 to 31.
pub open spec fn pointer_of(high: u32, low: u32) -> u64 {
    ((high as u64) << 32) | ((field_of(low, 6, 26) as u64) << 6)
}

/// The low pointer word for the descriptor at `addr`: address bits 6 to 31 in
/// place, the low six bits zero.
pub open spec fn pointer_low(addr: u64) -> u32 {
    with_field(0, 6, 26, ((addr & 0xffff_ffff) >> 6) as u32)
}

/// The high pointer word for the descriptor at `addr`: address bits 32 to 63.
pub open spec fn pointer_high(addr: u64) -> u32 {
    (addr >> 32) as u32
}

/// Splitting an address into two words and joining them gives it back.
pub proof fn lemma_join_split(addr: u64)
    by (bit_vector)
    ensures
        (addr >> 32) <= 0xffff_ffff,
        (addr & 0xffff_ffff) <= 0xffff_ffff,
        join_words((addr >> 32) as u32, (addr & 0xffff_ffff) as u32) == addr,
{
}

/// The pointer words of an address fit their fields, and those of an address
/// that is a multiple of 64 name that address again.
pub proof fn lemma_pointer_round_trip(addr: u64)
    by (bit_vector)
    ensures
        ((addr & 0xffff_ffff) >> 6) <= 0x03ff_ffff,
        (addr >> 32) <= 0xffff_ffff,
        addr % 64 == 0 ==> pointer_of(pointer_high(addr), pointer_low(addr)) == addr,
{
}

/// The low bits of an address are its remainder.
pub proof fn lemma_low_bits(addr: u64)
    by (bit_vector)
    ensures
        addr & 0x3f == addr % 64,
        addr & 0x3 == addr % 4,
{
}

/// One buffer descriptor and what the driver keeps beside it.
pub struct AxiDmaBD {
    /// The descriptor as the device sees it.
    pub desc: RegisterBlock,
    /// A tag for the owner's use.
    pub sw_id: u32,
    /// Whether the device has the status/control stream.
    pub has_sts_cntrl: bool,
    /// Whether the device can realign data.
    pub has_dre: bool,
    /// Width of the data path in bits.
    pub word_len: u32,
    /// Physical address of the descriptor.
    pub phys_addr: usize,
    /// The longest piece this descriptor accepts.
    pub max_len: usize,
}

impl AxiDmaBD {
    /// The address of the descriptor that follows this one.
    pub open spec fn next_ptr(&self) -> u64 {
        pointer_of(self.desc.nxt_desc_msb@, self.desc.nxt_desc@)
    }

    /// The address of the piece of buffer this descriptor names.
    pub open spec fn buf_ptr(&self) -> u64 {
        join_words(self.desc.buf_addr_msb@, self.desc.buf_addr@)
    }

    /// The number of bytes this descriptor names.
    pub open spec fn buf_len(&self) -> u32 {
        field_of(self.desc.control@, 0, 26)
    }

    /// Whether the descriptor starts a packet.
    pub open spec fn sof(&self) -> bool {
        bit_of(self.desc.control@, 27)
    }

    /// Whether the descriptor ends a packet.
    pub open spec fn eof(&self) -> bool {
        bit_of(self.desc.control@, 26)
    }

    /// Whether the device has released the descriptor.
    pub open spec fn completed(&self) -> bool {
        bit_of(self.desc.status@, 31)
    }

    /// Whether the device reported a failure on the descriptor.
    pub open spec fn failed(&self) -> bool {
        bit_of(self.desc.status@, 28) || bit_of(self.desc.status@, 29) || bit_of(
            self.desc.status@,
            30,
        )
    }

    /// Whether the device saw the end of a received packet in the descriptor.
    pub open spec fn rx_eof(&self) -> bool {
        bit_of(self.desc.status@, 26)
    }

    /// Whether the descriptor closes a packet, by the driver's mark or by the
    /// device's.
    pub open spec fn ends_packet(&self) -> bool {
        self.eof() || self.rx_eof()
    }

    /// Whether `other` differs from `self` at most in the descriptor words.
    pub open spec fn same_slot(&self, other: &AxiDmaBD) -> bool {
        &&& self.sw_id == other.sw_id
        &&& self.has_sts_cntrl == other.has_sts_cntrl
        &&& self.has_dre == other.has_dre
        &&& self.word_len == other.word_len
        &&& self.phys_addr == other.phys_addr
        &&& self.max_len == other.max_len
    }

    /// Whether every application word is zero.
    pub open spec fn app_clear(&self) -> bool {
        forall|n: int| 0 <= n < 5 ==> (#[trigger] self.desc.app[n])@ == 0
    }

    /// The effective length limit: `max_len`, but never more than the length
    /// field can hold.
    pub open spec fn limit(max_len: usize) -> usize {
        if max_len > BD_LEN_LIMIT {
            BD_LEN_LIMIT
        } else {
            max_len
        }
    }

    /// A descriptor at `phys_addr` with every word zero. Pieces longer than
    /// `max_len` will be refused; `max_len` is cut down to what the length
    /// field can hold.
    pub fn new(
        has_sts_cntrl: bool,
        has_dre: bool,
        word_len: u32,
        phys_addr: usize,
        max_len: usize,
    ) -> (bd: Self)
        ensures
            bd.desc.nxt_desc@ == 0,
            bd.desc.nxt_desc_msb@ == 0,
            bd.desc.buf_addr@ == 0,
            bd.desc.buf_addr_msb@ == 0,
            bd.desc.control@ == 0,
            bd.desc.status@ == 0,
            bd.app_clear(),
            bd.sw_id == 0,
            bd.has_sts_cntrl == has_sts_cntrl,
            bd.has_dre == has_dre,
            bd.word_len == word_len,
            bd.phys_addr == phys_addr,
            bd.max_len == Self::limit(max_len),
    {
        AxiDmaBD {
            desc: RegisterBlock::new(),
            sw_id: 0,
            has_sts_cntrl,
            has_dre,
            word_len,
            phys_addr,
            max_len: if max_len > BD_LEN_LIMIT {
                BD_LEN_LIMIT
            } else {
                max_len
            },
        }
    }

    /// Zeroes the buffer address, the control word and the application words.
    /// The link to the next descriptor and the status word stay as they are.
    pub fn clear(&mut self)
        ensures
            final(self).desc.buf_addr@ == 0,
            final(self).desc.buf_addr_msb@ == 0,
            final(self).desc.control@ == 0,
            final(self).app_clear(),
            final(self).desc.nxt_desc == old(self).desc.nxt_desc,
            final(self).desc.nxt_desc_msb == old(self).desc.nxt_desc_msb,
            final(self).desc.status == old(self).desc.status,
            final(self).same_slot(old(self)),
            final(self).buf_ptr() == 0,
            final(self).buf_len() == 0,
            !final(self).sof(),
            !final(self).eof(),
    {
        self.desc.buf_addr.reset();
        self.desc.buf_addr_msb.reset();
        self.desc.control.reset();
        self.desc.app = [Reg::new(0), Reg::new(0), Reg::new(0), Reg::new(0), Reg::new(0)];
        proof {
            lemma_zero_word(26, 26);
            lemma_zero_word(27, 26);
            lemma_zero_word(0, 26);
            lemma_join_zero();
        }
    }

    /// Links this descriptor to the one at `addr`.
    ///
    /// Fails with `InValidParam`, and changes nothing, exactly when `addr` is
    /// not a multiple of 64.
    pub fn set_next_desc_addr(&mut self, addr: usize) -> (res: Result<(), AxiDMAErr>)
        ensures
            res == (if addr % 64 == 0 {
                Ok::<(), AxiDMAErr>(())
            } else {
                Err(AxiDMAErr::InValidParam)
            }),
            res is Err ==> *final(self) == *old(self),
            res is Ok ==> {
                &&& final(self).next_ptr() == addr
                &&& final(self).desc.buf_addr == old(self).desc.buf_addr
                &&& final(self).desc.buf_addr_msb == old(self).desc.buf_addr_msb
                &&& final(self).desc.control == old(self).desc.control
                &&& final(self).desc.status == old(self).desc.status
                &&& final(self).desc.app == old(self).desc.app
                &&& final(self).same_slot(old(self))
            },
    {
        let a: u64 = addr as u64;
        proof {
            lemma_low_bits(a);
            lemma_join_split(a);
        }
        if a & 0x3f != 0 {
            return Err(AxiDMAErr::InValidParam);
        }
        proof {
            lemma_pointer_round_trip(a);
        }
        let addr_lsb: u32 = ((a & 0xffff_ffff) >> 6) as u32;
        let addr_msb: u32 = (a >> 32) as u32;
        self.desc.nxt_desc.write(|w: W<NxtDescSpec>| -> (o: W<NxtDescSpec>)
                ensures
                    o@ == with_field(w@, 6, 26, addr_lsb),
                { w.nxt_desc_ptr().bits(addr_lsb) });
        self.desc.nxt_desc_msb.write(|w: W<NxtDescMsbSpec>| -> (o: W<NxtDescMsbSpec>)
                ensures
                    o@ == with_field(w@, 0, 32, addr_msb),
                { w.nxt_desc_ptr().bits(addr_msb) });
        proof {
            lemma_whole_word(0, addr_msb);
        }
        Ok(())
    }

    /// Attaches a buffer: its address and its length.
    ///
    /// Fails with `InValidParam`, and changes nothing, exactly when the
    /// address is not a multiple of 4, the length is zero, or the length is
    /// above `max_len` or above what the length field can hold. The frame
    /// marks are kept.
    pub fn set_buf(&mut self, buf: &BufPtr) -> (res: Result<(), AxiDMAErr>)
        ensures
            res == (if buf.addr() % 4 == 0 && 0 < buf.size() <= Self::limit(old(self).max_len) {
                Ok::<(), AxiDMAErr>(())
            } else {
                Err(AxiDMAErr::InValidParam)
            }),
            res is Err ==> *final(self) == *old(self),
            res is Ok ==> final(self).placed(old(self), buf.addr(), buf.size()),
    {
        let addr: u64 = buf.as_ptr() as u64;
        proof {
            lemma_low_bits(addr);
        }
        if addr & 0x3 != 0 {
            return Err(AxiDMAErr::InValidParam);
        }
        if buf.len() == 0 || buf.len() > self.max_len || buf.len() > BD_LEN_LIMIT {
            return Err(AxiDMAErr::InValidParam);
        }
        self.place(buf.as_ptr(), buf.len());
        Ok(())
    }

    /// What `place` makes of `before`: the buffer words name `len` bytes at
    /// `addr`, and everything else is as in `before`.
    pub open spec fn placed(&self, before: &AxiDmaBD, addr: usize, len: usize) -> bool {
        &&& self.buf_ptr() == addr
        &&& self.buf_len() == len
        &&& self.sof() == before.sof()
        &&& self.eof() == before.eof()
        &&& self.desc.nxt_desc == before.desc.nxt_desc
        &&& self.desc.nxt_desc_msb == before.desc.nxt_desc_msb
        &&& self.desc.status == before.desc.status
        &&& self.desc.app == before.desc.app
        &&& self.same_slot(before)
    }

    /// Writes the buffer words without looking at the alignment of `addr`.
    pub(crate) fn place(&mut self, addr: usize, len: usize)
        requires
            len <= BD_LEN_LIMIT,
        ensures
            final(self).placed(old(self), addr, len),
    {
        let a: u64 = addr as u64;
        proof {
            lemma_join_split(a);
            lemma_mask_values();
        }
        let addr_lsb: u32 = (a & 0xffff_ffff) as u32;
        let addr_msb: u32 = (a >> 32) as u32;
        let length: u32 = len as u32;
        let ghost before = self.desc.control@;
        self.desc.buf_addr.write(|w: W<BufAddrSpec>| -> (o: W<BufAddrSpec>)
                ensures
                    o@ == with_field(w@, 0, 32, addr_lsb),
                { w.buf_addr().bits(addr_lsb) });
        self.desc.buf_addr_msb.write(|w: W<BufAddrMsbSpec>| -> (o: W<BufAddrMsbSpec>)
                ensures
                    o@ == with_field(w@, 0, 32, addr_msb),
                { w.buf_addr().bits(addr_msb) });
        self.desc.control.modify(|_r: &R<ControlSpec>, w: W<ControlSpec>| -> (o: W<ControlSpec>)
                ensures
                    o@ == with_field(w@, 0, 26, length),
                { w.buf_len().bits(length) });
        proof {
            lemma_whole_word(0, addr_lsb);
            lemma_whole_word(0, addr_msb);
            lemma_field_after_field(before, 0, 26, length);
            lemma_bit_after_field(before, 0, 26, length, 26);
            lemma_bit_after_field(before, 0, 26, length, 27);
            lemma_masked_length(length);
        }
    }

    /// Marks the descriptor as the first of a packet.
    pub fn mark_sof(&mut self)
        ensures
            final(self).sof(),
            final(self).marked(old(self)),
            final(self).eof() == old(self).eof(),
    {
        let ghost before = self.desc.control@;
        self.desc.control.modify(|_r: &R<ControlSpec>, w: W<ControlSpec>| -> (o: W<ControlSpec>)
                ensures
                    o@ == with_bit(w@, 27, true),
                { w.sof().set_bit() });
        proof {
            lemma_bit_after_bit(before, 27, true, 27);
            lemma_bit_after_bit(before, 27, true, 26);
            lemma_field_after_bit(before, 27, true, 0, 26);
        }
    }

    /// Marks the descriptor as the last of a packet.
    pub fn mark_eof(&mut self)
        ensures
            final(self).eof(),
            final(self).marked(old(self)),
            final(self).sof() == old(self).sof(),
    {
        let ghost before = self.desc.control@;
        self.desc.control.modify(|_r: &R<ControlSpec>, w: W<ControlSpec>| -> (o: W<ControlSpec>)
                ensures
                    o@ == with_bit(w@, 26, true),
                { w.eof().set_bit() });
        proof {
            lemma_bit_after_bit(before, 26, true, 26);
            lemma_bit_after_bit(before, 26, true, 27);
            lemma_field_after_bit(before, 26, true, 0, 26);
        }
    }

    /// Whether this descriptor names piece `k` of the buffer of `len` bytes at
    /// `addr`, cut into pieces of `max` bytes, and is otherwise `before` with
    /// the application words zeroed: piece `k` starts `k * max` bytes into
    /// the buffer; the link, the status word and the slot are those of
    /// `before`.
    pub open spec fn holds_piece(
        &self,
        before: &AxiDmaBD,
        addr: int,
        len: int,
        max: int,
        k: int,
    ) -> bool {
        &&& self.buf_ptr() == addr + k * max
        &&& self.buf_len() == piece_len(len, max, k)
        &&& self.app_clear()
        &&& self.desc.nxt_desc == before.desc.nxt_desc
        &&& self.desc.nxt_desc_msb == before.desc.nxt_desc_msb
        &&& self.desc.status == before.desc.status
        &&& self.same_slot(before)
    }

    /// Whether this descriptor is piece `k` of `count` (see `holds_piece`)
    /// with its frame marks: only the first piece starts the packet and only
    /// the last one ends it.
    pub open spec fn is_piece(
        &self,
        before: &AxiDmaBD,
        addr: int,
        len: int,
        max: int,
        k: int,
        count: int,
    ) -> bool {
        &&& self.holds_piece(before, addr, len, max, k)
        &&& self.sof() == (k == 0)
        &&& self.eof() == (k == count - 1)
    }

    /// Whether this descriptor is `before` with the status word replaced by
    /// `status`.
    pub open spec fn status_set(&self, before: &AxiDmaBD, status: u32) -> bool {
        &&& self.desc.status@ == status
        &&& self.desc.nxt_desc == before.desc.nxt_desc
        &&& self.desc.nxt_desc_msb == before.desc.nxt_desc_msb
        &&& self.desc.buf_addr == before.desc.buf_addr
        &&& self.desc.buf_addr_msb == before.desc.buf_addr_msb
        &&& self.desc.control == before.desc.control
        &&& self.desc.app == before.desc.app
        &&& self.same_slot(before)
    }

    /// What setting a frame mark leaves alone: everything but the two marks.
    pub open spec fn marked(&self, before: &AxiDmaBD) -> bool {
        &&& self.buf_len() == before.buf_len()
        &&& self.desc.buf_addr == before.desc.buf_addr
        &&& self.desc.buf_addr_msb == before.desc.buf_addr_msb
        &&& self.desc.nxt_desc == before.desc.nxt_desc
        &&& self.desc.nxt_desc_msb == before.desc.nxt_desc_msb
        &&& self.desc.status == before.desc.status
        &&& self.desc.app == before.desc.app
        &&& self.same_slot(before)
    }

    /// The address of the descriptor that follows this one.
    pub fn next_desc_addr(&self) -> (addr: u64)
        ensures
            addr == self.next_ptr(),
    {
        let high = self.desc.nxt_desc_msb.read().bits();
        let field = self.desc.nxt_desc.read().nxt_desc_ptr().bits();
        ((high as u64) << 32) | ((field as u64) << 6)
    }

    /// The address of the piece of buffer this descriptor names.
    pub fn buf_addr(&self) -> (addr: u64)
        ensures
            addr == self.buf_ptr(),
    {
        let high = self.desc.buf_addr_msb.read().bits();
        let low = self.desc.buf_addr.read().bits();
        ((high as u64) << 32) | (low as u64)
    }

    /// The number of bytes this descriptor names.
    pub fn length(&self) -> (len: u32)
        ensures
            len == self.buf_len(),
    {
        self.desc.control.read().buf_len().bits()
    }

    /// Whether the descriptor starts a packet.
    pub fn is_sof(&self) -> (start: bool)
        ensures
            start == self.sof(),
    {
        self.desc.control.read().sof().is_true()
    }

    /// Whether the descriptor ends a packet.
    pub fn is_eof(&self) -> (end: bool)
        ensures
            end == self.eof(),
    {
        self.desc.control.read().eof().is_true()
    }

    /// Whether the device has released the descriptor.
    pub fn is_completed(&self) -> (done: bool)
        ensures
            done == self.completed(),
    {
        self.desc.status.read().cmplt().is_true()
    }

    /// Whether the device reported a failure on the descriptor.
    pub fn had_error(&self) -> (failed: bool)
        ensures
            failed == self.failed(),
    {
        let status = self.desc.status.read();
        status.dma_int_err().is_detected() || status.dma_slv_err().is_detected()
            || status.dma_dec_err().is_detected()
    }

    /// Whether the device saw the end of a received packet in the descriptor.
    pub fn is_rx_eof(&self) -> (end: bool)
        ensures
            end == self.rx_eof(),
    {
        self.desc.status.read().rxeof().is_true()
    }

    /// Whether the descriptor closes a packet, by the driver's mark or by the
    /// device's.
    pub fn is_packet_end(&self) -> (end: bool)
        ensures
            end == self.ends_packet(),
    {
        self.desc.control.read().eof().is_true() || self.desc.status.read().rxeof().is_true()
    }

    /// The word that stands `offset` bytes into the descriptor as the device
    /// sees it, if a word starts there.
    pub open spec fn word_of(&self, offset: usize) -> Option<u32> {
        if offset == BD_NXT_DESC {
            Some(self.desc.nxt_desc@)
        } else if offset == BD_NXT_DESC_MSB {
            Some(self.desc.nxt_desc_msb@)
        } else if offset == BD_BUF_ADDR {
            Some(self.desc.buf_addr@)
        } else if offset == BD_BUF_ADDR_MSB {
            Some(self.desc.buf_addr_msb@)
        } else if offset == BD_CONTROL {
            Some(self.desc.control@)
        } else if offset == BD_STATUS {
            Some(self.desc.status@)
        } else if BD_APP <= offset < BD_SIZE && offset % 4 == 0 {
            Some(self.desc.app[(offset - BD_APP) / 4]@)
        } else {
            None
        }
    }

    /// The word that stands `offset` bytes into the descriptor as the device
    /// sees it. There is none at the two reserved words, between words, and
    /// past the last application word.
    pub fn word_at(&self, offset: usize) -> (word: Option<u32>)
        ensures
            word == self.word_of(offset),
    {
        if offset == BD_NXT_DESC {
            Some(self.desc.nxt_desc.read().bits())
        } else if offset == BD_NXT_DESC_MSB {
            Some(self.desc.nxt_desc_msb.read().bits())
        } else if offset == BD_BUF_ADDR {
            Some(self.desc.buf_addr.read().bits())
        } else if offset == BD_BUF_ADDR_MSB {
            Some(self.desc.buf_addr_msb.read().bits())
        } else if offset == BD_CONTROL {
            Some(self.desc.control.read().bits())
        } else if offset == BD_STATUS {
            Some(self.desc.status.read().bits())
        } else if BD_APP <= offset && offset < BD_SIZE && offset % 4 == 0 {
            Some(self.desc.app((offset - BD_APP) / 4).read().bits())
        } else {
            None
        }
    }

    /// The words a diagnostic dump shows, in this order: next pointer high and
    /// low, buffer address high and low, control, status.
    pub fn dump(&self) -> (words: [u32; 6])
        ensures
            words[0] == self.desc.nxt_desc_msb@,
            words[1] == self.desc.nxt_desc@,
            words[2] == self.desc.buf_addr_msb@,
            words[3] == self.desc.buf_addr@,
            words[4] == self.desc.control@,
            words[5] == self.desc.status@,
    {
        [
            self.desc.nxt_desc_msb.read().bits(),
            self.desc.nxt_desc.read().bits(),
            self.desc.buf_addr_msb.read().bits(),
            self.desc.buf_addr.read().bits(),
            self.desc.control.read().bits(),
            self.desc.status.read().bits(),
        ]
    }
}

/// Two zero words join to the zero address.
pub proof fn lemma_join_zero()
    by (bit_vector)
    ensures
        join_words(0, 0) == 0,
{
}

/// Writing all 32 bits of a word replaces the word.
pub proof fn lemma_whole_word(word: u32, value: u32)
    by (bit_vector)
    ensures
        with_field(word, 0, 32, value) == value,
{
}

/// A length that fits the length field passes its mask unchanged.
pub proof fn lemma_masked_length(length: u32)
    by (bit_vector)
    requires
        length <= 0x03ff_ffff,
    ensures
        length & 0x03ff_ffff == length,
{
}

} // verus!
