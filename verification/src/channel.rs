//! One channel of the engine: its registers, its descriptor ring, and the
//! list of bus operations that carry both to the device.
//!
//! A channel never touches the device. Its registers are images (see
//! [`crate::pac::generic::Reg`]), and whatever an operation wants the device
//! to see it appends to a journal of [`BusOp`]s, in the order in which the
//! device must see it. The owner of the channel replays the journal on the
//! bus, and records what the device reports with the `load_*` operations
//! before it asks the channel to look.
use crate::bd::{pointer_high, pointer_low};
use crate::bd_ring::{AxiDmaBdRing, AxiDmaBdRingConfig, RingView, slot_after};
use crate::buffer::BufPtr;
use crate::errno::AxiDMAErr;
use crate::pac::channel::curdesc::CurdescSpec;
use crate::pac::channel::curdesc_msb::CurdescMsbSpec;
use crate::pac::channel::dmacr::DmacrSpec;
use crate::pac::channel::taildesc::TaildescSpec;
use crate::pac::channel::taildesc_msb::TaildescMsbSpec;
use crate::pac::channel::RegisterBlock;
use crate::pac::generic::{bit_of, field_of, mask, mask_of, with_bit, with_field, R, W};
use crate::transfer::Transfer;
use crate::AxiDmaConfig;
use std::collections::VecDeque;
use vstd::prelude::*;

verus! {

/// Byte offset of the control register in the register block of a channel.
pub const DMACR: usize = 0x00;

/// Byte offset of the status register.
pub const DMASR: usize = 0x04;

/// Byte offset of the low word of the current-descriptor pointer.
pub const CURDESC: usize = 0x08;

/// Byte offset of the high word of the current-descriptor pointer.
pub const CURDESC_MSB: usize = 0x0c;

/// Byte offset of the low word of the tail-descriptor pointer.
pub const TAILDESC: usize = 0x10;

/// Byte offset of the high word of the tail-descriptor pointer.
pub const TAILDESC_MSB: usize = 0x14;

/// The widest length field a descriptor offers, in bits.
pub const MAX_LENGTH_WIDTH: usize = 26;

/// Which way a channel moves data.
#[derive(Clone, Copy, Debug, PartialEq, Eq, Structural)]
pub enum Direaction {
    /// From memory to the stream.
    TX,
    /// From the stream to memory.
    RX,
}

/// One step of what the device must be shown.
#[derive(Clone, Copy, Debug, PartialEq, Eq, Structural)]
pub enum BusOp {
    /// Copy the descriptor in this slot of the ring to descriptor memory.
    Descriptor(usize),
    /// Keep the compiler from moving memory accesses across this point.
    CompilerFence,
    /// Order the memory accesses of this processor before what follows.
    MemoryFence,
    /// Order memory and device accesses before what follows.
    IoFence,
    /// Store the word to the register at this byte offset from the base of
    /// the channel.
    Write(usize, u32),
}

/// What the interrupt handler and the submitter share.
pub struct ControlFiled {
    is_intr_enable: bool,
    is_cyclic: bool,
    waiters: VecDeque<u64>,
}

impl ControlFiled {
    /// Whether the interrupts of the channel are enabled.
    pub closed spec fn intr_enabled(&self) -> bool {
        self.is_intr_enable
    }

    /// Whether the channel is in cyclic mode.
    pub closed spec fn cyclic(&self) -> bool {
        self.is_cyclic
    }

    /// The tokens of those who wait for a completion, oldest first.
    pub closed spec fn waiting(&self) -> Seq<u64> {
        self.waiters@
    }

    /// Whether the interrupts of the channel are enabled.
    pub fn is_intr_enable(&self) -> (enabled: bool)
        ensures
            enabled == self.intr_enabled(),
    {
        self.is_intr_enable
    }

    /// Whether the channel is in cyclic mode.
    pub fn is_cyclic(&self) -> (cyclic: bool)
        ensures
            cyclic == self.cyclic(),
    {
        self.is_cyclic
    }

    /// How many wait for a completion.
    pub fn waiter_count(&self) -> (count: usize)
        ensures
            count == self.waiting().len(),
    {
        self.waiters.len()
    }
}

/// A channel as a mathematical value.
pub struct ChannelView {
    /// The descriptor ring.
    pub ring: RingView,
    /// Image of the control register.
    pub control: u32,
    /// Image of the status register.
    pub status: u32,
    /// Image of the current-descriptor pointer, low word.
    pub curdesc: u32,
    /// Image of the current-descriptor pointer, high word.
    pub curdesc_msb: u32,
    /// Image of the tail-descriptor pointer, low word.
    pub taildesc: u32,
    /// Image of the tail-descriptor pointer, high word.
    pub taildesc_msb: u32,
    /// Whether the interrupts of the channel are enabled.
    pub intr_enabled: bool,
    /// Whether the channel is in cyclic mode.
    pub cyclic: bool,
    /// Whether a buffer may be split over several descriptors.
    pub split: bool,
    /// The tokens of those who wait for a completion, oldest first.
    pub waiters: Seq<u64>,
    /// The bus operations not yet handed out, oldest first.
    pub ops: Seq<BusOp>,
    /// Which way the channel moves data.
    pub direction: Direaction,
    /// Address of the register block of the channel.
    pub base: usize,
}

/// The longest piece one descriptor may name when its length field has
/// `width` bits: all ones in `width` bits, for at most 26 bits.
pub open spec fn max_len_of(width: usize) -> usize {
    if width >= MAX_LENGTH_WIDTH {
        mask_of(MAX_LENGTH_WIDTH as u32) as usize
    } else {
        mask_of(width as u32) as usize
    }
}

/// The three interrupt bits of the status register, cleared.
pub open spec fn acked(status: u32) -> u32 {
    with_bit(with_bit(with_bit(status, 12, false), 13, false), 14, false)
}

/// Whether a status word shows an interrupt condition: completion, delay or
/// error.
pub open spec fn interrupting(status: u32) -> bool {
    bit_of(status, 12) || bit_of(status, 13) || bit_of(status, 14)
}

impl ChannelView {
    /// After one more bus operation.
    pub open spec fn after(self, op: BusOp) -> ChannelView {
        ChannelView { ops: self.ops.push(op), ..self }
    }

    /// After the control register is written.
    pub open spec fn with_control(self, word: u32) -> ChannelView {
        ChannelView { control: word, ..self }.after(BusOp::Write(DMACR, word))
    }

    /// After the ring is marked stopped or running.
    pub open spec fn with_halted(self, halted: bool) -> ChannelView {
        ChannelView { ring: RingView { halted, ..self.ring }, ..self }
    }

    /// After the current-descriptor pointer is set to `addr`: low word
    /// first.
    pub open spec fn with_current(self, addr: usize) -> ChannelView {
        ChannelView {
            curdesc: pointer_low(addr as u64),
            curdesc_msb: pointer_high(addr as u64),
            ..self
        }.after(BusOp::Write(CURDESC, pointer_low(addr as u64))).after(
            BusOp::Write(CURDESC_MSB, pointer_high(addr as u64)),
        )
    }

    /// After the tail-descriptor pointer is set to `addr`: low word first.
    pub open spec fn with_tail(self, addr: usize) -> ChannelView {
        ChannelView {
            taildesc: pointer_low(addr as u64),
            taildesc_msb: pointer_high(addr as u64),
            ..self
        }.after(BusOp::Write(TAILDESC, pointer_low(addr as u64))).after(
            BusOp::Write(TAILDESC_MSB, pointer_high(addr as u64)),
        )
    }

    /// After a reset is requested: the reset bit is written, and the channel
    /// counts as stopped.
    pub open spec fn reset(self) -> ChannelView {
        self.with_control(with_bit(self.control, 2, true)).with_halted(true)
    }

    /// After the channel is started: the run bit is written, and the channel
    /// counts as running.
    pub open spec fn started(self) -> ChannelView {
        self.with_control(with_bit(self.control, 0, true)).with_halted(false)
    }

    /// After the channel is stopped: the run bit is cleared, and the channel
    /// counts as stopped.
    pub open spec fn stopped(self) -> ChannelView {
        self.with_control(with_bit(self.control, 0, false)).with_halted(true)
    }

    /// After the interrupt threshold is set.
    pub open spec fn coalesced(self, threshold: u8) -> ChannelView {
        self.with_control(with_field(self.control, 16, 8, threshold as u32))
    }

    /// After cyclic mode is switched.
    pub open spec fn with_cyclic(self, on: bool) -> ChannelView {
        ChannelView { cyclic: on, ..self.with_control(with_bit(self.control, 4, on)) }
    }

    /// After the three interrupts are switched: delay, error, completion.
    pub open spec fn with_interrupts(self, on: bool) -> ChannelView {
        ChannelView {
            intr_enabled: on,
            ..self.with_control(with_bit(with_bit(with_bit(self.control, 13, on), 14, on), 12, on))
        }
    }

    /// After the descriptors of the ring that was built are scheduled for
    /// copying: one operation per slot, in slot order.
    pub open spec fn with_ring(self, ring: RingView) -> ChannelView {
        ChannelView {
            ring,
            ops: self.ops + Seq::new(ring.len() as nat, |i: int| BusOp::Descriptor(i as usize)),
            ..self
        }
    }

    /// After a buffer is placed in the ring: the ring is `ring`, and the
    /// `count` descriptors from slot `start` on are scheduled for copying, in
    /// the order of the pieces.
    pub open spec fn with_pieces(self, ring: RingView, start: int, count: int) -> ChannelView {
        ChannelView {
            ring,
            ops: self.ops + Seq::new(
                count as nat,
                |k: int| BusOp::Descriptor(slot_after(start, k, ring.len()) as usize),
            ),
            ..self
        }
    }

    /// After the pending descriptors are announced to the device.
    ///
    /// If the channel is stopped, the current-descriptor pointer is set to
    /// the head descriptor. Then come the three fences, the compiler's, the
    /// processor's and the device's; then the write of the run bit, after
    /// which the channel counts as running; and, if descriptors are pending,
    /// they become submitted and the tail-descriptor pointer is set to the
    /// tail descriptor, which is what makes the device fetch them.
    pub open spec fn announced(self) -> ChannelView {
        let head = self.ring.bds[self.ring.head].phys_addr;
        let tail = self.ring.bds[self.ring.tail].phys_addr;
        let pointed = if self.ring.halted {
            self.with_current(head)
        } else {
            self
        };
        let fenced = pointed.after(BusOp::CompilerFence).after(BusOp::MemoryFence).after(
            BusOp::IoFence,
        );
        let running = fenced.with_control(with_bit(fenced.control, 0, true)).with_halted(false);
        if running.ring.pending > 0 {
            ChannelView {
                ring: RingView {
                    pending: 0,
                    submitted: running.ring.submitted + running.ring.pending,
                    ..running.ring
                },
                ..running
            }.with_tail(tail)
        } else {
            running
        }
    }

    /// Whether `self` is what submitting the buffer of `len` bytes at `addr`
    /// makes of `before`: the buffer is placed in the ring (see
    /// `RingView::filled`), the descriptors it fills are scheduled for
    /// copying, and they are announced to the device (see `announced`).
    pub open spec fn submitted(self, before: ChannelView, addr: int, len: int) -> bool {
        let count = crate::bd::bd_needed(len, before.ring.max_len);
        let placed = RingView {
            pending: before.ring.pending + count,
            submitted: before.ring.submitted,
            halted: before.ring.halted,
            ..self.ring
        };
        &&& placed.filled(before.ring, addr, len)
        &&& self == before.with_pieces(placed, before.ring.restart, count).announced()
    }

    /// Whether `self` is `before` after a reap of `count` descriptors.
    pub open spec fn reaped(self, before: ChannelView, count: int) -> bool {
        &&& before.ring.reaps(count)
        &&& self.ring.reaped(before.ring, count)
        &&& self == (ChannelView { ring: self.ring, ..before })
    }

    /// Whether `self` is `before` with the status word of the descriptor in
    /// slot `index` replaced by `status`.
    pub open spec fn bd_status_loaded(self, before: ChannelView, index: int, status: u32) -> bool {
        &&& self == (ChannelView {
            ring: RingView { bds: self.ring.bds, ..before.ring },
            ..before
        })
        &&& self.ring.len() == before.ring.len()
        &&& self.ring.bds[index].status_set(&before.ring.bds[index], status)
        &&& forall|i: int|
            0 <= i < before.ring.len() && i != index ==> #[trigger] self.ring.bds[i]
                == before.ring.bds[i]
    }

    /// After one interrupt bit of the status register is acknowledged: the
    /// status word is written back with the bit set, which clears every
    /// interrupt bit that was set in it.
    pub open spec fn ack(self, bit: u32) -> ChannelView {
        ChannelView { status: acked(self.status), ..self }.after(
            BusOp::Write(DMASR, with_bit(self.status, bit, true)),
        )
    }

    /// The channel after the interrupt handler has run, and whom it woke.
    ///
    /// With interrupts disabled nothing happens. Otherwise, on an error
    /// interrupt, the handler acknowledges it and fails. Without one, it
    /// acknowledges the completion interrupt, if that is pending, and wakes
    /// the oldest waiter, if there is one; then it acknowledges the delay
    /// interrupt, if that was pending.
    pub open spec fn handled(self) -> (ChannelView, Result<Option<u64>, AxiDMAErr>) {
        if !self.intr_enabled {
            (self, Ok(None))
        } else if bit_of(self.status, 14) {
            (self.ack(14), Err(AxiDMAErr::DMAErr))
        } else {
            let (first, woken) = if bit_of(self.status, 12) {
                if self.waiters.len() > 0 {
                    (
                        ChannelView {
                            waiters: self.waiters.subrange(1, self.waiters.len() as int),
                            ..self.ack(12)
                        },
                        Some(self.waiters[0]),
                    )
                } else {
                    (self.ack(12), None)
                }
            } else {
                (self, None)
            };
            let second = if bit_of(self.status, 13) {
                first.ack(13)
            } else {
                first
            };
            (second, Ok(woken))
        }
    }
}

/// One channel of the engine.
pub struct AxiDMAChannel {
    channel_baseaddr: usize,
    has_sts_cntrl_strm: bool,
    has_dre: bool,
    data_width: usize,
    max_transfer_len: usize,
    direction: Direaction,
    split: bool,
    hw: RegisterBlock,
    ring: AxiDmaBdRing,
    ctrl: ControlFiled,
    ops: Vec<BusOp>,
}

impl AxiDMAChannel {
    /// The channel as a mathematical value.
    pub closed spec fn view(&self) -> ChannelView {
        ChannelView {
            ring: self.ring@,
            control: self.hw.dmacr@,
            status: self.hw.dmasr@,
            curdesc: self.hw.curdesc@,
            curdesc_msb: self.hw.curdesc_msb@,
            taildesc: self.hw.taildesc@,
            taildesc_msb: self.hw.taildesc_msb@,
            intr_enabled: self.ctrl.is_intr_enable,
            cyclic: self.ctrl.is_cyclic,
            split: self.split,
            waiters: self.ctrl.waiters@,
            ops: self.ops@,
            direction: self.direction,
            base: self.channel_baseaddr,
        }
    }

    /// The invariant of the channel: that of its ring.
    pub closed spec fn wf(&self) -> bool {
        &&& self.ring.wf()
        &&& self.ring@.max_len == self.max_transfer_len
        &&& self.ring.config().has_sts_cntrl_strm == self.has_sts_cntrl_strm
        &&& self.ring.config().has_dre == self.has_dre
        &&& self.ring.config().data_width == self.data_width
    }

    /// The ring of a well-formed channel satisfies the invariant of rings.
    pub proof fn lemma_wf(&self)
        requires
            self.wf(),
        ensures
            self@.ring.wf(),
    {
        self.ring.lemma_wf();
    }

    /// A channel for `direction` as `cfg` describes it: no descriptors,
    /// stopped, interrupts and cyclic mode off, buffers not split, every
    /// register image zero, nothing to tell the device.
    pub fn new(direction: Direaction, cfg: &AxiDmaConfig) -> (channel: Self)
        ensures
            channel.wf(),
            channel@.ring.len() == 0,
            channel@.ring.halted,
            channel@.ring.max_len == max_len_of(cfg.sg_length_width),
            channel@.control == 0,
            channel@.status == 0,
            channel@.curdesc == 0,
            channel@.curdesc_msb == 0,
            channel@.taildesc == 0,
            channel@.taildesc_msb == 0,
            !channel@.intr_enabled,
            !channel@.cyclic,
            !channel@.split,
            channel@.waiters.len() == 0,
            channel@.ops.len() == 0,
            channel@.direction == direction,
            channel@.base == (match direction {
                Direaction::TX => cfg.base_address.wrapping_add(cfg.tx_channel_offset),
                Direaction::RX => cfg.base_address.wrapping_add(cfg.rx_channel_offset),
            }),
    {
        let width: u8 = if cfg.sg_length_width >= MAX_LENGTH_WIDTH {
            26
        } else {
            cfg.sg_length_width as u8
        };
        proof {
            crate::pac::generic::lemma_mask_values();
            lemma_mask_grows(width as u32);
        }
        let max_transfer_len = mask(width) as usize;
        let (has_dre, data_width, channel_baseaddr) = match direction {
            Direaction::TX => (
                cfg.has_mm2s_dre,
                cfg.mm2s_data_width,
                cfg.base_address.wrapping_add(cfg.tx_channel_offset),
            ),
            Direaction::RX => (
                cfg.has_s2mm_dre,
                cfg.s2mm_data_width,
                cfg.base_address.wrapping_add(cfg.rx_channel_offset),
            ),
        };
        let is_rx_chan = match direction {
            Direaction::TX => false,
            Direaction::RX => true,
        };
        let ring = AxiDmaBdRing::new(
            AxiDmaBdRingConfig {
                chan_base_addr: channel_baseaddr,
                is_rx_chan,
                has_sts_cntrl_strm: cfg.has_sts_cntrl_strm,
                has_dre,
                data_width,
                addr_ext: cfg.addr_width > 32,
                max_transfer_len,
            },
        );
        AxiDMAChannel {
            channel_baseaddr,
            has_sts_cntrl_strm: cfg.has_sts_cntrl_strm,
            has_dre,
            data_width,
            max_transfer_len,
            direction,
            split: false,
            hw: RegisterBlock::new(),
            ring,
            ctrl: ControlFiled {
                is_intr_enable: false,
                is_cyclic: false,
                waiters: VecDeque::new(),
            },
            ops: Vec::new(),
        }
    }

    /// The descriptor ring.
    pub fn ring(&self) -> (ring: &AxiDmaBdRing)
        ensures
            ring@ == self@.ring,
            self.wf() ==> ring.wf(),
    {
        &self.ring
    }

    /// What the interrupt handler and the submitter share.
    pub fn ctrl(&self) -> (ctrl: &ControlFiled)
        ensures
            ctrl.intr_enabled() == self@.intr_enabled,
            ctrl.cyclic() == self@.cyclic,
            ctrl.waiting() == self@.waiters,
    {
        &self.ctrl
    }

    /// The register images.
    pub fn hardware(&self) -> (hw: &RegisterBlock)
        ensures
            hw.dmacr@ == self@.control,
            hw.dmasr@ == self@.status,
            hw.curdesc@ == self@.curdesc,
            hw.curdesc_msb@ == self@.curdesc_msb,
            hw.taildesc@ == self@.taildesc,
            hw.taildesc_msb@ == self@.taildesc_msb,
    {
        &self.hw
    }

    /// Which way the channel moves data.
    pub fn direction(&self) -> (direction: Direaction)
        ensures
            direction == self@.direction,
    {
        self.direction
    }

    /// Address of the register block of the channel.
    pub fn base_address(&self) -> (base: usize)
        ensures
            base == self@.base,
    {
        self.channel_baseaddr
    }

    /// The longest piece one descriptor may name.
    pub fn max_transfer_len(&self) -> (max: usize)
        requires
            self.wf(),
        ensures
            max == self@.ring.max_len,
    {
        self.max_transfer_len
    }

    /// Allows or forbids buffers longer than one descriptor may name; the
    /// ring cuts them into pieces.
    pub fn permit_split(&mut self, permit: bool)
        ensures
            final(self)@ == (ChannelView { split: permit, ..old(self)@ }),
            old(self).wf() ==> final(self).wf(),
    {
        self.split = permit;
    }

    /// Records `control` as the control word the device holds.
    pub fn load_control(&mut self, control: u32)
        ensures
            final(self)@ == (ChannelView { control, ..old(self)@ }),
            old(self).wf() ==> final(self).wf(),
    {
        self.hw.dmacr.load(control);
    }

    /// Records `status` as the status word the device holds.
    pub fn load_status(&mut self, status: u32)
        ensures
            final(self)@ == (ChannelView { status, ..old(self)@ }),
            old(self).wf() ==> final(self).wf(),
    {
        self.hw.dmasr.load(status);
    }

    /// Records `status` as the status word the device wrote to the
    /// descriptor in slot `index`.
    ///
    /// Fails with `InValidParam`, and changes nothing, exactly when the ring
    /// has no such slot.
    pub fn load_bd_status(&mut self, index: usize, status: u32) -> (res: Result<(), AxiDMAErr>)
        requires
            old(self).wf(),
        ensures
            final(self).wf(),
            res == (if index < old(self)@.ring.len() {
                Ok::<(), AxiDMAErr>(())
            } else {
                Err(AxiDMAErr::InValidParam)
            }),
            res is Err ==> final(self)@ == old(self)@,
            res is Ok ==> final(self)@.bd_status_loaded(old(self)@, index as int, status),
    {
        if index >= self.ring.len() {
            return Err(AxiDMAErr::InValidParam);
        }
        self.ring.set_status(index, status);
        Ok(())
    }

    /// Hands out the bus operations collected so far, oldest first, and
    /// starts a new list.
    pub fn take_ops(&mut self) -> (ops: Vec<BusOp>)
        ensures
            ops@ == old(self)@.ops,
            final(self)@ == (ChannelView { ops: Seq::empty(), ..old(self)@ }),
            old(self).wf() ==> final(self).wf(),
    {
        let mut ops: Vec<BusOp> = Vec::new();
        std::mem::swap(&mut ops, &mut self.ops);
        ops
    }

    /// Appends the write of the control image to the journal.
    fn journal_control(&mut self)
        ensures
            final(self)@ == old(self)@.after(BusOp::Write(DMACR, old(self)@.control)),
            old(self).wf() ==> final(self).wf(),
    {
        let word = self.hw.dmacr.read().bits();
        self.ops.push(BusOp::Write(DMACR, word));
    }

    /// Builds the descriptor ring of the channel (see
    /// `AxiDmaBdRing::create`) and schedules every descriptor for copying to
    /// descriptor memory.
    ///
    /// Fails with `InValidParam`, and changes nothing, exactly when
    /// `bd_count` is zero, `base_addr` is not a multiple of 64, or the slots
    /// would run past the end of the address space.
    pub fn create(&mut self, bd_count: usize, base_addr: usize) -> (res: Result<(), AxiDMAErr>)
        requires
            old(self).wf(),
        ensures
            final(self).wf(),
            res == (if bd_count > 0 && base_addr % 64 == 0 && base_addr + 64 * bd_count
                <= usize::MAX {
                Ok::<(), AxiDMAErr>(())
            } else {
                Err(AxiDMAErr::InValidParam)
            }),
            res is Err ==> final(self)@ == old(self)@,
            res is Ok ==> {
                &&& final(self)@.ring.built(
                    bd_count as int,
                    base_addr as int,
                    old(self)@.ring.max_len,
                )
                &&& final(self)@ == old(self)@.with_ring(final(self)@.ring)
            },
    {
        match self.ring.create(bd_count, base_addr) {
            Err(e) => {
                return Err(e);
            },
            Ok(()) => {},
        }
        let ghost before = old(self)@;
        let mut i: usize = 0;
        while i < bd_count
            invariant
                i <= bd_count,
                self.wf(),
                self@ == (ChannelView {
                    ops: before.ops + Seq::new(i as nat, |j: int| BusOp::Descriptor(j as usize)),
                    ..self@
                }),
                self@ == (ChannelView { ops: self@.ops, ring: self@.ring, ..before }),
                self@.ring.len() == bd_count,
                self@.ring.built(bd_count as int, base_addr as int, before.ring.max_len),
            decreases bd_count - i,
        {
            self.ops.push(BusOp::Descriptor(i));
            proof {
                assert(self@.ops =~= before.ops + Seq::new(
                    (i + 1) as nat,
                    |j: int| BusOp::Descriptor(j as usize),
                ));
            }
            i = i + 1;
        }
        Ok(())
    }

    /// Asks the device to reset the channel. The channel counts as stopped
    /// from now on; whether the reset is over is for `reset_is_done` to say.
    pub fn reset(&mut self) -> (res: Result<(), AxiDMAErr>)
        requires
            old(self).wf(),
        ensures
            final(self).wf(),
            res is Ok,
            final(self)@ == old(self)@.reset(),
    {
        self.hw.dmacr.modify(|_r: &R<DmacrSpec>, w: W<DmacrSpec>| -> (o: W<DmacrSpec>)
            ensures
                o@ == with_bit(w@, 2, true),
            { w.reset().reset() });
        self.journal_control();
        self.ring.set_halted(true);
        Ok(())
    }

    /// Starts the channel.
    pub fn start(&mut self) -> (res: Result<(), AxiDMAErr>)
        requires
            old(self).wf(),
        ensures
            final(self).wf(),
            res is Ok,
            final(self)@ == old(self)@.started(),
    {
        self.hw.dmacr.modify(|_r: &R<DmacrSpec>, w: W<DmacrSpec>| -> (o: W<DmacrSpec>)
            ensures
                o@ == with_bit(w@, 0, true),
            { w.run_stop().run() });
        self.journal_control();
        self.ring.set_halted(false);
        Ok(())
    }

    /// Stops the channel.
    pub fn stop(&mut self) -> (res: Result<(), AxiDMAErr>)
        requires
            old(self).wf(),
        ensures
            final(self).wf(),
            res is Ok,
            final(self)@ == old(self)@.stopped(),
    {
        self.hw.dmacr.modify(|_r: &R<DmacrSpec>, w: W<DmacrSpec>| -> (o: W<DmacrSpec>)
            ensures
                o@ == with_bit(w@, 0, false),
            { w.run_stop().stop() });
        self.journal_control();
        self.ring.set_halted(true);
        Ok(())
    }

    /// Whether the device has finished the reset: the reset bit of the
    /// control image is clear.
    pub fn reset_is_done(&self) -> (done: bool)
        ensures
            done == !bit_of(self@.control, 2),
    {
        !self.hw.dmacr.read().reset().is_reset()
    }

    /// Sets the number of completions the device collects before it raises
    /// the completion interrupt.
    ///
    /// Fails with `InValidParam`, and changes nothing, exactly when
    /// `threshold` is zero or above 255.
    pub fn set_coalesce(&mut self, threshold: usize) -> (res: Result<(), AxiDMAErr>)
        requires
            old(self).wf(),
        ensures
            final(self).wf(),
            res == (if 1 <= threshold <= 255 {
                Ok::<(), AxiDMAErr>(())
            } else {
                Err(AxiDMAErr::InValidParam)
            }),
            res is Err ==> final(self)@ == old(self)@,
            res is Ok ==> final(self)@ == old(self)@.coalesced(threshold as u8),
    {
        if threshold == 0 || threshold > 0xff {
            return Err(AxiDMAErr::InValidParam);
        }
        let value: u8 = threshold as u8;
        self.hw.dmacr.modify(|_r: &R<DmacrSpec>, w: W<DmacrSpec>| -> (o: W<DmacrSpec>)
            ensures
                o@ == with_field(w@, 16, 8, value as u32),
            { w.irq_threshold().bits(value) });
        self.journal_control();
        Ok(())
    }

    /// The interrupt threshold in the control image.
    pub fn get_coalesce(&self) -> (threshold: usize)
        ensures
            threshold == field_of(self@.control, 16, 8),
    {
        self.hw.dmacr.read().irq_threshold().bits() as usize
    }

    /// Switches cyclic mode on: the device then walks the ring without
    /// pausing at the tail.
    pub fn cyclic_enable(&mut self)
        requires
            old(self).wf(),
        ensures
            final(self).wf(),
            final(self)@ == old(self)@.with_cyclic(true),
    {
        self.hw.dmacr.modify(|_r: &R<DmacrSpec>, w: W<DmacrSpec>| -> (o: W<DmacrSpec>)
            ensures
                o@ == with_bit(w@, 4, true),
            { w.cyclic_enable().set_bit() });
        self.journal_control();
        self.ctrl.is_cyclic = true;
    }

    /// Switches cyclic mode off.
    pub fn cyclic_disable(&mut self)
        requires
            old(self).wf(),
        ensures
            final(self).wf(),
            final(self)@ == old(self)@.with_cyclic(false),
    {
        self.hw.dmacr.modify(|_r: &R<DmacrSpec>, w: W<DmacrSpec>| -> (o: W<DmacrSpec>)
            ensures
                o@ == with_bit(w@, 4, false),
            { w.cyclic_enable().clear_bit() });
        self.journal_control();
        self.ctrl.is_cyclic = false;
    }

    /// Disables the three interrupts of the channel in one write.
    pub fn intr_disable(&mut self)
        requires
            old(self).wf(),
        ensures
            final(self).wf(),
            final(self)@ == old(self)@.with_interrupts(false),
    {
        self.hw.dmacr.modify(|_r: &R<DmacrSpec>, w: W<DmacrSpec>| -> (o: W<DmacrSpec>)
            ensures
                o@ == with_bit(with_bit(with_bit(w@, 13, false), 14, false), 12, false),
            { w.dly_irq_en().disable().err_irq_en().disable().ioc_irq_en().disable() });
        self.journal_control();
        self.ctrl.is_intr_enable = false;
    }

    /// Enables the three interrupts of the channel in one write.
    pub fn intr_enable(&mut self)
        requires
            old(self).wf(),
        ensures
            final(self).wf(),
            final(self)@ == old(self)@.with_interrupts(true),
    {
        self.hw.dmacr.modify(|_r: &R<DmacrSpec>, w: W<DmacrSpec>| -> (o: W<DmacrSpec>)
            ensures
                o@ == with_bit(with_bit(with_bit(w@, 13, true), 14, true), 12, true),
            { w.dly_irq_en().enable().err_irq_en().enable().ioc_irq_en().enable() });
        self.journal_control();
        self.ctrl.is_intr_enable = true;
    }

    /// Sets the current-descriptor pointer to `addr`, low word first.
    fn update_cur_bd(&mut self, addr: usize)
        ensures
            final(self)@ == old(self)@.with_current(addr),
            old(self).wf() ==> final(self).wf(),
    {
        let a: u64 = addr as u64;
        proof {
            crate::bd::lemma_pointer_round_trip(a);
        }
        let addr_lsb: u32 = ((a & 0xffff_ffff) >> 6) as u32;
        let addr_msb: u32 = (a >> 32) as u32;
        self.hw.curdesc.write(|w: W<CurdescSpec>| -> (o: W<CurdescSpec>)
            ensures
                o@ == with_field(w@, 6, 26, addr_lsb),
            { w.curdesc_ptr().bits(addr_lsb) });
        self.hw.curdesc_msb.write(|w: W<CurdescMsbSpec>| -> (o: W<CurdescMsbSpec>)
            ensures
                o@ == with_field(w@, 0, 32, addr_msb),
            { w.curdesc_ptr().bits(addr_msb) });
        proof {
            crate::bd::lemma_whole_word(0, addr_msb);
        }
        let low = self.hw.curdesc.read().bits();
        let high = self.hw.curdesc_msb.read().bits();
        self.ops.push(BusOp::Write(CURDESC, low));
        self.ops.push(BusOp::Write(CURDESC_MSB, high));
    }

    /// Sets the tail-descriptor pointer to `addr`, low word first.
    fn update_tail_bd(&mut self, addr: usize)
        ensures
            final(self)@ == old(self)@.with_tail(addr),
            old(self).wf() ==> final(self).wf(),
    {
        let a: u64 = addr as u64;
        proof {
            crate::bd::lemma_pointer_round_trip(a);
        }
        let addr_lsb: u32 = ((a & 0xffff_ffff) >> 6) as u32;
        let addr_msb: u32 = (a >> 32) as u32;
        self.hw.taildesc.write(|w: W<TaildescSpec>| -> (o: W<TaildescSpec>)
            ensures
                o@ == with_field(w@, 6, 26, addr_lsb),
            { w.taildesc_ptr().bits(addr_lsb) });
        self.hw.taildesc_msb.write(|w: W<TaildescMsbSpec>| -> (o: W<TaildescMsbSpec>)
            ensures
                o@ == with_field(w@, 0, 32, addr_msb),
            { w.taildesc_ptr().bits(addr_msb) });
        proof {
            crate::bd::lemma_whole_word(0, addr_msb);
        }
        let low = self.hw.taildesc.read().bits();
        let high = self.hw.taildesc_msb.read().bits();
        self.ops.push(BusOp::Write(TAILDESC, low));
        self.ops.push(BusOp::Write(TAILDESC_MSB, high));
    }

    /// Announces the pending descriptors to the device (see
    /// `ChannelView::announced`): the pointer to start from if the channel is
    /// stopped, the fences, the run bit, and the tail pointer if anything is
    /// pending.
    ///
    /// Fails with `BDRingNoList`, and changes nothing, exactly when the ring
    /// has no descriptors.
    pub fn to_hw(&mut self) -> (res: Result<(), AxiDMAErr>)
        requires
            old(self).wf(),
        ensures
            final(self).wf(),
            res == (if old(self)@.ring.len() > 0 {
                Ok::<(), AxiDMAErr>(())
            } else {
                Err(AxiDMAErr::BDRingNoList)
            }),
            res is Err ==> final(self)@ == old(self)@,
            res is Ok ==> final(self)@ == old(self)@.announced(),
    {
        if self.ring.len() == 0 {
            return Err(AxiDMAErr::BDRingNoList);
        }
        proof {
            self.ring.lemma_wf();
        }
        let tail = self.ring.tail_desc_addr();
        if self.ring.is_halted() {
            let head = self.ring.head_desc_addr();
            self.update_cur_bd(head);
        }
        self.ops.push(BusOp::CompilerFence);
        self.ops.push(BusOp::MemoryFence);
        self.ops.push(BusOp::IoFence);
        self.hw.dmacr.modify(|_r: &R<DmacrSpec>, w: W<DmacrSpec>| -> (o: W<DmacrSpec>)
            ensures
                o@ == with_bit(w@, 0, true),
            { w.run_stop().run() });
        self.journal_control();
        self.ring.set_halted(false);
        if self.ring.pending_cnt() > 0 {
            let _ = self.ring.announce();
            self.update_tail_bd(tail);
        }
        Ok(())
    }

    /// What `submit` returns for a buffer of `len` bytes at `addr`, but for
    /// the handle in the `Ok` case: a buffer longer than one descriptor may
    /// name is refused with `InValidParam` unless splitting is permitted;
    /// otherwise the ring decides.
    pub open spec fn submit_outcome(view: ChannelView, addr: int, len: int) -> Result<
        (),
        AxiDMAErr,
    > {
        if !view.split && len > view.ring.max_len {
            Err(AxiDMAErr::InValidParam)
        } else {
            AxiDmaBdRing::submit_outcome(view.ring, addr, len)
        }
    }

    /// Hands a buffer to the device: places it in the ring, schedules the
    /// descriptors it fills for copying to descriptor memory, and announces
    /// them to the device as `to_hw` does.
    ///
    /// Returns the handle that gives the buffer back once the device has
    /// released it. Fails as `submit_outcome` says, and then changes nothing.
    pub fn submit(&mut self, buffer: BufPtr) -> (res: Result<Transfer, AxiDMAErr>)
        requires
            old(self).wf(),
        ensures
            final(self).wf(),
            match res {
                Ok(transfer) => {
                    let before = old(self)@;
                    let count = crate::bd::bd_needed(buffer.size() as int, before.ring.max_len);
                    &&& Self::submit_outcome(before, buffer.addr() as int, buffer.size() as int)
                        is Ok
                    &&& final(self)@.submitted(before, buffer.addr() as int, buffer.size() as int)
                    &&& transfer.buffer() == buffer
                    &&& transfer.direction() == before.direction
                    &&& transfer.first_slot() == before.ring.restart
                    &&& transfer.slot_count() == count
                },
                Err(e) => {
                    &&& Self::submit_outcome(
                        old(self)@,
                        buffer.addr() as int,
                        buffer.size() as int,
                    ) == Err::<(), AxiDMAErr>(e)
                    &&& final(self)@ == old(self)@
                },
            },
    {
        if !self.split && buffer.len() > self.max_transfer_len {
            return Err(AxiDMAErr::InValidParam);
        }
        let ghost before = self@;
        proof {
            self.ring.lemma_wf();
        }
        let start = self.ring.restart();
        let free = self.ring.free_cnt();
        match self.ring.submit(&buffer) {
            Err(e) => {
                return Err(e);
            },
            Ok(_) => {},
        }
        let count = free - self.ring.free_cnt();
        let ghost placed = self.ring@;
        let n = self.ring.len();
        proof {
            self.ring.lemma_wf();
            crate::bd_ring::lemma_bd_needed_is_ceil(buffer.size() as int, before.ring.max_len);
        }
        let mut k: usize = 0;
        let mut slot: usize = start;
        while k < count
            invariant
                k <= count <= n,
                start < n,
                n == placed.len(),
                slot == slot_after(start as int, k as int, n as int),
                slot < n,
                self.wf(),
                self@ == (ChannelView {
                    ring: placed,
                    ops: before.ops + Seq::new(
                        k as nat,
                        |j: int| BusOp::Descriptor(slot_after(start as int, j, n as int) as usize),
                    ),
                    ..before
                }),
            decreases count - k,
        {
            self.ops.push(BusOp::Descriptor(slot));
            proof {
                assert(self@.ops =~= before.ops + Seq::new(
                    (k + 1) as nat,
                    |j: int| BusOp::Descriptor(slot_after(start as int, j, n as int) as usize),
                ));
            }
            k = k + 1;
            slot = if slot + 1 == n {
                0
            } else {
                slot + 1
            };
        }
        let _ = self.to_hw();
        Ok(Transfer::new(buffer, self.direction, start, count))
    }

    /// Takes back the descriptors the device is done with (see
    /// `AxiDmaBdRing::from_hw`), and says how many there were. This never
    /// fails, also when there were none.
    pub fn from_hw(&mut self) -> (res: Result<usize, AxiDMAErr>)
        requires
            old(self).wf(),
        ensures
            final(self).wf(),
            res is Ok,
            final(self)@.reaped(old(self)@, res->Ok_0 as int),
    {
        let count = self.ring.from_hw();
        Ok(count)
    }

    /// Whether the status image shows an interrupt condition: completion,
    /// delay or error.
    pub fn check_cmplt(&self) -> (done: bool)
        ensures
            done == interrupting(self@.status),
    {
        let status = self.hw.dmasr.read();
        status.err_irq().is_detected() || status.dly_irq().is_detected()
            || status.ioc_irq().is_detected()
    }

    /// Adds `token` to those who wait for a completion.
    pub fn register_waiter(&mut self, token: u64)
        ensures
            final(self)@ == (ChannelView {
                waiters: old(self)@.waiters.push(token),
                ..old(self)@
            }),
            old(self).wf() ==> final(self).wf(),
    {
        self.ctrl.waiters.push_back(token);
    }

    /// Acknowledges the interrupt at `bit` of the status register (see
    /// `ChannelView::ack`).
    fn ack(&mut self, bit: u8)
        requires
            12 <= bit <= 14,
        ensures
            final(self)@ == old(self)@.ack(bit as u32),
            old(self).wf() ==> final(self).wf(),
    {
        let status = self.hw.dmasr.read().bits();
        let at: u32 = bit as u32;
        self.ops.push(BusOp::Write(DMASR, status | (1u32 << at)));
        self.hw.dmasr.load(((status & !(1u32 << 12u32)) & !(1u32 << 13u32)) & !(1u32 << 14u32));
    }

    /// Handles an interrupt of the channel (see `ChannelView::handled`), and
    /// says whom to wake.
    ///
    /// Fails with `DMAErr` exactly when interrupts are enabled and the status
    /// image shows the error interrupt, which is acknowledged all the same.
    pub fn intr_handler(&mut self) -> (res: Result<Option<u64>, AxiDMAErr>)
        requires
            old(self).wf(),
        ensures
            final(self).wf(),
            final(self)@ == old(self)@.handled().0,
            res == old(self)@.handled().1,
    {
        if !self.ctrl.is_intr_enable {
            return Ok(None);
        }
        let status = self.hw.dmasr.read();
        if status.err_irq().is_detected() {
            self.ack(14);
            return Err(AxiDMAErr::DMAErr);
        }
        let mut woken: Option<u64> = None;
        if status.ioc_irq().is_detected() {
            self.ack(12);
            woken = self.ctrl.waiters.pop_front();
        }
        if status.dly_irq().is_detected() {
            self.ack(13);
        }
        Ok(woken)
    }

    /// The register images a diagnostic dump shows, in this order: control,
    /// status, current-descriptor pointer high and low, tail-descriptor
    /// pointer high and low.
    pub fn dump_regs(&self) -> (words: [u32; 6])
        ensures
            words[0] == self@.control,
            words[1] == self@.status,
            words[2] == self@.curdesc_msb,
            words[3] == self@.curdesc,
            words[4] == self@.taildesc_msb,
            words[5] == self@.taildesc,
    {
        [
            self.hw.dmacr.read().bits(),
            self.hw.dmasr.read().bits(),
            self.hw.curdesc_msb.read().bits(),
            self.hw.curdesc.read().bits(),
            self.hw.taildesc_msb.read().bits(),
            self.hw.taildesc.read().bits(),
        ]
    }
}

/// A mask of at most 26 bits is at most the mask of 26 bits.
pub proof fn lemma_mask_grows(width: u32)
    by (bit_vector)
    requires
        width <= 26,
    ensures
        mask_of(width) <= 0x03ff_ffff,
{
}

} // verus!
