//! Driver core for a scatter-gather DMA engine with a transmit and a receive
//! channel.
//!
//! Each channel walks a ring of buffer descriptors in memory. The driver
//! places a buffer in free descriptors of the ring, announces them to the
//! device through the registers of the channel, and takes them back when the
//! device has marked them complete.
//!
//! The core never touches the device. It works on images of the registers
//! and of the descriptors, and it lists, in order, the bus operations that
//! carry its decisions to the device ([`channel::BusOp`]). Whoever owns the
//! engine replays that list on the bus, and records what the device reports
//! with the `load_*` operations before asking the core to look. The owner
//! also provides mutual exclusion: every operation that changes the engine
//! takes it by unique reference.
//!
//! The modules, from the bottom up:
//!
//! - [`pac`]: the registers and their fields, bit by bit;
//! - [`bd`]: one buffer descriptor;
//! - [`bd_ring`]: the ring of descriptors with its cursors and counts;
//! - [`channel`]: one channel, its ring and its registers;
//! - this module: the engine with its two channels and the reset;
//! - [`transfer`]: the handle that keeps a buffer until the device has
//!   released it.
use crate::bd::bd_needed;
use crate::buffer::BufPtr;
use crate::channel::{interrupting, max_len_of, AxiDMAChannel, BusOp, ChannelView, Direaction};
use crate::errno::AxiDMAErr;
use crate::pac::generic::bit_of;
use crate::transfer::Transfer;
use vstd::prelude::*;

pub mod bd;
pub mod bd_ring;
pub mod buffer;
pub mod channel;
pub mod errno;
pub mod hw;
pub mod pac;
pub mod transfer;

verus! {

/// What an operation without a result returns.
pub type AxiDMAResult = Result<(), errno::AxiDMAErr>;

/// How the engine was built.
#[derive(Debug)]
pub struct AxiDmaConfig {
    /// Physical address of the register map.
    pub base_address: usize,
    /// Byte offset of the registers of the receive channel.
    pub rx_channel_offset: usize,
    /// Byte offset of the registers of the transmit channel.
    pub tx_channel_offset: usize,
    /// Whether the status/control stream is present.
    pub has_sts_cntrl_strm: bool,
    /// Whether the engine was built in micro mode.
    pub is_micro_dma: bool,
    /// Whether the transmit channel is present.
    pub has_mm2s: bool,
    /// Whether the transmit channel can realign data.
    pub has_mm2s_dre: bool,
    /// Width of the transmit data path in bits.
    pub mm2s_data_width: usize,
    /// Beats per burst on the transmit side.
    pub mm2s_burst_size: usize,
    /// Whether the receive channel is present.
    pub has_s2mm: bool,
    /// Whether the receive channel can realign data.
    pub has_s2mm_dre: bool,
    /// Width of the receive data path in bits.
    pub s2mm_data_width: usize,
    /// Beats per burst on the receive side.
    pub s2mm_burst_size: usize,
    /// Whether the scatter-gather engine is present.
    pub has_sg: bool,
    /// Width of the length field of a descriptor in bits.
    pub sg_length_width: usize,
    /// Width of an address in bits.
    pub addr_width: isize,
}


/// How often a reset may be polled before it counts as failed.
pub const RESET_TIMEOUT: usize = 500;

/// The engine as a mathematical value.
pub struct EngineView {
    /// The transmit channel, if the engine has one.
    pub tx: Option<ChannelView>,
    /// The receive channel, if the engine has one.
    pub rx: Option<ChannelView>,
    /// Whether a reset has succeeded.
    pub initialized: bool,
    /// How many polls the reset under way has left; zero if none is under
    /// way.
    pub polls_left: int,
    /// Width of an address in bits.
    pub addr_width: int,
}

/// One past the highest address the device can reach with addresses of
/// `addr_width` bits: 32-bit addresses unless more are configured.
pub open spec fn address_space(addr_width: int) -> int {
    if addr_width <= 32 {
        0x1_0000_0000
    } else {
        0x1_0000_0000_0000_0000
    }
}

/// `f` applied to a channel that is there.
pub open spec fn on_channel(
    channel: Option<ChannelView>,
    f: spec_fn(ChannelView) -> ChannelView,
) -> Option<ChannelView> {
    match channel {
        Some(view) => Some(f(view)),
        None => None,
    }
}

impl EngineView {
    /// The channel for `direction`, if the engine has it.
    pub open spec fn channel(self, direction: Direaction) -> Option<ChannelView> {
        match direction {
            Direaction::TX => self.tx,
            Direaction::RX => self.rx,
        }
    }

    /// The engine with `channel` in the place for `direction`.
    pub open spec fn with_channel(self, direction: Direaction, channel: ChannelView) -> EngineView {
        match direction {
            Direaction::TX => EngineView { tx: Some(channel), ..self },
            Direaction::RX => EngineView { rx: Some(channel), ..self },
        }
    }

    /// After `f` was done to every channel the engine has.
    pub open spec fn on_both(self, f: spec_fn(ChannelView) -> ChannelView) -> EngineView {
        EngineView { tx: on_channel(self.tx, f), rx: on_channel(self.rx, f), ..self }
    }

    /// Whether no channel that is there shows its reset bit.
    pub open spec fn reset_done(self) -> bool {
        &&& self.tx is Some ==> !bit_of(self.tx->Some_0.control, 2)
        &&& self.rx is Some ==> !bit_of(self.rx->Some_0.control, 2)
    }

    /// After a reset was requested: every channel has its reset requested,
    /// the engine counts as not initialised, and the reset has
    /// `RESET_TIMEOUT` polls to finish.
    pub open spec fn reset_requested(self) -> EngineView {
        EngineView {
            initialized: false,
            polls_left: RESET_TIMEOUT as int,
            ..self.on_both(|c: ChannelView| c.reset())
        }
    }

    /// The engine after one poll of the reset, and what the poll returns.
    ///
    /// An initialised engine has nothing to wait for. Without a reset under
    /// way, and after its last poll, the poll fails. Otherwise the reset has
    /// succeeded if no channel shows its reset bit, and the engine is
    /// initialised; if one does, the reset has one poll less.
    pub open spec fn polled(self) -> (EngineView, Result<bool, AxiDMAErr>) {
        if self.initialized {
            (self, Ok(true))
        } else if self.polls_left <= 0 {
            (self, Err(AxiDMAErr::DMAErr))
        } else if self.reset_done() {
            (EngineView { initialized: true, polls_left: 0, ..self }, Ok(true))
        } else if self.polls_left == 1 {
            (EngineView { polls_left: 0, ..self }, Err(AxiDMAErr::DMAErr))
        } else {
            (EngineView { polls_left: self.polls_left - 1, ..self }, Ok(false))
        }
    }

    /// The engine after `count` polls of the reset.
    pub open spec fn after_polls(self, count: nat) -> EngineView
        decreases count,
    {
        if count == 0 {
            self
        } else {
            self.polled().0.after_polls((count - 1) as nat)
        }
    }

    /// While a channel shows its reset bit, a poll of the reset under way
    /// uses up one poll and changes nothing else.
    pub proof fn lemma_polls_count_down(self, count: nat)
        requires
            !self.initialized,
            !self.reset_done(),
            count <= self.polls_left,
        ensures
            self.after_polls(count) == (EngineView {
                polls_left: self.polls_left - count,
                ..self
            }),
        decreases count,
    {
        if count > 0 {
            self.polled().0.lemma_polls_count_down((count - 1) as nat);
        }
    }

    /// A reset that the device never finishes fails at the last of the
    /// `RESET_TIMEOUT` polls and not before; the engine is then not
    /// initialised, and stays so however often it is polled.
    pub proof fn law_reset_times_out(self, polls: nat)
        requires
            !self.initialized,
            self.polls_left == RESET_TIMEOUT,
            !self.reset_done(),
        ensures
            polls + 1 < RESET_TIMEOUT ==> self.after_polls(polls).polled().1 == Ok::<
                bool,
                AxiDMAErr,
            >(false),
            polls + 1 >= RESET_TIMEOUT ==> self.after_polls(polls).polled().1 == Err::<
                bool,
                AxiDMAErr,
            >(AxiDMAErr::DMAErr),
            !self.after_polls(polls).initialized,
            self.after_polls(polls).submit_outcome(Direaction::TX, 0, 1) == Err::<
                (),
                AxiDMAErr,
            >(AxiDMAErr::NotInit),
    {
        if polls <= RESET_TIMEOUT {
            self.lemma_polls_count_down(polls);
        } else {
            self.lemma_polls_count_down(RESET_TIMEOUT as nat);
            let spent = self.after_polls(RESET_TIMEOUT as nat);
            spent.lemma_spent_stays_spent((polls - RESET_TIMEOUT) as nat);
            self.lemma_polls_add(RESET_TIMEOUT as nat, (polls - RESET_TIMEOUT) as nat);
        }
    }

    /// Polling an engine that is not initialised and has no polls left
    /// changes nothing.
    pub proof fn lemma_spent_stays_spent(self, count: nat)
        requires
            !self.initialized,
            self.polls_left == 0,
        ensures
            self.after_polls(count) == self,
        decreases count,
    {
        if count > 0 {
            self.lemma_spent_stays_spent((count - 1) as nat);
        }
    }

    /// Polls add up.
    pub proof fn lemma_polls_add(self, first: nat, more: nat)
        ensures
            self.after_polls(first + more) == self.after_polls(first).after_polls(more),
        decreases first,
    {
        if first > 0 {
            self.polled().0.lemma_polls_add((first - 1) as nat, more);
        }
    }

    /// What a submission to `direction` of a buffer of `len` bytes at `addr`
    /// returns, but for the handle in the `Ok` case.
    ///
    /// It fails with `NotInit` before a reset has succeeded, with
    /// `ChannelAbsent` if the engine has no such channel, and with
    /// `InValidParam` for an empty buffer and for one that runs past the
    /// addresses the device can reach; otherwise the channel decides.
    pub open spec fn submit_outcome(self, direction: Direaction, addr: int, len: int) -> Result<
        (),
        AxiDMAErr,
    > {
        if !self.initialized {
            Err(AxiDMAErr::NotInit)
        } else if self.channel(direction) is None {
            Err(AxiDMAErr::ChannelAbsent)
        } else if len == 0 || addr + len > address_space(self.addr_width) {
            Err(AxiDMAErr::InValidParam)
        } else {
            AxiDMAChannel::submit_outcome(self.channel(direction)->Some_0, addr, len)
        }
    }
}

/// The engine: up to two channels and what they share.
pub struct AxiDma {
    base_address: usize,
    has_sg: bool,
    is_micro_dma: bool,
    addr_width: isize,
    is_initialized: bool,
    reset_polls: usize,
    tx_channel: Option<AxiDMAChannel>,
    rx_channel: Option<AxiDMAChannel>,
}

impl AxiDma {
    /// The engine as a mathematical value.
    pub closed spec fn view(&self) -> EngineView {
        EngineView {
            tx: match self.tx_channel {
                Some(channel) => Some(channel@),
                None => None,
            },
            rx: match self.rx_channel {
                Some(channel) => Some(channel@),
                None => None,
            },
            initialized: self.is_initialized,
            polls_left: self.reset_polls as int,
            addr_width: self.addr_width as int,
        }
    }

    /// The invariant of the engine: that of its channels, each of which
    /// knows its direction.
    pub closed spec fn wf(&self) -> bool {
        &&& self.tx_channel is Some ==> self.tx_channel->Some_0.wf()
            && self.tx_channel->Some_0@.direction == Direaction::TX
        &&& self.rx_channel is Some ==> self.rx_channel->Some_0.wf()
            && self.rx_channel->Some_0@.direction == Direaction::RX
        &&& self.reset_polls <= RESET_TIMEOUT
    }

    /// The rings of a well-formed engine satisfy the invariant of rings.
    pub proof fn lemma_wf(&self)
        requires
            self.wf(),
        ensures
            self@.tx is Some ==> self@.tx->Some_0.ring.wf() && self@.tx->Some_0.direction
                == Direaction::TX,
            self@.rx is Some ==> self@.rx->Some_0.ring.wf() && self@.rx->Some_0.direction
                == Direaction::RX,
            0 <= self@.polls_left <= RESET_TIMEOUT,
    {
        if self.tx_channel is Some {
            self.tx_channel->Some_0.lemma_wf();
        }
        if self.rx_channel is Some {
            self.rx_channel->Some_0.lemma_wf();
        }
    }

    /// The engine as `cfg` describes it: the channels it names, each as
    /// `AxiDMAChannel::new` makes it, and not initialised.
    pub fn new(cfg: AxiDmaConfig) -> (dma: Self)
        ensures
            dma.wf(),
            !dma@.initialized,
            dma@.polls_left == 0,
            dma@.addr_width == cfg.addr_width,
            dma@.tx is Some <==> cfg.has_mm2s,
            dma@.rx is Some <==> cfg.has_s2mm,
            dma@.tx is Some ==> fresh_channel(dma@.tx->Some_0, Direaction::TX, cfg),
            dma@.rx is Some ==> fresh_channel(dma@.rx->Some_0, Direaction::RX, cfg),
    {
        let tx_channel = if cfg.has_mm2s {
            Some(AxiDMAChannel::new(Direaction::TX, &cfg))
        } else {
            None
        };
        let rx_channel = if cfg.has_s2mm {
            Some(AxiDMAChannel::new(Direaction::RX, &cfg))
        } else {
            None
        };
        AxiDma {
            base_address: cfg.base_address,
            has_sg: cfg.has_sg,
            is_micro_dma: cfg.is_micro_dma,
            addr_width: cfg.addr_width,
            is_initialized: false,
            reset_polls: 0,
            tx_channel,
            rx_channel,
        }
    }

    /// Whether a reset has succeeded.
    pub fn is_initialized(&self) -> (initialized: bool)
        ensures
            initialized == self@.initialized,
    {
        self.is_initialized
    }

    /// The transmit channel, if the engine has one.
    pub fn tx_channel(&self) -> (channel: Option<&AxiDMAChannel>)
        ensures
            channel is Some <==> self@.tx is Some,
            channel is Some ==> channel->Some_0@ == self@.tx->Some_0 && (self.wf()
                ==> channel->Some_0.wf()),
    {
        match &self.tx_channel {
            Some(channel) => Some(channel),
            None => None,
        }
    }

    /// The receive channel, if the engine has one.
    pub fn rx_channel(&self) -> (channel: Option<&AxiDMAChannel>)
        ensures
            channel is Some <==> self@.rx is Some,
            channel is Some ==> channel->Some_0@ == self@.rx->Some_0 && (self.wf()
                ==> channel->Some_0.wf()),
    {
        match &self.rx_channel {
            Some(channel) => Some(channel),
            None => None,
        }
    }

    /// Requests a reset of every channel (see `EngineView::reset_requested`).
    /// Whether the reset succeeds is for `reset_poll` to find out, once the
    /// request has reached the device.
    pub fn reset(&mut self) -> (res: AxiDMAResult)
        requires
            old(self).wf(),
        ensures
            final(self).wf(),
            res is Ok,
            final(self)@ == old(self)@.reset_requested(),
    {
        match &mut self.tx_channel {
            Some(channel) => {
                let _ = channel.reset();
            },
            None => {},
        }
        match &mut self.rx_channel {
            Some(channel) => {
                let _ = channel.reset();
            },
            None => {},
        }
        self.is_initialized = false;
        self.reset_polls = RESET_TIMEOUT;
        Ok(())
    }

    /// Whether no channel that is there shows its reset bit.
    pub fn reset_is_done(&self) -> (done: bool)
        ensures
            done == self@.reset_done(),
    {
        let tx_done = match &self.tx_channel {
            Some(channel) => channel.reset_is_done(),
            None => true,
        };
        let rx_done = match &self.rx_channel {
            Some(channel) => channel.reset_is_done(),
            None => true,
        };
        tx_done && rx_done
    }

    /// Looks once whether the reset under way has finished (see
    /// `EngineView::polled`). The control images are those last recorded
    /// from the device.
    ///
    /// Returns `Ok(true)` when the engine is initialised, `Ok(false)` when
    /// the reset is still under way, and fails with `DMAErr` when no reset is
    /// under way or the reset did not finish within `RESET_TIMEOUT` polls.
    pub fn reset_poll(&mut self) -> (res: Result<bool, AxiDMAErr>)
        requires
            old(self).wf(),
        ensures
            final(self).wf(),
            final(self)@ == old(self)@.polled().0,
            res == old(self)@.polled().1,
    {
        if self.is_initialized {
            return Ok(true);
        }
        if self.reset_polls == 0 {
            return Err(AxiDMAErr::DMAErr);
        }
        if self.reset_is_done() {
            self.is_initialized = true;
            self.reset_polls = 0;
            return Ok(true);
        }
        self.reset_polls = self.reset_polls - 1;
        if self.reset_polls == 0 {
            Err(AxiDMAErr::DMAErr)
        } else {
            Ok(false)
        }
    }

    /// Switches cyclic mode on for every channel the engine has.
    pub fn cyclic_enable(&mut self)
        requires
            old(self).wf(),
        ensures
            final(self).wf(),
            final(self)@ == old(self)@.on_both(|c: ChannelView| c.with_cyclic(true)),
    {
        match &mut self.tx_channel {
            Some(channel) => {
                channel.cyclic_enable();
            },
            None => {},
        }
        match &mut self.rx_channel {
            Some(channel) => {
                channel.cyclic_enable();
            },
            None => {},
        }
    }

    /// Switches cyclic mode off for every channel the engine has.
    pub fn cyclic_disable(&mut self)
        requires
            old(self).wf(),
        ensures
            final(self).wf(),
            final(self)@ == old(self)@.on_both(|c: ChannelView| c.with_cyclic(false)),
    {
        match &mut self.tx_channel {
            Some(channel) => {
                channel.cyclic_disable();
            },
            None => {},
        }
        match &mut self.rx_channel {
            Some(channel) => {
                channel.cyclic_disable();
            },
            None => {},
        }
    }

    /// Starts every channel the engine has.
    ///
    /// Fails with `NotInit`, and changes nothing, exactly when no reset has
    /// succeeded yet.
    pub fn start(&mut self) -> (res: AxiDMAResult)
        requires
            old(self).wf(),
        ensures
            final(self).wf(),
            res == (if old(self)@.initialized {
                Ok::<(), AxiDMAErr>(())
            } else {
                Err(AxiDMAErr::NotInit)
            }),
            res is Err ==> final(self)@ == old(self)@,
            res is Ok ==> final(self)@ == old(self)@.on_both(|c: ChannelView| c.started()),
    {
        if !self.is_initialized {
            return Err(AxiDMAErr::NotInit);
        }
        match &mut self.tx_channel {
            Some(channel) => {
                let _ = channel.start();
            },
            None => {},
        }
        match &mut self.rx_channel {
            Some(channel) => {
                let _ = channel.start();
            },
            None => {},
        }
        Ok(())
    }

    /// Stops every channel the engine has.
    ///
    /// Fails with `NotInit`, and changes nothing, exactly when no reset has
    /// succeeded yet.
    pub fn pause(&mut self) -> (res: AxiDMAResult)
        requires
            old(self).wf(),
        ensures
            final(self).wf(),
            res == (if old(self)@.initialized {
                Ok::<(), AxiDMAErr>(())
            } else {
                Err(AxiDMAErr::NotInit)
            }),
            res is Err ==> final(self)@ == old(self)@,
            res is Ok ==> final(self)@ == old(self)@.on_both(|c: ChannelView| c.stopped()),
    {
        if !self.is_initialized {
            return Err(AxiDMAErr::NotInit);
        }
        match &mut self.tx_channel {
            Some(channel) => {
                let _ = channel.stop();
            },
            None => {},
        }
        match &mut self.rx_channel {
            Some(channel) => {
                let _ = channel.stop();
            },
            None => {},
        }
        Ok(())
    }

    /// Starts every channel again after a pause; the same as `start`.
    pub fn resume(&mut self) -> (res: AxiDMAResult)
        requires
            old(self).wf(),
        ensures
            final(self).wf(),
            res == (if old(self)@.initialized {
                Ok::<(), AxiDMAErr>(())
            } else {
                Err(AxiDMAErr::NotInit)
            }),
            res is Err ==> final(self)@ == old(self)@,
            res is Ok ==> final(self)@ == old(self)@.on_both(|c: ChannelView| c.started()),
    {
        self.start()
    }

    /// Disables the interrupts of every channel the engine has.
    pub fn intr_disable(&mut self)
        requires
            old(self).wf(),
        ensures
            final(self).wf(),
            final(self)@ == old(self)@.on_both(|c: ChannelView| c.with_interrupts(false)),
    {
        match &mut self.tx_channel {
            Some(channel) => {
                channel.intr_disable();
            },
            None => {},
        }
        match &mut self.rx_channel {
            Some(channel) => {
                channel.intr_disable();
            },
            None => {},
        }
    }

    /// Enables the interrupts of every channel the engine has.
    pub fn intr_enable(&mut self)
        requires
            old(self).wf(),
        ensures
            final(self).wf(),
            final(self)@ == old(self)@.on_both(|c: ChannelView| c.with_interrupts(true)),
    {
        match &mut self.tx_channel {
            Some(channel) => {
                channel.intr_enable();
            },
            None => {},
        }
        match &mut self.rx_channel {
            Some(channel) => {
                channel.intr_enable();
            },
            None => {},
        }
    }

    /// Builds the descriptor ring of the channel for `direction`:
    /// `bd_count` descriptors from physical address `base_addr` on. The
    /// interrupts of the channel are disabled first.
    ///
    /// Fails with `ChannelAbsent`, and changes nothing, exactly when the
    /// engine has no such channel. Otherwise it fails with `InValidParam`
    /// exactly when `bd_count` is zero, `base_addr` is not a multiple of 64,
    /// or the slots would run past the end of the address space; the
    /// interrupts are disabled all the same.
    pub fn channel_create(
        &mut self,
        direction: Direaction,
        bd_count: usize,
        base_addr: usize,
    ) -> (res: AxiDMAResult)
        requires
            old(self).wf(),
        ensures
            final(self).wf(),
            res == (if old(self)@.channel(direction) is None {
                Err::<(), AxiDMAErr>(AxiDMAErr::ChannelAbsent)
            } else if bd_count > 0 && base_addr % 64 == 0 && base_addr + 64 * bd_count
                <= usize::MAX {
                Ok::<(), AxiDMAErr>(())
            } else {
                Err(AxiDMAErr::InValidParam)
            }),
            old(self)@.channel(direction) is None ==> final(self)@ == old(self)@,
            old(self)@.channel(direction) is Some ==> {
                let before = old(self)@.channel(direction)->Some_0.with_interrupts(false);
                let after = final(self)@.channel(direction)->Some_0;
                &&& final(self)@.channel(direction) is Some
                &&& final(self)@ == old(self)@.with_channel(direction, after)
                &&& res is Err ==> after == before
                &&& res is Ok ==> after.ring.built(
                    bd_count as int,
                    base_addr as int,
                    before.ring.max_len,
                ) && after == before.with_ring(after.ring)
            },
    {
        match direction {
            Direaction::TX => match &mut self.tx_channel {
                Some(channel) => {
                channel.intr_disable();
                channel.create(bd_count, base_addr)
            },
                None => Err(AxiDMAErr::ChannelAbsent),
            },
            Direaction::RX => match &mut self.rx_channel {
                Some(channel) => {
                channel.intr_disable();
                channel.create(bd_count, base_addr)
            },
                None => Err(AxiDMAErr::ChannelAbsent),
            },
        }
    }

    /// Builds the descriptor ring of the transmit channel (see
    /// `channel_create`).
    pub fn tx_channel_create(&mut self, bd_count: usize, base_addr: usize) -> (res: AxiDMAResult)
        requires
            old(self).wf(),
        ensures
            final(self).wf(),
            res == (if old(self)@.tx is None {
                Err::<(), AxiDMAErr>(AxiDMAErr::ChannelAbsent)
            } else if bd_count > 0 && base_addr % 64 == 0 && base_addr + 64 * bd_count
                <= usize::MAX {
                Ok::<(), AxiDMAErr>(())
            } else {
                Err(AxiDMAErr::InValidParam)
            }),
            old(self)@.tx is None ==> final(self)@ == old(self)@,
            old(self)@.tx is Some ==> {
                let before = old(self)@.tx->Some_0.with_interrupts(false);
                let after = final(self)@.tx->Some_0;
                &&& final(self)@.tx is Some
                &&& final(self)@ == (EngineView { tx: Some(after), ..old(self)@ })
                &&& res is Err ==> after == before
                &&& res is Ok ==> after.ring.built(
                    bd_count as int,
                    base_addr as int,
                    before.ring.max_len,
                ) && after == before.with_ring(after.ring)
            },
    {
        self.channel_create(Direaction::TX, bd_count, base_addr)
    }

    /// Builds the descriptor ring of the receive channel (see
    /// `channel_create`).
    pub fn rx_channel_create(&mut self, bd_count: usize, base_addr: usize) -> (res: AxiDMAResult)
        requires
            old(self).wf(),
        ensures
            final(self).wf(),
            res == (if old(self)@.rx is None {
                Err::<(), AxiDMAErr>(AxiDMAErr::ChannelAbsent)
            } else if bd_count > 0 && base_addr % 64 == 0 && base_addr + 64 * bd_count
                <= usize::MAX {
                Ok::<(), AxiDMAErr>(())
            } else {
                Err(AxiDMAErr::InValidParam)
            }),
            old(self)@.rx is None ==> final(self)@ == old(self)@,
            old(self)@.rx is Some ==> {
                let before = old(self)@.rx->Some_0.with_interrupts(false);
                let after = final(self)@.rx->Some_0;
                &&& final(self)@.rx is Some
                &&& final(self)@ == (EngineView { rx: Some(after), ..old(self)@ })
                &&& res is Err ==> after == before
                &&& res is Ok ==> after.ring.built(
                    bd_count as int,
                    base_addr as int,
                    before.ring.max_len,
                ) && after == before.with_ring(after.ring)
            },
    {
        self.channel_create(Direaction::RX, bd_count, base_addr)
    }

    /// Hands a buffer to the channel for `direction` (see
    /// `AxiDMAChannel::submit`).
    ///
    /// Returns the handle that gives the buffer back once the device has
    /// released it. Fails as `EngineView::submit_outcome` says, and then
    /// changes nothing.
    pub fn submit(&mut self, direction: Direaction, buffer: BufPtr) -> (res: Result<
        Transfer,
        AxiDMAErr,
    >)
        requires
            old(self).wf(),
        ensures
            final(self).wf(),
            match res {
                Ok(transfer) => {
                    let before = old(self)@.channel(direction)->Some_0;
                    let after = final(self)@.channel(direction)->Some_0;
                    &&& old(self)@.submit_outcome(
                        direction,
                        buffer.addr() as int,
                        buffer.size() as int,
                    ) is Ok
                    &&& final(self)@.channel(direction) is Some
                    &&& final(self)@ == old(self)@.with_channel(direction, after)
                    &&& after.submitted(before, buffer.addr() as int, buffer.size() as int)
                    &&& transfer.buffer() == buffer
                    &&& transfer.direction() == direction
                    &&& transfer.first_slot() == before.ring.restart
                    &&& transfer.slot_count() == bd_needed(
                        buffer.size() as int,
                        before.ring.max_len,
                    )
                },
                Err(e) => {
                    &&& old(self)@.submit_outcome(
                        direction,
                        buffer.addr() as int,
                        buffer.size() as int,
                    ) == Err::<(), AxiDMAErr>(e)
                    &&& final(self)@ == old(self)@
                },
            },
    {
        if !self.is_initialized {
            return Err(AxiDMAErr::NotInit);
        }
        let present = match direction {
            Direaction::TX => self.tx_channel.is_some(),
            Direaction::RX => self.rx_channel.is_some(),
        };
        if !present {
            return Err(AxiDMAErr::ChannelAbsent);
        }
        let limit: u128 = if self.addr_width <= 32 {
            0x1_0000_0000
        } else {
            0x1_0000_0000_0000_0000
        };
        if buffer.len() == 0 || buffer.as_ptr() as u128 + buffer.len() as u128 > limit {
            return Err(AxiDMAErr::InValidParam);
        }
        match direction {
            Direaction::TX => match &mut self.tx_channel {
                Some(channel) => channel.submit(buffer),
                None => Err(AxiDMAErr::ChannelAbsent),
            },
            Direaction::RX => match &mut self.rx_channel {
                Some(channel) => channel.submit(buffer),
                None => Err(AxiDMAErr::ChannelAbsent),
            },
        }
    }

    /// Hands a buffer to the transmit channel (see `submit`).
    pub fn tx_submit(&mut self, buffer: BufPtr) -> (res: Result<Transfer, AxiDMAErr>)
        requires
            old(self).wf(),
        ensures
            final(self).wf(),
            match res {
                Ok(transfer) => {
                    let before = old(self)@.tx->Some_0;
                    let after = final(self)@.tx->Some_0;
                    &&& old(self)@.submit_outcome(
                        Direaction::TX,
                        buffer.addr() as int,
                        buffer.size() as int,
                    ) is Ok
                    &&& final(self)@.tx is Some
                    &&& final(self)@ == (EngineView { tx: Some(after), ..old(self)@ })
                    &&& after.submitted(before, buffer.addr() as int, buffer.size() as int)
                    &&& transfer.buffer() == buffer
                    &&& transfer.direction() == Direaction::TX
                    &&& transfer.first_slot() == before.ring.restart
                    &&& transfer.slot_count() == bd_needed(
                        buffer.size() as int,
                        before.ring.max_len,
                    )
                },
                Err(e) => {
                    &&& old(self)@.submit_outcome(
                        Direaction::TX,
                        buffer.addr() as int,
                        buffer.size() as int,
                    ) == Err::<(), AxiDMAErr>(e)
                    &&& final(self)@ == old(self)@
                },
            },
    {
        self.submit(Direaction::TX, buffer)
    }

    /// Hands a buffer to the receive channel (see `submit`).
    pub fn rx_submit(&mut self, buffer: BufPtr) -> (res: Result<Transfer, AxiDMAErr>)
        requires
            old(self).wf(),
        ensures
            final(self).wf(),
            match res {
                Ok(transfer) => {
                    let before = old(self)@.rx->Some_0;
                    let after = final(self)@.rx->Some_0;
                    &&& old(self)@.submit_outcome(
                        Direaction::RX,
                        buffer.addr() as int,
                        buffer.size() as int,
                    ) is Ok
                    &&& final(self)@.rx is Some
                    &&& final(self)@ == (EngineView { rx: Some(after), ..old(self)@ })
                    &&& after.submitted(before, buffer.addr() as int, buffer.size() as int)
                    &&& transfer.buffer() == buffer
                    &&& transfer.direction() == Direaction::RX
                    &&& transfer.first_slot() == before.ring.restart
                    &&& transfer.slot_count() == bd_needed(
                        buffer.size() as int,
                        before.ring.max_len,
                    )
                },
                Err(e) => {
                    &&& old(self)@.submit_outcome(
                        Direaction::RX,
                        buffer.addr() as int,
                        buffer.size() as int,
                    ) == Err::<(), AxiDMAErr>(e)
                    &&& final(self)@ == old(self)@
                },
            },
    {
        self.submit(Direaction::RX, buffer)
    }

    /// Takes back the descriptors the device is done with on the channel
    /// for `direction` (see `AxiDMAChannel::from_hw`), and says how many
    /// there were.
    ///
    /// Fails with `ChannelAbsent`, and changes nothing, exactly when the
    /// engine has no such channel.
    pub fn from_hw(&mut self, direction: Direaction) -> (res: Result<usize, AxiDMAErr>)
        requires
            old(self).wf(),
        ensures
            final(self).wf(),
            match res {
                Ok(count) => {
                    let after = final(self)@.channel(direction)->Some_0;
                    &&& old(self)@.channel(direction) is Some
                    &&& final(self)@.channel(direction) is Some
                    &&& final(self)@ == old(self)@.with_channel(direction, after)
                    &&& after.reaped(old(self)@.channel(direction)->Some_0, count as int)
                },
                Err(e) => {
                    &&& e == AxiDMAErr::ChannelAbsent
                    &&& old(self)@.channel(direction) is None
                    &&& final(self)@ == old(self)@
                },
            },
    {
        match direction {
            Direaction::TX => match &mut self.tx_channel {
                Some(channel) => channel.from_hw(),
                None => Err(AxiDMAErr::ChannelAbsent),
            },
            Direaction::RX => match &mut self.rx_channel {
                Some(channel) => channel.from_hw(),
                None => Err(AxiDMAErr::ChannelAbsent),
            },
        }
    }

    /// Handles an interrupt of the channel for `direction` (see
    /// `ChannelView::handled`), and says whom to wake.
    ///
    /// Fails with `ChannelAbsent`, and changes nothing, when the engine has
    /// no such channel, and with `DMAErr` when the channel has its
    /// interrupts enabled and shows the error interrupt.
    pub fn intr_handler(&mut self, direction: Direaction) -> (res: Result<Option<u64>, AxiDMAErr>)
        requires
            old(self).wf(),
        ensures
            final(self).wf(),
            old(self)@.channel(direction) is None ==> final(self)@ == old(self)@ && res == Err::<
                Option<u64>,
                AxiDMAErr,
            >(AxiDMAErr::ChannelAbsent),
            old(self)@.channel(direction) is Some ==> {
                let before = old(self)@.channel(direction)->Some_0;
                &&& final(self)@ == old(self)@.with_channel(direction, before.handled().0)
                &&& res == before.handled().1
            },
    {
        match direction {
            Direaction::TX => match &mut self.tx_channel {
                Some(channel) => channel.intr_handler(),
                None => Err(AxiDMAErr::ChannelAbsent),
            },
            Direaction::RX => match &mut self.rx_channel {
                Some(channel) => channel.intr_handler(),
                None => Err(AxiDMAErr::ChannelAbsent),
            },
        }
    }

    /// Handles an interrupt of the transmit channel (see `intr_handler`).
    pub fn tx_intr_handler(&mut self) -> (res: Result<Option<u64>, AxiDMAErr>)
        requires
            old(self).wf(),
        ensures
            final(self).wf(),
            old(self)@.tx is None ==> final(self)@ == old(self)@ && res == Err::<
                Option<u64>,
                AxiDMAErr,
            >(AxiDMAErr::ChannelAbsent),
            old(self)@.tx is Some ==> {
                let before = old(self)@.tx->Some_0;
                &&& final(self)@ == (EngineView { tx: Some(before.handled().0), ..old(self)@ })
                &&& res == before.handled().1
            },
    {
        self.intr_handler(Direaction::TX)
    }

    /// Handles an interrupt of the receive channel (see `intr_handler`).
    pub fn rx_intr_handler(&mut self) -> (res: Result<Option<u64>, AxiDMAErr>)
        requires
            old(self).wf(),
        ensures
            final(self).wf(),
            old(self)@.rx is None ==> final(self)@ == old(self)@ && res == Err::<
                Option<u64>,
                AxiDMAErr,
            >(AxiDMAErr::ChannelAbsent),
            old(self)@.rx is Some ==> {
                let before = old(self)@.rx->Some_0;
                &&& final(self)@ == (EngineView { rx: Some(before.handled().0), ..old(self)@ })
                &&& res == before.handled().1
            },
    {
        self.intr_handler(Direaction::RX)
    }

    /// Whether the channel for `direction` is there and its status image
    /// shows an interrupt condition.
    pub fn complete(&self, direction: Direaction) -> (done: bool)
        ensures
            done == (self@.channel(direction) is Some && interrupting(
                self@.channel(direction)->Some_0.status,
            )),
    {
        match direction {
            Direaction::TX => match &self.tx_channel {
                Some(channel) => channel.check_cmplt(),
                None => false,
            },
            Direaction::RX => match &self.rx_channel {
                Some(channel) => channel.check_cmplt(),
                None => false,
            },
        }
    }

    /// Whether the transmit channel shows an interrupt condition.
    pub fn tx_complete(&self) -> (done: bool)
        ensures
            done == (self@.tx is Some && interrupting(self@.tx->Some_0.status)),
    {
        self.complete(Direaction::TX)
    }

    /// Whether the receive channel shows an interrupt condition.
    pub fn rx_complete(&self) -> (done: bool)
        ensures
            done == (self@.rx is Some && interrupting(self@.rx->Some_0.status)),
    {
        self.complete(Direaction::RX)
    }

    /// Whether the channel for `direction` is there and any of the `count`
    /// descriptors from slot `first` on of its ring is in flight.
    pub fn owns_run(&self, direction: Direaction, first: usize, count: usize) -> (owned: bool)
        requires
            self.wf(),
        ensures
            owned == (self@.channel(direction) is Some && self@.channel(
                direction,
            )->Some_0.ring.owns_run(first as int, count as int)),
    {
        match direction {
            Direaction::TX => match &self.tx_channel {
                Some(channel) => channel.ring().owns_run(first, count),
                None => false,
            },
            Direaction::RX => match &self.rx_channel {
                Some(channel) => channel.ring().owns_run(first, count),
                None => false,
            },
        }
    }

    /// Adds `token` to those who wait for a completion on the channel for
    /// `direction`. Without such a channel nothing happens.
    pub fn register_waiter(&mut self, direction: Direaction, token: u64)
        requires
            old(self).wf(),
        ensures
            final(self).wf(),
            final(self)@ == (match old(self)@.channel(direction) {
                Some(before) => old(self)@.with_channel(
                    direction,
                    ChannelView { waiters: before.waiters.push(token), ..before },
                ),
                None => old(self)@,
            }),
    {
        match direction {
            Direaction::TX => match &mut self.tx_channel {
                Some(channel) => channel.register_waiter(token),
                None => {},
            },
            Direaction::RX => match &mut self.rx_channel {
                Some(channel) => channel.register_waiter(token),
                None => {},
            },
        }
    }

    /// Records `control` as the control word the device holds for the
    /// channel for `direction`. Without such a channel nothing happens.
    pub fn load_control(&mut self, direction: Direaction, control: u32)
        requires
            old(self).wf(),
        ensures
            final(self).wf(),
            final(self)@ == (match old(self)@.channel(direction) {
                Some(before) => old(self)@.with_channel(
                    direction,
                    ChannelView { control, ..before },
                ),
                None => old(self)@,
            }),
    {
        match direction {
            Direaction::TX => match &mut self.tx_channel {
                Some(channel) => channel.load_control(control),
                None => {},
            },
            Direaction::RX => match &mut self.rx_channel {
                Some(channel) => channel.load_control(control),
                None => {},
            },
        }
    }

    /// Records `status` as the status word the device holds for the channel
    /// for `direction`. Without such a channel nothing happens.
    pub fn load_status(&mut self, direction: Direaction, status: u32)
        requires
            old(self).wf(),
        ensures
            final(self).wf(),
            final(self)@ == (match old(self)@.channel(direction) {
                Some(before) => old(self)@.with_channel(
                    direction,
                    ChannelView { status, ..before },
                ),
                None => old(self)@,
            }),
    {
        match direction {
            Direaction::TX => match &mut self.tx_channel {
                Some(channel) => channel.load_status(status),
                None => {},
            },
            Direaction::RX => match &mut self.rx_channel {
                Some(channel) => channel.load_status(status),
                None => {},
            },
        }
    }

    /// Records `status` as the status word the device wrote to the
    /// descriptor in slot `index` of the ring of the channel for
    /// `direction`.
    ///
    /// Fails with `ChannelAbsent` when the engine has no such channel, and
    /// with `InValidParam` when the ring has no such slot; either way nothing
    /// changes.
    pub fn load_bd_status(
        &mut self,
        direction: Direaction,
        index: usize,
        status: u32,
    ) -> (res: AxiDMAResult)
        requires
            old(self).wf(),
        ensures
            final(self).wf(),
            res == (if old(self)@.channel(direction) is None {
                Err::<(), AxiDMAErr>(AxiDMAErr::ChannelAbsent)
            } else if index < old(self)@.channel(direction)->Some_0.ring.len() {
                Ok::<(), AxiDMAErr>(())
            } else {
                Err(AxiDMAErr::InValidParam)
            }),
            res is Err ==> final(self)@ == old(self)@,
            res is Ok ==> {
                let after = final(self)@.channel(direction)->Some_0;
                &&& final(self)@.channel(direction) is Some
                &&& final(self)@ == old(self)@.with_channel(direction, after)
                &&& after.bd_status_loaded(
                    old(self)@.channel(direction)->Some_0,
                    index as int,
                    status,
                )
            },
    {
        match direction {
            Direaction::TX => match &mut self.tx_channel {
                Some(channel) => channel.load_bd_status(index, status),
                None => Err(AxiDMAErr::ChannelAbsent),
            },
            Direaction::RX => match &mut self.rx_channel {
                Some(channel) => channel.load_bd_status(index, status),
                None => Err(AxiDMAErr::ChannelAbsent),
            },
        }
    }

    /// Hands out the bus operations the channel for `direction` has
    /// collected, oldest first, and starts a new list. Without such a channel
    /// there are none.
    pub fn take_ops(&mut self, direction: Direaction) -> (ops: Vec<BusOp>)
        requires
            old(self).wf(),
        ensures
            final(self).wf(),
            ops@ == (match old(self)@.channel(direction) {
                Some(before) => before.ops,
                None => Seq::empty(),
            }),
            final(self)@ == (match old(self)@.channel(direction) {
                Some(before) => old(self)@.with_channel(
                    direction,
                    ChannelView { ops: Seq::empty(), ..before },
                ),
                None => old(self)@,
            }),
    {
        match direction {
            Direaction::TX => match &mut self.tx_channel {
                Some(channel) => channel.take_ops(),
                None => Vec::new(),
            },
            Direaction::RX => match &mut self.rx_channel {
                Some(channel) => channel.take_ops(),
                None => Vec::new(),
            },
        }
    }

    /// Sets the interrupt threshold of the channel for `direction` (see
    /// `AxiDMAChannel::set_coalesce`).
    ///
    /// Fails with `ChannelAbsent` when the engine has no such channel, and
    /// with `InValidParam` when `threshold` is zero or above 255; either way
    /// nothing changes.
    pub fn set_coalesce(&mut self, direction: Direaction, threshold: usize) -> (res: AxiDMAResult)
        requires
            old(self).wf(),
        ensures
            final(self).wf(),
            res == (if old(self)@.channel(direction) is None {
                Err::<(), AxiDMAErr>(AxiDMAErr::ChannelAbsent)
            } else if 1 <= threshold <= 255 {
                Ok::<(), AxiDMAErr>(())
            } else {
                Err(AxiDMAErr::InValidParam)
            }),
            res is Err ==> final(self)@ == old(self)@,
            res is Ok ==> final(self)@ == old(self)@.with_channel(
                direction,
                old(self)@.channel(direction)->Some_0.coalesced(threshold as u8),
            ),
    {
        match direction {
            Direaction::TX => match &mut self.tx_channel {
                Some(channel) => channel.set_coalesce(threshold),
                None => Err(AxiDMAErr::ChannelAbsent),
            },
            Direaction::RX => match &mut self.rx_channel {
                Some(channel) => channel.set_coalesce(threshold),
                None => Err(AxiDMAErr::ChannelAbsent),
            },
        }
    }

    /// Allows or forbids, on the channel for `direction`, buffers longer
    /// than one descriptor may name. Without such a channel nothing happens.
    pub fn permit_split(&mut self, direction: Direaction, permit: bool)
        requires
            old(self).wf(),
        ensures
            final(self).wf(),
            final(self)@ == (match old(self)@.channel(direction) {
                Some(before) => old(self)@.with_channel(
                    direction,
                    ChannelView { split: permit, ..before },
                ),
                None => old(self)@,
            }),
    {
        match direction {
            Direaction::TX => match &mut self.tx_channel {
                Some(channel) => channel.permit_split(permit),
                None => {},
            },
            Direaction::RX => match &mut self.rx_channel {
                Some(channel) => channel.permit_split(permit),
                None => {},
            },
        }
    }
}

/// Whether `channel` is as `AxiDMAChannel::new` makes it for `direction` and
/// `cfg`.
pub open spec fn fresh_channel(
    channel: ChannelView,
    direction: Direaction,
    cfg: AxiDmaConfig,
) -> bool {
    &&& channel.ring.len() == 0
    &&& channel.ring.halted
    &&& channel.ring.max_len == max_len_of(cfg.sg_length_width)
    &&& channel.control == 0
    &&& channel.status == 0
    &&& channel.curdesc == 0
    &&& channel.curdesc_msb == 0
    &&& channel.taildesc == 0
    &&& channel.taildesc_msb == 0
    &&& !channel.intr_enabled
    &&& !channel.cyclic
    &&& !channel.split
    &&& channel.waiters.len() == 0
    &&& channel.ops.len() == 0
    &&& channel.direction == direction
    &&& channel.base == (match direction {
        Direaction::TX => cfg.base_address.wrapping_add(cfg.tx_channel_offset),
        Direaction::RX => cfg.base_address.wrapping_add(cfg.rx_channel_offset),
    })
}

} // verus!
