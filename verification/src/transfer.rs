//! The handle on a buffer that is in the hands of the device.
use crate::buffer::BufPtr;
use crate::channel::{interrupting, ChannelView, Direaction};
use crate::errno::AxiDMAErr;
use crate::{AxiDma, EngineView};
use vstd::prelude::*;

verus! {

/// A buffer on its way through a channel.
///
/// The handle is made when the buffer is submitted and keeps the buffer to
/// itself until the device has released every descriptor the buffer was
/// placed in. It cannot be copied: the buffer comes out of it once.
pub struct Transfer {
    buffer: BufPtr,
    channel: Direaction,
    first: usize,
    count: usize,
    flag: bool,
}

/// What asking a handle for its buffer gives.
pub enum Poll {
    /// The device still owns the buffer; here is the handle again.
    Pending(Transfer),
    /// The device has released the buffer; here it is.
    Ready(BufPtr),
}

impl Transfer {
    /// Whether `other` is the handle on the same buffer in the same
    /// descriptors of the same channel.
    pub open spec fn same_run(&self, other: &Transfer) -> bool {
        &&& self.buffer() == other.buffer()
        &&& self.direction() == other.direction()
        &&& self.first_slot() == other.first_slot()
        &&& self.slot_count() == other.slot_count()
    }

    /// Whether the device still owns the buffer: the engine has the channel,
    /// and one of the descriptors the buffer was placed in is in flight.
    pub open spec fn in_flight(&self, dma: EngineView) -> bool {
        dma.channel(self.direction()) is Some && dma.channel(
            self.direction(),
        )->Some_0.ring.owns_run(self.first_slot() as int, self.slot_count() as int)
    }

    /// Whether `poll` is what a handle gives that was asked for its buffer
    /// when the engine was `dma`: the buffer itself if the device has
    /// released it, and else the handle again, marked as polled.
    pub open spec fn gives(&self, dma: EngineView, poll: Poll) -> bool {
        match poll {
            Poll::Pending(again) => self.in_flight(dma) && again.same_run(self) && again.polled(),
            Poll::Ready(buffer) => !self.in_flight(dma) && buffer == self.buffer(),
        }
    }

    /// What comes out of a handle is the buffer that went in: the same
    /// address and the same length.
    pub proof fn law_buffer_comes_back(&self, dma: EngineView, poll: Poll, buffer: BufPtr)
        requires
            self.buffer() == buffer,
            self.gives(dma, poll),
            poll is Ready,
        ensures
            poll->Ready_0 == buffer,
            poll->Ready_0.addr() == buffer.addr(),
            poll->Ready_0.size() == buffer.size(),
            !self.in_flight(dma),
    {
    }

    /// The buffer the handle keeps.
    pub closed spec fn buffer(&self) -> BufPtr {
        self.buffer
    }

    /// The channel the buffer was submitted to.
    pub closed spec fn direction(&self) -> Direaction {
        self.channel
    }

    /// The slot of the first descriptor the buffer was placed in.
    pub closed spec fn first_slot(&self) -> usize {
        self.first
    }

    /// The number of descriptors the buffer was placed in.
    pub closed spec fn slot_count(&self) -> usize {
        self.count
    }

    /// Whether the handle has been polled before.
    pub closed spec fn polled(&self) -> bool {
        self.flag
    }

    /// The handle on `buf`, which was placed in the `count` descriptors from
    /// slot `first` on of the ring of `channel`.
    pub fn new(buf: BufPtr, channel: Direaction, first: usize, count: usize) -> (transfer: Self)
        ensures
            transfer.buffer() == buf,
            transfer.direction() == channel,
            transfer.first_slot() == first,
            transfer.slot_count() == count,
            !transfer.polled(),
    {
        Transfer { buffer: buf, channel, first, count, flag: false }
    }

    /// The channel the buffer was submitted to.
    pub fn channel(&self) -> (channel: Direaction)
        ensures
            channel == self.direction(),
    {
        self.channel
    }

    /// The slot of the first descriptor the buffer was placed in.
    pub fn first_bd(&self) -> (slot: usize)
        ensures
            slot == self.first_slot(),
    {
        self.first
    }

    /// The number of descriptors the buffer was placed in.
    pub fn bd_count(&self) -> (count: usize)
        ensures
            count == self.slot_count(),
    {
        self.count
    }

    /// The buffer, if the device has released it, and else the handle again.
    fn settle(self, dma: &AxiDma) -> (poll: Poll)
        requires
            dma.wf(),
        ensures
            self.gives(dma@, poll),
    {
        if dma.owns_run(self.channel, self.first, self.count) {
            Poll::Pending(Transfer { flag: true, ..self })
        } else {
            Poll::Ready(self.buffer)
        }
    }

    /// Finishes the transfer once the channel has signalled: takes back what
    /// the device is done with, then handles the interrupt conditions of the
    /// channel, and gives the buffer if the device has released it.
    ///
    /// Returns, beside the buffer or the handle, the waiter that handling the
    /// interrupt woke, if any. Fails with `ChannelAbsent`, and changes
    /// nothing, when the engine has no such channel, and with `DMAErr` when
    /// the channel has its interrupts enabled and shows the error interrupt.
    pub fn wait(self, dma: &mut AxiDma) -> (res: Result<(Poll, Option<u64>), AxiDMAErr>)
        requires
            old(dma).wf(),
        ensures
            final(dma).wf(),
            old(dma)@.channel(self.direction()) is None ==> final(dma)@ == old(dma)@ && res
                == Err::<(Poll, Option<u64>), AxiDMAErr>(AxiDMAErr::ChannelAbsent),
            old(dma)@.channel(self.direction()) is Some ==> {
                let before = old(dma)@.channel(self.direction())->Some_0;
                let after = final(dma)@.channel(self.direction())->Some_0;
                let reaped = ChannelView { ring: after.ring, ..before };
                &&& final(dma)@.channel(self.direction()) is Some
                &&& final(dma)@ == old(dma)@.with_channel(self.direction(), after)
                &&& reaped.reaped(before, before.ring.submitted - after.ring.submitted)
                &&& after == reaped.handled().0
                &&& match res {
                    Ok((poll, woken)) => reaped.handled().1 == Ok::<Option<u64>, AxiDMAErr>(woken)
                        && self.gives(final(dma)@, poll),
                    Err(e) => reaped.handled().1 == Err::<Option<u64>, AxiDMAErr>(e),
                }
            },
    {
        match dma.from_hw(self.channel) {
            Err(e) => {
                return Err(e);
            },
            Ok(_) => {},
        }
        let woken = match dma.intr_handler(self.channel) {
            Err(e) => {
                return Err(e);
            },
            Ok(woken) => woken,
        };
        let poll = self.settle(dma);
        Ok((poll, woken))
    }

    /// Takes back what the device is done with on the channel, and gives the
    /// buffer if the device has released it. Interrupt conditions are left
    /// alone.
    ///
    /// Fails with `ChannelAbsent`, and changes nothing, exactly when the
    /// engine has no such channel.
    pub fn recycle(self, dma: &mut AxiDma) -> (res: Result<Poll, AxiDMAErr>)
        requires
            old(dma).wf(),
        ensures
            final(dma).wf(),
            old(dma)@.channel(self.direction()) is None ==> final(dma)@ == old(dma)@ && res
                == Err::<Poll, AxiDMAErr>(AxiDMAErr::ChannelAbsent),
            old(dma)@.channel(self.direction()) is Some ==> {
                let before = old(dma)@.channel(self.direction())->Some_0;
                let after = final(dma)@.channel(self.direction())->Some_0;
                &&& final(dma)@.channel(self.direction()) is Some
                &&& final(dma)@ == old(dma)@.with_channel(self.direction(), after)
                &&& after.reaped(before, before.ring.submitted - after.ring.submitted)
                &&& res is Ok
                &&& self.gives(final(dma)@, res->Ok_0)
            },
    {
        match dma.from_hw(self.channel) {
            Err(e) => {
                return Err(e);
            },
            Ok(_) => {},
        }
        Ok(self.settle(dma))
    }

    /// Asks for the buffer without blocking; `waker` names who is to be woken
    /// when it is worth asking again.
    ///
    /// The first time, if the channel shows no interrupt condition, `waker`
    /// joins those who wait on the channel and the handle comes back. Any
    /// other time the channel takes back what the device is done with; the
    /// buffer comes out if the device has released it, and else `waker`
    /// joins those who wait and the handle comes back.
    ///
    /// Fails with `ChannelAbsent`, and changes nothing, exactly when the
    /// engine has no such channel.
    pub fn poll(self, dma: &mut AxiDma, waker: u64) -> (res: Result<Poll, AxiDMAErr>)
        requires
            old(dma).wf(),
        ensures
            final(dma).wf(),
            old(dma)@.channel(self.direction()) is None ==> final(dma)@ == old(dma)@ && res
                == Err::<Poll, AxiDMAErr>(AxiDMAErr::ChannelAbsent),
            old(dma)@.channel(self.direction()) is Some ==> {
                let before = old(dma)@.channel(self.direction())->Some_0;
                let after = final(dma)@.channel(self.direction())->Some_0;
                &&& final(dma)@.channel(self.direction()) is Some
                &&& final(dma)@ == old(dma)@.with_channel(self.direction(), after)
                &&& res is Ok
                &&& !self.polled() && !interrupting(before.status) ==> {
                    &&& after == (ChannelView { waiters: before.waiters.push(waker), ..before })
                    &&& res->Ok_0 is Pending
                    &&& res->Ok_0->Pending_0.same_run(&self)
                    &&& res->Ok_0->Pending_0.polled()
                }
                &&& self.polled() || interrupting(before.status) ==> {
                    let reaped = ChannelView { waiters: before.waiters, ..after };
                    &&& reaped.reaped(before, before.ring.submitted - after.ring.submitted)
                    &&& self.gives(final(dma)@, res->Ok_0)
                    &&& after.waiters == (if res->Ok_0 is Pending {
                        before.waiters.push(waker)
                    } else {
                        before.waiters
                    })
                }
            },
    {
        let present = match self.channel {
            Direaction::TX => dma.tx_channel().is_some(),
            Direaction::RX => dma.rx_channel().is_some(),
        };
        if !present {
            return Err(AxiDMAErr::ChannelAbsent);
        }
        if !self.flag && !dma.complete(self.channel) {
            dma.register_waiter(self.channel, waker);
            return Ok(Poll::Pending(Transfer { flag: true, ..self }));
        }
        let channel = self.channel;
        let _ = dma.from_hw(channel);
        let poll = self.settle(dma);
        match &poll {
            Poll::Pending(_) => {
                dma.register_waiter(channel, waker);
            },
            Poll::Ready(_) => {},
        }
        Ok(poll)
    }
}

} // verus!
