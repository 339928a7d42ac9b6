//! The descriptor ring of one channel.
//!
//! A ring is a fixed number of descriptors laid out back to back in physical
//! memory and linked into a cycle. Three cursors walk it in the same
//! direction: `restart` is where the next buffer will be placed, `head` is the
//! oldest descriptor the device may still be working on, and `tail` is the
//! last descriptor that was filled. The descriptors from `head` up to
//! `restart` are in flight: first those already announced to the device
//! (submitted), then those filled but not announced yet (pending). All others
//! are free.
use crate::bd::{bd_needed, piece_len, AxiDmaBD, BD_ALIGNMENT, BD_LEN_LIMIT};
use crate::buffer::BufPtr;
use crate::errno::AxiDMAErr;
use vstd::prelude::*;

verus! {

/// Position `x` of a walk round a ring of `n` slots, for `0 <= x < 2 * n`.
pub open spec fn wrap(x: int, n: int) -> int {
    if x >= n {
        x - n
    } else {
        x
    }
}

/// The slot reached from slot `from` after `k` steps, for `0 <= k <= n`.
pub open spec fn slot_after(from: int, k: int, n: int) -> int {
    wrap(from + k, n)
}

/// The number of steps from slot `from` to slot `to`.
pub open spec fn dist(from: int, to: int, n: int) -> int {
    if to >= from {
        to - from
    } else {
        to - from + n
    }
}

/// Walking round the ring is addition modulo its size.
pub proof fn lemma_slot_after_is_mod(from: int, k: int, n: int)
    requires
        0 <= from < n,
        0 <= k <= n,
    ensures
        slot_after(from, k, n) == (from + k) % n,
        0 <= slot_after(from, k, n) < n,
{
    if from + k >= n {
        vstd::arithmetic::div_mod::lemma_small_mod((from + k - n) as nat, n as nat);
        vstd::arithmetic::div_mod::lemma_mod_add_multiples_vanish(from + k - n, n);
    } else {
        vstd::arithmetic::div_mod::lemma_small_mod((from + k) as nat, n as nat);
    }
}

/// `bd_needed` rounds up: that many pieces cover the buffer, one fewer do
/// not.
pub proof fn lemma_bd_needed_is_ceil(len: int, max: int)
    requires
        0 < len,
        0 < max,
    ensures
        bd_needed(len, max) == (len - 1) / max + 1,
        1 <= bd_needed(len, max) <= len,
        (bd_needed(len, max) - 1) * max < len <= bd_needed(len, max) * max,
{
    let q = (len - 1) / max;
    vstd::arithmetic::div_mod::lemma_fundamental_div_mod(len - 1, max);
    vstd::arithmetic::div_mod::lemma_mod_bound(len - 1, max);
    vstd::arithmetic::div_mod::lemma_div_pos_is_pos(len - 1, max);
    assert(len + max - 1 == max * (q + 1) + (len - 1) % max) by (nonlinear_arith)
        requires
            len - 1 == max * q + (len - 1) % max,
    ;
    vstd::arithmetic::div_mod::lemma_fundamental_div_mod_converse(
        len + max - 1,
        max,
        q + 1,
        (len - 1) % max,
    );
    assert(q * max < len && len <= (q + 1) * max) by (nonlinear_arith)
        requires
            len - 1 == max * q + (len - 1) % max,
            0 <= (len - 1) % max < max,
    ;
    assert(q + 1 <= len) by (nonlinear_arith)
        requires
            q * max < len,
            0 < max,
            0 <= q,
    ;
}

/// How the ring is set up.
pub struct AxiDmaBdRingConfig {
    /// Address of the register block of the channel.
    pub chan_base_addr: usize,
    /// Whether the ring serves the receive channel.
    pub is_rx_chan: bool,
    /// Whether the device has the status/control stream.
    pub has_sts_cntrl_strm: bool,
    /// Whether the device can realign data.
    pub has_dre: bool,
    /// Width of the data path in bits.
    pub data_width: usize,
    /// Whether addresses are wider than 32 bits.
    pub addr_ext: bool,
    /// The longest piece one descriptor may name.
    pub max_transfer_len: usize,
}

/// A ring as a mathematical value.
pub struct RingView {
    /// The descriptors, slot by slot.
    pub bds: Seq<AxiDmaBD>,
    /// Slot of the oldest descriptor in flight.
    pub head: int,
    /// Slot of the descriptor that was filled last.
    pub tail: int,
    /// Slot that will be filled next.
    pub restart: int,
    /// Number of free descriptors.
    pub free: int,
    /// Number of descriptors filled but not announced to the device.
    pub pending: int,
    /// Number of descriptors announced to the device and not reaped.
    pub submitted: int,
    /// Whether the channel is known to be stopped.
    pub halted: bool,
    /// The longest piece one descriptor may name.
    pub max_len: int,
}

impl RingView {
    /// The number of slots.
    pub open spec fn len(self) -> int {
        self.bds.len() as int
    }

    /// The number of descriptors in flight.
    pub open spec fn in_flight(self) -> int {
        self.pending + self.submitted
    }

    /// The descriptor `k` steps after the head.
    pub open spec fn from_head(self, k: int) -> AxiDmaBD {
        self.bds[slot_after(self.head, k, self.len())]
    }

    /// Whether a buffer has been placed since the ring was built: the slot
    /// after the tail is then the one to fill next.
    pub open spec fn used(self) -> bool {
        slot_after(self.tail, 1, self.len()) == self.restart
    }

    /// Whether the slots lie back to back, 64 bytes apart, on 64-byte
    /// boundaries, and each descriptor points at the address of the next
    /// slot, the last at that of the first.
    pub open spec fn linked(self) -> bool {
        let n = self.len();
        &&& n > 0 ==> self.bds[0].phys_addr % 64 == 0
        &&& n > 0 ==> self.bds[0].phys_addr + 64 * n <= usize::MAX
        &&& forall|i: int|
            0 <= i < n ==> (#[trigger] self.bds[i]).phys_addr == self.bds[0].phys_addr + 64 * i
        &&& forall|i: int|
            0 <= i < n ==> (#[trigger] self.bds[i]).next_ptr() == self.bds[0].phys_addr + 64
                * slot_after(i, 1, n)
        &&& forall|i: int| 0 <= i < n ==> (#[trigger] self.bds[i]).max_len == self.max_len
    }

    /// Whether every descriptor in flight names a piece of at least one byte
    /// and at most `max_len` bytes, at an address that is a multiple of 4 if
    /// the piece starts a packet or `max_len` is a multiple of 4.
    pub open spec fn loaded(self) -> bool {
        forall|k: int|
            0 <= k < self.in_flight() ==> {
                let bd = self.bds[#[trigger] slot_after(self.head, k, self.len())];
                &&& 0 < bd.buf_len() <= self.max_len
                &&& (bd.sof() || self.max_len % 4 == 0) ==> bd.buf_ptr() % 4 == 0
            }
    }

    /// Whether the descriptors in flight end with the end of a packet, and
    /// so do the submitted ones among them.
    pub open spec fn framed(self) -> bool {
        &&& self.submitted > 0 ==> self.from_head(self.submitted - 1).eof()
        &&& self.in_flight() > 0 ==> self.from_head(self.in_flight() - 1).eof()
    }

    /// The invariant of a ring.
    pub open spec fn wf(self) -> bool {
        let n = self.len();
        &&& 0 <= self.max_len <= BD_LEN_LIMIT
        &&& 0 <= self.free
        &&& 0 <= self.pending
        &&& 0 <= self.submitted
        &&& self.free + self.pending + self.submitted == n
        &&& n == 0 ==> self.head == 0 && self.tail == 0 && self.restart == 0
        &&& n > 0 ==> 0 <= self.head < n && 0 <= self.tail < n && 0 <= self.restart < n
        &&& n > 0 ==> self.restart == slot_after(self.head, self.in_flight(), n)
        &&& n > 0 ==> self.used() || (self.head == 0 && self.tail == 0 && self.restart == 0
            && self.free == n)
        &&& self.linked()
        &&& self.loaded()
        &&& self.framed()
    }

    /// What building a ring of `count` slots at `base` gives: every
    /// descriptor free and zero but for its link, all cursors on slot 0, the
    /// channel stopped.
    pub open spec fn built(self, count: int, base: int, max_len: int) -> bool {
        &&& self.len() == count
        &&& self.head == 0
        &&& self.tail == 0
        &&& self.restart == 0
        &&& self.free == count
        &&& self.pending == 0
        &&& self.submitted == 0
        &&& self.halted
        &&& self.max_len == max_len
        &&& forall|i: int|
            0 <= i < count ==> {
                let bd = #[trigger] self.bds[i];
                &&& bd.phys_addr == base + 64 * i
                &&& bd.next_ptr() == base + 64 * slot_after(i, 1, count)
                &&& bd.buf_ptr() == 0
                &&& bd.desc.control@ == 0
                &&& bd.desc.status@ == 0
                &&& bd.app_clear()
            }
    }

    /// What placing the buffer of `len` bytes at `addr` makes of `before`:
    /// the buffer is cut into `bd_needed(len, max_len)` pieces, which fill
    /// that many slots starting at `before.restart`; those slots pass from
    /// free to pending, and nothing else changes.
    pub open spec fn filled(self, before: RingView, addr: int, len: int) -> bool {
        let n = before.len();
        let count = bd_needed(len, before.max_len);
        let start = before.restart;
        &&& self.len() == n
        &&& self.head == before.head
        &&& self.restart == slot_after(start, count, n)
        &&& self.tail == slot_after(start, count - 1, n)
        &&& self.free == before.free - count
        &&& self.pending == before.pending + count
        &&& self.submitted == before.submitted
        &&& self.halted == before.halted
        &&& self.max_len == before.max_len
        &&& forall|k: int|
            0 <= k < count ==> self.bds[#[trigger] slot_after(start, k, n)].is_piece(
                &before.bds[slot_after(start, k, n)],
                addr,
                len,
                before.max_len,
                k,
                count,
            )
        &&& forall|i: int|
            0 <= i < n && dist(start, i, n) >= count ==> #[trigger] self.bds[i] == before.bds[i]
    }

    /// Whether, of the submitted descriptors counted from the head, exactly
    /// the first `done` are complete, and `count` is where the last packet
    /// among them ends: descriptor `count - 1` ends a packet, and none of the
    /// complete ones after it does.
    pub open spec fn reaps_of(self, count: int, done: int) -> bool {
        &&& 0 <= count <= done <= self.submitted
        &&& forall|k: int| 0 <= k < done ==> (#[trigger] self.from_head(k)).completed()
        &&& done < self.submitted ==> !self.from_head(done).completed()
        &&& count > 0 ==> self.from_head(count - 1).ends_packet()
        &&& forall|k: int| count <= k < done ==> !(#[trigger] self.from_head(k)).ends_packet()
    }

    /// Whether a reap of `self` takes exactly `count` descriptors: the
    /// complete ones at the head of the submitted descriptors, up to the last
    /// one among them that ends a packet.
    pub open spec fn reaps(self, count: int) -> bool {
        exists|done: int| #[trigger] self.reaps_of(count, done)
    }

    /// A reap takes one number of descriptors and no other.
    pub proof fn lemma_reaps_once(self, count: int, other: int)
        requires
            self.reaps(count),
            self.reaps(other),
        ensures
            count == other,
    {
        let d1 = choose|done: int| #[trigger] self.reaps_of(count, done);
        let d2 = choose|done: int| #[trigger] self.reaps_of(other, done);
        if d1 < d2 {
            assert(self.from_head(d1).completed());
        }
        if d2 < d1 {
            assert(self.from_head(d2).completed());
        }
        if count < other {
            assert(!self.from_head(other - 1).ends_packet());
        }
        if other < count {
            assert(!self.from_head(count - 1).ends_packet());
        }
    }

    /// What a reap of `count` descriptors makes of `before`: the head moves
    /// on by `count`, and that many descriptors pass from submitted to free.
    pub open spec fn reaped(self, before: RingView, count: int) -> bool {
        &&& self.bds == before.bds
        &&& self.head == slot_after(before.head, count, before.len())
        &&& self.tail == before.tail
        &&& self.restart == before.restart
        &&& self.free == before.free + count
        &&& self.pending == before.pending
        &&& self.submitted == before.submitted - count
        &&& self.halted == before.halted
        &&& self.max_len == before.max_len
    }
}

impl RingView {
    /// Whether the descriptor in `slot` is in flight.
    pub open spec fn owns_slot(self, slot: int) -> bool {
        0 <= slot < self.len() && dist(self.head, slot, self.len()) < self.in_flight()
    }

    /// Whether any of the `count` descriptors from slot `first` on is in
    /// flight.
    pub open spec fn owns_run(self, first: int, count: int) -> bool {
        &&& 0 <= first < self.len()
        &&& 0 <= count <= self.len()
        &&& exists|k: int|
            0 <= k < count && self.owns_slot(#[trigger] slot_after(first, k, self.len()))
    }

    /// The slot of the descriptor that lives at `addr`.
    pub open spec fn slot_at(self, addr: int) -> int {
        choose|j: int| 0 <= j < self.len() && (#[trigger] self.bds[j]).phys_addr == addr
    }

    /// The slot that the link of the descriptor in slot `i` leads to.
    pub open spec fn hop(self, i: int) -> int {
        self.slot_at(self.bds[i].next_ptr() as int)
    }

    /// The slot reached from slot `i` by following `hops` links.
    pub open spec fn walk(self, i: int, hops: nat) -> int
        decreases hops,
    {
        if hops == 0 {
            i
        } else {
            self.walk(self.hop(i), (hops - 1) as nat)
        }
    }

    /// Every descriptor is free, pending or submitted, and never two of
    /// these: the three counts are never negative and add up to the size of
    /// the ring.
    pub proof fn law_counts_add_up(self)
        requires
            self.wf(),
        ensures
            0 <= self.free <= self.len(),
            0 <= self.pending <= self.len(),
            0 <= self.submitted <= self.len(),
            self.free + self.pending + self.submitted == self.len(),
    {
    }

    /// Following a link leads to the next slot, and to slot 0 from the last.
    pub proof fn lemma_hop(self, i: int)
        requires
            self.wf(),
            0 <= i < self.len(),
        ensures
            self.hop(i) == slot_after(i, 1, self.len()),
            self.hop(i) == (i + 1) % self.len(),
            self.bds[i].next_ptr() == self.bds[self.hop(i)].phys_addr,
    {
        let n = self.len();
        let s = slot_after(i, 1, n);
        lemma_slot_after_is_mod(i, 1, n);
        assert(self.bds[i].next_ptr() == self.bds[0].phys_addr + 64 * s);
        assert(self.bds[s].phys_addr == self.bds[0].phys_addr + 64 * s);
        let j = self.hop(i);
        assert(0 <= j < n && self.bds[j].phys_addr == self.bds[i].next_ptr() as int);
        assert(self.bds[j].phys_addr == self.bds[0].phys_addr + 64 * j);
    }

    /// Following `hops` links from slot `i` leads `hops` slots on.
    pub proof fn lemma_walk(self, i: int, hops: nat)
        requires
            self.wf(),
            0 <= i < self.len(),
            hops <= self.len(),
        ensures
            self.walk(i, hops) == slot_after(i, hops as int, self.len()),
        decreases hops,
    {
        if hops > 0 {
            self.lemma_hop(i);
            self.lemma_walk(self.hop(i), (hops - 1) as nat);
        }
    }

    /// The links close the ring: from any slot, following as many links as
    /// the ring has slots leads back to that slot, and following fewer does
    /// not.
    pub proof fn law_links_close_the_ring(self, i: int)
        requires
            self.wf(),
            0 <= i < self.len(),
        ensures
            self.walk(i, self.len() as nat) == i,
            forall|hops: nat| 0 < hops < self.len() ==> #[trigger] self.walk(i, hops) != i,
    {
        self.lemma_walk(i, self.len() as nat);
        assert forall|hops: nat| 0 < hops < self.len() implies #[trigger] self.walk(i, hops)
            != i by {
            self.lemma_walk(i, hops);
        }
    }

    /// Every descriptor in flight names between one byte and `max_len`
    /// bytes; its buffer address is a multiple of 4 if it starts a packet,
    /// and always if `max_len` is a multiple of 4.
    pub proof fn law_pieces_in_flight(self, k: int)
        requires
            self.wf(),
            0 <= k < self.in_flight(),
        ensures
            0 < self.from_head(k).buf_len() <= self.max_len,
            self.from_head(k).sof() || self.max_len % 4 == 0 ==> self.from_head(k).buf_ptr() % 4
                == 0,
    {
        assert(slot_after(self.head, k, self.len()) == slot_after(self.head, k, self.len()));
    }

    /// A buffer takes as many descriptors as its length over the piece
    /// limit, rounded up; of the descriptors it is placed in, the first one
    /// alone starts the packet and the last one alone ends it, and each names
    /// between one byte and `max_len` bytes.
    pub proof fn law_run_is_framed(self, before: RingView, addr: int, len: int, k: int)
        requires
            before.wf(),
            0 < len,
            0 < before.max_len,
            self.filled(before, addr, len),
            0 <= k < bd_needed(len, before.max_len),
        ensures
            (bd_needed(len, before.max_len) - 1) * before.max_len < len <= bd_needed(
                len,
                before.max_len,
            ) * before.max_len,
            before.free - self.free == bd_needed(len, before.max_len),
            self.bds[slot_after(before.restart, k, self.len())].sof() == (k == 0),
            self.bds[slot_after(before.restart, k, self.len())].eof() == (k == bd_needed(
                len,
                before.max_len,
            ) - 1),
            0 < self.bds[slot_after(before.restart, k, self.len())].buf_len() <= before.max_len,
            self.bds[slot_after(before.restart, k, self.len())].buf_ptr() == addr + k
                * before.max_len,
    {
        let n = before.len();
        let count = bd_needed(len, before.max_len);
        lemma_bd_needed_is_ceil(len, before.max_len);
        assert(self.bds[slot_after(before.restart, k, n)].is_piece(
            &before.bds[slot_after(before.restart, k, n)],
            addr,
            len,
            before.max_len,
            k,
            count,
        ));
        AxiDmaBdRing::lemma_cut(len, before.max_len, count, k);
    }

    /// When the device has completed every submitted descriptor, a reap
    /// takes them all.
    pub proof fn law_complete_run_is_reaped(self)
        requires
            self.wf(),
            forall|k: int| 0 <= k < self.submitted ==> (#[trigger] self.from_head(k)).completed(),
        ensures
            self.reaps(self.submitted),
    {
        assert(self.reaps_of(self.submitted, self.submitted));
    }

    /// A ring that was idle is idle again, with every descriptor free, after
    /// a buffer was placed in it, announced, completed by the device and
    /// reaped.
    pub proof fn law_round_trip_frees_the_ring(
        self,
        before: RingView,
        announced: RingView,
        completed: RingView,
        addr: int,
        len: int,
    )
        requires
            before.wf(),
            before.in_flight() == 0,
            announced.wf(),
            completed.wf(),
            (RingView {
                pending: announced.submitted,
                submitted: 0,
                ..announced
            }).filled(before, addr, len),
            announced.pending == 0,
            completed == (RingView { bds: completed.bds, ..announced }),
            forall|k: int|
                0 <= k < completed.submitted ==> (#[trigger] completed.from_head(k)).completed(),
            self.wf(),
            self.reaped(completed, completed.submitted),
        ensures
            completed.reaps(completed.submitted),
            self.free == self.len(),
            self.in_flight() == 0,
            self.len() > 0 ==> self.head == (self.tail + 1) % self.len(),
    {
        completed.law_complete_run_is_reaped();
        if self.len() > 0 {
            lemma_slot_after_is_mod(self.tail, 1, self.len());
        }
    }

    /// Once every buffer that was placed has been reaped, all descriptors
    /// are free again and the head stands on the slot to fill next, one past
    /// the tail.
    pub proof fn law_idle_cursors(self)
        requires
            self.wf(),
            self.len() > 0,
            self.used(),
            self.in_flight() == 0,
        ensures
            self.free == self.len(),
            self.head == self.restart,
            self.head == (self.tail + 1) % self.len(),
    {
        lemma_slot_after_is_mod(self.tail, 1, self.len());
    }

    /// The descriptors a buffer was placed in form one chain, also where
    /// they run over the end of the ring: each points at the one that holds
    /// the next piece.
    pub proof fn law_run_is_chained(self, before: RingView, addr: int, len: int, k: int)
        requires
            before.wf(),
            self.wf(),
            self.filled(before, addr, len),
            bd_needed(len, before.max_len) <= before.free,
            0 <= k < bd_needed(len, before.max_len) - 1,
        ensures
            self.bds[slot_after(before.restart, k, self.len())].next_ptr() == self.bds[slot_after(
                before.restart,
                k + 1,
                self.len(),
            )].phys_addr,
            self.hop(slot_after(before.restart, k, self.len())) == slot_after(
                before.restart,
                k + 1,
                self.len(),
            ),
    {
        let n = self.len();
        let s = slot_after(before.restart, k, n);
        self.lemma_hop(s);
    }
}

/// A buffer exactly as long as one descriptor may name takes one descriptor.
pub proof fn law_full_piece_takes_one(max: int)
    requires
        0 < max,
    ensures
        bd_needed(max, max) == 1,
        piece_len(max, max, 0) == max,
{
    lemma_bd_needed_is_ceil(max, max);
    let n = bd_needed(max, max);
    assert(n == 1) by (nonlinear_arith)
        requires
            (n - 1) * max < max <= n * max,
            0 < max,
    ;
    assert(0 * max == 0) by (nonlinear_arith);
}

/// A buffer one byte longer than one descriptor may name takes two; the
/// second names the one byte.
pub proof fn law_one_byte_over_takes_two(max: int)
    requires
        0 < max,
    ensures
        bd_needed(max + 1, max) == 2,
        piece_len(max + 1, max, 0) == max,
        piece_len(max + 1, max, 1) == 1,
{
    lemma_bd_needed_is_ceil(max + 1, max);
    let n = bd_needed(max + 1, max);
    assert(n == 2) by (nonlinear_arith)
        requires
            (n - 1) * max < max + 1 <= n * max,
            0 < max,
    ;
    assert(1 * max == max && 0 * max == 0) by (nonlinear_arith);
}

/// A buffer longer than all free descriptors together may name is refused
/// for want of descriptors.
pub proof fn law_too_long_is_refused(view: RingView, addr: int, len: int)
    requires
        view.wf(),
        0 < view.max_len,
        len > view.max_len * view.free,
    ensures
        AxiDmaBdRing::submit_outcome(view, addr, len) == Err::<(), AxiDMAErr>(
            AxiDMAErr::BDRingNoList,
        ),
{
    let max = view.max_len;
    let free = view.free;
    assert(0 <= max * free) by (nonlinear_arith)
        requires
            0 < max,
            0 <= free,
    ;
    lemma_bd_needed_is_ceil(len, max);
    let n = bd_needed(len, max);
    assert(n > free) by (nonlinear_arith)
        requires
            len <= n * max,
            len > max * free,
            0 < max,
    ;
}

/// The descriptor ring of one channel.
pub struct AxiDmaBdRing {
    config: AxiDmaBdRingConfig,
    is_halted: bool,
    ring: Vec<AxiDmaBD>,
    bd_head: usize,
    bd_tail: usize,
    bd_restart: usize,
    free_cnt: usize,
    pending_cnt: usize,
    submit_cnt: usize,
    all_cnt: usize,
}

impl AxiDmaBdRing {
    /// The ring as a mathematical value.
    pub closed spec fn view(&self) -> RingView {
        RingView {
            bds: self.ring@,
            head: self.bd_head as int,
            tail: self.bd_tail as int,
            restart: self.bd_restart as int,
            free: self.free_cnt as int,
            pending: self.pending_cnt as int,
            submitted: self.submit_cnt as int,
            halted: self.is_halted,
            max_len: self.config.max_transfer_len as int,
        }
    }

    /// The configuration the ring was made with.
    pub closed spec fn config(&self) -> AxiDmaBdRingConfig {
        self.config
    }

    /// The invariant of the ring.
    pub closed spec fn wf(&self) -> bool {
        &&& self@.wf()
        &&& self.all_cnt == self.ring@.len()
    }

    /// A well-formed ring satisfies the invariant of its view.
    pub proof fn lemma_wf(&self)
        requires
            self.wf(),
        ensures
            self@.wf(),
    {
    }

    /// A ring without descriptors. A `max_transfer_len` above what the length
    /// field of a descriptor can hold is cut down to that.
    pub fn new(config: AxiDmaBdRingConfig) -> (ring: Self)
        ensures
            ring.wf(),
            ring@.len() == 0,
            ring@.halted,
            ring@.max_len == AxiDmaBD::limit(config.max_transfer_len),
            ring.config() == (AxiDmaBdRingConfig {
                max_transfer_len: AxiDmaBD::limit(config.max_transfer_len),
                ..config
            }),
    {
        let max_transfer_len = if config.max_transfer_len > BD_LEN_LIMIT {
            BD_LEN_LIMIT
        } else {
            config.max_transfer_len
        };
        AxiDmaBdRing {
            config: AxiDmaBdRingConfig { max_transfer_len, ..config },
            is_halted: true,
            ring: Vec::new(),
            bd_head: 0,
            bd_tail: 0,
            bd_restart: 0,
            free_cnt: 0,
            pending_cnt: 0,
            submit_cnt: 0,
            all_cnt: 0,
        }
    }

    /// The number of slots.
    pub fn len(&self) -> (n: usize)
        ensures
            n == self@.len(),
    {
        self.ring.len()
    }

    /// Slot of the oldest descriptor in flight.
    pub fn head(&self) -> (slot: usize)
        ensures
            slot == self@.head,
    {
        self.bd_head
    }

    /// Slot of the descriptor that was filled last.
    pub fn tail(&self) -> (slot: usize)
        ensures
            slot == self@.tail,
    {
        self.bd_tail
    }

    /// Slot that will be filled next.
    pub fn restart(&self) -> (slot: usize)
        ensures
            slot == self@.restart,
    {
        self.bd_restart
    }

    /// Number of free descriptors.
    pub fn free_cnt(&self) -> (count: usize)
        ensures
            count == self@.free,
    {
        self.free_cnt
    }

    /// Number of descriptors filled but not announced to the device.
    pub fn pending_cnt(&self) -> (count: usize)
        ensures
            count == self@.pending,
    {
        self.pending_cnt
    }

    /// Number of descriptors announced to the device and not reaped.
    pub fn submit_cnt(&self) -> (count: usize)
        ensures
            count == self@.submitted,
    {
        self.submit_cnt
    }

    /// Whether the channel is known to be stopped.
    pub fn is_halted(&self) -> (halted: bool)
        ensures
            halted == self@.halted,
    {
        self.is_halted
    }

    /// The longest piece one descriptor may name.
    pub fn max_transfer_len(&self) -> (max: usize)
        ensures
            max == self@.max_len,
    {
        self.config.max_transfer_len
    }

    /// Builds the ring: `bd_count` descriptors back to back from physical
    /// address `base_addr`, 64 bytes apart, linked into a cycle. Whatever the
    /// ring held before is dropped.
    ///
    /// Fails with `InValidParam`, and changes nothing, exactly when
    /// `bd_count` is zero, `base_addr` is not a multiple of 64, or the slots
    /// would run past the end of the address space.
    pub fn create(&mut self, bd_count: usize, base_addr: usize) -> (res: Result<(), AxiDMAErr>)
        requires
            old(self).wf(),
        ensures
            final(self).wf(),
            final(self).config() == old(self).config(),
            res == (if bd_count > 0 && base_addr % 64 == 0 && base_addr + 64 * bd_count
                <= usize::MAX {
                Ok::<(), AxiDMAErr>(())
            } else {
                Err(AxiDMAErr::InValidParam)
            }),
            res is Err ==> final(self)@ == old(self)@,
            res is Ok ==> final(self)@.built(
                bd_count as int,
                base_addr as int,
                old(self)@.max_len,
            ),
    {
        if bd_count == 0 || base_addr % BD_ALIGNMENT != 0 {
            return Err(AxiDMAErr::InValidParam);
        }
        if bd_count > (usize::MAX - base_addr) / BD_ALIGNMENT {
            return Err(AxiDMAErr::InValidParam);
        }
        let word_len: u32 = #[verifier::truncate]
        (self.config.data_width as u32);
        let max_len = self.config.max_transfer_len;
        let mut ring: Vec<AxiDmaBD> = Vec::new();
        let mut i: usize = 0;
        while i < bd_count
            invariant
                i <= bd_count,
                base_addr + 64 * bd_count <= usize::MAX,
                max_len <= BD_LEN_LIMIT,
                ring@.len() == i,
                forall|j: int|
                    0 <= j < i ==> {
                        let bd = #[trigger] ring@[j];
                        &&& bd.phys_addr == base_addr + 64 * j
                        &&& bd.max_len == max_len
                        &&& bd.buf_ptr() == 0
                        &&& bd.desc.control@ == 0
                        &&& bd.desc.status@ == 0
                        &&& bd.app_clear()
                    },
            decreases bd_count - i,
        {
            let bd = AxiDmaBD::new(
                self.config.has_sts_cntrl_strm,
                self.config.has_dre,
                word_len,
                base_addr + BD_ALIGNMENT * i,
                max_len,
            );
            proof {
                crate::bd::lemma_join_zero();
            }
            ring.push(bd);
            i += 1;
        }
        let mut i: usize = 0;
        while i < bd_count
            invariant
                i <= bd_count,
                base_addr % 64 == 0,
                base_addr + 64 * bd_count <= usize::MAX,
                ring@.len() == bd_count,
                forall|j: int|
                    0 <= j < bd_count ==> {
                        let bd = #[trigger] ring@[j];
                        &&& bd.phys_addr == base_addr + 64 * j
                        &&& bd.max_len == max_len
                        &&& bd.buf_ptr() == 0
                        &&& bd.desc.control@ == 0
                        &&& bd.desc.status@ == 0
                        &&& bd.app_clear()
                    },
                forall|j: int|
                    0 <= j < i ==> (#[trigger] ring@[j]).next_ptr() == base_addr + 64 * slot_after(
                        j,
                        1,
                        bd_count as int,
                    ),
            decreases bd_count - i,
        {
            let next = if i + 1 == bd_count {
                base_addr
            } else {
                base_addr + BD_ALIGNMENT * (i + 1)
            };
            let ghost before = ring@;
            let _ = ring[i].set_next_desc_addr(next);
            assert forall|j: int| 0 <= j < bd_count implies {
                let bd = #[trigger] ring@[j];
                &&& bd.phys_addr == base_addr + 64 * j
                &&& bd.max_len == max_len
                &&& bd.buf_ptr() == 0
                &&& bd.desc.control@ == 0
                &&& bd.desc.status@ == 0
                &&& bd.app_clear()
            } by {
                assert(before[j].app_clear());
            }
            i += 1;
        }
        self.ring = ring;
        self.is_halted = true;
        self.all_cnt = bd_count;
        self.free_cnt = bd_count;
        self.pending_cnt = 0;
        self.submit_cnt = 0;
        self.bd_head = 0;
        self.bd_tail = 0;
        self.bd_restart = 0;
        Ok(())
    }

    /// What `submit` returns for a buffer of `len` bytes at `addr`, but for
    /// the addresses in the `Ok` case.
    pub open spec fn submit_outcome(view: RingView, addr: int, len: int) -> Result<(), AxiDMAErr> {
        if len == 0 || view.max_len == 0 {
            Err(AxiDMAErr::InValidParam)
        } else if bd_needed(len, view.max_len) > view.free {
            Err(AxiDMAErr::BDRingNoList)
        } else if addr % 4 != 0 || addr + len > usize::MAX + 1 {
            Err(AxiDMAErr::InValidParam)
        } else {
            Ok(())
        }
    }

    /// Whether the first `upto` pieces of the buffer stand in the slots from
    /// `start` on, without frame marks, and every other slot is as in
    /// `before`.
    spec fn pieces_placed(
        bds: Seq<AxiDmaBD>,
        before: Seq<AxiDmaBD>,
        start: int,
        upto: int,
        addr: int,
        len: int,
        max: int,
    ) -> bool {
        let n = before.len() as int;
        &&& bds.len() == before.len()
        &&& forall|j: int|
            0 <= j < upto ==> {
                let bd = bds[#[trigger] slot_after(start, j, n)];
                &&& bd.holds_piece(&before[slot_after(start, j, n)], addr, len, max, j)
                &&& !bd.sof()
                &&& !bd.eof()
            }
        &&& forall|i: int|
            0 <= i < n && dist(start, i, n) >= upto ==> #[trigger] bds[i] == before[i]
    }

    /// One more piece: if the first `k` pieces are placed in `earlier`, and
    /// `later` differs from `earlier` in slot `idx` alone, which holds piece
    /// `k`, then the first `k + 1` pieces are placed in `later`.
    proof fn lemma_fill_step(
        earlier: Seq<AxiDmaBD>,
        later: Seq<AxiDmaBD>,
        before: Seq<AxiDmaBD>,
        start: int,
        k: int,
        idx: int,
        addr: int,
        len: int,
        max: int,
    )
        requires
            Self::pieces_placed(earlier, before, start, k, addr, len, max),
            0 <= start < before.len(),
            0 <= k < before.len(),
            idx == slot_after(start, k, before.len() as int),
            later.len() == before.len(),
            forall|i: int| 0 <= i < before.len() && i != idx ==> #[trigger] later[i] == earlier[i],
            later[idx].holds_piece(&before[idx], addr, len, max, k),
            !later[idx].sof(),
            !later[idx].eof(),
        ensures
            Self::pieces_placed(later, before, start, k + 1, addr, len, max),
    {
        let n = before.len() as int;
        assert forall|j: int| 0 <= j < k + 1 implies {
            let bd = later[#[trigger] slot_after(start, j, n)];
            &&& bd.holds_piece(&before[slot_after(start, j, n)], addr, len, max, j)
            &&& !bd.sof()
            &&& !bd.eof()
        } by {
            if j < k {
                let s = slot_after(start, j, n);
                assert(s != idx);
                assert(later[s] == earlier[s]);
            }
        }
        assert forall|i: int| 0 <= i < n && dist(start, i, n) >= k + 1 implies #[trigger] later[i]
            == before[i] by {
            assert(i != idx);
            assert(later[i] == earlier[i]);
        }
    }

    /// The arithmetic of cutting: before piece `k` is cut, something is left
    /// of the buffer; piece `k` is `piece_len` long; and only the last piece
    /// leaves nothing.
    pub proof fn lemma_cut(len: int, max: int, count: int, k: int)
        requires
            0 < max,
            0 <= k < count,
            (count - 1) * max < len <= count * max,
        ensures
            0 < piece_len(len, max, k) <= max,
            piece_len(len, max, k) <= len - k * max,
            k + 1 < count ==> piece_len(len, max, k) == max,
            k + 1 == count ==> piece_len(len, max, k) == len - k * max,
            (k + 1) * max == k * max + max,
            0 <= k * max,
            k == 0 ==> k * max == 0,
    {
        assert(0 * max == 0) by (nonlinear_arith);
        assert((k + 1) * max == k * max + max) by (nonlinear_arith);
        assert(0 <= k * max) by (nonlinear_arith)
            requires
                0 <= k,
                0 < max,
        ;
        assert(k * max <= (count - 1) * max) by (nonlinear_arith)
            requires
                k <= count - 1,
                0 < max,
        ;
        if k + 1 < count {
            assert((k + 1) * max <= (count - 1) * max) by (nonlinear_arith)
                requires
                    k + 1 <= count - 1,
                    0 < max,
            ;
        } else {
            assert(count * max == k * max + max) by (nonlinear_arith)
                requires
                    count == k + 1,
            ;
        }
    }

    /// A piece of a buffer that starts on a multiple of 4 starts on a
    /// multiple of 4 if the pieces are a multiple of 4 long.
    proof fn lemma_piece_aligned(addr: int, max: int, k: int)
        requires
            addr % 4 == 0,
            max % 4 == 0,
        ensures
            (addr + k * max) % 4 == 0,
    {
        let q = max / 4;
        assert(k * max == 4 * (k * q)) by (nonlinear_arith)
            requires
                max == 4 * q,
        ;
    }

    /// Places the `count` pieces of the buffer in the slots from `restart`
    /// on, without frame marks.
    fn fill(&mut self, addr: usize, len: usize, count: usize)
        requires
            old(self).wf(),
            0 < len,
            0 < old(self)@.max_len,
            count == bd_needed(len as int, old(self)@.max_len),
            count <= old(self)@.free,
            addr + len <= usize::MAX + 1,
        ensures
            final(self)@ == (RingView { bds: final(self)@.bds, ..old(self)@ }),
            final(self).config() == old(self).config(),
            final(self).all_cnt == old(self).all_cnt,
            Self::pieces_placed(
                final(self)@.bds,
                old(self)@.bds,
                old(self)@.restart,
                count as int,
                addr as int,
                len as int,
                old(self)@.max_len,
            ),
    {
        let ghost before = self@;
        let ghost n = before.len();
        let ghost start = before.restart;
        let max = self.config.max_transfer_len;
        let mut k: usize = 0;
        let mut idx: usize = self.bd_restart;
        let mut offset: usize = 0;
        proof {
            lemma_bd_needed_is_ceil(len as int, max as int);
        }
        while k < count
            invariant
                self@ == (RingView { bds: self@.bds, ..before }),
                self.config() == old(self).config(),
                self.all_cnt == old(self).all_cnt,
                self.ring@.len() == n,
                n == before.bds.len(),
                n == self.all_cnt,
                0 <= start < n,
                max == before.max_len,
                0 < max <= BD_LEN_LIMIT,
                0 < len,
                addr + len <= usize::MAX + 1,
                k <= count <= n,
                (count - 1) * max < len <= count * max,
                idx == slot_after(start, k as int, n),
                0 <= idx < n,
                k < count ==> offset == k * max,
                Self::pieces_placed(
                    self.ring@,
                    before.bds,
                    start,
                    k as int,
                    addr as int,
                    len as int,
                    max as int,
                ),
            decreases count - k,
        {
            let ghost earlier = self.ring@;
            proof {
                Self::lemma_cut(len as int, max as int, count as int, k as int);
                assert(dist(start, idx as int, n) >= k);
                assert(earlier[idx as int] == before.bds[idx as int]);
            }
            let left = len - offset;
            let piece = if left < max {
                left
            } else {
                max
            };
            self.ring[idx].clear();
            self.ring[idx].place(addr + offset, piece);
            proof {
                Self::lemma_fill_step(
                    earlier,
                    self.ring@,
                    before.bds,
                    start,
                    k as int,
                    idx as int,
                    addr as int,
                    len as int,
                    max as int,
                );
            }
            if k + 1 < count {
                offset = offset + piece;
            }
            k = k + 1;
            idx = if idx + 1 == self.all_cnt {
                0
            } else {
                idx + 1
            };
        }
    }

    /// Places a buffer in the ring: cuts it into pieces of at most
    /// `max_transfer_len` bytes, fills one free descriptor with each piece,
    /// starting at `restart`, marks the first as start and the last as end of
    /// the packet, and counts the descriptors as pending.
    ///
    /// Returns the physical addresses of the head descriptor and of the new
    /// tail descriptor. Fails as `submit_outcome` says, and then changes
    /// nothing: with `InValidParam` for an empty buffer or a ring whose
    /// `max_transfer_len` is zero, with `BDRingNoList` when fewer descriptors
    /// are free than the buffer takes, and with `InValidParam` for a buffer
    /// that does not start on a multiple of 4 or runs past the end of the
    /// address space.
    pub fn submit(&mut self, buffer: &BufPtr) -> (res: Result<(usize, usize), AxiDMAErr>)
        requires
            old(self).wf(),
        ensures
            final(self).wf(),
            final(self).config() == old(self).config(),
            match res {
                Ok((head, tail)) => {
                    &&& Self::submit_outcome(old(self)@, buffer.addr() as int, buffer.size() as int)
                        is Ok
                    &&& final(self)@.filled(old(self)@, buffer.addr() as int, buffer.size() as int)
                    &&& final(self)@.used()
                    &&& head == final(self)@.bds[final(self)@.head].phys_addr
                    &&& tail == final(self)@.bds[final(self)@.tail].phys_addr
                },
                Err(e) => {
                    &&& Self::submit_outcome(old(self)@, buffer.addr() as int, buffer.size() as int)
                        == Err::<(), AxiDMAErr>(e)
                    &&& final(self)@ == old(self)@
                },
            },
    {
        let addr = buffer.as_ptr();
        let len = buffer.len();
        let max = self.config.max_transfer_len;
        if len == 0 || max == 0 {
            return Err(AxiDMAErr::InValidParam);
        }
        proof {
            lemma_bd_needed_is_ceil(len as int, max as int);
        }
        let count = (len - 1) / max + 1;
        if count > self.free_cnt {
            return Err(AxiDMAErr::BDRingNoList);
        }
        if addr % 4 != 0 || len - 1 > usize::MAX - addr {
            return Err(AxiDMAErr::InValidParam);
        }
        let ghost before = self@;
        let ghost n = before.len();
        let start = self.bd_restart;
        self.fill(addr, len, count);
        let ghost filled = self@.bds;
        let restart = if count >= self.all_cnt - start {
            count - (self.all_cnt - start)
        } else {
            start + count
        };
        let tail = if restart == 0 {
            self.all_cnt - 1
        } else {
            restart - 1
        };
        assert(restart == slot_after(start as int, count as int, n));
        assert(tail == slot_after(start as int, count - 1, n));
        assert(filled[start as int].holds_piece(
            &before.bds[start as int],
            addr as int,
            len as int,
            max as int,
            0,
        ) && !filled[start as int].sof() && !filled[start as int].eof()) by {
            assert(slot_after(start as int, 0, n) == start);
        }
        self.ring[start].mark_sof();
        let ghost marked = self@.bds;
        assert(marked[tail as int].holds_piece(
            &before.bds[tail as int],
            addr as int,
            len as int,
            max as int,
            count - 1,
        ) && !marked[tail as int].eof() && marked[tail as int].sof() == (count == 1)) by {
            assert(slot_after(start as int, count - 1, n) == tail);
            if count > 1 {
                assert(tail != start);
                assert(marked[tail as int] == filled[tail as int]);
            }
        }
        self.ring[tail].mark_eof();
        self.bd_restart = restart;
        self.bd_tail = tail;
        self.free_cnt = self.free_cnt - count;
        self.pending_cnt = self.pending_cnt + count;
        proof {
            let after = self@;
            assert forall|k: int| 0 <= k < count implies after.bds[#[trigger] slot_after(
                start as int,
                k,
                n,
            )].is_piece(
                &before.bds[slot_after(start as int, k, n)],
                addr as int,
                len as int,
                max as int,
                k,
                count as int,
            ) by {
                let s = slot_after(start as int, k, n);
                assert(filled[s].holds_piece(&before.bds[s], addr as int, len as int, max as int, k)
                    && !filled[s].sof() && !filled[s].eof());
                if s != start {
                    assert(marked[s] == filled[s]);
                }
                if s != tail {
                    assert(after.bds[s] == marked[s]);
                }
            }
            assert forall|i: int|
                0 <= i < n && dist(start as int, i, n) >= count implies #[trigger] after.bds[i]
                == before.bds[i] by {
                assert(i != start && i != tail);
                assert(marked[i] == filled[i]);
                assert(after.bds[i] == marked[i]);
                assert(filled[i] == before.bds[i]);
            }
            assert(after.filled(before, addr as int, len as int));
            Self::lemma_filled_wf(before, after, addr as int, len as int);
        }
        Ok((self.ring[self.bd_head].phys_addr, self.ring[self.bd_tail].phys_addr))
    }

    /// Placing a buffer keeps the invariant.
    proof fn lemma_filled_wf(before: RingView, after: RingView, addr: int, len: int)
        requires
            before.wf(),
            Self::submit_outcome(before, addr, len) is Ok,
            0 <= addr,
            0 <= len,
            after.filled(before, addr, len),
        ensures
            after.wf(),
            after.used(),
    {
        let n = before.len();
        let max = before.max_len;
        let count = bd_needed(len, max);
        let start = before.restart;
        lemma_bd_needed_is_ceil(len, max);
        assert forall|i: int| 0 <= i < n implies {
            &&& (#[trigger] after.bds[i]).phys_addr == before.bds[i].phys_addr
            &&& after.bds[i].max_len == before.bds[i].max_len
            &&& after.bds[i].next_ptr() == before.bds[i].next_ptr()
        } by {
            if dist(start, i, n) < count {
                let k = dist(start, i, n);
                assert(slot_after(start, k, n) == i);
                assert(after.bds[slot_after(start, k, n)].is_piece(
                    &before.bds[slot_after(start, k, n)],
                    addr,
                    len,
                    max,
                    k,
                    count,
                ));
            } else {
                assert(after.bds[i] == before.bds[i]);
            }
        }
        assert(after.linked()) by {
            assert forall|i: int| 0 <= i < n implies (#[trigger] after.bds[i]).next_ptr()
                == after.bds[0].phys_addr + 64 * slot_after(i, 1, n) by {
                assert(before.bds[i].next_ptr() == before.bds[0].phys_addr + 64 * slot_after(
                    i,
                    1,
                    n,
                ));
                assert(after.bds[0].phys_addr == before.bds[0].phys_addr);
            }
            assert forall|i: int| 0 <= i < n implies (#[trigger] after.bds[i]).phys_addr
                == after.bds[0].phys_addr + 64 * i by {
                assert(before.bds[i].phys_addr == before.bds[0].phys_addr + 64 * i);
                assert(after.bds[0].phys_addr == before.bds[0].phys_addr);
            }
            assert forall|i: int| 0 <= i < n implies (#[trigger] after.bds[i]).max_len
                == after.max_len by {
                assert(before.bds[i].max_len == before.max_len);
            }
            assert(after.bds[0].phys_addr == before.bds[0].phys_addr);
        }
        assert(after.loaded()) by {
            assert forall|k: int| 0 <= k < after.in_flight() implies {
                let bd = after.bds[#[trigger] slot_after(after.head, k, n)];
                &&& 0 < bd.buf_len() <= after.max_len
                &&& (bd.sof() || after.max_len % 4 == 0) ==> bd.buf_ptr() % 4 == 0
            } by {
                let s = slot_after(before.head, k, n);
                if k < before.in_flight() {
                    assert(0 < before.bds[s].buf_len() <= before.max_len);
                    assert(dist(start, s, n) >= count);
                    assert(after.bds[s] == before.bds[s]);
                } else {
                    let j = k - before.in_flight();
                    assert(slot_after(start, j, n) == s);
                    assert(after.bds[slot_after(start, j, n)].is_piece(
                        &before.bds[slot_after(start, j, n)],
                        addr,
                        len,
                        max,
                        j,
                        count,
                    ));
                    Self::lemma_cut(len, max, count, j);
                    if max % 4 == 0 {
                        Self::lemma_piece_aligned(addr, max, j);
                    }
                }
            }
        }
    }

    /// Takes back the descriptors the device is done with.
    ///
    /// Looks at the submitted descriptors from the head on, as far as they
    /// are complete, and takes them up to the last one that ends a packet:
    /// the head moves past them and they are free again. Complete
    /// descriptors of a packet whose end is not complete yet stay. Returns
    /// how many were taken, which may be none.
    pub fn from_hw(&mut self) -> (count: usize)
        requires
            old(self).wf(),
        ensures
            final(self).wf(),
            final(self).config() == old(self).config(),
            old(self)@.reaps(count as int),
            final(self)@.reaped(old(self)@, count as int),
    {
        let ghost before = self@;
        let ghost n = before.len();
        let mut done: usize = 0;
        let mut whole: usize = 0;
        let mut cur: usize = self.bd_head;
        while done < self.submit_cnt
            invariant
                self@ == before,
                self.wf(),
                n == before.len(),
                whole <= done <= before.submitted,
                before.submitted > 0 ==> cur == slot_after(before.head, done as int, n) && cur < n,
                forall|k: int| 0 <= k < done ==> (#[trigger] before.from_head(k)).completed(),
                whole > 0 ==> before.from_head(whole - 1).ends_packet(),
                forall|k: int|
                    whole <= k < done ==> !(#[trigger] before.from_head(k)).ends_packet(),
            ensures
                self@ == before,
                self.wf(),
                whole <= done <= before.submitted,
                forall|k: int| 0 <= k < done ==> (#[trigger] before.from_head(k)).completed(),
                done < before.submitted ==> !before.from_head(done as int).completed(),
                whole > 0 ==> before.from_head(whole - 1).ends_packet(),
                forall|k: int|
                    whole <= k < done ==> !(#[trigger] before.from_head(k)).ends_packet(),
            decreases before.submitted - done,
        {
            let bd = &self.ring[cur];
            assert(*bd == before.from_head(done as int));
            if !bd.is_completed() {
                break ;
            }
            done = done + 1;
            if bd.is_packet_end() {
                whole = done;
            }
            cur = if cur + 1 == self.all_cnt {
                0
            } else {
                cur + 1
            };
        }
        if whole > 0 {
            self.bd_head = if whole >= self.all_cnt - self.bd_head {
                whole - (self.all_cnt - self.bd_head)
            } else {
                self.bd_head + whole
            };
            self.submit_cnt = self.submit_cnt - whole;
            self.free_cnt = self.free_cnt + whole;
        }
        proof {
            let after = self@;
            assert(after.reaped(before, whole as int));
            assert(before.reaps_of(whole as int, done as int));
            assert(after.loaded()) by {
                assert forall|k: int| 0 <= k < after.in_flight() implies {
                    let bd = after.bds[#[trigger] slot_after(after.head, k, n)];
                    &&& 0 < bd.buf_len() <= after.max_len
                    &&& (bd.sof() || after.max_len % 4 == 0) ==> bd.buf_ptr() % 4 == 0
                } by {
                    let s = slot_after(before.head, k + whole, n);
                    assert(s == slot_after(after.head, k, n));
                    assert(0 < before.bds[s].buf_len() <= before.max_len);
                }
            }
        }
        whole
    }

    /// Whether any of the `count` descriptors from slot `first` on is in
    /// flight. A run that does not fit the ring is not in flight.
    pub fn owns_run(&self, first: usize, count: usize) -> (owned: bool)
        requires
            self.wf(),
        ensures
            owned == self@.owns_run(first as int, count as int),
    {
        let n = self.all_cnt;
        if first >= n || count > n {
            return false;
        }
        let in_flight = self.pending_cnt + self.submit_cnt;
        let mut k: usize = 0;
        let mut slot: usize = first;
        while k < count
            invariant
                self.wf(),
                n == self@.len(),
                first < n,
                k <= count <= n,
                in_flight == self@.in_flight(),
                slot == slot_after(first as int, k as int, n as int),
                slot < n,
                forall|j: int|
                    0 <= j < k ==> !self@.owns_slot(
                        #[trigger] slot_after(first as int, j, n as int),
                    ),
            decreases count - k,
        {
            let d = if slot >= self.bd_head {
                slot - self.bd_head
            } else {
                slot + (n - self.bd_head)
            };
            if d < in_flight {
                assert(self@.owns_slot(slot_after(first as int, k as int, n as int)));
                return true;
            }
            k = k + 1;
            slot = if slot + 1 == n {
                0
            } else {
                slot + 1
            };
        }
        false
    }

    /// Records `status` as the status word the device wrote to the
    /// descriptor in slot `index`. Nothing else changes.
    pub fn set_status(&mut self, index: usize, status: u32)
        requires
            old(self).wf(),
            index < old(self)@.len(),
        ensures
            final(self).wf(),
            final(self).config() == old(self).config(),
            final(self)@ == (RingView { bds: final(self)@.bds, ..old(self)@ }),
            final(self)@.len() == old(self)@.len(),
            final(self)@.bds[index as int].status_set(&old(self)@.bds[index as int], status),
            forall|i: int|
                0 <= i < old(self)@.len() && i != index ==> #[trigger] final(self)@.bds[i] == old(
                    self,
                )@.bds[i],
    {
        let ghost before = self@;
        self.ring[index].desc.status.load(status);
        proof {
            let after = self@;
            let n = before.len();
            assert forall|i: int| 0 <= i < n implies {
                &&& (#[trigger] after.bds[i]).phys_addr == before.bds[i].phys_addr
                &&& after.bds[i].max_len == before.bds[i].max_len
                &&& after.bds[i].next_ptr() == before.bds[i].next_ptr()
                &&& after.bds[i].buf_len() == before.bds[i].buf_len()
                &&& after.bds[i].buf_ptr() == before.bds[i].buf_ptr()
                &&& after.bds[i].sof() == before.bds[i].sof()
            } by {
                if i != index {
                    assert(after.bds[i] == before.bds[i]);
                }
            }
            assert(after.linked()) by {
                assert forall|i: int| 0 <= i < n implies (#[trigger] after.bds[i]).next_ptr()
                    == after.bds[0].phys_addr + 64 * slot_after(i, 1, n) by {
                    assert(before.bds[i].next_ptr() == before.bds[0].phys_addr + 64 * slot_after(
                        i,
                        1,
                        n,
                    ));
                    assert(after.bds[0].phys_addr == before.bds[0].phys_addr);
                }
                assert forall|i: int| 0 <= i < n implies (#[trigger] after.bds[i]).phys_addr
                    == after.bds[0].phys_addr + 64 * i by {
                    assert(before.bds[i].phys_addr == before.bds[0].phys_addr + 64 * i);
                    assert(after.bds[0].phys_addr == before.bds[0].phys_addr);
                }
                assert forall|i: int| 0 <= i < n implies (#[trigger] after.bds[i]).max_len
                    == after.max_len by {
                    assert(before.bds[i].max_len == before.max_len);
                }
                assert(after.bds[0].phys_addr == before.bds[0].phys_addr);
            }
            assert(after.loaded()) by {
                assert forall|k: int| 0 <= k < after.in_flight() implies {
                    let bd = after.bds[#[trigger] slot_after(after.head, k, after.len())];
                    &&& 0 < bd.buf_len() <= after.max_len
                    &&& (bd.sof() || after.max_len % 4 == 0) ==> bd.buf_ptr() % 4 == 0
                } by {
                    let s = slot_after(before.head, k, n);
                    assert(0 < before.bds[s].buf_len() <= before.max_len);
                    assert(after.bds[s].buf_len() == before.bds[s].buf_len());
                }
            }
        }
    }

    /// Marks the channel as stopped or running.
    pub fn set_halted(&mut self, halted: bool)
        requires
            old(self).wf(),
        ensures
            final(self).wf(),
            final(self).config() == old(self).config(),
            final(self)@ == (RingView { halted, ..old(self)@ }),
    {
        self.is_halted = halted;
    }

    /// Counts the pending descriptors as submitted, and says how many there
    /// were.
    pub fn announce(&mut self) -> (count: usize)
        requires
            old(self).wf(),
        ensures
            final(self).wf(),
            final(self).config() == old(self).config(),
            count == old(self)@.pending,
            final(self)@ == (RingView {
                pending: 0,
                submitted: old(self)@.submitted + old(self)@.pending,
                ..old(self)@
            }),
    {
        let count = self.pending_cnt;
        proof {
            assert(self@.free + self@.pending + self@.submitted == self@.len());
        }
        self.submit_cnt = self.submit_cnt + count;
        self.pending_cnt = 0;
        proof {
            assert forall|k: int| 0 <= k < self@.in_flight() implies {
                let bd = self@.bds[#[trigger] slot_after(self@.head, k, self@.len())];
                &&& 0 < bd.buf_len() <= self@.max_len
                &&& (bd.sof() || self@.max_len % 4 == 0) ==> bd.buf_ptr() % 4 == 0
            } by {
                let s = slot_after(old(self)@.head, k, old(self)@.len());
                assert(0 < old(self)@.bds[s].buf_len() <= old(self)@.max_len);
            }
        }
        count
    }

    /// Physical address of the descriptor in the head slot.
    pub fn head_desc_addr(&self) -> (addr: usize)
        requires
            self.wf(),
            self@.len() > 0,
        ensures
            addr == self@.bds[self@.head].phys_addr,
    {
        self.ring[self.bd_head].phys_addr
    }

    /// Physical address of the descriptor in the tail slot.
    pub fn tail_desc_addr(&self) -> (addr: usize)
        requires
            self.wf(),
            self@.len() > 0,
        ensures
            addr == self@.bds[self@.tail].phys_addr,
    {
        self.ring[self.bd_tail].phys_addr
    }

    /// The descriptor in slot `index`.
    pub fn bd(&self, index: usize) -> (bd: &AxiDmaBD)
        requires
            index < self@.len(),
        ensures
            *bd == self@.bds[index as int],
    {
        &self.ring[index]
    }
}

} // verus!
