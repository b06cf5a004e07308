//! The transmit ring.
//!
//! The driver puts each frame that is to be sent into the descriptor at its
//! cursor and hands that descriptor to the engine. The engine walks the ring
//! behind it, sends the frames in the order in which they were handed over,
//! and gives each descriptor back when its frame is out.

use super::desc::{advance, next_index, Owner};
use vstd::prelude::*;
use vstd::slice::slice_to_vec;

verus! {

/// Why a frame was not taken for transmission.
#[derive(Debug, Clone, Copy, PartialEq, Eq, Structural)]
pub enum TxError {
    /// The descriptor at the cursor still belongs to the engine: every
    /// descriptor of the ring is in flight. Nothing is wrong; the frame can
    /// be offered again once the engine has sent one.
    WouldBlock,
}

/// One descriptor of the transmit ring with its buffer.
struct TxDescriptor {
    owner: Owner,
    frame: Vec<u8>,
}

/// One slot of a transmit ring as a value.
pub struct TxSlot {
    /// The side that the descriptor belongs to.
    pub owner: Owner,
    /// The bytes in the slot's buffer.
    pub frame: Seq<u8>,
}

impl TxSlot {
    /// A slot that waits for the driver to fill it.
    pub open spec fn vacant() -> TxSlot {
        TxSlot { owner: Owner::Software, frame: Seq::empty() }
    }
}

impl View for TxDescriptor {
    type V = TxSlot;

    closed spec fn view(&self) -> TxSlot {
        TxSlot { owner: self.owner, frame: self.frame@ }
    }
}

/// A transmit ring as a value: its slots, the driver's cursor, and the
/// number of descriptors that the engine has yet to send.
pub struct TxRingState {
    /// The slots, in ring order.
    pub slots: Seq<TxSlot>,
    /// The slot that the driver fills next.
    pub cursor: int,
    /// The number of slots that are with the engine.
    pub in_flight: int,
}

impl TxRingState {
    /// The number of slots.
    pub open spec fn capacity(&self) -> int {
        self.slots.len() as int
    }

    /// How many slots lie between slot `i` and the cursor, walking forward
    /// from `i`: 0 for the slot just before the cursor, `capacity - 1` for
    /// the slot at the cursor.
    pub open spec fn behind(&self, i: int) -> int {
        if i < self.cursor {
            self.cursor - 1 - i
        } else {
            self.cursor - 1 - i + self.capacity()
        }
    }

    /// The slot that the engine sends next: the oldest one in flight.
    pub open spec fn engine(&self) -> int {
        if self.cursor >= self.in_flight {
            self.cursor - self.in_flight
        } else {
            self.cursor - self.in_flight + self.capacity()
        }
    }

    /// The cursor is a slot of the ring, and the slots that belong to the
    /// engine are exactly the `in_flight` slots before the cursor.
    pub open spec fn wf(&self) -> bool {
        &&& if self.capacity() == 0 {
            self.cursor == 0 && self.in_flight == 0
        } else {
            0 <= self.cursor < self.capacity() && 0 <= self.in_flight <= self.capacity()
        }
        &&& forall|i: int|
            0 <= i < self.capacity() ==> ((#[trigger] self.slots[i]).owner == Owner::Hardware
                <==> self.behind(i) < self.in_flight)
    }

    /// A ring of `capacity` slots that all wait for the driver.
    pub open spec fn fresh(capacity: int) -> TxRingState {
        TxRingState {
            slots: Seq::new(capacity as nat, |i: int| TxSlot::vacant()),
            cursor: 0,
            in_flight: 0,
        }
    }

    /// Whether the driver can hand a frame over: the slot at the cursor is
    /// its own.
    pub open spec fn accepts(&self) -> bool {
        self.capacity() > 0 && self.slots[self.cursor].owner == Owner::Software
    }

    /// One transmit: where the slot at the cursor is the driver's, it takes
    /// the frame and goes to the engine, and the cursor moves on. Where it
    /// is not, nothing changes.
    pub open spec fn transmit(&self, frame: Seq<u8>) -> TxRingState {
        if self.accepts() {
            TxRingState {
                slots: self.slots.update(self.cursor, TxSlot { owner: Owner::Hardware, frame }),
                cursor: next_index(self.cursor, self.capacity()),
                in_flight: self.in_flight + 1,
            }
        } else {
            *self
        }
    }

    /// One completion: the engine has sent the oldest frame in flight and
    /// gives its slot back. Where nothing is in flight, nothing changes.
    pub open spec fn complete(&self) -> TxRingState {
        if self.in_flight > 0 {
            TxRingState {
                slots: self.slots.update(self.engine(), TxSlot::vacant()),
                cursor: self.cursor,
                in_flight: self.in_flight - 1,
            }
        } else {
            *self
        }
    }

    /// The frame that the next completion sends, if any is in flight.
    pub open spec fn sending(&self) -> Option<Seq<u8>> {
        if self.in_flight > 0 {
            Some(self.slots[self.engine()].frame)
        } else {
            None
        }
    }

    /// The slot of the frame that is sent after `k` others: the slot `k`
    /// slots after the engine's position.
    pub open spec fn in_flight_slot(&self, k: int) -> int {
        if self.engine() + k >= self.capacity() {
            self.engine() + k - self.capacity()
        } else {
            self.engine() + k
        }
    }

    /// The frames in flight, in the order in which the engine sends them.
    pub open spec fn queue(&self) -> Seq<Seq<u8>> {
        Seq::new(self.in_flight as nat, |k: int| self.slots[self.in_flight_slot(k)].frame)
    }

    /// The ring after the frames of `frames` were offered for transmission
    /// one after the other.
    pub open spec fn after_transmits(&self, frames: Seq<Seq<u8>>) -> TxRingState
        decreases frames.len(),
    {
        if frames.len() == 0 {
            *self
        } else {
            self.after_transmits(frames.drop_last()).transmit(frames.last())
        }
    }

    /// The ring after `count` copies of one frame were offered for
    /// transmission.
    pub open spec fn after_copies(&self, frame: Seq<u8>, count: nat) -> TxRingState {
        self.after_transmits(Seq::new(count, |i: int| frame))
    }

    /// The number of slots that are free for frames.
    pub open spec fn room(&self) -> int {
        self.capacity() - self.in_flight
    }

    /// A ring refuses a frame exactly when all its slots are in flight.
    pub proof fn lemma_blocks_when_full(self)
        requires
            self.wf(),
        ensures
            self.accepts() <==> self.in_flight < self.capacity(),
    {
        if self.capacity() > 0 {
            assert(self.slots[self.cursor].owner == Owner::Hardware <==> self.behind(self.cursor)
                < self.in_flight);
        }
    }

    /// A transmit keeps the ring in order; one that is accepted puts one
    /// more slot in flight.
    pub proof fn lemma_transmit_wf(self, frame: Seq<u8>)
        requires
            self.wf(),
        ensures
            self.transmit(frame).wf(),
            self.transmit(frame).capacity() == self.capacity(),
            self.transmit(frame).in_flight == if self.accepts() {
                self.in_flight + 1
            } else {
                self.in_flight
            },
    {
        self.lemma_blocks_when_full();
        let after = self.transmit(frame);
        if self.accepts() {
            assert forall|i: int| 0 <= i < after.capacity() implies ((#[trigger] after.slots[i]).owner
                == Owner::Hardware <==> after.behind(i) < after.in_flight) by {
                assert(self.slots[i].owner == Owner::Hardware <==> self.behind(i) < self.in_flight);
            }
        }
    }

    /// A completion keeps the ring in order; where a slot is in flight, it
    /// takes one out of flight.
    pub proof fn lemma_complete_wf(self)
        requires
            self.wf(),
        ensures
            self.complete().wf(),
            self.complete().capacity() == self.capacity(),
            self.complete().in_flight == if self.in_flight > 0 {
                self.in_flight - 1
            } else {
                0
            },
            self.in_flight > 0 ==> 0 <= self.engine() < self.capacity() && self.slots[self.engine()].owner
                == Owner::Hardware,
    {
        let after = self.complete();
        if self.in_flight > 0 {
            let e = self.engine();
            assert(self.slots[e].owner == Owner::Hardware <==> self.behind(e) < self.in_flight);
            assert forall|i: int| 0 <= i < after.capacity() implies ((#[trigger] after.slots[i]).owner
                == Owner::Hardware <==> after.behind(i) < after.in_flight) by {
                assert(self.slots[i].owner == Owner::Hardware <==> self.behind(i) < self.in_flight);
            }
        }
    }

    /// First in, first out: a frame that is accepted goes to the end of the
    /// queue of frames in flight.
    pub proof fn lemma_transmit_enqueues(self, frame: Seq<u8>)
        requires
            self.wf(),
            self.accepts(),
        ensures
            self.transmit(frame).queue() == self.queue().push(frame),
    {
        self.lemma_blocks_when_full();
        let after = self.transmit(frame);
        let longer = self.queue().push(frame);
        assert(after.engine() == self.engine());
        assert(after.queue().len() == longer.len());
        assert forall|k: int| 0 <= k < longer.len() implies after.queue()[k] == longer[k] by {
            if k < self.in_flight {
                assert(self.in_flight_slot(k) != self.cursor);
            } else {
                assert(self.in_flight_slot(k) == self.cursor);
            }
        }
        assert(after.queue() =~= longer);
    }

    /// First in, first out: a completion sends the frame at the head of the
    /// queue and leaves the frames behind it in their order; with nothing in
    /// flight it sends nothing and changes nothing.
    pub proof fn lemma_complete_dequeues(self)
        requires
            self.wf(),
        ensures
            self.queue().len() == 0 ==> self.sending() is None && self.complete() == self,
            self.queue().len() > 0 ==> self.sending() == Some(self.queue()[0])
                && self.complete().queue() == self.queue().subrange(1, self.queue().len() as int),
    {
        if self.in_flight > 0 {
            let after = self.complete();
            let rest = self.queue().subrange(1, self.queue().len() as int);
            assert(self.in_flight_slot(0) == self.engine());
            assert(after.queue().len() == rest.len());
            assert forall|k: int| 0 <= k < rest.len() implies after.queue()[k] == rest[k] by {
                assert(after.in_flight_slot(k) == self.in_flight_slot(k + 1));
                assert(self.in_flight_slot(k + 1) != self.engine());
            }
            assert(after.queue() =~= rest);
        }
    }

    /// Offering frames to a ring in order keeps it in order, and as long as
    /// there are no more frames than free slots, each of them is accepted.
    pub proof fn lemma_transmits(self, frames: Seq<Seq<u8>>)
        requires
            self.wf(),
            self.in_flight + frames.len() <= self.capacity(),
        ensures
            self.after_transmits(frames).wf(),
            self.after_transmits(frames).capacity() == self.capacity(),
            self.after_transmits(frames).in_flight == self.in_flight + frames.len(),
            forall|k: int|
                0 <= k < frames.len() ==> #[trigger] self.after_transmits(frames.take(k)).accepts(),
        decreases frames.len(),
    {
        if frames.len() > 0 {
            let before = frames.drop_last();
            self.lemma_transmits(before);
            let ring = self.after_transmits(before);
            ring.lemma_blocks_when_full();
            ring.lemma_transmit_wf(frames.last());
            assert forall|k: int| 0 <= k < frames.len() implies #[trigger] self.after_transmits(
                frames.take(k),
            ).accepts() by {
                if k < before.len() {
                    assert(frames.take(k) =~= before.take(k));
                } else {
                    assert(frames.take(k) =~= before);
                }
            }
        }
    }

    /// Filling a ring: when nothing is in flight and as many frames as the
    /// ring has slots are offered, each of them is accepted, and the frame
    /// after them is refused. Once the engine has completed one descriptor,
    /// the next frame is accepted again.
    pub proof fn lemma_fill_then_block(self, frames: Seq<Seq<u8>>, extra: Seq<u8>)
        requires
            self.wf(),
            self.in_flight == 0,
            frames.len() == self.capacity(),
        ensures
            forall|k: int|
                0 <= k < frames.len() ==> #[trigger] self.after_transmits(frames.take(k)).accepts(),
            !self.after_transmits(frames).accepts(),
            self.after_transmits(frames).transmit(extra) == self.after_transmits(frames),
            self.capacity() > 0 ==> self.after_transmits(frames).complete().accepts(),
    {
        self.lemma_transmits(frames);
        let full = self.after_transmits(frames);
        full.lemma_blocks_when_full();
        full.lemma_complete_wf();
        full.complete().lemma_blocks_when_full();
    }

    /// A refused frame is accepted after one completion, whatever the ring
    /// held before.
    pub proof fn lemma_unblocked_by_completion(self)
        requires
            self.wf(),
            self.capacity() > 0,
            !self.accepts(),
        ensures
            self.complete().accepts(),
    {
        self.lemma_blocks_when_full();
        self.lemma_complete_wf();
        self.complete().lemma_blocks_when_full();
    }
}

/// The transmit ring of the driver: a fixed number of descriptors, each with
/// a buffer, the cursor, and the number of descriptors in flight.
pub struct TxRing {
    entries: Vec<TxDescriptor>,
    cursor: usize,
    in_flight: usize,
}

impl View for TxRing {
    type V = TxRingState;

    closed spec fn view(&self) -> TxRingState {
        TxRingState {
            slots: self.entries@.map_values(|entry: TxDescriptor| entry@),
            cursor: self.cursor as int,
            in_flight: self.in_flight as int,
        }
    }
}

impl TxRing {
    /// Create a ring of `capacity` descriptors. All of them wait for the
    /// driver, and the cursor is at the first of them.
    pub fn new(capacity: usize) -> (ring: Self)
        ensures
            ring@ == TxRingState::fresh(capacity as int),
            ring@.wf(),
    {
        let mut entries: Vec<TxDescriptor> = Vec::new();
        let mut i: usize = 0;
        while i < capacity
            invariant
                i <= capacity,
                entries@.len() == i,
                forall|k: int| 0 <= k < i ==> (#[trigger] entries@[k])@ == TxSlot::vacant(),
            decreases capacity - i,
        {
            entries.push(TxDescriptor { owner: Owner::Software, frame: Vec::new() });
            i += 1;
        }
        let ring = TxRing { entries, cursor: 0, in_flight: 0 };
        assert(ring@.slots =~= TxRingState::fresh(capacity as int).slots);
        ring
    }

    /// The number of descriptors in the ring.
    pub fn capacity(&self) -> (capacity: usize)
        ensures
            capacity == self@.capacity(),
    {
        self.entries.len()
    }

    /// The number of descriptors that are with the engine.
    pub fn in_flight(&self) -> (count: usize)
        ensures
            count == self@.in_flight,
    {
        self.in_flight
    }

    /// The slot that the driver fills next.
    pub fn cursor(&self) -> (cursor: usize)
        ensures
            cursor == self@.cursor,
    {
        self.cursor
    }

    /// The slot that the engine sends next: the oldest one in flight, or
    /// the cursor where nothing is in flight.
    pub fn engine(&self) -> (engine: usize)
        requires
            self@.wf(),
        ensures
            engine == self@.engine(),
    {
        if self.cursor >= self.in_flight {
            self.cursor - self.in_flight
        } else {
            self.entries.len() - (self.in_flight - self.cursor)
        }
    }

    /// The side that the descriptor in `slot` belongs to, or `None` where
    /// the ring has no such slot.
    pub fn owner(&self, slot: usize) -> (owner: Option<Owner>)
        ensures
            owner == if slot < self@.capacity() {
                Some(self@.slots[slot as int].owner)
            } else {
                None
            },
    {
        if slot < self.entries.len() {
            Some(self.entries[slot].owner)
        } else {
            None
        }
    }

    /// Hand a frame to the engine.
    ///
    /// Where the descriptor at the cursor still belongs to the engine, the
    /// frame is refused with [`TxError::WouldBlock`] and the ring stays as
    /// it is. Otherwise the bytes of `frame` are written to the buffer of
    /// that descriptor, the descriptor records their number and goes to the
    /// engine, and the cursor moves on.
    pub fn transmit(&mut self, frame: &[u8]) -> (sent: Result<(), TxError>)
        requires
            old(self)@.wf(),
        ensures
            final(self)@.wf(),
            final(self)@ == old(self)@.transmit(frame@),
            sent is Ok <==> old(self)@.accepts(),
            sent matches Err(error) ==> error == TxError::WouldBlock,
    {
        let capacity = self.entries.len();
        if capacity == 0 {
            return Err(TxError::WouldBlock);
        }
        let cursor = self.cursor;
        match self.entries[cursor].owner {
            Owner::Hardware => {
                return Err(TxError::WouldBlock);
            },
            Owner::Software => {},
        }
        proof {
            old(self)@.lemma_blocks_when_full();
            old(self)@.lemma_transmit_wf(frame@);
        }
        self.entries[cursor].frame = slice_to_vec(frame);
        self.entries[cursor].owner = Owner::Hardware;
        self.cursor = advance(cursor, capacity);
        self.in_flight = self.in_flight + 1;
        assert(self@.slots =~= old(self)@.transmit(frame@).slots);
        Ok(())
    }

    /// Hand copies of one frame to the engine until it refuses the next:
    /// every free descriptor takes a copy. Returns the number of copies
    /// taken.
    pub fn fill(&mut self, frame: &[u8]) -> (sent: usize)
        requires
            old(self)@.wf(),
        ensures
            final(self)@.wf(),
            sent == old(self)@.room(),
            final(self)@ == old(self)@.after_copies(frame@, sent as nat),
            !final(self)@.accepts(),
    {
        let mut sent: usize = 0;
        proof {
            assert(Seq::new(0, |i: int| frame@) =~= Seq::<Seq<u8>>::empty());
        }
        loop
            invariant
                self@.wf(),
                self@.capacity() == old(self)@.capacity(),
                self@.in_flight == old(self)@.in_flight + sent,
                self@ == old(self)@.after_copies(frame@, sent as nat),
            ensures
                sent == old(self)@.room(),
                !self@.accepts(),
            decreases self@.capacity() - self@.in_flight,
        {
            proof {
                self@.lemma_blocks_when_full();
                self@.lemma_transmit_wf(frame@);
                let longer = Seq::new((sent + 1) as nat, |i: int| frame@);
                assert(longer.drop_last() =~= Seq::new(sent as nat, |i: int| frame@));
                assert(longer.last() == frame@);
            }
            match self.transmit(frame) {
                Ok(()) => {
                    sent = sent + 1;
                },
                Err(_) => {
                    break;
                },
            }
        }
        sent
    }

    /// The engine's half of a transmission: the oldest frame in flight is
    /// out.
    ///
    /// Returns the bytes that were sent and gives their descriptor back to
    /// the driver; `None`, with the ring as it was, where nothing is in
    /// flight.
    pub fn hardware_complete(&mut self) -> (frame: Option<Vec<u8>>)
        requires
            old(self)@.wf(),
        ensures
            final(self)@.wf(),
            final(self)@ == old(self)@.complete(),
            frame matches Some(bytes) ==> old(self)@.sending() == Some(bytes@),
            frame is None ==> old(self)@.sending() is None,
    {
        if self.in_flight == 0 {
            return None;
        }
        proof {
            old(self)@.lemma_complete_wf();
        }
        let engine = self.engine();
        let mut frame: Vec<u8> = Vec::new();
        core::mem::swap(&mut self.entries[engine].frame, &mut frame);
        self.entries[engine].owner = Owner::Software;
        self.in_flight = self.in_flight - 1;
        assert(self@.slots =~= old(self)@.complete().slots);
        Some(frame)
    }
}

} // verus!
