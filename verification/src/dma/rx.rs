//! The receive ring.
//!
//! The engine walks the ring and puts each frame that arrives into the next
//! descriptor that it owns, which thereby becomes the driver's. The driver
//! walks the ring behind it with a cursor of its own, hands each frame out
//! as a packet, and gives the descriptor back to the engine when the packet
//! is released.

use super::desc::{advance, next_index, Owner, ERROR_SUMMARY, RX_FIRST_SEGMENT, RX_LAST_SEGMENT};
use vstd::prelude::*;

verus! {

/// What the engine reports of a frame that it has stored.
#[derive(Debug, Clone, Copy, PartialEq, Eq, Structural)]
pub struct RxStatus {
    /// The frame was damaged on the wire or cut short by the engine.
    pub error: bool,
    /// The descriptor holds the start of the frame.
    pub first_segment: bool,
    /// The descriptor holds the end of the frame.
    pub last_segment: bool,
}

impl RxStatus {
    /// The status of a descriptor that holds no frame.
    pub open spec fn spec_cleared() -> RxStatus {
        RxStatus { error: false, first_segment: false, last_segment: false }
    }

    /// The status of a descriptor that holds no frame.
    #[verifier::when_used_as_spec(spec_cleared)]
    pub fn cleared() -> (status: Self)
        ensures
            status == Self::spec_cleared(),
    {
        RxStatus { error: false, first_segment: false, last_segment: false }
    }

    /// The status that the first word of a receive descriptor reports.
    pub open spec fn spec_from_word(word: u32) -> RxStatus {
        RxStatus {
            error: word & ERROR_SUMMARY != 0,
            first_segment: word & RX_FIRST_SEGMENT != 0,
            last_segment: word & RX_LAST_SEGMENT != 0,
        }
    }

    /// The status that the first word of a receive descriptor reports.
    #[verifier::when_used_as_spec(spec_from_word)]
    pub fn from_word(word: u32) -> (status: Self)
        ensures
            status == Self::spec_from_word(word),
    {
        RxStatus {
            error: word & ERROR_SUMMARY != 0,
            first_segment: word & RX_FIRST_SEGMENT != 0,
            last_segment: word & RX_LAST_SEGMENT != 0,
        }
    }

    /// The status of a whole frame without error.
    pub fn whole_frame() -> (status: Self)
        ensures
            status == (RxStatus { error: false, first_segment: true, last_segment: true }),
    {
        RxStatus { error: false, first_segment: true, last_segment: true }
    }
}

/// One descriptor of the receive ring with its buffer.
struct RxDescriptor {
    owner: Owner,
    /// Whether a packet for this descriptor is out. The buffer is then with
    /// the packet.
    lent: bool,
    status: RxStatus,
    frame: Vec<u8>,
}

/// One slot of a receive ring as a value.
pub struct RxSlot {
    /// The side that the descriptor belongs to.
    pub owner: Owner,
    /// Whether a packet for this slot is out and not yet released.
    pub lent: bool,
    /// The status that the engine stored with the frame.
    pub status: RxStatus,
    /// The bytes in the slot's buffer; none while a packet has them.
    pub frame: Seq<u8>,
}

impl RxSlot {
    /// A slot that waits for the engine to fill it.
    pub open spec fn vacant() -> RxSlot {
        RxSlot {
            owner: Owner::Hardware,
            lent: false,
            status: RxStatus::spec_cleared(),
            frame: Seq::empty(),
        }
    }
}

impl View for RxDescriptor {
    type V = RxSlot;

    closed spec fn view(&self) -> RxSlot {
        RxSlot { owner: self.owner, lent: self.lent, status: self.status, frame: self.frame@ }
    }
}

/// What [`RxRing::drain`] took out of the ring.
#[derive(Debug, Clone, Copy, PartialEq, Eq, Structural)]
pub struct Drained {
    /// The number of frames.
    pub frames: usize,
    /// The number of their bytes, or `usize::MAX` where the number is
    /// larger than that.
    pub bytes: usize,
}

/// A received frame, handed out by [`RxRing::receive_next`]. It holds the
/// buffer of its descriptor until it is given to [`RxRing::release`].
#[derive(Debug)]
pub struct RxPacket {
    slot: usize,
    status: RxStatus,
    frame: Vec<u8>,
}

/// A packet as a value.
pub struct Packet {
    /// The slot that the frame was stored in.
    pub slot: int,
    /// The status that the engine stored with the frame.
    pub status: RxStatus,
    /// The bytes of the frame.
    pub frame: Seq<u8>,
}

impl View for RxPacket {
    type V = Packet;

    closed spec fn view(&self) -> Packet {
        Packet { slot: self.slot as int, status: self.status, frame: self.frame@ }
    }
}

impl RxPacket {
    /// The number of bytes in the frame.
    pub fn len(&self) -> (length: usize)
        ensures
            length == self@.frame.len(),
    {
        self.frame.len()
    }

    /// The bytes of the frame.
    pub fn data(&self) -> (bytes: &[u8])
        ensures
            bytes@ == self@.frame,
    {
        self.frame.as_slice()
    }

    /// Whether the engine flagged the frame with an error.
    pub fn has_error(&self) -> (flagged: bool)
        ensures
            flagged == self@.status.error,
    {
        self.status.error
    }

    /// The status that the engine stored with the frame.
    pub fn status(&self) -> (status: RxStatus)
        ensures
            status == self@.status,
    {
        self.status
    }

    /// The slot of the ring that the frame was stored in.
    pub fn slot(&self) -> (slot: usize)
        ensures
            slot == self@.slot,
    {
        self.slot
    }
}

/// A receive ring as a value: its slots, the driver's cursor, the engine's
/// position, the number of frames that wait between the two, and whether
/// the engine runs.
pub struct RxRingState {
    /// The slots, in ring order.
    pub slots: Seq<RxSlot>,
    /// The slot that the driver examines next.
    pub cursor: int,
    /// The slot that the engine fills next.
    pub engine: int,
    /// The number of frames that the engine has stored and the driver has
    /// not yet taken.
    pub ready: int,
    /// Whether the engine stores the frames that arrive.
    pub running: bool,
}

impl RxRingState {
    /// The number of slots.
    pub open spec fn capacity(&self) -> int {
        self.slots.len() as int
    }

    /// The slot that lies `steps` slots after the cursor, for up to
    /// `capacity` steps.
    pub open spec fn forward(&self, steps: int) -> int {
        if self.cursor + steps >= self.capacity() {
            self.cursor + steps - self.capacity()
        } else {
            self.cursor + steps
        }
    }

    /// How many steps slot `i` lies after the cursor.
    pub open spec fn ahead(&self, i: int) -> int {
        if i >= self.cursor {
            i - self.cursor
        } else {
            i - self.cursor + self.capacity()
        }
    }

    /// Whether slot `i` holds a frame that waits for the driver: it belongs
    /// to the driver and no packet is out for it.
    pub open spec fn waiting(&self, i: int) -> bool {
        self.slots[i].owner == Owner::Software && !self.slots[i].lent
    }

    /// The cursor is a slot of the ring, the engine's position lies `ready`
    /// slots after it, the slots between the two are exactly those in which
    /// a frame waits, and a slot that a packet is out for belongs to the
    /// driver.
    pub open spec fn wf(&self) -> bool {
        &&& if self.capacity() == 0 {
            self.cursor == 0 && self.engine == 0 && self.ready == 0
        } else {
            &&& 0 <= self.cursor < self.capacity()
            &&& 0 <= self.ready <= self.capacity()
            &&& self.engine == self.forward(self.ready)
        }
        &&& forall|i: int|
            0 <= i < self.capacity() ==> {
                &&& (#[trigger] self.slots[i]).lent ==> self.slots[i].owner == Owner::Software
                &&& self.waiting(i) <==> self.ahead(i) < self.ready
            }
    }

    /// A ring of `capacity` slots that all wait for the engine.
    pub open spec fn fresh(capacity: int) -> RxRingState {
        RxRingState {
            slots: Seq::new(capacity as nat, |i: int| RxSlot::vacant()),
            cursor: 0,
            engine: 0,
            ready: 0,
            running: capacity > 0,
        }
    }

    /// Whether the slot at the cursor holds a frame for the driver: it
    /// belongs to the driver and no packet is out for it.
    pub open spec fn frame_ready(&self) -> bool {
        self.capacity() > 0 && self.waiting(self.cursor)
    }

    /// Whether no slot holds a frame that the engine stored.
    pub open spec fn empty(&self) -> bool {
        forall|i: int| 0 <= i < self.capacity() ==> (#[trigger] self.slots[i]).owner == Owner::Hardware
    }

    /// The frames that wait for the driver, oldest first, as the packets
    /// that they will leave in.
    pub open spec fn queue(&self) -> Seq<Packet> {
        Seq::new(
            self.ready as nat,
            |k: int|
                Packet {
                    slot: self.forward(k),
                    status: self.slots[self.forward(k)].status,
                    frame: self.slots[self.forward(k)].frame,
                },
        )
    }

    /// One receive: where a frame is ready, it leaves as a packet and the
    /// cursor moves on; where none is, nothing changes.
    pub open spec fn receive(&self) -> (RxRingState, Option<Packet>) {
        if self.frame_ready() {
            let slot = self.slots[self.cursor];
            (
                RxRingState {
                    slots: self.slots.update(
                        self.cursor,
                        RxSlot { lent: true, frame: Seq::empty(), ..slot },
                    ),
                    cursor: next_index(self.cursor, self.capacity()),
                    ready: self.ready - 1,
                    ..*self
                },
                Some(Packet { slot: self.cursor, status: slot.status, frame: slot.frame }),
            )
        } else {
            (*self, None)
        }
    }

    /// Whether [`Self::release`] takes `packet` back: a packet is out for
    /// its slot.
    pub open spec fn releases(&self, packet: Packet) -> bool {
        0 <= packet.slot < self.capacity() && self.slots[packet.slot].lent
    }

    /// One release: the slot gets its buffer back and goes to the engine.
    /// A packet that is not out for a slot of this ring changes nothing.
    pub open spec fn release(&self, packet: Packet) -> RxRingState {
        if self.releases(packet) {
            RxRingState {
                slots: self.slots.update(
                    packet.slot,
                    RxSlot {
                        owner: Owner::Hardware,
                        lent: false,
                        status: RxStatus::spec_cleared(),
                        frame: packet.frame,
                    },
                ),
                ..*self
            }
        } else {
            *self
        }
    }

    /// Whether the engine can store a frame: it runs and owns the slot at
    /// its position.
    pub open spec fn accepts(&self) -> bool {
        self.running && self.capacity() > 0 && self.slots[self.engine].owner == Owner::Hardware
    }

    /// One arriving frame: where the engine can store it, the slot at its
    /// position takes it and goes to the driver, and the engine moves on.
    /// Where it cannot, the frame is lost and the engine halts.
    pub open spec fn deposit(&self, frame: Seq<u8>, status: RxStatus) -> RxRingState {
        if self.accepts() {
            RxRingState {
                slots: self.slots.update(
                    self.engine,
                    RxSlot { owner: Owner::Software, lent: false, status, frame },
                ),
                engine: next_index(self.engine, self.capacity()),
                ready: self.ready + 1,
                ..*self
            }
        } else {
            RxRingState { running: false, ..*self }
        }
    }

    /// The engine halts; the slots stay as they are.
    pub open spec fn halt(&self) -> RxRingState {
        RxRingState { running: false, ..*self }
    }

    /// One restart: the engine runs again if it owns the slot at its
    /// position.
    pub open spec fn resume(&self) -> RxRingState {
        RxRingState {
            running: self.capacity() > 0 && self.slots[self.engine].owner == Owner::Hardware,
            ..*self
        }
    }

    /// The ring after `n` receives in a row.
    pub open spec fn after_receives(&self, n: nat) -> RxRingState
        decreases n,
    {
        if n == 0 {
            *self
        } else {
            self.receive().0.after_receives((n - 1) as nat)
        }
    }

    /// What the `n` receives of [`Self::after_receives`] return, in order.
    pub open spec fn received(&self, n: nat) -> Seq<Option<Packet>>
        decreases n,
    {
        if n == 0 {
            Seq::empty()
        } else {
            seq![self.receive().1] + self.receive().0.received((n - 1) as nat)
        }
    }

    /// The number of frames that a drain with the given limit takes: the
    /// frames that are ready one after the other from the cursor on, but no
    /// more than `limit`.
    pub open spec fn drain_count(&self, limit: nat) -> nat
        decreases limit,
    {
        if limit == 0 || !self.frame_ready() {
            0
        } else {
            1 + self.receive().0.release(self.receive().1.unwrap()).drain_count((limit - 1) as nat)
        }
    }

    /// The ring after a drain with the given limit: each frame that it took
    /// was received and released at once.
    pub open spec fn drained(&self, limit: nat) -> RxRingState
        decreases limit,
    {
        if limit == 0 || !self.frame_ready() {
            *self
        } else {
            self.receive().0.release(self.receive().1.unwrap()).drained((limit - 1) as nat)
        }
    }

    /// The bytes of the frames that a drain with the given limit takes,
    /// frame after frame.
    pub open spec fn drained_bytes(&self, limit: nat) -> nat
        decreases limit,
    {
        if limit == 0 || !self.frame_ready() {
            0
        } else {
            self.receive().1.unwrap().frame.len() + self.receive().0.release(
                self.receive().1.unwrap(),
            ).drained_bytes((limit - 1) as nat)
        }
    }

    /// A frame is ready at the cursor exactly when some frame waits.
    pub proof fn lemma_ready_at_cursor(self)
        requires
            self.wf(),
        ensures
            self.frame_ready() <==> self.ready > 0,
    {
        if self.capacity() > 0 {
            assert(self.waiting(self.cursor) <==> self.ahead(self.cursor) < self.ready) by {
                let _ = self.slots[self.cursor];
            }
        }
    }

    /// The engine can store a frame only while a slot is free of frames.
    pub proof fn lemma_room_at_engine(self)
        requires
            self.wf(),
            self.accepts(),
        ensures
            self.ready < self.capacity(),
            0 <= self.engine < self.capacity(),
            self.ahead(self.engine) == self.ready,
    {
        if self.ready == self.capacity() {
            assert(self.engine == self.cursor);
            assert(self.waiting(self.cursor) <==> self.ahead(self.cursor) < self.ready) by {
                let _ = self.slots[self.cursor];
            }
        }
    }

    /// A receive keeps the ring in order and the number of its slots.
    pub proof fn lemma_receive_wf(self)
        requires
            self.wf(),
        ensures
            self.receive().0.wf(),
            self.receive().0.capacity() == self.capacity(),
            self.frame_ready() ==> self.receive().0.releases(self.receive().1.unwrap()),
    {
        self.lemma_ready_at_cursor();
        let after = self.receive().0;
        if self.frame_ready() {
            assert forall|i: int| 0 <= i < after.capacity() implies {
                &&& (#[trigger] after.slots[i]).lent ==> after.slots[i].owner == Owner::Software
                &&& after.waiting(i) <==> after.ahead(i) < after.ready
            } by {
                let _ = self.slots[i];
                assert(self.waiting(i) <==> self.ahead(i) < self.ready);
            }
        }
    }

    /// A release keeps the ring in order and the number of its slots.
    pub proof fn lemma_release_wf(self, packet: Packet)
        requires
            self.wf(),
        ensures
            self.release(packet).wf(),
            self.release(packet).capacity() == self.capacity(),
    {
        let after = self.release(packet);
        if self.releases(packet) {
            assert forall|i: int| 0 <= i < after.capacity() implies {
                &&& (#[trigger] after.slots[i]).lent ==> after.slots[i].owner == Owner::Software
                &&& after.waiting(i) <==> after.ahead(i) < after.ready
            } by {
                let _ = self.slots[i];
                assert(self.waiting(i) <==> self.ahead(i) < self.ready);
            }
        }
    }

    /// An arriving frame keeps the ring in order and the number of its
    /// slots, whether it is stored or lost; so do a halt and a restart.
    pub proof fn lemma_deposit_wf(self, frame: Seq<u8>, status: RxStatus)
        requires
            self.wf(),
        ensures
            self.deposit(frame, status).wf(),
            self.deposit(frame, status).capacity() == self.capacity(),
            self.halt().wf(),
            self.halt().capacity() == self.capacity(),
            self.resume().wf(),
            self.resume().capacity() == self.capacity(),
    {
        let after = self.deposit(frame, status);
        if self.accepts() {
            self.lemma_room_at_engine();
            assert forall|i: int| 0 <= i < after.capacity() implies {
                &&& (#[trigger] after.slots[i]).lent ==> after.slots[i].owner == Owner::Software
                &&& after.waiting(i) <==> after.ahead(i) < after.ready
            } by {
                let _ = self.slots[i];
                assert(self.waiting(i) <==> self.ahead(i) < self.ready);
            }
        }
    }

    /// First in, first out: a frame that the engine stores goes to the end
    /// of the queue, with the slot it was stored in and the status and bytes
    /// it came with.
    pub proof fn lemma_deposit_enqueues(self, frame: Seq<u8>, status: RxStatus)
        requires
            self.wf(),
            self.accepts(),
        ensures
            self.deposit(frame, status).queue() == self.queue().push(
                Packet { slot: self.engine, status, frame },
            ),
    {
        self.lemma_room_at_engine();
        let after = self.deposit(frame, status);
        let longer = self.queue().push(Packet { slot: self.engine, status, frame });
        assert(after.queue().len() == longer.len());
        assert forall|k: int| 0 <= k < longer.len() implies after.queue()[k] == longer[k] by {
            if k < self.ready {
                assert(self.forward(k) != self.engine);
            }
        }
        assert(after.queue() =~= longer);
    }

    /// First in, first out: a receive hands out the frame at the head of
    /// the queue and leaves the frames behind it in their order; with an
    /// empty queue it hands out nothing.
    pub proof fn lemma_receive_dequeues(self)
        requires
            self.wf(),
        ensures
            self.queue().len() == 0 ==> self.receive().1 is None && self.receive().0 == self,
            self.queue().len() > 0 ==> self.receive().1 == Some(self.queue()[0])
                && self.receive().0.queue() == self.queue().subrange(
                1,
                self.queue().len() as int,
            ),
    {
        self.lemma_ready_at_cursor();
        if self.ready > 0 {
            let after = self.receive().0;
            let rest = self.queue().subrange(1, self.queue().len() as int);
            assert(after.queue().len() == rest.len());
            assert forall|k: int| 0 <= k < rest.len() implies after.queue()[k] == rest[k] by {
                assert(after.forward(k) == self.forward(k + 1));
                assert(self.forward(k + 1) != self.cursor);
            }
            assert(after.queue() =~= rest);
        }
    }

    /// A release leaves the queue as it is: the frames that wait are not
    /// touched when a packet comes back.
    pub proof fn lemma_release_keeps_queue(self, packet: Packet)
        requires
            self.wf(),
        ensures
            self.release(packet).queue() == self.queue(),
    {
        if self.releases(packet) {
            let after = self.release(packet);
            assert forall|k: int| 0 <= k < self.ready implies after.queue()[k] == self.queue()[k] by {
                let i = self.forward(k);
                let _ = self.slots[i];
                assert(self.waiting(i) <==> self.ahead(i) < self.ready);
                assert(i != packet.slot);
            }
            assert(after.queue() =~= self.queue());
        }
    }

    /// A receive keeps the ring in order, and so does the release of the
    /// packet that it handed out, which is always taken back.
    pub proof fn lemma_receive_release_wf(self)
        requires
            self.wf(),
        ensures
            self.receive().0.wf(),
            self.receive().0.capacity() == self.capacity(),
            self.frame_ready() ==> self.receive().0.releases(self.receive().1.unwrap())
                && self.receive().0.release(self.receive().1.unwrap()).wf(),
    {
        self.lemma_receive_wf();
        if self.frame_ready() {
            self.receive().0.lemma_release_wf(self.receive().1.unwrap());
        }
    }

    /// A drain takes the frames at the head of the queue, as many as wait
    /// but no more than its limit, and leaves the frames behind them in
    /// their order.
    pub proof fn lemma_drain_takes_head(self, limit: nat)
        requires
            self.wf(),
        ensures
            self.drained(limit).wf(),
            self.drain_count(limit) == if limit <= self.ready {
                limit as int
            } else {
                self.ready
            },
            self.drained(limit).queue() == self.queue().subrange(
                self.drain_count(limit) as int,
                self.queue().len() as int,
            ),
        decreases limit,
    {
        self.lemma_ready_at_cursor();
        if limit > 0 && self.frame_ready() {
            let packet = self.receive().1.unwrap();
            let next = self.receive().0.release(packet);
            self.lemma_receive_release_wf();
            self.lemma_receive_dequeues();
            self.receive().0.lemma_release_keeps_queue(packet);
            next.lemma_drain_takes_head((limit - 1) as nat);
            let taken = next.drain_count((limit - 1) as nat) as int;
            assert(self.queue().subrange(1, self.queue().len() as int).subrange(
                taken,
                self.queue().len() - 1,
            ) =~= self.queue().subrange(taken + 1, self.queue().len() as int));
        } else {
            assert(self.queue().subrange(0, self.queue().len() as int) =~= self.queue());
        }
    }

    /// While the slot at the cursor holds no frame, and so on every ring
    /// that the engine has stored nothing in, any number of receives return
    /// "empty" each time and leave the ring, cursor included, as it was.
    pub proof fn lemma_idle_receives(self, n: nat)
        requires
            !self.frame_ready(),
        ensures
            self.after_receives(n) == self,
            self.received(n).len() == n,
            forall|k: int| 0 <= k < n ==> self.received(n)[k] == None::<Packet>,
        decreases n,
    {
        if n > 0 {
            self.lemma_idle_receives((n - 1) as nat);
        }
    }

    /// A ring in which no slot holds a frame has none ready at the cursor.
    pub proof fn lemma_empty_not_ready(self)
        requires
            self.wf(),
            self.empty(),
        ensures
            !self.frame_ready(),
            self.ready == 0,
    {
        if self.capacity() > 0 {
            assert(self.slots[self.cursor].owner == Owner::Hardware);
            self.lemma_ready_at_cursor();
        }
    }
}

/// The receive ring of the driver: a fixed number of descriptors, each with
/// a buffer, and the two positions in it.
pub struct RxRing {
    entries: Vec<RxDescriptor>,
    cursor: usize,
    engine: usize,
    ready: usize,
    running: bool,
}

impl View for RxRing {
    type V = RxRingState;

    closed spec fn view(&self) -> RxRingState {
        RxRingState {
            slots: self.entries@.map_values(|entry: RxDescriptor| entry@),
            cursor: self.cursor as int,
            engine: self.engine as int,
            ready: self.ready as int,
            running: self.running,
        }
    }
}

impl RxRing {
    /// Create a ring of `capacity` descriptors. All of them wait for the
    /// engine, and both positions are at the first of them.
    pub fn new(capacity: usize) -> (ring: Self)
        ensures
            ring@ == RxRingState::fresh(capacity as int),
            ring@.wf(),
            ring@.empty(),
    {
        let mut entries: Vec<RxDescriptor> = Vec::new();
        let mut i: usize = 0;
        while i < capacity
            invariant
                i <= capacity,
                entries@.len() == i,
                forall|k: int| 0 <= k < i ==> (#[trigger] entries@[k])@ == RxSlot::vacant(),
            decreases capacity - i,
        {
            entries.push(
                RxDescriptor {
                    owner: Owner::Hardware,
                    lent: false,
                    status: RxStatus::cleared(),
                    frame: Vec::new(),
                },
            );
            i += 1;
        }
        let ring = RxRing { entries, cursor: 0, engine: 0, ready: 0, running: capacity > 0 };
        assert(ring@.slots =~= RxRingState::fresh(capacity as int).slots);
        ring
    }

    /// The number of descriptors in the ring.
    pub fn capacity(&self) -> (capacity: usize)
        ensures
            capacity == self@.capacity(),
    {
        self.entries.len()
    }

    /// The slot that the driver examines next.
    pub fn cursor(&self) -> (cursor: usize)
        ensures
            cursor == self@.cursor,
    {
        self.cursor
    }

    /// The slot that the engine fills next.
    pub fn engine(&self) -> (engine: usize)
        ensures
            engine == self@.engine,
    {
        self.engine
    }

    /// The side that the descriptor in `slot` belongs to, or `None` where
    /// the ring has no such slot.
    pub fn owner(&self, slot: usize) -> (owner: Option<Owner>)
        ensures
            owner == if slot < self@.capacity() {
                Some(self@.slots[slot as int].owner)
            } else {
                None
            },
    {
        if slot < self.entries.len() {
            Some(self.entries[slot].owner)
        } else {
            None
        }
    }

    /// Take the next received frame out of the ring.
    ///
    /// Where the descriptor at the cursor still belongs to the engine, no
    /// frame is there: the result is `None` and the ring stays as it is. So
    /// it is where a packet for that descriptor is still out. Otherwise the
    /// frame leaves as a packet, with the status that the engine gave it,
    /// and the cursor moves on. A frame with an error flag is handed out
    /// like any other.
    pub fn receive_next(&mut self) -> (packet: Option<RxPacket>)
        requires
            old(self)@.wf(),
        ensures
            final(self)@.wf(),
            final(self)@ == old(self)@.receive().0,
            packet matches Some(p) ==> old(self)@.receive().1 == Some(p@),
            packet is None ==> old(self)@.receive().1 is None,
    {
        let capacity = self.entries.len();
        if capacity == 0 {
            return None;
        }
        let cursor = self.cursor;
        let ready = match self.entries[cursor].owner {
            Owner::Hardware => false,
            Owner::Software => !self.entries[cursor].lent,
        };
        if !ready {
            return None;
        }
        proof {
            old(self)@.lemma_ready_at_cursor();
            old(self)@.lemma_receive_wf();
        }
        let mut frame: Vec<u8> = Vec::new();
        core::mem::swap(&mut self.entries[cursor].frame, &mut frame);
        self.entries[cursor].lent = true;
        let status = self.entries[cursor].status;
        self.cursor = advance(cursor, capacity);
        self.ready = self.ready - 1;
        assert(self@.slots =~= old(self)@.receive().0.slots);
        Some(RxPacket { slot: cursor, status, frame })
    }

    /// Give the buffer of a packet back to the engine: the descriptor that
    /// the packet came from can take a frame again.
    ///
    /// Returns whether the packet was taken back. It is not where no packet
    /// is out for its slot, as with a packet of another ring; the ring then
    /// stays as it is.
    pub fn release(&mut self, packet: RxPacket) -> (released: bool)
        requires
            old(self)@.wf(),
        ensures
            final(self)@.wf(),
            final(self)@ == old(self)@.release(packet@),
            released == old(self)@.releases(packet@),
    {
        let RxPacket { slot, status: _, frame } = packet;
        if slot >= self.entries.len() {
            return false;
        }
        if !self.entries[slot].lent {
            return false;
        }
        proof {
            old(self)@.lemma_release_wf(packet@);
        }
        let mut frame = frame;
        core::mem::swap(&mut self.entries[slot].frame, &mut frame);
        self.entries[slot].owner = Owner::Hardware;
        self.entries[slot].lent = false;
        self.entries[slot].status = RxStatus::cleared();
        assert(self@.slots =~= old(self)@.release(packet@).slots);
        true
    }

    /// Whether the engine stores the frames that arrive. It halts when a
    /// frame arrives and the descriptor at its position is not its own, and
    /// stays halted until [`Self::resume`] starts it again.
    pub fn is_running(&self) -> (running: bool)
        ensures
            running == self@.running,
    {
        self.running
    }

    /// Start the engine again after it has halted. It runs only if the
    /// descriptor at its position is its own. Returns whether it runs.
    pub fn resume(&mut self) -> (running: bool)
        requires
            old(self)@.wf(),
        ensures
            final(self)@.wf(),
            final(self)@ == old(self)@.resume(),
            running == final(self)@.running,
    {
        let running = if self.entries.len() == 0 {
            false
        } else {
            match self.entries[self.engine].owner {
                Owner::Hardware => true,
                Owner::Software => false,
            }
        };
        self.running = running;
        assert(self@.slots =~= old(self)@.slots);
        running
    }

    /// The engine's report that it has halted: it found no descriptor of
    /// its own for a frame, which is lost.
    pub fn hardware_halt(&mut self)
        requires
            old(self)@.wf(),
        ensures
            final(self)@.wf(),
            final(self)@ == old(self)@.halt(),
    {
        self.running = false;
        assert(self@.slots =~= old(self)@.slots);
    }

    /// The engine's half of a reception: a frame has arrived.
    ///
    /// Where the engine runs and owns the descriptor at its position, the
    /// frame goes into that descriptor, which becomes the driver's, and the
    /// engine moves on. Otherwise the frame comes back in the error, the
    /// ring keeps its slots, and the engine halts.
    pub fn hardware_deposit(&mut self, frame: Vec<u8>, status: RxStatus) -> (stored: Result<
        (),
        Vec<u8>,
    >)
        requires
            old(self)@.wf(),
        ensures
            final(self)@.wf(),
            final(self)@ == old(self)@.deposit(frame@, status),
            stored is Ok <==> old(self)@.accepts(),
            stored matches Err(lost) ==> lost@ == frame@,
    {
        let capacity = self.entries.len();
        let accepts = self.running && capacity > 0 && match self.entries[self.engine].owner {
            Owner::Hardware => true,
            Owner::Software => false,
        };
        if !accepts {
            self.running = false;
            assert(self@.slots =~= old(self)@.slots);
            return Err(frame);
        }
        let engine = self.engine;
        let ghost bytes = frame@;
        proof {
            old(self)@.lemma_room_at_engine();
            old(self)@.lemma_deposit_wf(bytes, status);
        }
        let mut frame = frame;
        core::mem::swap(&mut self.entries[engine].frame, &mut frame);
        self.entries[engine].owner = Owner::Software;
        self.entries[engine].status = status;
        self.engine = advance(engine, capacity);
        self.ready = self.ready + 1;
        assert(self@.slots =~= old(self)@.deposit(bytes, status).slots);
        Ok(())
    }

    /// Take up to `limit` frames out of the ring and release each of them at
    /// once, so that one pass over the receive ring cannot keep the caller
    /// from its other work for longer than `limit` frames.
    ///
    /// Returns the number of frames taken and the number of their bytes;
    /// the number of bytes stops at `usize::MAX`.
    pub fn drain(&mut self, limit: usize) -> (taken: Drained)
        requires
            old(self)@.wf(),
        ensures
            final(self)@.wf(),
            final(self)@ == old(self)@.drained(limit as nat),
            taken.frames == old(self)@.drain_count(limit as nat),
            taken.frames == if limit <= old(self)@.ready {
                limit as int
            } else {
                old(self)@.ready
            },
            taken.bytes == if old(self)@.drained_bytes(limit as nat) <= usize::MAX {
                old(self)@.drained_bytes(limit as nat)
            } else {
                usize::MAX as nat
            },
    {
        proof {
            old(self)@.lemma_drain_takes_head(limit as nat);
        }
        let mut frames: usize = 0;
        let mut bytes: usize = 0;
        let ghost mut total: nat = 0;
        while frames < limit
            invariant
                self@.wf(),
                frames <= limit,
                old(self)@.drained(limit as nat) == self@.drained((limit - frames) as nat),
                old(self)@.drain_count(limit as nat) == frames + self@.drain_count(
                    (limit - frames) as nat,
                ),
                old(self)@.drained_bytes(limit as nat) == total + self@.drained_bytes(
                    (limit - frames) as nat,
                ),
                bytes == if total <= usize::MAX {
                    total
                } else {
                    usize::MAX as nat
                },
            ensures
                self@.drained((limit - frames) as nat) == self@,
                self@.drain_count((limit - frames) as nat) == 0,
                self@.drained_bytes((limit - frames) as nat) == 0,
            decreases limit - frames,
        {
            proof {
                self@.lemma_receive_release_wf();
            }
            let packet = match self.receive_next() {
                Some(packet) => packet,
                None => {
                    break;
                },
            };
            let length = packet.len();
            bytes = if length > usize::MAX - bytes {
                usize::MAX
            } else {
                bytes + length
            };
            proof {
                total = total + length as nat;
            }
            let released = self.release(packet);
            frames += 1;
        }
        Drained { frames, bytes }
    }
}

} // verus!
