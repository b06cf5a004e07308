//! The DMA half of the peripheral: descriptor rings and the driver on top
//! of them.
//!
//! The engine and the driver share nothing but the descriptors, and each
//! descriptor is with one of them at a time. The functions whose names begin
//! with `hardware_` are the engine's half of that protocol. A driver on the
//! peripheral calls them when it sees that the engine has moved; a test
//! calls them to play the engine.

pub mod desc;
pub mod rx;
pub mod tx;

pub use desc::{
    buffer_size_word, owner_of, rx_control_word, rx_length_of, tx_command, with_owner, Owner,
    BUFFER_SIZE_MAX, RX_LENGTH_MAX,
};
pub use rx::{Drained, RxPacket, RxRing, RxRingState, RxStatus};
pub use tx::{TxError, TxRing, TxRingState};

use vstd::prelude::*;

verus! {

/// The status bits with which the engine asks for an interrupt. They stay
/// set, and the interrupt line active, until the driver acknowledges them.
#[derive(Debug, Clone, Copy, PartialEq, Eq, Structural)]
pub struct InterruptStatus {
    /// A frame was stored in the receive ring.
    pub receive: bool,
    /// A frame of the transmit ring was sent.
    pub transmit: bool,
    /// A frame was lost because the receive engine had no descriptor for it.
    pub error: bool,
}

impl InterruptStatus {
    /// No status bit.
    pub open spec fn spec_none() -> InterruptStatus {
        InterruptStatus { receive: false, transmit: false, error: false }
    }

    /// Whether some status bit is set.
    pub open spec fn spec_any(&self) -> bool {
        self.receive || self.transmit || self.error
    }

    /// No status bit.
    #[verifier::when_used_as_spec(spec_none)]
    pub fn none() -> (status: Self)
        ensures
            status == Self::spec_none(),
    {
        InterruptStatus { receive: false, transmit: false, error: false }
    }

    /// Whether some status bit is set.
    #[verifier::when_used_as_spec(spec_any)]
    pub fn any(&self) -> (some: bool)
        ensures
            some == self.spec_any(),
    {
        self.receive || self.transmit || self.error
    }
}

/// The flag through which the interrupt handler tells the poll loop that
/// something has happened.
///
/// There is one flag for the whole program. It is made at start-up, and the
/// handler and the loop each touch it only while interrupts are masked.
#[derive(Debug)]
pub struct EventFlag {
    pending: bool,
}

impl View for EventFlag {
    type V = bool;

    /// Whether an interrupt has been handled since the flag was last
    /// cleared.
    closed spec fn view(&self) -> bool {
        self.pending
    }
}

impl EventFlag {
    /// A flag that is not set.
    pub fn new() -> (flag: Self)
        ensures
            !flag@,
    {
        EventFlag { pending: false }
    }

    /// Whether an interrupt has been handled since [`Self::clear`] was last
    /// called. The poll loop may only go to sleep while this is `false`.
    pub fn is_pending(&self) -> (pending: bool)
        ensures
            pending == self@,
    {
        self.pending
    }

    /// Clear the flag. The poll loop does so before it looks at the rings,
    /// so that an interrupt that comes while it works is not missed.
    pub fn clear(&mut self)
        ensures
            !final(self)@,
    {
        self.pending = false;
    }
}

/// What one pass over the rings did.
#[derive(Debug, Clone, Copy, PartialEq, Eq, Structural)]
pub struct Polled {
    /// The frames that were taken out of the receive ring.
    pub received: Drained,
    /// The number of frames that were handed to the engine.
    pub sent: usize,
}

/// The driver as a value.
pub struct DmaState {
    /// The receive ring.
    pub rx: RxRingState,
    /// The transmit ring.
    pub tx: TxRingState,
    /// Whether the engine may interrupt.
    pub interrupt_enabled: bool,
}

impl DmaState {
    /// Both rings are in order.
    pub open spec fn wf(&self) -> bool {
        self.rx.wf() && self.tx.wf()
    }
}

/// The driver of the DMA engine: the two rings and the interrupt enable.
pub struct EthernetDMA {
    rx: RxRing,
    tx: TxRing,
    interrupt_enabled: bool,
}

impl View for EthernetDMA {
    type V = DmaState;

    closed spec fn view(&self) -> DmaState {
        DmaState {
            rx: self.rx@,
            tx: self.tx@,
            interrupt_enabled: self.interrupt_enabled,
        }
    }
}

impl EthernetDMA {
    /// Create a driver with a receive ring and a transmit ring of the given
    /// capacities. The receive descriptors are all with the engine, the
    /// transmit descriptors all with the driver; interrupts are disabled.
    pub fn new(rx_capacity: usize, tx_capacity: usize) -> (dma: Self)
        ensures
            dma@.wf(),
            dma@ == (DmaState {
                rx: RxRingState::fresh(rx_capacity as int),
                tx: TxRingState::fresh(tx_capacity as int),
                interrupt_enabled: false,
            }),
    {
        EthernetDMA {
            rx: RxRing::new(rx_capacity),
            tx: TxRing::new(tx_capacity),
            interrupt_enabled: false,
        }
    }

    /// The receive ring.
    pub fn rx(&self) -> (ring: &RxRing)
        ensures
            ring@ == self@.rx,
    {
        &self.rx
    }

    /// The transmit ring.
    pub fn tx(&self) -> (ring: &TxRing)
        ensures
            ring@ == self@.tx,
    {
        &self.tx
    }

    /// Take the next received frame out of the receive ring, or `None`
    /// where none is there. See [`RxRing::receive_next`].
    pub fn receive_next(&mut self) -> (packet: Option<RxPacket>)
        requires
            old(self)@.wf(),
        ensures
            final(self)@.wf(),
            final(self)@ == (DmaState { rx: old(self)@.rx.receive().0, ..old(self)@ }),
            packet matches Some(p) ==> old(self)@.rx.receive().1 == Some(p@),
            packet is None ==> old(self)@.rx.receive().1 is None,
    {
        self.rx.receive_next()
    }

    /// Give the buffer of a packet back to the engine. See
    /// [`RxRing::release`].
    pub fn release(&mut self, packet: RxPacket) -> (released: bool)
        requires
            old(self)@.wf(),
        ensures
            final(self)@.wf(),
            final(self)@ == (DmaState { rx: old(self)@.rx.release(packet@), ..old(self)@ }),
            released == old(self)@.rx.releases(packet@),
    {
        self.rx.release(packet)
    }

    /// Take up to `limit` frames out of the receive ring and release each
    /// at once; returns how many frames and how many bytes they were. See
    /// [`RxRing::drain`].
    pub fn drain(&mut self, limit: usize) -> (taken: Drained)
        requires
            old(self)@.wf(),
        ensures
            final(self)@.wf(),
            final(self)@ == (DmaState { rx: old(self)@.rx.drained(limit as nat), ..old(self)@ }),
            taken.frames == old(self)@.rx.drain_count(limit as nat),
            taken.frames == if limit <= old(self)@.rx.ready {
                limit as int
            } else {
                old(self)@.rx.ready
            },
            taken.bytes == if old(self)@.rx.drained_bytes(limit as nat) <= usize::MAX {
                old(self)@.rx.drained_bytes(limit as nat)
            } else {
                usize::MAX as nat
            },
    {
        self.rx.drain(limit)
    }

    /// Hand a frame to the engine, or refuse it with
    /// [`TxError::WouldBlock`] while every transmit descriptor is in
    /// flight. See [`TxRing::transmit`].
    pub fn transmit(&mut self, frame: &[u8]) -> (sent: Result<(), TxError>)
        requires
            old(self)@.wf(),
        ensures
            final(self)@.wf(),
            final(self)@ == (DmaState { tx: old(self)@.tx.transmit(frame@), ..old(self)@ }),
            sent is Ok <==> old(self)@.tx.accepts(),
            sent matches Err(error) ==> error == TxError::WouldBlock,
    {
        self.tx.transmit(frame)
    }

    /// One pass of the poll loop over the rings: first take up to
    /// `rx_budget` frames out of the receive ring, releasing each at once,
    /// then, where there is a frame to send, hand copies of it to the engine
    /// until every transmit descriptor is in flight.
    ///
    /// The receive side comes first and is bounded, so that a busy receive
    /// ring cannot keep the transmit ring from being served.
    pub fn poll(&mut self, rx_budget: usize, frame: Option<&[u8]>) -> (polled: Polled)
        requires
            old(self)@.wf(),
        ensures
            final(self)@.wf(),
            polled.received.frames == if rx_budget <= old(self)@.rx.ready {
                rx_budget as int
            } else {
                old(self)@.rx.ready
            },
            polled.received.frames == old(self)@.rx.drain_count(rx_budget as nat),
            polled.received.bytes == if old(self)@.rx.drained_bytes(rx_budget as nat) <= usize::MAX {
                old(self)@.rx.drained_bytes(rx_budget as nat)
            } else {
                usize::MAX as nat
            },
            polled.sent == match frame {
                Some(_) => old(self)@.tx.room(),
                None => 0,
            },
            final(self)@ == (DmaState {
                rx: old(self)@.rx.drained(rx_budget as nat),
                tx: match frame {
                    Some(bytes) => old(self)@.tx.after_copies(bytes@, polled.sent as nat),
                    None => old(self)@.tx,
                },
                ..old(self)@
            }),
            frame is Some ==> !final(self)@.tx.accepts(),
    {
        let received = self.rx.drain(rx_budget);
        let sent = match frame {
            Some(bytes) => self.tx.fill(bytes),
            None => 0,
        };
        Polled { received, sent }
    }

    /// Whether the receive engine runs. Once it has halted for want of a
    /// descriptor it stays halted until [`Self::restart_rx`] is called.
    pub fn rx_is_running(&self) -> (running: bool)
        ensures
            running == self@.rx.running,
    {
        self.rx.is_running()
    }

    /// Start the receive engine again after it has halted. Returns whether
    /// it runs, which it does only if the descriptor at its position is its
    /// own.
    pub fn restart_rx(&mut self) -> (running: bool)
        requires
            old(self)@.wf(),
        ensures
            final(self)@.wf(),
            final(self)@ == (DmaState { rx: old(self)@.rx.resume(), ..old(self)@ }),
            running == final(self)@.rx.running,
    {
        self.rx.resume()
    }

    /// Let the engine interrupt when it has stored or sent a frame or lost
    /// one.
    pub fn enable_interrupt(&mut self)
        ensures
            final(self)@ == (DmaState { interrupt_enabled: true, ..old(self)@ }),
    {
        self.interrupt_enabled = true;
    }

    /// Whether the engine may interrupt.
    pub fn interrupt_enabled(&self) -> (enabled: bool)
        ensures
            enabled == self@.interrupt_enabled,
    {
        self.interrupt_enabled
    }

    /// The engine's report that the receive engine has halted. See
    /// [`RxRing::hardware_halt`].
    pub fn hardware_halt(&mut self)
        requires
            old(self)@.wf(),
        ensures
            final(self)@.wf(),
            final(self)@ == (DmaState { rx: old(self)@.rx.halt(), ..old(self)@ }),
    {
        self.rx.hardware_halt()
    }

    /// The engine's half of a reception: a frame has arrived. See
    /// [`RxRing::hardware_deposit`].
    pub fn hardware_receive(&mut self, frame: Vec<u8>, status: RxStatus) -> (stored: Result<
        (),
        Vec<u8>,
    >)
        requires
            old(self)@.wf(),
        ensures
            final(self)@.wf(),
            final(self)@ == (DmaState { rx: old(self)@.rx.deposit(frame@, status), ..old(self)@ }),
            stored is Ok <==> old(self)@.rx.accepts(),
            stored matches Err(lost) ==> lost@ == frame@,
    {
        self.rx.hardware_deposit(frame, status)
    }

    /// The engine's half of a transmission: the oldest frame in flight is
    /// out. See [`TxRing::hardware_complete`].
    pub fn hardware_transmit(&mut self) -> (frame: Option<Vec<u8>>)
        requires
            old(self)@.wf(),
        ensures
            final(self)@.wf(),
            final(self)@ == (DmaState { tx: old(self)@.tx.complete(), ..old(self)@ }),
            frame matches Some(bytes) ==> old(self)@.tx.sending() == Some(bytes@),
            frame is None ==> old(self)@.tx.sending() is None,
    {
        self.tx.hardware_complete()
    }
}

/// Handle an interrupt of the engine, given the status bits that it has set:
/// mark that something has happened, and name the bits to acknowledge.
///
/// The bits to acknowledge are the bits that are set in `status`, all of
/// them and no other: acknowledged together they are acknowledged once, and
/// a bit that the engine sets afterwards is not lost.
pub fn eth_interrupt_handler(flag: &mut EventFlag, status: InterruptStatus) -> (acknowledged:
    InterruptStatus)
    ensures
        final(flag)@,
        acknowledged == status,
{
    flag.pending = true;
    status
}

} // verus!
