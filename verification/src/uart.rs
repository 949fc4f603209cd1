//! A simulated UART: a receive FIFO fed from the wire, a transmitter with a
//! bounded number of free places, and the receive-interrupt enable bit.
//!
//! The simulation offers the same non-blocking `read` / `write` pair as the
//! hardware driver, so the interrupt handler can be run against it and every
//! transmit attempt can be inspected afterwards.

use std::collections::VecDeque;
use vstd::prelude::*;

verus! {

/// Why the receiver flagged a character instead of delivering it.
#[derive(Clone, Copy, Debug, PartialEq, Eq, Structural)]
pub enum LineError {
    /// The receive FIFO overflowed.
    Overrun,
    /// A break condition was seen on the line.
    Break,
    /// The parity bit did not match the configured parity.
    Parity,
    /// The character had no valid stop bit.
    Framing,
}

/// One entry of the receive FIFO.
#[derive(Clone, Copy, Debug, PartialEq, Eq, Structural)]
pub enum Arrival {
    /// A character that was received intact.
    Byte(u8),
    /// A character that the receiver flagged; its data is discarded on read.
    Damaged(LineError),
}

/// Why a non-blocking read delivered no byte.
#[derive(Clone, Copy, Debug, PartialEq, Eq, Structural)]
pub enum ReadFailure {
    /// The receive FIFO is empty.
    WouldBlock,
    /// The oldest entry was flagged; it has been removed from the FIFO.
    Line(LineError),
}

/// The transmit FIFO is full: the byte was not accepted.
#[derive(Clone, Copy, Debug, PartialEq, Eq, Structural)]
pub struct WouldBlock;

/// The mathematical state of a [`SimUart`].
#[verifier::ext_equal]
pub struct UartState {
    /// The receive FIFO, oldest entry first.
    pub rx: Seq<Arrival>,
    /// Every byte handed to `write`, accepted or not, in call order.
    pub offered: Seq<u8>,
    /// The bytes the transmitter accepted, in the order they go out.
    pub sent: Seq<u8>,
    /// How many more bytes the transmit FIFO accepts before it is full.
    pub room: nat,
    /// Whether the receive-interrupt condition is enabled.
    pub rx_interrupt: bool,
}

/// What a non-blocking read returns in state `s`, and the state it leaves.
///
/// An empty FIFO gives `WouldBlock` and is left alone; otherwise the oldest
/// entry is removed: an intact one is delivered, a flagged one gives its error.
pub open spec fn read_outcome(s: UartState) -> (Result<u8, ReadFailure>, UartState) {
    if s.rx.len() == 0 {
        (Err(ReadFailure::WouldBlock), s)
    } else {
        let rest = UartState { rx: s.rx.skip(1), ..s };
        match s.rx[0] {
            Arrival::Byte(b) => (Ok(b), rest),
            Arrival::Damaged(e) => (Err(ReadFailure::Line(e)), rest),
        }
    }
}

/// What a non-blocking write of `byte` returns in state `s`, and the state it
/// leaves.
///
/// The attempt is always recorded; the byte goes out only if there is room.
pub open spec fn write_outcome(s: UartState, byte: u8) -> (Result<(), WouldBlock>, UartState) {
    if s.room > 0 {
        (
            Ok(()),
            UartState {
                offered: s.offered.push(byte),
                sent: s.sent.push(byte),
                room: (s.room - 1) as nat,
                ..s
            },
        )
    } else {
        (Err(WouldBlock), UartState { offered: s.offered.push(byte), ..s })
    }
}

/// A simulated UART peripheral.
pub struct SimUart {
    rx: VecDeque<Arrival>,
    offered: Vec<u8>,
    sent: Vec<u8>,
    room: usize,
    rx_interrupt: bool,
}

impl View for SimUart {
    type V = UartState;

    closed spec fn view(&self) -> UartState {
        UartState {
            rx: self.rx@,
            offered: self.offered@,
            sent: self.sent@,
            room: self.room as nat,
            rx_interrupt: self.rx_interrupt,
        }
    }
}

impl SimUart {
    /// An enabled UART with empty FIFOs, `room` free transmit places and the
    /// receive interrupt disabled.
    pub fn new(room: usize) -> (uart: SimUart)
        ensures
            uart@ == (UartState {
                rx: Seq::empty(),
                offered: Seq::empty(),
                sent: Seq::empty(),
                room: room as nat,
                rx_interrupt: false,
            }),
    {
        SimUart {
            rx: VecDeque::new(),
            offered: Vec::new(),
            sent: Vec::new(),
            room,
            rx_interrupt: false,
        }
    }

    /// The wire delivers one more entry to the back of the receive FIFO.
    pub fn arrive(&mut self, arrival: Arrival)
        ensures
            final(self)@ == (UartState { rx: old(self)@.rx.push(arrival), ..old(self)@ }),
    {
        self.rx.push_back(arrival);
    }

    /// The transmitter's free places are set to `room`, as when the hardware
    /// has shifted bytes out (or the FIFO has filled up).
    pub fn set_room(&mut self, room: usize)
        ensures
            final(self)@ == (UartState { room: room as nat, ..old(self)@ }),
    {
        self.room = room;
    }

    /// Enables the receive-interrupt condition.
    pub fn enable_rx_interrupt(&mut self)
        ensures
            final(self)@ == (UartState { rx_interrupt: true, ..old(self)@ }),
    {
        self.rx_interrupt = true;
    }

    /// Non-blocking read of one byte.
    pub fn read(&mut self) -> (r: Result<u8, ReadFailure>)
        ensures
            (r, final(self)@) == read_outcome(old(self)@),
    {
        match self.rx.pop_front() {
            None => Err(ReadFailure::WouldBlock),
            Some(Arrival::Byte(b)) => Ok(b),
            Some(Arrival::Damaged(e)) => Err(ReadFailure::Line(e)),
        }
    }

    /// Non-blocking write of one byte.
    pub fn write(&mut self, byte: u8) -> (r: Result<(), WouldBlock>)
        ensures
            (r, final(self)@) == write_outcome(old(self)@, byte),
    {
        self.offered.push(byte);
        if self.room > 0 {
            self.sent.push(byte);
            self.room = self.room - 1;
            Ok(())
        } else {
            Err(WouldBlock)
        }
    }

    /// Blocking write: waits for room as often as needed, so every byte of
    /// `bytes` goes out, in order. The free places are as before on return.
    pub fn write_full_blocking(&mut self, bytes: &[u8])
        ensures
            final(self)@ == (UartState {
                offered: old(self)@.offered + bytes@,
                sent: old(self)@.sent + bytes@,
                ..old(self)@
            }),
    {
        let mut i: usize = 0;
        while i < bytes.len()
            invariant
                i <= bytes.len(),
                self@ == (UartState {
                    offered: old(self)@.offered + bytes@.take(i as int),
                    sent: old(self)@.sent + bytes@.take(i as int),
                    ..old(self)@
                }),
            decreases bytes.len() - i,
        {
            self.offered.push(bytes[i]);
            self.sent.push(bytes[i]);
            assert(bytes@.take(i + 1) == bytes@.take(i as int).push(bytes@[i as int]));
            i = i + 1;
        }
        assert(bytes@.take(bytes@.len() as int) == bytes@);
    }

    /// Number of entries waiting in the receive FIFO.
    pub fn pending(&self) -> (n: usize)
        ensures
            n == self@.rx.len(),
    {
        self.rx.len()
    }

    /// Every byte handed to `write` so far, accepted or not.
    pub fn offered(&self) -> (bytes: &Vec<u8>)
        ensures
            bytes@ == self@.offered,
    {
        &self.offered
    }

    /// The bytes the transmitter accepted so far.
    pub fn sent(&self) -> (bytes: &Vec<u8>)
        ensures
            bytes@ == self@.sent,
    {
        &self.sent
    }

    /// Free places in the transmit FIFO.
    pub fn room(&self) -> (room: usize)
        ensures
            room == self@.room,
    {
        self.room
    }

    /// Whether the receive-interrupt condition is enabled.
    pub fn rx_interrupt_enabled(&self) -> (enabled: bool)
        ensures
            enabled == self@.rx_interrupt,
    {
        self.rx_interrupt
    }
}

} // verus!
