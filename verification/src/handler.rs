//! The receive interrupt handler.
//!
//! On hardware the handler alternates between decisions and register
//! accesses. The decisions are the three `on_*` functions below: each takes
//! what the previous access gave and names the next [`Step`]. Whoever owns
//! the registers performs the step and comes back with what it gave.
//! [`drain`] and [`service`] do exactly that against a [`SimUart`], which
//! pins down what a whole invocation does to the peripheral.

use crate::echo::{echo, echoed, echoed_all};
use crate::shared::SharedSlot;
use crate::uart::{Arrival, SimUart, UartState};
use vstd::prelude::*;

verus! {

/// What the handler does next, inside its critical section.
#[derive(Clone, Copy, Debug, PartialEq, Eq, Structural)]
pub enum Step {
    /// Try to read one byte without blocking.
    Poll,
    /// Try to write this byte without blocking.
    Transmit(u8),
    /// Leave the critical section; the event is signalled right after.
    Leave,
}

/// The first step once the critical section is entered: poll if a handle has
/// been published, otherwise leave without touching anything.
pub fn on_entry(handle_present: bool) -> (step: Step)
    ensures
        step == if handle_present {
            Step::Poll
        } else {
            Step::Leave
        },
{
    if handle_present {
        Step::Poll
    } else {
        Step::Leave
    }
}

/// The step after a poll: a received byte is answered by its successor; no
/// byte (an empty FIFO or a receive error alike) ends the invocation.
pub fn on_polled(received: Option<u8>) -> (step: Step)
    ensures
        step == match received {
            Some(byte) => Step::Transmit(echoed(byte)),
            None => Step::Leave,
        },
{
    match received {
        Some(byte) => Step::Transmit(echo(byte)),
        None => Step::Leave,
    }
}

/// The step after a transmit attempt: poll again, whether or not the byte was
/// accepted. A refused byte is dropped.
pub fn on_transmitted(accepted: bool) -> (step: Step)
    ensures
        step == Step::Poll,
{
    Step::Poll
}

/// How many intact bytes stand at the front of `rx`, before the first flagged
/// entry or the end.
pub open spec fn intact_run(rx: Seq<Arrival>) -> nat
    decreases rx.len(),
{
    if rx.len() > 0 && rx[0] is Byte {
        1 + intact_run(rx.skip(1))
    } else {
        0
    }
}

/// The answers to the intact bytes at the front of `rx`, in receive order.
pub open spec fn answers(rx: Seq<Arrival>) -> Seq<u8> {
    Seq::new(intact_run(rx), |i: int| echoed(rx[i]->Byte_0))
}

/// How many entries one invocation removes from `rx`: the intact run and, if
/// a flagged entry ends it, that entry too.
pub open spec fn consumed(rx: Seq<Arrival>) -> nat {
    if intact_run(rx) < rx.len() {
        intact_run(rx) + 1
    } else {
        intact_run(rx)
    }
}

/// How many of `attempts` consecutive writes a transmitter with `room` free
/// places accepts.
pub open spec fn accepted(attempts: nat, room: nat) -> nat {
    if attempts <= room {
        attempts
    } else {
        room
    }
}

/// The state one handler invocation leaves, given the state `s` it finds.
///
/// Every intact byte at the front of the receive FIFO is offered to the
/// transmitter as its successor, in receive order. The transmitter accepts as
/// many of them as it has room for and the rest are dropped. The receive FIFO
/// loses what was read. The interrupt enable is not touched.
pub open spec fn drained(s: UartState) -> UartState {
    let taken = accepted(intact_run(s.rx), s.room);
    UartState {
        rx: s.rx.skip(consumed(s.rx) as int),
        offered: s.offered + answers(s.rx),
        sent: s.sent + answers(s.rx).take(taken as int),
        room: (s.room - taken) as nat,
        rx_interrupt: s.rx_interrupt,
    }
}

/// The receive FIFO that holds exactly `bytes`, all intact, oldest first.
pub open spec fn intact(bytes: Seq<u8>) -> Seq<Arrival> {
    Seq::new(bytes.len(), |i: int| Arrival::Byte(bytes[i]))
}

/// `n` is the intact run of `rx` if the first `n` entries are intact and the
/// entry after them, if any, is flagged.
pub proof fn lemma_intact_run(rx: Seq<Arrival>, n: nat)
    requires
        n <= rx.len(),
        forall|i: int| 0 <= i < n ==> rx[i] is Byte,
        n < rx.len() ==> rx[n as int] is Damaged,
    ensures
        intact_run(rx) == n,
    decreases n,
{
    if n > 0 {
        lemma_intact_run(rx.skip(1), (n - 1) as nat);
    }
}

/// The intact run is within the sequence, covers intact entries only, and
/// stops at a flagged entry or the end.
pub proof fn lemma_intact_run_shape(rx: Seq<Arrival>)
    ensures
        intact_run(rx) <= rx.len(),
        forall|i: int| 0 <= i < intact_run(rx) ==> rx[i] is Byte,
        intact_run(rx) < rx.len() ==> rx[intact_run(rx) as int] is Damaged,
    decreases rx.len(),
{
    if rx.len() > 0 && rx[0] is Byte {
        let rest = rx.skip(1);
        lemma_intact_run_shape(rest);
        assert forall|i: int| 0 <= i < intact_run(rx) implies rx[i] is Byte by {
            if i > 0 {
                assert(rest[i - 1] == rx[i]);
            }
        }
        if intact_run(rx) < rx.len() {
            assert(rest[intact_run(rest) as int] == rx[intact_run(rx) as int]);
        }
    }
}

/// Runs the handler's steps against `uart`, on which a handle is present,
/// until the handler leaves. Returns the number of transmit attempts.
pub fn drain(uart: &mut SimUart) -> (attempts: usize)
    ensures
        final(uart)@ == drained(old(uart)@),
        attempts == intact_run(old(uart)@.rx),
{
    let ghost before = uart@;
    let waiting: usize = uart.pending();
    let mut attempts: usize = 0;
    let mut step = on_entry(true);
    loop
        invariant
            waiting == before.rx.len(),
            attempts <= before.rx.len(),
            forall|i: int| 0 <= i < attempts ==> before.rx[i] is Byte,
            uart@.rx_interrupt == before.rx_interrupt,
            uart@.offered == before.offered + Seq::new(
                attempts as nat,
                |i: int| echoed(before.rx[i]->Byte_0),
            ),
            uart@.sent == before.sent + Seq::new(
                accepted(attempts as nat, before.room),
                |i: int| echoed(before.rx[i]->Byte_0),
            ),
            uart@.room == before.room - accepted(attempts as nat, before.room),
            match step {
                Step::Poll => uart@.rx == before.rx.skip(attempts as int),
                Step::Transmit(byte) => {
                    &&& attempts < before.rx.len()
                    &&& before.rx[attempts as int] is Byte
                    &&& byte == echoed(before.rx[attempts as int]->Byte_0)
                    &&& uart@.rx == before.rx.skip(attempts + 1)
                },
                Step::Leave => {
                    &&& attempts < before.rx.len() ==> before.rx[attempts as int] is Damaged
                    &&& uart@.rx == before.rx.skip(
                        if attempts < before.rx.len() {
                            attempts + 1
                        } else {
                            attempts as int
                        },
                    )
                },
            },
        ensures
            step is Leave,
        decreases
            uart@.rx.len(),
            match step {
                Step::Transmit(_) => 2nat,
                Step::Poll => 1nat,
                Step::Leave => 0nat,
            },
    {
        match step {
            Step::Poll => {
                let received = match uart.read() {
                    Ok(byte) => Some(byte),
                    Err(_) => None,
                };
                step = on_polled(received);
            },
            Step::Transmit(byte) => {
                let outcome = uart.write(byte);
                attempts = attempts + 1;
                step = on_transmitted(outcome.is_ok());
            },
            Step::Leave => {
                break ;
            },
        }
    }
    proof {
        lemma_intact_run(before.rx, attempts as nat);
    }
    attempts
}

/// One invocation of the handler's critical section on the shared slot: an
/// empty slot is left alone, a published UART is drained. Returns the number
/// of transmit attempts.
pub fn service(slot: &mut SharedSlot<SimUart>) -> (attempts: usize)
    ensures
        match old(slot)@ {
            None => final(slot)@ is None && attempts == 0,
            Some(before) => {
                &&& final(slot)@ matches Some(after)
                &&& after@ == drained(before@)
                &&& attempts == intact_run(before@.rx)
            },
        },
{
    match on_entry(slot.is_populated()) {
        Step::Leave => 0,
        _ => match slot.handle_mut() {
            Some(uart) => drain(uart),
            None => 0,
        },
    }
}

/// A single waiting byte is answered by exactly one transmit attempt, and
/// the byte offered is its successor modulo 256. It goes out if the
/// transmitter has room, and is dropped if not.
pub proof fn one_byte_one_answer(s: UartState, byte: u8)
    requires
        s.rx == seq![Arrival::Byte(byte)],
    ensures
        drained(s).offered == s.offered.push(echoed(byte)),
        echoed(byte) as int == (byte as int + 1) % 256,
        drained(s).rx.len() == 0,
        s.room > 0 ==> drained(s).sent == s.sent.push(echoed(byte)),
        s.room == 0 ==> drained(s).sent == s.sent,
{
    lemma_intact_run(s.rx, 1);
}

/// With `bytes` waiting intact when the handler runs, it makes exactly one
/// transmit attempt per byte, in receive order, each the successor of the
/// byte it answers, and leaves the receive FIFO empty. The transmitter takes
/// the first of them up to its room, and the rest are dropped.
pub proof fn drain_to_empty(s: UartState, bytes: Seq<u8>)
    requires
        s.rx == intact(bytes),
    ensures
        drained(s).rx.len() == 0,
        drained(s).offered == s.offered + echoed_all(bytes),
        drained(s).offered.len() == s.offered.len() + bytes.len(),
        drained(s).sent == s.sent + echoed_all(bytes).take(
            accepted(bytes.len(), s.room) as int,
        ),
{
    lemma_intact_run(s.rx, bytes.len());
    assert(answers(s.rx) =~= echoed_all(bytes));
}

/// With nothing waiting when the handler runs, it makes no transmit attempt
/// and changes nothing.
pub proof fn empty_fifo_no_attempt(s: UartState)
    requires
        s.rx.len() == 0,
    ensures
        drained(s) == s,
        answers(s.rx).len() == 0,
{
    assert(drained(s) =~= s);
}

/// Every entry the handler removes is either an intact byte, which got its
/// transmit attempt, or the one flagged entry that ended the invocation.
pub proof fn nothing_consumed_unanswered(s: UartState)
    ensures
        answers(s.rx).len() == intact_run(s.rx),
        intact_run(s.rx) <= consumed(s.rx) <= s.rx.len(),
        consumed(s.rx) <= intact_run(s.rx) + 1,
        forall|i: int|
            0 <= i < intact_run(s.rx) ==> s.rx[i] is Byte && answers(s.rx)[i] == echoed(
                s.rx[i]->Byte_0,
            ),
        intact_run(s.rx) < consumed(s.rx) ==> s.rx[intact_run(s.rx) as int] is Damaged,
{
    lemma_intact_run_shape(s.rx);
}

} // verus!
