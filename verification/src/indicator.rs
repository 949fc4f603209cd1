//! The idle loop: park the processor until an event arrives, then show one
//! pulse on the indicator.
//!
//! The loop never ends, so whoever owns the pin and the timer runs it. What
//! this module decides is the order of its operations: [`first`] and
//! [`after`] name them one at a time. [`SimLed`] records what an indicator
//! line goes through, and [`pulse`] and [`idle_for`] run the loop's
//! operations against it for a given number of wakes.

use vstd::prelude::*;

verus! {

/// How long the indicator stays high in each pulse, in milliseconds.
pub const PULSE_MS: u32 = 100;

/// One operation of the idle loop.
#[derive(Clone, Copy, Debug, PartialEq, Eq, Structural)]
pub enum IdleOp {
    /// Park the processor until an interrupt or a signalled event wakes it.
    WaitForEvent,
    /// Drive the indicator high.
    SetHigh,
    /// Busy-wait for this many milliseconds.
    DelayMs(u32),
    /// Drive the indicator low.
    SetLow,
}

/// The operation that follows `op` in the loop: wait, high, hold for
/// [`PULSE_MS`], low, and round again.
pub open spec fn following(op: IdleOp) -> IdleOp {
    match op {
        IdleOp::WaitForEvent => IdleOp::SetHigh,
        IdleOp::SetHigh => IdleOp::DelayMs(PULSE_MS),
        IdleOp::DelayMs(_) => IdleOp::SetLow,
        IdleOp::SetLow => IdleOp::WaitForEvent,
    }
}

/// The operation the loop starts with.
pub fn first() -> (op: IdleOp)
    ensures
        op == IdleOp::WaitForEvent,
{
    IdleOp::WaitForEvent
}

/// The operation to perform once `op` is done.
pub fn after(op: IdleOp) -> (next: IdleOp)
    ensures
        next == following(op),
{
    match op {
        IdleOp::WaitForEvent => IdleOp::SetHigh,
        IdleOp::SetHigh => IdleOp::DelayMs(PULSE_MS),
        IdleOp::DelayMs(_) => IdleOp::SetLow,
        IdleOp::SetLow => IdleOp::WaitForEvent,
    }
}

/// What an observer of the indicator line sees.
#[derive(Clone, Copy, Debug, PartialEq, Eq, Structural)]
pub enum Mark {
    /// The line was driven high.
    High,
    /// The line was left as it was for this many milliseconds.
    Held(u32),
    /// The line was driven low.
    Low,
}

/// The marks of one pulse: high, held for [`PULSE_MS`], low.
pub open spec fn one_pulse() -> Seq<Mark> {
    seq![Mark::High, Mark::Held(PULSE_MS), Mark::Low]
}

/// The marks of `count` pulses in a row.
pub open spec fn pulses(count: nat) -> Seq<Mark>
    decreases count,
{
    if count == 0 {
        Seq::empty()
    } else {
        pulses((count - 1) as nat) + one_pulse()
    }
}

/// The mathematical state of a [`SimLed`].
#[verifier::ext_equal]
pub struct LedState {
    /// Whether the line is high.
    pub lit: bool,
    /// Everything that happened on the line, oldest first.
    pub trace: Seq<Mark>,
}

/// A simulated indicator: a push-pull output and the record of what it was
/// driven to.
pub struct SimLed {
    lit: bool,
    trace: Vec<Mark>,
}

impl View for SimLed {
    type V = LedState;

    closed spec fn view(&self) -> LedState {
        LedState { lit: self.lit, trace: self.trace@ }
    }
}

/// The state of the indicator after `op` is performed on it. Waiting for an
/// event does not touch the line.
pub open spec fn performed(s: LedState, op: IdleOp) -> LedState {
    match op {
        IdleOp::WaitForEvent => s,
        IdleOp::SetHigh => LedState { lit: true, trace: s.trace.push(Mark::High) },
        IdleOp::DelayMs(ms) => LedState { lit: s.lit, trace: s.trace.push(Mark::Held(ms)) },
        IdleOp::SetLow => LedState { lit: false, trace: s.trace.push(Mark::Low) },
    }
}

impl SimLed {
    /// An output that is low and has not been driven yet.
    pub fn new() -> (led: SimLed)
        ensures
            led@ == (LedState { lit: false, trace: Seq::empty() }),
    {
        SimLed { lit: false, trace: Vec::new() }
    }

    /// Performs one operation of the idle loop on the line.
    pub fn perform(&mut self, op: IdleOp)
        ensures
            final(self)@ == performed(old(self)@, op),
    {
        match op {
            IdleOp::WaitForEvent => {},
            IdleOp::SetHigh => {
                self.lit = true;
                self.trace.push(Mark::High);
            },
            IdleOp::DelayMs(ms) => {
                self.trace.push(Mark::Held(ms));
            },
            IdleOp::SetLow => {
                self.lit = false;
                self.trace.push(Mark::Low);
            },
        }
    }

    /// Whether the line is high.
    pub fn is_lit(&self) -> (lit: bool)
        ensures
            lit == self@.lit,
    {
        self.lit
    }

    /// Everything that happened on the line, oldest first.
    pub fn trace(&self) -> (trace: &Vec<Mark>)
        ensures
            trace@ == self@.trace,
    {
        &self.trace
    }
}

/// One wake of the idle loop: performs the operations between two waits.
/// The line shows exactly one pulse and is low again.
pub fn pulse(led: &mut SimLed)
    ensures
        final(led)@ == (LedState { lit: false, trace: old(led)@.trace + one_pulse() }),
{
    let mut op = after(first());
    while op != IdleOp::WaitForEvent
        invariant
            op == IdleOp::SetHigh ==> led@.trace == old(led)@.trace,
            op == IdleOp::DelayMs(PULSE_MS) ==> led@.trace == old(led)@.trace.push(Mark::High),
            op == IdleOp::SetLow ==> led@.trace == old(led)@.trace.push(Mark::High).push(
                Mark::Held(PULSE_MS),
            ),
            op == IdleOp::WaitForEvent ==> led@ == (LedState {
                lit: false,
                trace: old(led)@.trace + one_pulse(),
            }),
            op == IdleOp::SetHigh || op == IdleOp::DelayMs(PULSE_MS) || op == IdleOp::SetLow || op
                == IdleOp::WaitForEvent,
        decreases
            match op {
                IdleOp::SetHigh => 3nat,
                IdleOp::DelayMs(_) => 2nat,
                IdleOp::SetLow => 1nat,
                IdleOp::WaitForEvent => 0nat,
            },
    {
        led.perform(op);
        op = after(op);
    }
}

/// The mark that stands at index `i` of a trace made of whole pulses.
pub open spec fn mark_in_train(i: int) -> Mark {
    if i % 3 == 0 {
        Mark::High
    } else if i % 3 == 1 {
        Mark::Held(PULSE_MS)
    } else {
        Mark::Low
    }
}

/// Whether `trace` is made of whole pulses and nothing else: high, held for
/// [`PULSE_MS`], low, and so on, with no toggle missing and none doubled.
pub open spec fn pulse_train(trace: Seq<Mark>) -> bool {
    &&& trace.len() % 3 == 0
    &&& forall|i: int| 0 <= i < trace.len() ==> trace[i] == mark_in_train(i)
}

/// `count` wakes leave exactly `count` pulses: three marks each, and the
/// whole is a pulse train.
pub proof fn pulses_form_a_train(count: nat)
    ensures
        pulses(count).len() == 3 * count,
        pulse_train(pulses(count)),
    decreases count,
{
    if count > 0 {
        pulses_form_a_train((count - 1) as nat);
        one_more_pulse(pulses((count - 1) as nat));
    }
}

/// One more pulse after a pulse train gives a pulse train.
pub proof fn one_more_pulse(trace: Seq<Mark>)
    requires
        pulse_train(trace),
    ensures
        pulse_train(trace + one_pulse()),
        (trace + one_pulse()).len() == trace.len() + 3,
{
    let longer = trace + one_pulse();
    assert forall|i: int| 0 <= i < longer.len() implies longer[i] == mark_in_train(i) by {
        if i >= trace.len() {
            assert(longer[i] == one_pulse()[i - trace.len()]);
        }
    }
}

/// A pulse train of `3 * count` marks is the trace of `count` wakes: there is
/// no other way to be a pulse train.
pub proof fn train_is_pulses(trace: Seq<Mark>, count: nat)
    requires
        pulse_train(trace),
        trace.len() == 3 * count,
    ensures
        trace == pulses(count),
{
    pulses_form_a_train(count);
    assert forall|i: int| 0 <= i < trace.len() implies trace[i] == pulses(count)[i] by {
        assert(trace[i] == mark_in_train(i));
        assert(pulses(count)[i] == mark_in_train(i));
    }
    assert(trace =~= pulses(count));
}

/// The idle loop over `wakes` wakes: each wake shows one pulse, one after the
/// other, and nothing else happens on the line.
pub fn idle_for(led: &mut SimLed, wakes: usize)
    ensures
        final(led)@.trace == old(led)@.trace + pulses(wakes as nat),
        wakes > 0 ==> !final(led)@.lit,
        wakes == 0 ==> final(led)@ == old(led)@,
{
    let mut done: usize = 0;
    while done < wakes
        invariant
            done <= wakes,
            led@.trace == old(led)@.trace + pulses(done as nat),
            done > 0 ==> !led@.lit,
            done == 0 ==> led@ == old(led)@,
        decreases wakes - done,
    {
        pulse(led);
        done = done + 1;
    }
}

} // verus!
