//! A simulated board: bring-up, the interrupt line, critical sections and
//! the idle loop, run against the simulated UART and indicator.
//!
//! The main flow and the interrupt handler are the two execution contexts.
//! Every operation here takes the board by `&mut` and runs to completion, and
//! an interrupt request that arrives while the main flow is inside a critical
//! section is held back until the section is left. So the handler never sees
//! the shared slot in the middle of a main-flow access.

use crate::handler::{drained, service};
use crate::indicator::{one_more_pulse, one_pulse, pulse, pulse_train, LedState, SimLed};
use crate::shared::SharedSlot;
use crate::startup::{
    advance, advanced, banner, banner_bytes, begin, handle_local, handle_published,
    interrupt_unmasked, rx_interrupt_enabled, Stage,
};
use crate::uart::{Arrival, SimUart, UartState};
use vstd::prelude::*;

verus! {

/// The mathematical state of a [`Board`].
#[verifier::ext_equal]
pub struct BoardState {
    /// Where bring-up stands.
    pub stage: Stage,
    /// Free transmit places the UART has when it is enabled.
    pub fifo_room: nat,
    /// The UART while the main flow holds it: enabled, not yet published.
    pub local: Option<UartState>,
    /// The shared slot.
    pub shared: Option<UartState>,
    /// Whether the UART interrupt is unmasked at the interrupt controller.
    pub unmasked: bool,
    /// Whether the main flow is inside a critical section.
    pub critical: bool,
    /// Whether an interrupt request is held back by a critical section.
    pub pending: bool,
    /// The event flag that ends a wait for event.
    pub event: bool,
    /// The indicator.
    pub led: LedState,
}

/// One thing that can happen to the board.
#[derive(Clone, Copy, Debug, PartialEq, Eq, Structural)]
pub enum Happening {
    /// The next bring-up operation ends, successfully or not.
    Boot(bool),
    /// An entry comes in from the wire.
    Arrive(Arrival),
    /// The UART raises an interrupt request.
    Interrupt,
    /// The main flow enters a critical section.
    Enter,
    /// The main flow leaves a critical section that it had entered inside
    /// another one (`true`) or outside any (`false`).
    Leave(bool),
    /// The idle loop goes one round.
    Idle,
}

/// The state right after power-on: nothing is set up, the slot is empty, the
/// interrupt is masked and the indicator is low.
pub open spec fn powered_on(fifo_room: nat) -> BoardState {
    BoardState {
        stage: Stage::TakeDevice,
        fifo_room,
        local: None,
        shared: None,
        unmasked: false,
        critical: false,
        pending: false,
        event: false,
        led: LedState { lit: false, trace: Seq::empty() },
    }
}

/// The state of an enabled UART that has not been used.
pub open spec fn fresh_uart(room: nat) -> UartState {
    UartState {
        rx: Seq::empty(),
        offered: Seq::empty(),
        sent: Seq::empty(),
        room,
        rx_interrupt: false,
    }
}

/// The UART state after `bytes` went out through a blocking write.
pub open spec fn written(u: UartState, bytes: Seq<u8>) -> UartState {
    UartState { offered: u.offered + bytes, sent: u.sent + bytes, ..u }
}

/// The state after the bring-up operation that is next in `s` has ended with
/// `succeeded`.
///
/// The stage moves as [`advanced`] says. Enabling the UART hands it to the
/// main flow; unmasking opens the interrupt line; the receive interrupt and
/// the banner go to the UART the main flow holds; publishing moves that UART
/// into the shared slot. The other operations change nothing that is
/// simulated.
pub open spec fn booted(s: BoardState, succeeded: bool) -> BoardState {
    let stage = advanced(s.stage, succeeded);
    match s.stage {
        Stage::EnableUart => if succeeded {
            BoardState { stage, local: Some(fresh_uart(s.fifo_room)), ..s }
        } else {
            BoardState { stage, ..s }
        },
        Stage::UnmaskInterrupt => BoardState { stage, unmasked: true, ..s },
        Stage::EnableRxInterrupt => match s.local {
            Some(u) => BoardState {
                stage,
                local: Some(UartState { rx_interrupt: true, ..u }),
                ..s
            },
            None => BoardState { stage, ..s },
        },
        Stage::Banner => match s.local {
            Some(u) => BoardState { stage, local: Some(written(u, banner_bytes())), ..s },
            None => BoardState { stage, ..s },
        },
        Stage::Publish => match s.local {
            Some(u) => BoardState { stage, local: None, shared: Some(u), ..s },
            None => BoardState { stage, ..s },
        },
        _ => BoardState { stage, ..s },
    }
}

/// The state after `arrival` came in from the wire: it joins the receive
/// FIFO of the UART, wherever the UART is held, and is lost if the UART is
/// not enabled.
pub open spec fn fed(s: BoardState, arrival: Arrival) -> BoardState {
    match (s.shared, s.local) {
        (Some(u), _) => BoardState {
            shared: Some(UartState { rx: u.rx.push(arrival), ..u }),
            ..s
        },
        (None, Some(u)) => BoardState {
            local: Some(UartState { rx: u.rx.push(arrival), ..u }),
            ..s
        },
        (None, None) => s,
    }
}

/// The state after the handler ran once: a published UART is drained, an
/// empty slot is left alone, and the event is signalled either way.
pub open spec fn handled(s: BoardState) -> BoardState {
    BoardState {
        shared: match s.shared {
            Some(u) => Some(drained(u)),
            None => None,
        },
        pending: false,
        event: true,
        ..s
    }
}

/// Whether an interrupt request in state `s` runs the handler at once.
pub open spec fn runs_at_once(s: BoardState) -> bool {
    s.unmasked && !s.critical
}

/// The state after the UART raised an interrupt request: masked, it is
/// ignored; inside a critical section, it is held back; otherwise the
/// handler runs.
pub open spec fn requested(s: BoardState) -> BoardState {
    if !s.unmasked {
        s
    } else if s.critical {
        BoardState { pending: true, ..s }
    } else {
        handled(s)
    }
}

/// The state after the main flow entered a critical section.
pub open spec fn entered(s: BoardState) -> BoardState {
    BoardState { critical: true, ..s }
}

/// The state after the main flow left a critical section that it had entered
/// with `was_critical`: leaving the outermost section lets a request that
/// was held back run the handler.
pub open spec fn released(s: BoardState, was_critical: bool) -> BoardState {
    if !was_critical && s.pending {
        handled(BoardState { critical: false, ..s })
    } else {
        BoardState { critical: was_critical, ..s }
    }
}

/// Whether a wait for event in state `s` returns: the idle loop runs and the
/// event flag is set.
pub open spec fn wakes(s: BoardState) -> bool {
    s.stage is Idle && s.event
}

/// The state after one round of the idle loop: if the wait returns, the event
/// flag is used up and the indicator shows one pulse; if not, the processor
/// stays parked and nothing changes.
pub open spec fn idled(s: BoardState) -> BoardState {
    if wakes(s) {
        BoardState {
            event: false,
            led: LedState { lit: false, trace: s.led.trace + one_pulse() },
            ..s
        }
    } else {
        s
    }
}

/// The state after `happening` in state `s`.
pub open spec fn next_state(s: BoardState, happening: Happening) -> BoardState {
    match happening {
        Happening::Boot(succeeded) => booted(s, succeeded),
        Happening::Arrive(arrival) => fed(s, arrival),
        Happening::Interrupt => requested(s),
        Happening::Enter => entered(s),
        Happening::Leave(was_critical) => released(s, was_critical),
        Happening::Idle => idled(s),
    }
}

/// The state the board is in after `history`, oldest first, since power-on.
pub open spec fn state_after(fifo_room: nat, history: Seq<Happening>) -> BoardState
    decreases history.len(),
{
    if history.len() == 0 {
        powered_on(fifo_room)
    } else {
        next_state(state_after(fifo_room, history.drop_last()), history.last())
    }
}

/// What holds of the board in every state it can reach.
///
/// The interrupt line, the whereabouts of the UART and its receive interrupt
/// are as the stage of bring-up says. A request is held back only inside a
/// critical section, and only the handler sets the event flag. The indicator
/// is low between rounds of the idle loop and has shown whole pulses only.
pub open spec fn consistent(s: BoardState) -> bool {
    &&& s.unmasked == interrupt_unmasked(s.stage)
    &&& (s.local is Some) == handle_local(s.stage)
    &&& (s.shared is Some) == handle_published(s.stage)
    &&& s.local matches Some(u) ==> u.rx_interrupt == rx_interrupt_enabled(s.stage)
    &&& s.shared matches Some(u) ==> u.rx_interrupt
    &&& s.pending ==> s.critical && s.unmasked
    &&& s.event ==> s.unmasked
    &&& !s.led.lit
    &&& pulse_train(s.led.trace)
    &&& s.led.trace.len() > 0 ==> s.stage is Idle
}

/// A simulated board.
pub struct Board {
    stage: Stage,
    fifo_room: usize,
    local: Option<SimUart>,
    shared: SharedSlot<SimUart>,
    unmasked: bool,
    critical: bool,
    pending: bool,
    event: bool,
    led: SimLed,
}

impl View for Board {
    type V = BoardState;

    closed spec fn view(&self) -> BoardState {
        BoardState {
            stage: self.stage,
            fifo_room: self.fifo_room as nat,
            local: match self.local {
                Some(u) => Some(u@),
                None => None,
            },
            shared: match self.shared@ {
                Some(u) => Some(u@),
                None => None,
            },
            unmasked: self.unmasked,
            critical: self.critical,
            pending: self.pending,
            event: self.event,
            led: self.led@,
        }
    }
}

impl Board {
    /// A board right after power-on, whose UART will have `fifo_room` free
    /// transmit places when it is enabled.
    pub fn power_on(fifo_room: usize) -> (board: Board)
        ensures
            board@ == powered_on(fifo_room as nat),
    {
        Board {
            stage: begin(),
            fifo_room,
            local: None,
            shared: SharedSlot::new(),
            unmasked: false,
            critical: false,
            pending: false,
            event: false,
            led: SimLed::new(),
        }
    }

    /// Performs the bring-up operation that is next. `succeeded` is how the
    /// operation ends where it can fail. Returns the stage reached.
    pub fn boot(&mut self, succeeded: bool) -> (stage: Stage)
        ensures
            final(self)@ == booted(old(self)@, succeeded),
            stage == advanced(old(self)@.stage, succeeded),
    {
        match self.stage {
            Stage::EnableUart => {
                if succeeded {
                    self.local = Some(SimUart::new(self.fifo_room));
                }
            },
            Stage::UnmaskInterrupt => {
                self.unmasked = true;
            },
            Stage::EnableRxInterrupt => {
                match self.local.as_mut() {
                    Some(uart) => uart.enable_rx_interrupt(),
                    None => {},
                }
            },
            Stage::Banner => {
                match self.local.as_mut() {
                    Some(uart) => uart.write_full_blocking(banner()),
                    None => {},
                }
            },
            Stage::Publish => {
                match self.local.take() {
                    Some(uart) => {
                        self.shared.publish(uart);
                    },
                    None => {},
                }
            },
            _ => {},
        }
        self.stage = advance(self.stage, succeeded);
        self.stage
    }

    /// One entry comes in from the wire.
    pub fn arrive(&mut self, arrival: Arrival)
        ensures
            final(self)@ == fed(old(self)@, arrival),
    {
        match self.shared.handle_mut() {
            Some(uart) => uart.arrive(arrival),
            None => match self.local.as_mut() {
                Some(uart) => uart.arrive(arrival),
                None => {},
            },
        }
    }

    /// The UART raises an interrupt request. Returns whether the handler ran
    /// at once.
    pub fn interrupt(&mut self) -> (ran: bool)
        ensures
            final(self)@ == requested(old(self)@),
            ran == runs_at_once(old(self)@),
    {
        if !self.unmasked {
            false
        } else if self.critical {
            self.pending = true;
            false
        } else {
            self.handle();
            true
        }
    }

    /// The main flow enters a critical section. Returns whether it was inside
    /// one already, to be handed back on leaving.
    pub fn enter_critical(&mut self) -> (was_critical: bool)
        ensures
            final(self)@ == entered(old(self)@),
            was_critical == old(self)@.critical,
    {
        let was_critical = self.critical;
        self.critical = true;
        was_critical
    }

    /// The main flow leaves the critical section it entered with
    /// `was_critical`. Returns whether a request that was held back ran the
    /// handler now.
    pub fn leave_critical(&mut self, was_critical: bool) -> (ran: bool)
        ensures
            final(self)@ == released(old(self)@, was_critical),
            ran == (!was_critical && old(self)@.pending),
    {
        self.critical = was_critical;
        if !was_critical && self.pending {
            self.handle();
            true
        } else {
            false
        }
    }

    /// One round of the idle loop. Returns whether the wait for event
    /// returned.
    pub fn idle(&mut self) -> (woke: bool)
        ensures
            final(self)@ == idled(old(self)@),
            woke == wakes(old(self)@),
    {
        if self.stage == Stage::Idle && self.event {
            self.event = false;
            pulse(&mut self.led);
            true
        } else {
            false
        }
    }

    /// Lets `happening` happen.
    pub fn apply(&mut self, happening: Happening)
        ensures
            final(self)@ == next_state(old(self)@, happening),
    {
        match happening {
            Happening::Boot(succeeded) => {
                self.boot(succeeded);
            },
            Happening::Arrive(arrival) => {
                self.arrive(arrival);
            },
            Happening::Interrupt => {
                self.interrupt();
            },
            Happening::Enter => {
                self.enter_critical();
            },
            Happening::Leave(was_critical) => {
                self.leave_critical(was_critical);
            },
            Happening::Idle => {
                self.idle();
            },
        }
    }

    /// The handler: its critical section on the shared slot, then the event.
    fn handle(&mut self)
        ensures
            final(self)@ == handled(old(self)@),
    {
        service(&mut self.shared);
        self.pending = false;
        self.event = true;
    }

    /// Where bring-up stands.
    pub fn stage(&self) -> (stage: Stage)
        ensures
            stage == self@.stage,
    {
        self.stage
    }

    /// The UART, wherever it is held; `None` while it is not enabled.
    pub fn uart(&self) -> (uart: Option<&SimUart>)
        ensures
            match uart {
                Some(u) => match self@.shared {
                    Some(published) => u@ == published,
                    None => self@.local == Some(u@),
                },
                None => self@.shared is None && self@.local is None,
            },
    {
        match self.shared.handle() {
            Some(uart) => Some(uart),
            None => self.local.as_ref(),
        }
    }

    /// Whether the UART handle is in the shared slot.
    pub fn is_published(&self) -> (published: bool)
        ensures
            published == (self@.shared is Some),
    {
        self.shared.is_populated()
    }

    /// Whether the UART interrupt is unmasked at the interrupt controller.
    pub fn is_unmasked(&self) -> (unmasked: bool)
        ensures
            unmasked == self@.unmasked,
    {
        self.unmasked
    }

    /// Whether the main flow is inside a critical section.
    pub fn in_critical(&self) -> (critical: bool)
        ensures
            critical == self@.critical,
    {
        self.critical
    }

    /// Whether an interrupt request is held back by a critical section.
    pub fn is_pending(&self) -> (pending: bool)
        ensures
            pending == self@.pending,
    {
        self.pending
    }

    /// Whether the event flag is set.
    pub fn event(&self) -> (event: bool)
        ensures
            event == self@.event,
    {
        self.event
    }

    /// The indicator.
    pub fn led(&self) -> (led: &SimLed)
        ensures
            led@ == self@.led,
    {
        &self.led
    }
}

/// The board is consistent at power-on.
pub proof fn power_on_is_consistent(fifo_room: nat)
    ensures
        consistent(powered_on(fifo_room)),
{
}

/// Nothing that can happen to a consistent board makes it inconsistent.
pub proof fn consistency_is_kept(s: BoardState, happening: Happening)
    requires
        consistent(s),
    ensures
        consistent(next_state(s, happening)),
{
    one_more_pulse(s.led.trace);
}

/// Whatever has happened since power-on, and in whatever order, the board is
/// consistent. In particular the shared slot is empty for as long as the
/// interrupt is masked, and the indicator has shown whole pulses only.
pub proof fn board_stays_consistent(fifo_room: nat, history: Seq<Happening>)
    ensures
        consistent(state_after(fifo_room, history)),
        !state_after(fifo_room, history).unmasked ==> state_after(fifo_room, history).shared
            is None,
        pulse_train(state_after(fifo_room, history).led.trace),
    decreases history.len(),
{
    if history.len() > 0 {
        board_stays_consistent(fifo_room, history.drop_last());
        consistency_is_kept(state_after(fifo_room, history.drop_last()), history.last());
    }
}

/// Until the interrupt is unmasked the shared slot is empty, and a request
/// raised then is ignored. From the unmasking to the publication the handler
/// does run, finds the slot empty, and touches neither the UART nor the
/// indicator: it only signals the event.
pub proof fn empty_slot_is_harmless(s: BoardState)
    requires
        consistent(s),
    ensures
        !s.unmasked ==> s.shared is None && requested(s) == s,
        s.shared is None ==> requested(s) == (BoardState {
            pending: requested(s).pending,
            event: requested(s).event,
            ..s
        }),
        s.shared is None && runs_at_once(s) ==> requested(s) == (BoardState {
            event: true,
            pending: false,
            ..s
        }),
{
}

/// The state after the main flow did `access` to the shared slot.
pub open spec fn accessed(
    s: BoardState,
    access: spec_fn(Option<UartState>) -> Option<UartState>,
) -> BoardState {
    BoardState { shared: access(s.shared), ..s }
}

/// Inside a critical section of the main flow the handler does not run: a
/// request changes nothing but the mark that it is waiting.
///
/// So the handler never sees the shared slot half-way through a main-flow
/// access. Let the main flow work on the slot in two parts inside one
/// critical section. Whether the request is raised before the first part,
/// between the two, or after the second, the handler runs when the section
/// is left, and it runs on the slot as both parts left it.
pub proof fn critical_section_is_atomic(
    s: BoardState,
    first: spec_fn(Option<UartState>) -> Option<UartState>,
    second: spec_fn(Option<UartState>) -> Option<UartState>,
)
    requires
        s.critical,
        s.unmasked,
    ensures
        requested(s) == (BoardState { pending: true, ..s }),
        released(accessed(accessed(requested(s), first), second), false) == handled(
            BoardState { critical: false, ..accessed(accessed(s, first), second) },
        ),
        released(accessed(requested(accessed(s, first)), second), false) == handled(
            BoardState { critical: false, ..accessed(accessed(s, first), second) },
        ),
        released(requested(accessed(accessed(s, first), second)), false) == handled(
            BoardState { critical: false, ..accessed(accessed(s, first), second) },
        ),
{
}

/// The publication is such an access. A request raised inside the critical
/// section that publishes the handle, before or after the handle is moved,
/// runs the handler when the section is left, on the published UART.
pub proof fn publication_is_atomic(s: BoardState)
    requires
        s.critical,
        s.unmasked,
        s.stage is Publish,
        s.local is Some,
    ensures
        released(booted(requested(s), true), false) == released(
            requested(booted(s, true)),
            false,
        ),
        released(requested(booted(s, true)), false).shared == Some(drained(s.local->Some_0)),
        released(requested(booted(s, true)), false).event,
{
}

/// Once the idle loop runs, every invocation of the handler is followed by
/// exactly one pulse: the next round wakes and shows it, and the round after
/// that stays parked until the handler runs again.
pub proof fn one_pulse_per_wake(s: BoardState)
    requires
        s.stage is Idle,
    ensures
        wakes(handled(s)),
        idled(handled(s)).led == (LedState { lit: false, trace: s.led.trace + one_pulse() }),
        !wakes(idled(handled(s))),
        idled(idled(handled(s))) == idled(handled(s)),
        !wakes(s) ==> idled(s) == s,
{
}

} // verus!
