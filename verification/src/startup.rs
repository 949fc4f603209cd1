//! Bring-up: the order in which the peripherals are set up, which of the
//! operations can fail, and the fixed parameters they are given.
//!
//! Four operations can fail: claiming each of the two peripheral sets,
//! reaching the clock configuration, and enabling the UART. Each failure is
//! fatal. Nothing is retried and nothing runs in a degraded mode.

use vstd::prelude::*;

verus! {

/// Where bring-up stands: the operation to perform next, or how it ended.
#[derive(Clone, Copy, Debug, PartialEq, Eq, Structural)]
pub enum Stage {
    /// Claim the chip's peripheral registers. Fails if they are claimed.
    TakeDevice,
    /// Claim the core's peripheral registers. Fails if they are claimed.
    TakeCore,
    /// Set up the watchdog, which the clock setup needs.
    Watchdog,
    /// Bring the clock tree up from the crystal. Fails if it does not settle.
    Clocks,
    /// Build the busy-wait delay from the system timer and the system clock.
    Delay,
    /// Take the GPIO bank and put the transmit and receive pins into UART
    /// function.
    Pins,
    /// Enable the UART with [`line_settings`]. Fails if the baud rate cannot
    /// be reached.
    EnableUart,
    /// Unmask the UART interrupt at the interrupt controller.
    UnmaskInterrupt,
    /// Enable the receive-interrupt condition at the UART.
    EnableRxInterrupt,
    /// Write [`banner`] to the UART, blocking until it is out.
    Banner,
    /// Move the UART handle into the shared slot, inside a critical section.
    Publish,
    /// Make the indicator pin a push-pull output.
    Led,
    /// Bring-up is complete and the idle loop runs.
    Idle,
    /// A fatal error stopped the processor.
    Halted,
}

/// How many bring-up operations have been completed when `stage` is next.
/// A halted bring-up has no position, and is given the last one.
pub open spec fn position(stage: Stage) -> nat {
    match stage {
        Stage::TakeDevice => 0,
        Stage::TakeCore => 1,
        Stage::Watchdog => 2,
        Stage::Clocks => 3,
        Stage::Delay => 4,
        Stage::Pins => 5,
        Stage::EnableUart => 6,
        Stage::UnmaskInterrupt => 7,
        Stage::EnableRxInterrupt => 8,
        Stage::Banner => 9,
        Stage::Publish => 10,
        Stage::Led => 11,
        Stage::Idle => 12,
        Stage::Halted => 13,
    }
}

/// Whether the operation of `stage` can fail.
pub open spec fn fallible(stage: Stage) -> bool {
    stage is TakeDevice || stage is TakeCore || stage is Clocks || stage is EnableUart
}

/// The stage that follows `stage` when its operation succeeds. The two final
/// stages follow themselves.
pub open spec fn successor(stage: Stage) -> Stage {
    match stage {
        Stage::TakeDevice => Stage::TakeCore,
        Stage::TakeCore => Stage::Watchdog,
        Stage::Watchdog => Stage::Clocks,
        Stage::Clocks => Stage::Delay,
        Stage::Delay => Stage::Pins,
        Stage::Pins => Stage::EnableUart,
        Stage::EnableUart => Stage::UnmaskInterrupt,
        Stage::UnmaskInterrupt => Stage::EnableRxInterrupt,
        Stage::EnableRxInterrupt => Stage::Banner,
        Stage::Banner => Stage::Publish,
        Stage::Publish => Stage::Led,
        Stage::Led => Stage::Idle,
        Stage::Idle => Stage::Idle,
        Stage::Halted => Stage::Halted,
    }
}

/// The stage after the operation of `stage` ended with `succeeded`: a failed
/// fallible operation halts, everything else moves on.
pub open spec fn advanced(stage: Stage, succeeded: bool) -> Stage {
    if fallible(stage) && !succeeded {
        Stage::Halted
    } else {
        successor(stage)
    }
}

/// Whether the UART interrupt is unmasked when `stage` is next.
pub open spec fn interrupt_unmasked(stage: Stage) -> bool {
    position(Stage::UnmaskInterrupt) < position(stage) && !(stage is Halted)
}

/// Whether the receive-interrupt condition is enabled when `stage` is next.
pub open spec fn rx_interrupt_enabled(stage: Stage) -> bool {
    position(Stage::EnableRxInterrupt) < position(stage) && !(stage is Halted)
}

/// Whether the UART handle is in the shared slot when `stage` is next.
pub open spec fn handle_published(stage: Stage) -> bool {
    position(Stage::Publish) < position(stage) && !(stage is Halted)
}

/// Whether the main flow holds the enabled UART itself when `stage` is next:
/// after enabling it and before publishing it.
pub open spec fn handle_local(stage: Stage) -> bool {
    position(Stage::EnableUart) < position(stage) <= position(Stage::Publish)
}

/// The stage bring-up starts in.
pub fn begin() -> (stage: Stage)
    ensures
        stage == Stage::TakeDevice,
{
    Stage::TakeDevice
}

/// Whether the operation of `stage` can fail.
pub fn can_fail(stage: Stage) -> (yes: bool)
    ensures
        yes == fallible(stage),
{
    match stage {
        Stage::TakeDevice | Stage::TakeCore | Stage::Clocks | Stage::EnableUart => true,
        _ => false,
    }
}

/// The stage to go to once the operation of `stage` has ended. `succeeded`
/// says how it ended, and counts only where the operation can fail.
pub fn advance(stage: Stage, succeeded: bool) -> (next: Stage)
    ensures
        next == advanced(stage, succeeded),
{
    if can_fail(stage) && !succeeded {
        return Stage::Halted;
    }
    match stage {
        Stage::TakeDevice => Stage::TakeCore,
        Stage::TakeCore => Stage::Watchdog,
        Stage::Watchdog => Stage::Clocks,
        Stage::Clocks => Stage::Delay,
        Stage::Delay => Stage::Pins,
        Stage::Pins => Stage::EnableUart,
        Stage::EnableUart => Stage::UnmaskInterrupt,
        Stage::UnmaskInterrupt => Stage::EnableRxInterrupt,
        Stage::EnableRxInterrupt => Stage::Banner,
        Stage::Banner => Stage::Publish,
        Stage::Publish => Stage::Led,
        Stage::Led => Stage::Idle,
        Stage::Idle => Stage::Idle,
        Stage::Halted => Stage::Halted,
    }
}

/// The stage after the operation `performed` has ended with `succeeded`
/// while bring-up stood at `stage`: in turn, it moves bring-up as
/// [`advanced`] says; out of turn, it halts.
pub open spec fn recorded(stage: Stage, performed: Stage, succeeded: bool) -> Stage {
    if performed == stage {
        advanced(stage, succeeded)
    } else {
        Stage::Halted
    }
}

/// The stage to go to once the firmware has performed the operation
/// `performed` while bring-up stood at `stage`. An operation out of turn is
/// as fatal as a failed one, so bring-up reaches the idle loop only along
/// the one order of [`successor`].
pub fn record(stage: Stage, performed: Stage, succeeded: bool) -> (next: Stage)
    ensures
        next == recorded(stage, performed, succeeded),
{
    if performed == stage {
        advance(stage, succeeded)
    } else {
        Stage::Halted
    }
}

/// Where bring-up stands after the operations of `log` were recorded since
/// the start, oldest first; each entry is an operation and how it ended.
pub open spec fn stage_after(log: Seq<(Stage, bool)>) -> Stage
    decreases log.len(),
{
    if log.len() == 0 {
        Stage::TakeDevice
    } else {
        recorded(stage_after(log.drop_last()), log.last().0, log.last().1)
    }
}

/// Whether the first `count` entries of `log` are the first `count`
/// operations of bring-up, in order, none of them failed.
pub open spec fn in_order(log: Seq<(Stage, bool)>, count: nat) -> bool {
    &&& count <= log.len()
    &&& forall|i: int|
        0 <= i < count ==> position(#[trigger] log[i].0) == i && (fallible(log[i].0)
            ==> log[i].1)
}

/// As long as bring-up has not halted, what was recorded is the order of
/// bring-up itself: operation by operation up to the idle loop, and nothing
/// but the idle loop after it.
pub proof fn lemma_recorded_in_order(log: Seq<(Stage, bool)>)
    requires
        !(stage_after(log) is Halted),
    ensures
        log.len() <= 12 ==> position(stage_after(log)) == log.len() && in_order(log, log.len()),
        log.len() > 12 ==> stage_after(log) is Idle && in_order(log, 12),
    decreases log.len(),
{
    if log.len() > 0 {
        let earlier = log.drop_last();
        lemma_recorded_in_order(earlier);
        assert forall|i: int| 0 <= i < earlier.len() implies log[i] == earlier[i] by {}
    }
}

/// The idle loop is reached only in order: if bring-up stands at the idle
/// loop, then the twelve operations before it were performed one after the
/// other as [`successor`] has them, each exactly once, and every one that
/// can fail succeeded. In particular the UART was enabled before its
/// interrupt was unmasked, and the interrupt was unmasked before the handle
/// was published.
pub proof fn idle_is_reached_in_order(log: Seq<(Stage, bool)>)
    requires
        stage_after(log) is Idle,
    ensures
        in_order(log, 12),
        log[6].0 is EnableUart && log[6].1,
        log[7].0 is UnmaskInterrupt,
        log[10].0 is Publish,
{
    lemma_recorded_in_order(log);
    assert(position(log[6].0) == 6);
    assert(position(log[7].0) == 7);
    assert(position(log[10].0) == 10);
}

/// A successful operation moves bring-up on by exactly one position, until
/// the idle loop is reached. No operation is skipped and none comes twice.
pub proof fn success_moves_one_on(stage: Stage)
    requires
        !(stage is Idle),
        !(stage is Halted),
    ensures
        position(advanced(stage, true)) == position(stage) + 1,
{
}

/// A failure halts exactly at the fallible operations; once halted or idle,
/// bring-up stays there whatever the outcome given.
pub proof fn failure_is_final(stage: Stage, succeeded: bool)
    ensures
        advanced(stage, false) is Halted <==> fallible(stage) || stage is Halted,
        advanced(Stage::Halted, succeeded) is Halted,
        advanced(Stage::Idle, succeeded) is Idle,
{
}

/// The handle is published only after the interrupt has been unmasked and
/// the receive interrupt enabled: at every stage before the unmasking the
/// slot is still empty. The UART is enabled before either, and a halted
/// bring-up has unmasked and published nothing.
pub proof fn publication_follows_unmasking(stage: Stage)
    ensures
        handle_published(stage) ==> interrupt_unmasked(stage) && rx_interrupt_enabled(stage),
        !interrupt_unmasked(stage) ==> !handle_published(stage),
        interrupt_unmasked(stage) ==> handle_local(stage) || handle_published(stage),
        !(handle_local(stage) && handle_published(stage)),
        fallible(stage) ==> !interrupt_unmasked(stage),
{
}

/// A resource that can be claimed once per program run.
pub struct Claim {
    taken: bool,
}

impl View for Claim {
    type V = bool;

    /// Whether the resource has been claimed.
    closed spec fn view(&self) -> bool {
        self.taken
    }
}

impl Claim {
    /// An unclaimed resource.
    pub fn new() -> (claim: Claim)
        ensures
            !claim@,
    {
        Claim { taken: false }
    }

    /// Claims the resource. Granted if and only if it was unclaimed; it is
    /// claimed afterwards either way.
    pub fn acquire(&mut self) -> (granted: bool)
        ensures
            granted == !old(self)@,
            final(self)@,
    {
        let granted = !self.taken;
        self.taken = true;
        granted
    }

    /// Whether the resource has been claimed.
    pub fn is_taken(&self) -> (taken: bool)
        ensures
            taken == self@,
    {
        self.taken
    }
}

/// Number of data bits in a character.
#[derive(Clone, Copy, Debug, PartialEq, Eq, Structural)]
pub enum DataBits {
    /// 5 bits.
    Five,
    /// 6 bits.
    Six,
    /// 7 bits.
    Seven,
    /// 8 bits.
    Eight,
}

/// Kind of parity bit, where there is one.
#[derive(Clone, Copy, Debug, PartialEq, Eq, Structural)]
pub enum Parity {
    /// Odd parity.
    Odd,
    /// Even parity.
    Even,
}

/// Number of stop bits after a character.
#[derive(Clone, Copy, Debug, PartialEq, Eq, Structural)]
pub enum StopBits {
    /// 1 bit.
    One,
    /// 2 bits.
    Two,
}

/// How the serial line is driven.
#[derive(Clone, Copy, Debug, PartialEq, Eq, Structural)]
pub struct LineSettings {
    /// Bits per second.
    pub baud: u32,
    /// Data bits per character.
    pub data_bits: DataBits,
    /// Parity bit; `None` for no parity.
    pub parity: Option<Parity>,
    /// Stop bits per character.
    pub stop_bits: StopBits,
}

/// The one configuration the UART is enabled with: 9600 baud, 8 data bits,
/// no parity, 1 stop bit.
pub fn line_settings() -> (settings: LineSettings)
    ensures
        settings == (LineSettings {
            baud: 9600,
            data_bits: DataBits::Eight,
            parity: None,
            stop_bits: StopBits::One,
        }),
{
    LineSettings { baud: 9600, data_bits: DataBits::Eight, parity: None, stop_bits: StopBits::One }
}

/// Which GPIO carries what. The assignment is fixed.
#[derive(Clone, Copy, Debug, PartialEq, Eq, Structural)]
pub struct Pinout {
    /// UART transmit, out of the processor.
    pub tx: u8,
    /// UART receive, in to the processor.
    pub rx: u8,
    /// The indicator, active high.
    pub led: u8,
}

/// The pins the firmware is wired to: transmit on GPIO 0, receive on the
/// adjacent GPIO 1, the indicator on GPIO 25.
pub fn pinout() -> (pins: Pinout)
    ensures
        pins == (Pinout { tx: 0, rx: 1, led: 25 }),
{
    Pinout { tx: 0, rx: 1, led: 25 }
}

/// The line written to the UART once it is enabled, newline included.
pub open spec fn banner_text() -> Seq<char> {
    "uart_interrupt example started...\n"@
}

/// The bytes of [`banner_text`]: the ASCII code of each character.
pub open spec fn banner_bytes() -> Seq<u8> {
    Seq::new(banner_text().len(), |i: int| banner_text()[i] as u8)
}

/// The bytes written to the UART once it is enabled.
pub fn banner() -> (bytes: &'static [u8])
    ensures
        bytes@ == banner_bytes(),
        bytes@.len() == 34,
{
    broadcast use vstd::string::is_ascii_spec_bytes;

    proof {
        reveal_strlit("uart_interrupt example started...\n");
    }
    let text: &'static str = "uart_interrupt example started...\n";
    assert(vstd::string::is_ascii(text));
    text.as_bytes()
}

} // verus!
