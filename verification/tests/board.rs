use uart_interrupt::board::{Board, Happening};
use uart_interrupt::indicator::Mark;
use uart_interrupt::startup::Stage;
use uart_interrupt::uart::{Arrival, LineError};

fn boot_until(board: &mut Board, stage: Stage) {
    for _ in 0..20 {
        if board.stage() == stage {
            return;
        }
        board.boot(true);
    }
    panic!("stage not reached");
}

fn running_board(fifo_room: usize) -> Board {
    let mut board = Board::power_on(fifo_room);
    boot_until(&mut board, Stage::Idle);
    board
}

fn sent_after_banner(board: &Board) -> Vec<u8> {
    let sent = board.uart().unwrap().sent();
    sent[34..].to_vec()
}

#[test]
fn power_on_state_has_nothing_set_up() {
    let board = Board::power_on(32);
    assert_eq!(board.stage(), Stage::TakeDevice);
    assert!(board.uart().is_none());
    assert!(!board.is_published());
    assert!(!board.is_unmasked());
    assert!(!board.is_pending());
    assert!(!board.event());
    assert!(!board.led().is_lit());
    assert!(board.led().trace().is_empty());
}

#[test]
fn boot_reaches_the_idle_loop_in_twelve_operations() {
    let mut board = Board::power_on(32);
    let mut steps: u32 = 0;
    while board.stage() != Stage::Idle {
        board.boot(true);
        steps += 1;
        assert!(steps <= 12);
    }
    assert_eq!(steps, 12);
    assert!(board.is_published());
    assert!(board.is_unmasked());
    assert!(board.uart().unwrap().rx_interrupt_enabled());
}

#[test]
fn banner_goes_out_before_anything_else() {
    let board = running_board(32);
    assert_eq!(board.uart().unwrap().sent(), &b"uart_interrupt example started...\n".to_vec());
}

#[test]
fn slot_is_empty_until_the_publication() {
    let mut board = Board::power_on(32);
    while board.stage() != Stage::Led {
        assert!(!board.is_published());
        if !board.is_unmasked() {
            assert!(!board.interrupt());
        }
        board.boot(true);
    }
    assert!(board.is_published());
    assert!(board.is_unmasked());
}

#[test]
fn interrupt_before_unmasking_is_ignored() {
    let mut board = Board::power_on(32);
    boot_until(&mut board, Stage::UnmaskInterrupt);
    board.arrive(Arrival::Byte(0x41));
    assert!(!board.interrupt());
    assert!(!board.event());
    assert!(!board.is_pending());
    assert_eq!(board.uart().unwrap().pending(), 1);
    assert!(board.uart().unwrap().offered().is_empty());
}

#[test]
fn interrupt_before_publication_finds_the_slot_empty() {
    let mut board = Board::power_on(32);
    boot_until(&mut board, Stage::Publish);
    board.arrive(Arrival::Byte(0x41));
    let sent_before = board.uart().unwrap().sent().clone();
    assert!(board.interrupt());
    assert!(!board.is_published());
    assert!(board.event());
    assert_eq!(board.uart().unwrap().pending(), 1);
    assert_eq!(board.uart().unwrap().sent(), &sent_before);
    assert!(board.led().trace().is_empty());
    boot_until(&mut board, Stage::Idle);
    assert!(board.interrupt());
    assert_eq!(sent_after_banner(&board), vec![0x42]);
}

#[test]
fn bytes_that_arrive_before_the_uart_is_enabled_are_lost() {
    let mut board = Board::power_on(32);
    board.arrive(Arrival::Byte(1));
    boot_until(&mut board, Stage::Idle);
    assert_eq!(board.uart().unwrap().pending(), 0);
    assert!(board.interrupt());
    assert!(sent_after_banner(&board).is_empty());
}

#[test]
fn failed_clock_setup_halts_the_board() {
    let mut board = Board::power_on(32);
    boot_until(&mut board, Stage::Clocks);
    assert_eq!(board.boot(false), Stage::Halted);
    assert_eq!(board.boot(true), Stage::Halted);
    assert!(board.uart().is_none());
    assert!(!board.is_unmasked());
    assert!(!board.interrupt());
    assert!(!board.idle());
}

#[test]
fn failed_uart_enable_halts_the_board() {
    let mut board = Board::power_on(32);
    boot_until(&mut board, Stage::EnableUart);
    assert_eq!(board.boot(false), Stage::Halted);
    assert!(board.uart().is_none());
    assert!(!board.is_published());
    assert!(!board.is_unmasked());
}

#[test]
fn failed_claim_halts_the_board() {
    let mut board = Board::power_on(32);
    assert_eq!(board.boot(false), Stage::Halted);
    let mut other = Board::power_on(32);
    assert_eq!(other.boot(true), Stage::TakeCore);
    assert_eq!(other.boot(false), Stage::Halted);
}

#[test]
fn running_board_echoes_each_byte_incremented() {
    let mut board = running_board(32);
    board.arrive(Arrival::Byte(b'A'));
    assert!(board.interrupt());
    assert_eq!(sent_after_banner(&board), vec![b'B']);
    board.arrive(Arrival::Byte(0xFF));
    assert!(board.interrupt());
    assert_eq!(sent_after_banner(&board), vec![b'B', 0x00]);
}

#[test]
fn one_interrupt_drains_all_waiting_bytes() {
    let mut board = running_board(32);
    for byte in b"hello" {
        board.arrive(Arrival::Byte(*byte));
    }
    assert!(board.interrupt());
    assert_eq!(sent_after_banner(&board), b"ifmmp".to_vec());
    assert_eq!(board.uart().unwrap().pending(), 0);
}

#[test]
fn spurious_interrupt_transmits_nothing_but_signals_the_event() {
    let mut board = running_board(32);
    assert!(board.interrupt());
    assert!(sent_after_banner(&board).is_empty());
    assert_eq!(board.uart().unwrap().offered().len(), 34);
    assert!(board.event());
}

#[test]
fn receive_error_stops_the_drain_until_the_next_interrupt() {
    let mut board = running_board(32);
    board.arrive(Arrival::Byte(1));
    board.arrive(Arrival::Damaged(LineError::Overrun));
    board.arrive(Arrival::Byte(2));
    assert!(board.interrupt());
    assert_eq!(sent_after_banner(&board), vec![2]);
    assert_eq!(board.uart().unwrap().pending(), 1);
    assert!(board.interrupt());
    assert_eq!(sent_after_banner(&board), vec![2, 3]);
}

#[test]
fn full_transmitter_drops_the_answers() {
    let mut board = running_board(1);
    board.arrive(Arrival::Byte(10));
    board.arrive(Arrival::Byte(20));
    assert!(board.interrupt());
    assert_eq!(sent_after_banner(&board), vec![11]);
    assert_eq!(board.uart().unwrap().offered()[34..].to_vec(), vec![11, 21]);
    assert_eq!(board.uart().unwrap().pending(), 0);
}

#[test]
fn critical_section_holds_the_handler_back() {
    let mut board = running_board(32);
    board.arrive(Arrival::Byte(5));
    let was_critical = board.enter_critical();
    assert!(!was_critical);
    assert!(!board.interrupt());
    assert!(board.is_pending());
    assert!(!board.event());
    assert!(sent_after_banner(&board).is_empty());
    assert_eq!(board.uart().unwrap().pending(), 1);
    board.arrive(Arrival::Byte(6));
    assert!(board.leave_critical(was_critical));
    assert!(!board.is_pending());
    assert!(board.event());
    assert_eq!(sent_after_banner(&board), vec![6, 7]);
}

#[test]
fn request_before_or_after_an_access_gives_the_same_result() {
    let mut early = running_board(32);
    let was_early = early.enter_critical();
    early.interrupt();
    early.arrive(Arrival::Byte(9));
    early.leave_critical(was_early);

    let mut late = running_board(32);
    let was_late = late.enter_critical();
    late.arrive(Arrival::Byte(9));
    late.interrupt();
    late.leave_critical(was_late);

    assert_eq!(sent_after_banner(&early), vec![10]);
    assert_eq!(sent_after_banner(&late), vec![10]);
    assert_eq!(early.event(), late.event());
    assert_eq!(early.is_pending(), late.is_pending());
}

#[test]
fn nested_critical_sections_release_at_the_outermost() {
    let mut board = running_board(32);
    board.arrive(Arrival::Byte(1));
    let outer = board.enter_critical();
    let inner = board.enter_critical();
    assert!(!outer);
    assert!(inner);
    assert!(!board.interrupt());
    assert!(!board.leave_critical(inner));
    assert!(board.is_pending());
    assert!(sent_after_banner(&board).is_empty());
    assert!(board.leave_critical(outer));
    assert_eq!(sent_after_banner(&board), vec![2]);
}

#[test]
fn leaving_without_a_pending_request_runs_nothing() {
    let mut board = running_board(32);
    let was_critical = board.enter_critical();
    assert!(!board.leave_critical(was_critical));
    assert!(!board.event());
}

#[test]
fn publication_inside_a_critical_section_is_seen_whole() {
    let mut board = Board::power_on(32);
    boot_until(&mut board, Stage::Publish);
    board.arrive(Arrival::Byte(0x41));
    let was_critical = board.enter_critical();
    assert!(!board.interrupt());
    assert_eq!(board.boot(true), Stage::Led);
    assert!(board.leave_critical(was_critical));
    assert!(board.is_published());
    assert_eq!(sent_after_banner(&board), vec![0x42]);
}

#[test]
fn idle_loop_stays_parked_without_an_event() {
    let mut board = running_board(32);
    assert!(!board.idle());
    assert!(!board.idle());
    assert!(board.led().trace().is_empty());
}

#[test]
fn each_wake_shows_exactly_one_pulse() {
    let mut board = running_board(32);
    board.arrive(Arrival::Byte(1));
    assert!(board.interrupt());
    assert!(board.idle());
    assert_eq!(board.led().trace(), &vec![Mark::High, Mark::Held(100), Mark::Low]);
    assert!(!board.led().is_lit());
    assert!(!board.event());
    assert!(!board.idle());
    assert_eq!(board.led().trace().len(), 3);
}

#[test]
fn consecutive_wakes_show_consecutive_pulses_on_the_board() {
    let mut board = running_board(32);
    for round in 1..=4usize {
        assert!(board.interrupt());
        assert!(board.idle());
        assert_eq!(board.led().trace().len(), 3 * round);
    }
    let trace = board.led().trace();
    for pulse in trace.chunks(3) {
        assert_eq!(pulse, &[Mark::High, Mark::Held(100), Mark::Low]);
    }
}

#[test]
fn two_interrupts_before_one_wake_show_one_pulse() {
    let mut board = running_board(32);
    assert!(board.interrupt());
    assert!(board.interrupt());
    assert!(board.idle());
    assert!(!board.idle());
    assert_eq!(board.led().trace().len(), 3);
}

#[test]
fn idle_loop_does_not_run_before_bring_up_is_complete() {
    let mut board = Board::power_on(32);
    boot_until(&mut board, Stage::Led);
    assert!(board.interrupt());
    assert!(board.event());
    assert!(!board.idle());
    assert!(board.led().trace().is_empty());
    board.boot(true);
    assert!(board.idle());
    assert_eq!(board.led().trace().len(), 3);
}

#[test]
fn critical_flag_follows_enter_and_leave() {
    let mut board = running_board(32);
    assert!(!board.in_critical());
    let was_critical = board.enter_critical();
    assert!(board.in_critical());
    board.leave_critical(was_critical);
    assert!(!board.in_critical());
}

#[test]
fn apply_does_what_the_named_operation_does() {
    let mut by_name = Board::power_on(8);
    let mut by_call = Board::power_on(8);
    for _ in 0..12 {
        by_name.apply(Happening::Boot(true));
        by_call.boot(true);
    }
    by_name.apply(Happening::Arrive(Arrival::Byte(0x41)));
    by_call.arrive(Arrival::Byte(0x41));
    by_name.apply(Happening::Enter);
    let was_critical = by_call.enter_critical();
    by_name.apply(Happening::Interrupt);
    by_call.interrupt();
    by_name.apply(Happening::Leave(false));
    by_call.leave_critical(was_critical);
    by_name.apply(Happening::Idle);
    by_call.idle();

    assert_eq!(by_name.stage(), Stage::Idle);
    assert_eq!(by_name.stage(), by_call.stage());
    assert_eq!(sent_after_banner(&by_name), vec![0x42]);
    assert_eq!(sent_after_banner(&by_name), sent_after_banner(&by_call));
    assert_eq!(by_name.event(), by_call.event());
    assert_eq!(by_name.is_pending(), by_call.is_pending());
    assert_eq!(by_name.led().trace(), by_call.led().trace());
    assert_eq!(by_name.led().trace(), &vec![Mark::High, Mark::Held(100), Mark::Low]);
}

#[test]
fn failed_boot_through_apply_halts() {
    let mut board = Board::power_on(8);
    board.apply(Happening::Boot(false));
    assert_eq!(board.stage(), Stage::Halted);
}
