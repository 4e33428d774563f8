use debug_stub::emu::{Emu, Event};
use debug_stub::event_loop::{
    interrupt_stop_reason, stop_reason_for_event, wait_for_stop_reason, LoopAction, StopReason,
    StopSignal,
};
use debug_stub::scripted::ScriptedPoll;

#[test]
fn a_completed_step_maps_to_step_done() {
    assert_eq!(stop_reason_for_event(Event::DoneStep), StopReason::DoneStep);
}

#[test]
fn a_halt_maps_to_termination_by_the_stop_signal() {
    assert_eq!(
        stop_reason_for_event(Event::Halted),
        StopReason::Terminated(StopSignal::Stop)
    );
}

#[test]
fn an_interrupt_is_answered_with_the_trap_signal() {
    assert_eq!(
        interrupt_stop_reason(),
        StopReason::Signal(StopSignal::Trap)
    );
}

#[test]
fn step_mode_reports_without_touching_the_connection() {
    let mut emu = Emu::new(true).unwrap();
    emu.single_step(None).unwrap();
    let mut poll = ScriptedPoll::new(Some(0));
    let action = wait_for_stop_reason(&mut emu, &mut poll);
    assert_eq!(action, LoopAction::Report(StopReason::DoneStep));
    assert_eq!(poll.polls_made(), 0);
}

#[test]
fn continue_mode_reads_a_byte_when_data_waits() {
    let mut emu = Emu::new(false).unwrap();
    let mut poll = ScriptedPoll::new(Some(0));
    let action = wait_for_stop_reason(&mut emu, &mut poll);
    assert_eq!(action, LoopAction::ReadByte);
    assert_eq!(poll.polls_made(), 1);
}

#[test]
fn continue_mode_reports_when_the_connection_is_quiet() {
    let mut emu = Emu::new(false).unwrap();
    let mut poll = ScriptedPoll::new(None);
    let action = wait_for_stop_reason(&mut emu, &mut poll);
    assert_eq!(action, LoopAction::Report(StopReason::DoneStep));
    assert_eq!(poll.polls_made(), 1);
}
