use debug_stub::emu::{CapabilityError, Emu, Event, ExecMode, RunEvent};
use debug_stub::scripted::ScriptedPoll;

#[test]
fn new_starts_in_continue_mode() {
    let emu = Emu::new(false).unwrap();
    assert_eq!(emu.exec_mode, ExecMode::Continue);
    assert!(!emu.with_single_step);
    assert!(emu.with_guard_rail);
}

#[test]
fn step_always_reports_done_step() {
    let mut emu = Emu::new(false).unwrap();
    for _ in 0..10 {
        assert_eq!(emu.step(), Some(Event::DoneStep));
    }
}

#[test]
fn run_in_step_mode_never_polls() {
    let mut emu = Emu::new(true).unwrap();
    emu.single_step(None).unwrap();
    // Even an always-ready connection must not be consulted in step mode.
    let mut poll = ScriptedPoll::new(Some(0));
    let r = emu.run(&mut poll);
    assert_eq!(r, RunEvent::Event(Event::DoneStep));
    assert_eq!(poll.polls_made(), 0);
}

#[test]
fn run_in_continue_mode_returns_incoming_data_when_ready() {
    let mut emu = Emu::new(false).unwrap();
    let mut poll = ScriptedPoll::new(Some(0));
    let r = emu.run(&mut poll);
    assert_eq!(r, RunEvent::IncomingData);
    assert_eq!(poll.polls_made(), 1);
}

#[test]
fn run_in_continue_mode_steps_when_quiet() {
    let mut emu = Emu::new(false).unwrap();
    let mut poll = ScriptedPoll::new(None);
    let r = emu.run(&mut poll);
    assert_eq!(r, RunEvent::Event(Event::DoneStep));
    assert_eq!(poll.polls_made(), 1);
}

#[test]
fn resume_with_signal_is_rejected_without_state_change() {
    let mut emu = Emu::new(true).unwrap();
    emu.single_step(None).unwrap();
    let r = emu.resume(Some(5));
    assert_eq!(r, Err(CapabilityError::ContinueWithSignal));
    assert_eq!(emu.exec_mode, ExecMode::Step);
}

#[test]
fn single_step_with_signal_is_rejected_without_state_change() {
    let mut emu = Emu::new(true).unwrap();
    let r = emu.single_step(Some(17));
    assert_eq!(r, Err(CapabilityError::StepWithSignal));
    assert_eq!(emu.exec_mode, ExecMode::Continue);
}

#[test]
fn resume_without_signal_sets_continue() {
    let mut emu = Emu::new(true).unwrap();
    emu.single_step(None).unwrap();
    assert_eq!(emu.exec_mode, ExecMode::Step);
    emu.resume(None).unwrap();
    assert_eq!(emu.exec_mode, ExecMode::Continue);
}

#[test]
fn rejection_messages_match_the_capability() {
    assert_eq!(
        CapabilityError::ContinueWithSignal.message(),
        "no support for continuing with signal"
    );
    assert_eq!(
        CapabilityError::StepWithSignal.message(),
        "no support for stepping with signal"
    );
}

#[test]
fn single_step_support_follows_configuration() {
    let with = Emu::new(true).unwrap();
    let without = Emu::new(false).unwrap();
    assert!(with.support_single_step());
    assert!(!without.support_single_step());
}

#[test]
fn baseline_capabilities_are_always_advertised() {
    let emu = Emu::new(false).unwrap();
    assert!(emu.support_resume());
    assert!(emu.support_single_register_access());
    assert!(emu.guard_rail_implicit_sw_breakpoints());
}
