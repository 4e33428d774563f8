use debug_stub::emu::{run_core, Event, ExecMode, RunEvent, Stepper, POLL_INTERVAL};
use debug_stub::event_loop::run_to_halt;
use debug_stub::scripted::{ScriptedPoll, ScriptedStepper};

#[test]
fn continue_mode_polls_once_per_interval() {
    // The connection first reports data on its sixth poll, i.e. only after
    // more than 5000 units of work are covered by the first five interval
    // checks. The run must make exactly five intervals of progress (5120
    // units at the reference interval of 1024) and then stop on the poll.
    let mut stepper = ScriptedStepper::new(None);
    let mut poll = ScriptedPoll::new(Some(5));
    let r = run_core(ExecMode::Continue, &mut stepper, &mut poll);
    assert_eq!(r, RunEvent::IncomingData);
    assert_eq!(stepper.steps_taken(), 5 * POLL_INTERVAL);
    assert_eq!(stepper.steps_taken(), 5120);
    assert_eq!(poll.polls_made(), 6);
}

#[test]
fn continue_mode_returns_immediately_on_first_ready_poll() {
    let mut stepper = ScriptedStepper::new(None);
    let mut poll = ScriptedPoll::new(Some(0));
    let r = run_core(ExecMode::Continue, &mut stepper, &mut poll);
    assert_eq!(r, RunEvent::IncomingData);
    assert_eq!(stepper.steps_taken(), 0);
    assert_eq!(poll.polls_made(), 1);
}

#[test]
fn continue_mode_stops_on_the_first_event() {
    let mut stepper = ScriptedStepper::new(Some(10));
    let mut poll = ScriptedPoll::new(None);
    let r = run_core(ExecMode::Continue, &mut stepper, &mut poll);
    assert_eq!(r, RunEvent::Event(Event::Halted));
    assert_eq!(stepper.steps_taken(), 11);
    assert_eq!(poll.polls_made(), 1);
}

#[test]
fn step_mode_does_one_unit_and_never_polls() {
    let mut stepper = ScriptedStepper::new(None);
    let mut poll = ScriptedPoll::new(Some(0));
    let r = run_core(ExecMode::Step, &mut stepper, &mut poll);
    assert_eq!(r, RunEvent::Event(Event::DoneStep));
    assert_eq!(stepper.steps_taken(), 1);
    assert_eq!(poll.polls_made(), 0);
}

#[test]
fn step_mode_reports_a_halt_event() {
    let mut stepper = ScriptedStepper::new(Some(0));
    let mut poll = ScriptedPoll::new(None);
    let r = run_core(ExecMode::Step, &mut stepper, &mut poll);
    assert_eq!(r, RunEvent::Event(Event::Halted));
    assert_eq!(stepper.steps_taken(), 1);
    assert_eq!(poll.polls_made(), 0);
}

#[test]
fn free_run_reaches_the_halt() {
    let mut stepper = ScriptedStepper::new(Some(100));
    run_to_halt(&mut stepper);
    assert_eq!(stepper.steps_taken(), 101);
}

#[test]
fn halted_target_stays_halted_under_further_steps() {
    let mut stepper = ScriptedStepper::new(Some(3));
    run_to_halt(&mut stepper);
    assert_eq!(stepper.steps_taken(), 4);
    // Stepping past the halt stays coherent: the same terminal event keeps
    // being reported, call after call.
    assert_eq!(stepper.step_unit(), Some(Event::Halted));
    assert_eq!(stepper.step_unit(), Some(Event::Halted));
    assert_eq!(stepper.steps_taken(), 6);
}

#[test]
fn scripted_stepper_reports_nothing_before_the_halt() {
    let mut stepper = ScriptedStepper::new(Some(2));
    assert_eq!(stepper.step_unit(), None);
    assert_eq!(stepper.step_unit(), None);
    assert_eq!(stepper.step_unit(), Some(Event::Halted));
}
