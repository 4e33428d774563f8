use vstd::prelude::*;
use crate::emu::{Emu, Event, PollSource, Stepper, RunEvent};

verus! {

/// The two fixed signal values this stub ever reports: "stopped" for a
/// simulated termination, and the trace trap for a debugger interrupt.
#[derive(Debug, Copy, Clone, PartialEq, Eq, Structural)]
pub enum StopSignal {
    Stop,
    Trap,
}

/// Protocol-facing classification of why execution halted.
#[derive(Debug, Copy, Clone, PartialEq, Eq, Structural)]
pub enum StopReason {
    /// A single step finished.
    DoneStep,
    /// A signal was delivered to the target (used for synthetic interrupts).
    Signal(StopSignal),
    /// The target terminated with the given signal.
    Terminated(StopSignal),
}

/// What the blocking control loop should do next after a run: pull one byte
/// off the connection, or report a stop reason to the protocol engine.
#[derive(Debug, Copy, Clone, PartialEq, Eq, Structural)]
pub enum LoopAction {
    ReadByte,
    Report(StopReason),
}

/// Spec-level mapping from an execution event to the stop reason the
/// debugger is told about.
pub open spec fn spec_stop_reason(event: Event) -> StopReason {
    match event {
        Event::DoneStep => StopReason::DoneStep,
        Event::Halted => StopReason::Terminated(StopSignal::Stop),
    }
}

/// Map an execution outcome to a protocol stop reason: a completed
/// step reports "step done"; a halt is presented as termination by the
/// fixed "stopped" signal.
pub fn stop_reason_for_event(event: Event) -> (r: StopReason)
    ensures
        r == spec_stop_reason(event),
{
    match event {
        Event::DoneStep => StopReason::DoneStep,
        Event::Halted => StopReason::Terminated(StopSignal::Stop),
    }
}

/// The answer to a debugger interrupt request: the target is implicitly
/// paused whenever the loop is not inside a run, so no target state is
/// touched and a trace-trap stop reason is synthesized directly.
pub fn interrupt_stop_reason() -> (r: StopReason)
    ensures
        r == StopReason::Signal(StopSignal::Trap),
{
    StopReason::Signal(StopSignal::Trap)
}

/// One scheduling opportunity of the blocking control loop: run the target
/// under its current mode and decide whether the next action is reading a
/// connection byte or reporting a mapped stop reason.
pub fn wait_for_stop_reason<P: PollSource>(target: &mut Emu, conn_poll: &mut P) -> (r: LoopAction)
    requires
        old(conn_poll).inv(),
    ensures
        final(conn_poll).inv(),
        forall|k: nat| final(conn_poll).ready_at(k) == old(conn_poll).ready_at(k),
        final(target).with_single_step == old(target).with_single_step,
        final(target).with_guard_rail == old(target).with_guard_rail,
        final(target).exec_mode == old(target).exec_mode,
        old(target).exec_mode is Step ==> {
            &&& r == LoopAction::Report(StopReason::DoneStep)
            &&& final(conn_poll).polls() == old(conn_poll).polls()
        },
        old(target).exec_mode is Continue ==> {
            &&& final(conn_poll).polls() == old(conn_poll).polls() + 1
            &&& r == (if old(conn_poll).ready_at(old(conn_poll).polls()) {
                LoopAction::ReadByte
            } else {
                LoopAction::Report(StopReason::DoneStep)
            })
        },
{
    match target.run(conn_poll) {
        RunEvent::IncomingData => LoopAction::ReadByte,
        RunEvent::Event(event) => LoopAction::Report(stop_reason_for_event(event)),
    }
}

/// Free-run a disconnected target to completion: keep performing units of
/// work, ignoring the connection entirely, until one reports `Halted`.
#[verifier::loop_isolation(false)]
pub fn run_to_halt<S: Stepper>(s: &mut S)
    requires
        old(s).inv(),
        exists|k: nat| k >= old(s).steps() && old(s).event_at(k) == Some(Event::Halted),
    ensures
        final(s).inv(),
        forall|k: nat| final(s).event_at(k) == old(s).event_at(k),
        final(s).steps() > old(s).steps(),
        old(s).event_at((final(s).steps() - 1) as nat) == Some(Event::Halted),
        forall|k: nat|
            old(s).steps() <= k < final(s).steps() - 1 ==> old(s).event_at(k) != Some(
                Event::Halted,
            ),
{
    let ghost n0 = old(s).steps();
    let ghost bound: nat = ((choose|k: nat|
        k >= n0 && old(s).event_at(k) == Some(Event::Halted)) - n0) as nat;
    let ghost mut i: nat = 0nat;
    loop
        invariant
            s.inv(),
            forall|k: nat| s.event_at(k) == old(s).event_at(k),
            s.steps() == n0 + i,
            forall|k: nat| n0 <= k < n0 + i ==> old(s).event_at(k) != Some(Event::Halted),
            i <= bound,
            exists|k: nat| k >= n0 && old(s).event_at(k) == Some(Event::Halted),
        decreases bound - i,
    {
        let stepped = s.step_unit();
        proof {
            i = i + 1;
        }
        if stepped == Some(Event::Halted) {
            return ;
        }
        proof {
            let w = choose|k: nat| k >= n0 && old(s).event_at(k) == Some(Event::Halted);
            assert(old(s).event_at(w) == Some(Event::Halted));
            if w < n0 + i {
                assert(old(s).event_at(w) != Some(Event::Halted));
            }
        }
    }
}

} // verus!
