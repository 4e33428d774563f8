use vstd::prelude::*;

verus! {

/// Outcome of one unit of target progress.
#[derive(Debug, Copy, Clone, PartialEq, Eq, Structural)]
pub enum Event {
    /// One unit of work completed; the target can keep going.
    DoneStep,
    /// The target reached a terminal condition.
    Halted,
}

/// Termination policy of the next `run` call: stop after one unit of work,
/// or keep going until an execution event or incoming connection data.
#[derive(Debug, Copy, Clone, PartialEq, Eq, Structural)]
pub enum ExecMode {
    Step,
    Continue,
}

/// Result of a `run` call: exactly one of "the connection has data waiting"
/// or "execution produced an event".
#[derive(Debug, Copy, Clone, PartialEq, Eq, Structural)]
pub enum RunEvent {
    IncomingData,
    Event(Event),
}

/// Why a resume-family request was rejected: this target does not model
/// delivering a signal to the debuggee.
#[derive(Debug, Copy, Clone, PartialEq, Eq, Structural)]
pub enum CapabilityError {
    ContinueWithSignal,
    StepWithSignal,
}

impl CapabilityError {
    /// Human-readable description of the rejection.
    pub fn message(&self) -> (r: &'static str)
        ensures
            *self is ContinueWithSignal ==> r@ == "no support for continuing with signal"@,
            *self is StepWithSignal ==> r@ == "no support for stepping with signal"@,
    {
        match self {
            CapabilityError::ContinueWithSignal => "no support for continuing with signal",
            CapabilityError::StepWithSignal => "no support for stepping with signal",
        }
    }
}

/// How the debugger's optional single-stepping should be advertised for an
/// architecture: it may be used if available, must be handled, or is never
/// used regardless of support.
#[derive(Debug, Copy, Clone, PartialEq, Eq, Structural)]
pub enum SingleStepBehavior {
    Optional,
    Required,
    Ignored,
}

/// In `Continue` mode, the connection is polled once every this many units
/// of work, trading debugger responsiveness against per-unit overhead.
pub const POLL_INTERVAL: u64 = 1024;

/// The unit-of-work interface a target's interpreter satisfies.
///
/// `steps()` counts the units performed so far and `event_at(k)` fixes the
/// outcome of the `k`-th unit, so the run loop's behaviour can be stated
/// exactly: stepping advances the count by one and reports the scripted
/// outcome, while the script itself never changes. The spec functions have
/// inert defaults so an implementor outside the proofs need only supply
/// `step_unit`; every implementor here overrides them.
pub trait Stepper {
    /// Validity of the stepper's internal state.
    open spec fn inv(&self) -> bool {
        true
    }

    /// Number of units of work performed so far.
    open spec fn steps(&self) -> nat {
        0
    }

    /// Outcome of the `k`-th unit of work (`None`: nothing to report).
    open spec fn event_at(&self, k: nat) -> Option<Event> {
        None
    }

    /// Perform exactly one unit of target progress.
    fn step_unit(&mut self) -> (r: Option<Event>)
        requires
            old(self).inv(),
        ensures
            final(self).inv(),
            final(self).steps() == old(self).steps() + 1,
            forall|k: nat| final(self).event_at(k) == old(self).event_at(k),
            r == old(self).event_at(old(self).steps()),
    ;
}

/// A non-blocking peek at the debugger connection.
///
/// `polls()` counts the peeks made so far and `ready_at(k)` fixes what the
/// `k`-th peek reports, so a run's poll discipline can be stated exactly.
/// The spec functions have inert defaults so an implementor outside the
/// proofs need only supply `poll_incoming_data`; every implementor here
/// overrides them.
pub trait PollSource {
    /// Validity of the poll source's internal state.
    open spec fn inv(&self) -> bool {
        true
    }

    /// Number of polls made so far.
    open spec fn polls(&self) -> nat {
        0
    }

    /// What the `k`-th poll reports: is a byte available on the connection?
    open spec fn ready_at(&self, k: nat) -> bool {
        false
    }

    /// Report whether connection data is available, without consuming any.
    fn poll_incoming_data(&mut self) -> (r: bool)
        requires
            old(self).inv(),
        ensures
            final(self).inv(),
            final(self).polls() == old(self).polls() + 1,
            forall|k: nat| final(self).ready_at(k) == old(self).ready_at(k),
            r == old(self).ready_at(old(self).polls()),
    ;
}

/// No unit in `[lo, hi)` of `s`'s script produces an event.
pub open spec fn no_event_in<S: Stepper>(s: &S, lo: nat, hi: nat) -> bool {
    forall|k: nat| lo <= k < hi ==> s.event_at(k) is None
}

/// No poll in `[lo, hi)` of `p`'s script reports data.
pub open spec fn not_ready_in<P: PollSource>(p: &P, lo: nat, hi: nat) -> bool {
    forall|k: nat| lo <= k < hi ==> !p.ready_at(k)
}

/// A `Continue`-mode run is guaranteed to come back only if the target will
/// eventually produce an event or the connection will eventually have data.
pub open spec fn eventually_stops<S: Stepper, P: PollSource>(s: &S, p: &P) -> bool {
    (exists|k: nat| k >= s.steps() && s.event_at(k) is Some) || (exists|k: nat|
        k >= p.polls() && p.ready_at(k))
}

/// The mode-directed run loop shared by every target.
///
/// In `Step` mode it performs exactly one unit of work and never polls. In
/// `Continue` mode it performs units of work back to back, polling once at
/// the start of every `POLL_INTERVAL`-unit interval; the first poll that
/// reports data ends the run with `IncomingData` before the interval's first
/// unit is started, and the first unit that produces an event ends the run
/// with that event.
#[verifier::loop_isolation(false)]
pub fn run_core<S: Stepper, P: PollSource>(mode: ExecMode, s: &mut S, p: &mut P) -> (r: RunEvent)
    requires
        old(s).inv(),
        old(p).inv(),
        mode is Continue ==> eventually_stops(old(s), old(p)),
    ensures
        final(s).inv(),
        final(p).inv(),
        forall|k: nat| final(s).event_at(k) == old(s).event_at(k),
        forall|k: nat| final(p).ready_at(k) == old(p).ready_at(k),
        mode is Step ==> {
            &&& final(s).steps() == old(s).steps() + 1
            &&& final(p).polls() == old(p).polls()
            &&& r == RunEvent::Event(
                match old(s).event_at(old(s).steps()) {
                    Some(e) => e,
                    None => Event::DoneStep,
                },
            )
        },
        mode is Continue ==> {
            let n0 = old(s).steps();
            let p0 = old(p).polls();
            let n1 = final(s).steps();
            let p1 = final(p).polls();
            match r {
                RunEvent::IncomingData => {
                    &&& n1 >= n0
                    &&& p1 > p0
                    &&& n1 - n0 == POLL_INTERVAL * (p1 - p0 - 1)
                    &&& old(p).ready_at((p1 - 1) as nat)
                    &&& not_ready_in(old(p), p0, (p1 - 1) as nat)
                    &&& no_event_in(old(s), n0, n1)
                },
                RunEvent::Event(e) => {
                    &&& n1 > n0
                    &&& old(s).event_at((n1 - 1) as nat) == Some(e)
                    &&& no_event_in(old(s), n0, (n1 - 1) as nat)
                    &&& POLL_INTERVAL * (p1 - p0 - 1) <= n1 - 1 - n0 < POLL_INTERVAL * (p1 - p0)
                    &&& not_ready_in(old(p), p0, p1)
                },
            }
        },
{
    match mode {
        ExecMode::Step => {
            let stepped = s.step_unit();
            RunEvent::Event(
                match stepped {
                    Some(e) => e,
                    None => Event::DoneStep,
                },
            )
        },
        ExecMode::Continue => {
            let ghost n0 = old(s).steps();
            let ghost p0 = old(p).polls();
            let ghost bound: nat = if exists|k: nat| k >= n0 && old(s).event_at(k) is Some {
                ((choose|k: nat| k >= n0 && old(s).event_at(k) is Some) - n0) as nat
            } else {
                (POLL_INTERVAL * ((choose|k: nat| k >= p0 && old(p).ready_at(k)) - p0)) as nat
            };
            let mut in_interval: u64 = 0;
            let ghost mut i: nat = 0nat;
            let ghost mut q: nat = 0nat;
            loop
                invariant
                    s.inv(),
                    p.inv(),
                    forall|k: nat| s.event_at(k) == old(s).event_at(k),
                    forall|k: nat| p.ready_at(k) == old(p).ready_at(k),
                    s.steps() == n0 + i,
                    p.polls() == p0 + q,
                    in_interval < POLL_INTERVAL,
                    in_interval == 0 ==> i == POLL_INTERVAL * q,
                    in_interval != 0 ==> q >= 1 && i == POLL_INTERVAL * (q - 1) + in_interval,
                    no_event_in(old(s), n0, n0 + i),
                    not_ready_in(old(p), p0, p0 + q),
                    i <= bound,
                decreases bound - i,
            {
                if in_interval == 0 {
                    let ready = p.poll_incoming_data();
                    proof {
                        q = q + 1;
                    }
                    if ready {
                        return RunEvent::IncomingData;
                    }
                }
                in_interval = in_interval + 1;
                if in_interval == POLL_INTERVAL {
                    in_interval = 0;
                }
                let stepped = s.step_unit();
                proof {
                    i = i + 1;
                }
                if let Some(e) = stepped {
                    return RunEvent::Event(e);
                }
                proof {
                    if exists|k: nat| k >= n0 && old(s).event_at(k) is Some {
                        let w = choose|k: nat| k >= n0 && old(s).event_at(k) is Some;
                        assert(old(s).event_at(w) is Some);
                        if w < n0 + i {
                            assert(old(s).event_at(w) is None);
                        }
                    } else {
                        let w = choose|k: nat| k >= p0 && old(p).ready_at(k);
                        assert(old(p).ready_at(w));
                        if w < p0 + q {
                            assert(!old(p).ready_at(w));
                        }
                    }
                }
            }
        },
    }
}

/// The stand-in interpreter: it performs no real computation, so every unit
/// of work completes at once and nothing ever halts. A real interpreter
/// would replace this type behind the same `Stepper` interface.
pub struct NullInterp {
    /// Units of work performed so far.
    pub steps_taken: Ghost<nat>,
}

impl Stepper for NullInterp {
    open spec fn inv(&self) -> bool {
        true
    }

    open spec fn steps(&self) -> nat {
        self.steps_taken@
    }

    open spec fn event_at(&self, k: nat) -> Option<Event> {
        Some(Event::DoneStep)
    }

    fn step_unit(&mut self) -> (r: Option<Event>) {
        self.steps_taken = Ghost(self.steps_taken@ + 1);
        Some(Event::DoneStep)
    }
}

/// The live state of one debugging session: the configuration chosen at
/// session start, the execution mode the control loop steers, and the
/// stand-in interpreter that makes the target's progress.
pub struct Emu {
    /// Whether the session advertises single-stepping to the debugger.
    pub with_single_step: bool,
    /// Whether the architecture's documented single-step quirk is enforced
    /// when advertising capabilities.
    pub with_guard_rail: bool,
    /// Termination policy of the next `run` call; changed only between runs.
    pub exec_mode: ExecMode,
    /// The interpreter driven by `step` and `run`.
    pub interp: NullInterp,
}

impl Emu {
    /// Create a session with the given single-step configuration; the
    /// architecture guard rail starts enforced and the mode is `Continue`.
    pub fn new(with_single_step: bool) -> (r: Result<Emu, CapabilityError>)
        ensures
            r matches Ok(e) && e == (Emu {
                with_single_step,
                with_guard_rail: true,
                exec_mode: ExecMode::Continue,
                interp: NullInterp { steps_taken: Ghost(0nat) },
            }),
    {
        Emu::with_options(with_single_step, true)
    }

    /// Create a session, choosing both configuration flags.
    pub fn with_options(with_single_step: bool, with_guard_rail: bool) -> (r: Result<
        Emu,
        CapabilityError,
    >)
        ensures
            r matches Ok(e) && e == (Emu {
                with_single_step,
                with_guard_rail,
                exec_mode: ExecMode::Continue,
                interp: NullInterp { steps_taken: Ghost(0nat) },
            }),
    {
        Ok(
            Emu {
                with_single_step,
                with_guard_rail,
                exec_mode: ExecMode::Continue,
                interp: NullInterp { steps_taken: Ghost(0nat) },
            },
        )
    }

    /// Perform one unit of target progress. This target never halts and
    /// never fails: every unit completes with `DoneStep`.
    pub fn step(&mut self) -> (r: Option<Event>)
        ensures
            r == Some(Event::DoneStep),
            final(self).interp.steps_taken@ == old(self).interp.steps_taken@ + 1,
            final(self).with_single_step == old(self).with_single_step,
            final(self).with_guard_rail == old(self).with_guard_rail,
            final(self).exec_mode == old(self).exec_mode,
    {
        self.interp.step_unit()
    }

    /// Run according to the current execution mode, polling the connection
    /// through `poll_incoming_data` once per `POLL_INTERVAL` units while
    /// continuing. Since this target reports an event on every unit, a
    /// `Continue` run ends after the first poll-and-step round.
    pub fn run<P: PollSource>(&mut self, poll_incoming_data: &mut P) -> (r: RunEvent)
        requires
            old(poll_incoming_data).inv(),
        ensures
            final(poll_incoming_data).inv(),
            forall|k: nat|
                final(poll_incoming_data).ready_at(k) == old(poll_incoming_data).ready_at(k),
            final(self).with_single_step == old(self).with_single_step,
            final(self).with_guard_rail == old(self).with_guard_rail,
            final(self).exec_mode == old(self).exec_mode,
            old(self).exec_mode is Step ==> {
                &&& r == RunEvent::Event(Event::DoneStep)
                &&& final(self).interp.steps_taken@ == old(self).interp.steps_taken@ + 1
                &&& final(poll_incoming_data).polls() == old(poll_incoming_data).polls()
            },
            old(self).exec_mode is Continue ==> {
                if old(poll_incoming_data).ready_at(old(poll_incoming_data).polls()) {
                    &&& r == RunEvent::IncomingData
                    &&& final(self).interp.steps_taken@ == old(self).interp.steps_taken@
                    &&& final(poll_incoming_data).polls() == old(poll_incoming_data).polls() + 1
                } else {
                    &&& r == RunEvent::Event(Event::DoneStep)
                    &&& final(self).interp.steps_taken@ == old(self).interp.steps_taken@ + 1
                    &&& final(poll_incoming_data).polls() == old(poll_incoming_data).polls() + 1
                }
            },
    {
        let mode = self.exec_mode;
        proof {
            assert(self.interp.event_at(self.interp.steps()) is Some);
        }
        let r = run_core(mode, &mut self.interp, poll_incoming_data);
        proof {
            let n0 = old(self).interp.steps_taken@;
            let n1 = self.interp.steps_taken@;
            if mode is Continue {
                match r {
                    RunEvent::IncomingData => {
                        if n1 > n0 {
                            assert(old(self).interp.event_at(n0) is None);
                        }
                    },
                    RunEvent::Event(_e) => {
                        if n1 - 1 > n0 {
                            assert(old(self).interp.event_at(n0) is None);
                        }
                    },
                }
            }
        }
        r
    }

    /// Whether a resume request is honoured at all.
    pub fn support_resume(&self) -> (r: bool)
        ensures
            r,
    {
        true
    }

    /// Whether single-stepping is advertised to the debugger: exactly when
    /// the session was configured to allow it.
    pub fn support_single_step(&self) -> (r: bool)
        ensures
            r == self.with_single_step,
    {
        self.with_single_step
    }

    /// Whether single registers can be accessed by numeric id.
    pub fn support_single_register_access(&self) -> (r: bool)
        ensures
            r,
    {
        true
    }

    /// Whether the protocol layer may assume software breakpoints work
    /// without the target implementing them: always, since no architecture
    /// variant inserts physical breakpoints.
    pub fn guard_rail_implicit_sw_breakpoints(&self) -> (r: bool)
        ensures
            r,
    {
        true
    }

    /// Honour a resume request: a non-empty signal is rejected without any
    /// state change, otherwise the mode becomes `Continue`.
    pub fn resume(&mut self, signal: Option<u8>) -> (r: Result<(), CapabilityError>)
        ensures
            signal is Some ==> r == Err::<(), CapabilityError>(CapabilityError::ContinueWithSignal)
                && *final(self) == *old(self),
            signal is None ==> r is Ok && *final(self) == (Emu {
                exec_mode: ExecMode::Continue,
                ..*old(self)
            }),
    {
        if signal.is_some() {
            return Err(CapabilityError::ContinueWithSignal);
        }
        self.exec_mode = ExecMode::Continue;
        Ok(())
    }

    /// Honour a single-step request: a non-empty signal is rejected without
    /// any state change, otherwise the mode becomes `Step`.
    pub fn single_step(&mut self, signal: Option<u8>) -> (r: Result<(), CapabilityError>)
        ensures
            signal is Some ==> r == Err::<(), CapabilityError>(CapabilityError::StepWithSignal)
                && *final(self) == *old(self),
            signal is None ==> r is Ok && *final(self) == (Emu {
                exec_mode: ExecMode::Step,
                ..*old(self)
            }),
    {
        if signal.is_some() {
            return Err(CapabilityError::StepWithSignal);
        }
        self.exec_mode = ExecMode::Step;
        Ok(())
    }
}

} // verus!
