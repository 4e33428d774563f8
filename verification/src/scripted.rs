use vstd::prelude::*;
use crate::emu::{Event, PollSource, Stepper};

verus! {

/// The outcome a scripted interpreter reports for unit `k`: nothing until
/// `halt_after` units have completed, then `Halted` forever (and never
/// anything when no halt point is set).
pub open spec fn spec_scripted_event(halt_after: Option<u64>, k: nat) -> Option<Event> {
    match halt_after {
        Some(h) => if k >= h {
            Some(Event::Halted)
        } else {
            None
        },
        None => None,
    }
}

/// What a scripted connection reports for poll `k`: no data before
/// `ready_from` polls have happened, data from then on (and never any data
/// when no ready point is set).
pub open spec fn spec_scripted_ready(ready_from: Option<u64>, k: nat) -> bool {
    match ready_from {
        Some(t) => k >= t,
        None => false,
    }
}

/// A deterministic interpreter stand-in driven by a script: it reports no
/// event for the first `halt_after` units, then halts. It exists so the run
/// loop can be exercised against a target whose behaviour is fixed up
/// front.
pub struct ScriptedStepper {
    count: u64,
    pos: Ghost<nat>,
    halt_after: Option<u64>,
}

impl ScriptedStepper {
    /// Build a stepper that halts after `halt_after` units of work, or
    /// never halts when given `None`.
    pub fn new(halt_after: Option<u64>) -> (r: ScriptedStepper)
        ensures
            r.inv(),
            r.steps() == 0,
            forall|k: nat| r.event_at(k) == spec_scripted_event(halt_after, k),
    {
        ScriptedStepper { count: 0, pos: Ghost(0nat), halt_after }
    }

    /// The number of units performed, saturating at `u64::MAX`.
    pub fn steps_taken(&self) -> (r: u64)
        requires
            self.inv(),
        ensures
            self.steps() <= u64::MAX ==> r == self.steps(),
            self.steps() > u64::MAX ==> r == u64::MAX,
    {
        self.count
    }
}

impl Stepper for ScriptedStepper {
    closed spec fn inv(&self) -> bool {
        if self.pos@ <= u64::MAX {
            self.count == self.pos@
        } else {
            self.count == u64::MAX
        }
    }

    closed spec fn steps(&self) -> nat {
        self.pos@
    }

    closed spec fn event_at(&self, k: nat) -> Option<Event> {
        spec_scripted_event(self.halt_after, k)
    }

    fn step_unit(&mut self) -> (r: Option<Event>) {
        let r: Option<Event> = match self.halt_after {
            Some(h) => if self.count >= h {
                Some(Event::Halted)
            } else {
                None
            },
            None => None,
        };
        if self.count < u64::MAX {
            self.count = self.count + 1;
        }
        self.pos = Ghost(self.pos@ + 1);
        r
    }
}

/// Once a scripted target has halted, every later unit of work reports the
/// same halt: the halted state is a steady state, and a free run that keeps
/// stepping past it stays coherent.
pub proof fn lemma_halt_is_steady(s: ScriptedStepper, k: nat, j: nat)
    requires
        s.event_at(k) == Some(Event::Halted),
        k <= j,
    ensures
        s.event_at(j) == Some(Event::Halted),
{
}

/// A deterministic connection stand-in driven by a script: the first
/// `ready_from` polls report no data, every later poll reports data. It
/// exists so the run loop's poll discipline can be exercised against a
/// connection whose behaviour is fixed up front.
pub struct ScriptedPoll {
    count: u64,
    pos: Ghost<nat>,
    ready_from: Option<u64>,
}

impl ScriptedPoll {
    /// Build a poll source that first reports data on poll `ready_from`,
    /// or never reports data when given `None`.
    pub fn new(ready_from: Option<u64>) -> (r: ScriptedPoll)
        ensures
            r.inv(),
            r.polls() == 0,
            forall|k: nat| r.ready_at(k) == spec_scripted_ready(ready_from, k),
    {
        ScriptedPoll { count: 0, pos: Ghost(0nat), ready_from }
    }

    /// The number of polls made, saturating at `u64::MAX`.
    pub fn polls_made(&self) -> (r: u64)
        requires
            self.inv(),
        ensures
            self.polls() <= u64::MAX ==> r == self.polls(),
            self.polls() > u64::MAX ==> r == u64::MAX,
    {
        self.count
    }
}

impl PollSource for ScriptedPoll {
    closed spec fn inv(&self) -> bool {
        if self.pos@ <= u64::MAX {
            self.count == self.pos@
        } else {
            self.count == u64::MAX
        }
    }

    closed spec fn polls(&self) -> nat {
        self.pos@
    }

    closed spec fn ready_at(&self, k: nat) -> bool {
        spec_scripted_ready(self.ready_from, k)
    }

    fn poll_incoming_data(&mut self) -> (r: bool) {
        let r = match self.ready_from {
            Some(t) => self.count >= t,
            None => false,
        };
        if self.count < u64::MAX {
            self.count = self.count + 1;
        }
        self.pos = Ghost(self.pos@ + 1);
        r
    }
}

} // verus!
