//! The optional debug controller: pause, resume and single-step.

use vstd::prelude::*;

verus! {

/// Whether cycles are executed.
#[derive(Clone, Copy, Debug, PartialEq, Eq, Structural)]
pub enum RunState {
    /// Every step executes a cycle.
    Running,
    /// No step executes a cycle.
    Halted,
    /// Halted, but the next step executes one cycle.
    SingleStepPending,
}

/// What a controller holds: its run state and the sticky fault flag.
pub struct DebugView {
    pub state: RunState,
    pub faulted: bool,
}

impl DebugView {
    /// A controller as it is made: running, no fault.
    pub open spec fn initial() -> DebugView {
        DebugView { state: RunState::Running, faulted: false }
    }

    /// Whether the next step executes a cycle.
    pub open spec fn executes(self) -> bool {
        self.state != RunState::Halted
    }

    /// After the host's "pause": a running machine halts.
    pub open spec fn pause(self) -> DebugView {
        if self.state == RunState::Running {
            DebugView { state: RunState::Halted, ..self }
        } else {
            self
        }
    }

    /// After the host's "resume": a halted machine runs again, unless it
    /// has faulted.
    pub open spec fn resume(self) -> DebugView {
        if self.faulted {
            self
        } else {
            DebugView { state: RunState::Running, ..self }
        }
    }

    /// After the host's "step": a halted machine owes one cycle, unless it
    /// has faulted.
    pub open spec fn single_step(self) -> DebugView {
        if self.state == RunState::Halted && !self.faulted {
            DebugView { state: RunState::SingleStepPending, ..self }
        } else {
            self
        }
    }

    /// After a cycle that did not fault: an owed single step is paid.
    pub open spec fn cycle_done(self) -> DebugView {
        if self.state == RunState::SingleStepPending {
            DebugView { state: RunState::Halted, ..self }
        } else {
            self
        }
    }

    /// After a cycle that faulted: halted, and the fault flag sticks.
    pub open spec fn fault(self) -> DebugView {
        DebugView { state: RunState::Halted, faulted: true }
    }
}

/// Gates the machine's cycles on behalf of a host debugger.
#[derive(Clone, Copy, Debug)]
pub struct DebugController {
    state: RunState,
    faulted: bool,
}

impl View for DebugController {
    type V = DebugView;

    closed spec fn view(&self) -> DebugView {
        DebugView { state: self.state, faulted: self.faulted }
    }
}

impl DebugController {
    /// A controller that lets the machine run.
    pub fn new() -> (c: DebugController)
        ensures
            c@ == DebugView::initial(),
    {
        DebugController { state: RunState::Running, faulted: false }
    }

    /// The run state.
    pub fn state(&self) -> (s: RunState)
        ensures
            s == self@.state,
    {
        self.state
    }

    /// Whether a cycle has faulted since the controller was made.
    pub fn is_faulted(&self) -> (f: bool)
        ensures
            f == self@.faulted,
    {
        self.faulted
    }

    /// Whether the next step executes a cycle.
    pub fn executes(&self) -> (b: bool)
        ensures
            b == self@.executes(),
    {
        match self.state {
            RunState::Halted => false,
            _ => true,
        }
    }

    /// Halts a running machine.
    pub fn pause(&mut self)
        ensures
            final(self)@ == old(self)@.pause(),
    {
        match self.state {
            RunState::Running => {
                self.state = RunState::Halted;
            },
            _ => {},
        }
    }

    /// Lets a halted machine run again; a faulted one stays halted.
    pub fn resume(&mut self)
        ensures
            final(self)@ == old(self)@.resume(),
    {
        if !self.faulted {
            self.state = RunState::Running;
        }
    }

    /// Asks a halted machine for exactly one cycle; a faulted one stays
    /// halted.
    pub fn single_step(&mut self)
        ensures
            final(self)@ == old(self)@.single_step(),
    {
        match self.state {
            RunState::Halted => {
                if !self.faulted {
                    self.state = RunState::SingleStepPending;
                }
            },
            _ => {},
        }
    }

    /// Records that a cycle was executed without a fault.
    pub fn cycle_done(&mut self)
        ensures
            final(self)@ == old(self)@.cycle_done(),
    {
        match self.state {
            RunState::SingleStepPending => {
                self.state = RunState::Halted;
            },
            _ => {},
        }
    }

    /// Records that a cycle faulted.
    pub fn fault(&mut self)
        ensures
            final(self)@ == old(self)@.fault(),
    {
        self.state = RunState::Halted;
        self.faulted = true;
    }
}

} // verus!
