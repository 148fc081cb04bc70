//! The actuator controller: two directional output lines under a
//! mutual-exclusion invariant.
//!
//! The controller is write-only: each command is applied as an absolute
//! two-step instruction (deassert the opposing line, then assert the target,
//! or deassert both), never as a diff against prior state.  The
//! deassert-before-assert ordering keeps the two lines from ever being
//! asserted together, even at the instant between the two line writes.

use vstd::prelude::*;
use crate::command::Command;

verus! {

/// The commanded levels of the two directional output lines.
#[derive(Clone, Copy, Debug, PartialEq, Eq, Structural)]
pub struct ActuatorState {
    /// Level of the line that drives the actuator upward.
    pub raise_line: bool,
    /// Level of the line that drives the actuator downward.
    pub lower_line: bool,
}

/// The state a command leaves the lines in.  It does not depend on the
/// prior state: commands are absolute, never a diff.
pub open spec fn apply_spec(s: ActuatorState, c: Command) -> ActuatorState {
    match c {
        Command::Raise => ActuatorState { raise_line: true, lower_line: false },
        Command::Lower => ActuatorState { raise_line: false, lower_line: true },
        Command::Stop => ActuatorState { raise_line: false, lower_line: false },
    }
}

/// The state after the first of the two line writes of `apply`: the write
/// that deasserts the opposing line (for a stop, the lower line first).
pub open spec fn apply_mid_spec(s: ActuatorState, c: Command) -> ActuatorState {
    match c {
        Command::Raise => ActuatorState { raise_line: s.raise_line, lower_line: false },
        Command::Lower => ActuatorState { raise_line: false, lower_line: s.lower_line },
        Command::Stop => ActuatorState { raise_line: s.raise_line, lower_line: false },
    }
}

impl ActuatorState {
    /// The safety invariant: the two lines are never asserted together.
    pub open spec fn wf(self) -> bool {
        !(self.raise_line && self.lower_line)
    }

    /// Both lines start deasserted.
    pub fn new() -> (s: ActuatorState)
        ensures
            s == (ActuatorState { raise_line: false, lower_line: false }),
            s.wf(),
    {
        ActuatorState { raise_line: false, lower_line: false }
    }

    /// Write the raise line to `level`.
    pub fn set_raise_line(&mut self, level: bool)
        ensures
            final(self).raise_line == level,
            final(self).lower_line == old(self).lower_line,
    {
        self.raise_line = level;
    }

    /// Write the lower line to `level`.
    pub fn set_lower_line(&mut self, level: bool)
        ensures
            final(self).lower_line == level,
            final(self).raise_line == old(self).raise_line,
    {
        self.lower_line = level;
    }

    /// Apply a command: deassert the opposing line, then assert the target
    /// line (or deassert both).  The result never has both lines asserted.
    pub fn apply(&mut self, c: Command)
        ensures
            *final(self) == apply_spec(*old(self), c),
            final(self).wf(),
    {
        match c {
            Command::Raise => {
                self.set_lower_line(false);
                self.set_raise_line(true);
            },
            Command::Lower => {
                self.set_raise_line(false);
                self.set_lower_line(true);
            },
            Command::Stop => {
                self.set_lower_line(false);
                self.set_raise_line(false);
            },
        }
    }
}

/// Mutual exclusion across a command transition: starting from any state,
/// the lines are not both asserted after the first line write of `apply`,
/// nor after the second.
pub proof fn lemma_mutual_exclusion(s: ActuatorState, c: Command)
    ensures
        apply_mid_spec(s, c).wf(),
        apply_spec(s, c).wf(),
{
}

/// The line state after a whole sequence of commands, applied in order
/// starting from `s`.
pub open spec fn apply_all(s: ActuatorState, cs: Seq<Command>) -> ActuatorState
    decreases cs.len(),
{
    if cs.len() == 0 {
        s
    } else {
        apply_all(apply_spec(s, cs[0]), cs.subrange(1, cs.len() as int))
    }
}

/// Mutual exclusion at every reachable state: from a well-formed start, no
/// sequence of commands ever reaches a state with both lines asserted.
pub proof fn lemma_reachable_mutual_exclusion(s: ActuatorState, cs: Seq<Command>)
    requires
        s.wf(),
    ensures
        apply_all(s, cs).wf(),
    decreases cs.len(),
{
    if cs.len() > 0 {
        lemma_reachable_mutual_exclusion(apply_spec(s, cs[0]), cs.subrange(1, cs.len() as int));
    }
}

/// Idempotence: applying a command twice in a row leaves the same state as
/// applying it once.
pub proof fn lemma_apply_idempotent(s: ActuatorState, c: Command)
    ensures
        apply_spec(apply_spec(s, c), c) == apply_spec(s, c),
{
}

} // verus!
