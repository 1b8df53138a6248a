//! What the system does once it cannot go on.
//!
//! There is no process to return to and nothing to unwind: an unrecoverable
//! condition ends in a halt loop that is never left. The loop itself belongs
//! to the program around this library; the decisions are made here.

use vstd::prelude::*;

verus! {

/// Whether the system still makes progress.
#[derive(Clone, Copy, Debug, PartialEq, Eq)]
pub enum SystemState {
    Running,
    Halted,
}

/// What the processor is told to do next.
#[derive(Clone, Copy, Debug, PartialEq, Eq)]
pub enum CpuAction {
    /// Carry on with the program.
    Proceed,
    /// Idle until the next interrupt, then ask again.
    Halt,
}

/// The state after an unrecoverable condition: halted, whatever came before.
pub open spec fn after_panic(state: SystemState) -> SystemState {
    SystemState::Halted
}

/// The action owed in a state, and the state that follows it. A halted
/// system halts again and is never retried.
pub open spec fn step(state: SystemState) -> (CpuAction, SystemState) {
    match state {
        SystemState::Running => (CpuAction::Proceed, SystemState::Running),
        SystemState::Halted => (CpuAction::Halt, SystemState::Halted),
    }
}

/// The state after `n` steps.
pub open spec fn after_steps(state: SystemState, n: nat) -> SystemState
    decreases n,
{
    if n == 0 {
        state
    } else {
        after_steps(step(state).1, (n - 1) as nat)
    }
}

/// Enters the terminal state on an unrecoverable condition.
pub fn panic(state: SystemState) -> (next: SystemState)
    ensures
        next == after_panic(state),
        next == SystemState::Halted,
{
    SystemState::Halted
}

/// Decides the next action of the loop that drives the processor.
pub fn next_action(state: SystemState) -> (r: (CpuAction, SystemState))
    ensures
        r == step(state),
{
    match state {
        SystemState::Running => (CpuAction::Proceed, SystemState::Running),
        SystemState::Halted => (CpuAction::Halt, SystemState::Halted),
    }
}

/// After a panic the system stays halted: every later step halts again.
pub proof fn lemma_halt_is_final(state: SystemState, n: nat)
    ensures
        after_steps(after_panic(state), n) == SystemState::Halted,
        step(after_steps(after_panic(state), n)).0 == CpuAction::Halt,
    decreases n,
{
    if n > 0 {
        lemma_halt_is_final(state, (n - 1) as nat);
    }
}

} // verus!
