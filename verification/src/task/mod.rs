//! Cooperative tasks and the bridge that feeds them from interrupt context.

pub mod executor;
pub mod keyboard;
pub mod shell;

use vstd::prelude::*;

verus! {

/// The stable identity of a task. It doubles as the task's wake handle:
/// whoever holds it can ask the executor to mark the task ready.
#[derive(Debug, Clone, Copy, PartialEq, Eq, Structural)]
pub struct TaskId(pub u64);

/// The answer of one attempt to make progress.
#[derive(Debug, Clone, Copy, PartialEq, Eq)]
pub enum Poll<T> {
    Ready(T),
    Pending,
}

} // verus!
