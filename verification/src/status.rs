//! The lifecycle status of a task and the order in which it may change.

use vstd::prelude::*;

verus! {

/// The status of a task in its life cycle.
///
/// The value itself is inert: it can be built, copied and compared. Which
/// changes are legal is stated by [`TaskStatus::may_become`] and demanded of
/// the scheduler by the control block's `set_status`.
#[derive(Copy, Clone, PartialEq, Eq, Structural, Debug)]
pub enum TaskStatus {
    /// Record allocated, never scheduled.
    UnInit,
    /// Eligible to run, not executing.
    Ready,
    /// Executing on a processor.
    Running,
    /// Terminated; kept for accounting only.
    Exited,
}

impl TaskStatus {
    /// The legal moves `UnInit -> Ready <-> Running -> Exited`: whether a task
    /// whose status is `self` may be given the status `next`.
    pub open spec fn may_become(self, next: TaskStatus) -> bool {
        match (self, next) {
            (TaskStatus::UnInit, TaskStatus::Ready) => true,
            (TaskStatus::Ready, TaskStatus::Running) => true,
            (TaskStatus::Running, TaskStatus::Ready) => true,
            (TaskStatus::Running, TaskStatus::Exited) => true,
            _ => false,
        }
    }
}

/// A task's successive statuses, from admission on: the first is `UnInit`
/// and each one is a legal successor of the one before it.
pub open spec fn legal_history(history: Seq<TaskStatus>) -> bool {
    &&& history.len() > 0
    &&& history[0] == TaskStatus::UnInit
    &&& forall|i: int|
        0 <= i < history.len() - 1 ==> (#[trigger] history[i]).may_become(history[i + 1])
}

/// Once a task has left `UnInit` it never has that status again.
pub proof fn lemma_status_never_regresses(history: Seq<TaskStatus>)
    requires
        legal_history(history),
    ensures
        forall|i: int| 0 < i < history.len() ==> history[i] != TaskStatus::UnInit,
{
    assert forall|i: int| 0 < i < history.len() implies history[i] != TaskStatus::UnInit by {
        assert(history[i - 1].may_become(history[i]));
    }
}

/// `Exited` is terminal: no status is a legal successor of it.
pub proof fn lemma_exited_has_no_successor(next: TaskStatus)
    ensures
        !TaskStatus::Exited.may_become(next),
{
}

/// In a legal history `Exited` can only stand last: once a task has exited,
/// no further change of status is legal.
pub proof fn lemma_exited_is_last(history: Seq<TaskStatus>)
    requires
        legal_history(history),
    ensures
        forall|i: int|
            0 <= i < history.len() && history[i] == TaskStatus::Exited ==> i == history.len() - 1,
{
    assert forall|i: int|
        0 <= i < history.len() && history[i] == TaskStatus::Exited implies i == history.len()
        - 1 by {
        if i < history.len() - 1 {
            assert(history[i].may_become(history[i + 1]));
        }
    }
}

} // verus!
