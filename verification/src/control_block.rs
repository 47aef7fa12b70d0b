//! The scheduler's record of one task.

use vstd::prelude::*;
use crate::config::MAX_SYSCALL_NUM;
use crate::context::TaskContext;
use crate::counters::{count_call, zero_counts};
use crate::info::{TaskInfo, TaskInfoView};
use crate::status::TaskStatus;

verus! {

/// The task control block (TCB) of a task: its status, its saved context and
/// its accounting. The scheduler's task table owns it and is its only
/// mutator.
#[derive(Copy, Clone)]
pub struct TaskControlBlock {
    /// The task status in its life cycle.
    pub task_status: TaskStatus,
    /// The saved execution context.
    pub task_cx: TaskContext,
    /// When the task first ran; zero before that.
    pub start_time: usize,
    /// Calls made by the task, per syscall identifier.
    pub syscall_times: [u32; MAX_SYSCALL_NUM],
}

impl TaskControlBlock {
    /// Whether the block is as `new` makes it: never scheduled, zeroed
    /// context, no start time, no call counted.
    pub open spec fn is_fresh(self) -> bool {
        &&& self.task_status == TaskStatus::UnInit
        &&& self.task_cx.is_zero()
        &&& self.start_time == 0
        &&& self.syscall_times@ == zero_counts()
    }

    /// The control block of a task that was just admitted.
    pub fn new() -> (tcb: Self)
        ensures
            tcb.is_fresh(),
    {
        let tcb = TaskControlBlock {
            task_status: TaskStatus::UnInit,
            task_cx: TaskContext::zero_init(),
            start_time: 0,
            syscall_times: [0; MAX_SYSCALL_NUM],
        };
        assert(tcb.syscall_times@ =~= zero_counts());
        tcb
    }

    /// Moves the task to `status`, which the caller has made sure is a legal
    /// successor of the current status. Nothing else changes, and the new
    /// status is never `UnInit`.
    pub fn set_status(&mut self, status: TaskStatus)
        requires
            old(self).task_status.may_become(status),
        ensures
            *final(self) == (TaskControlBlock { task_status: status, ..*old(self) }),
            final(self).task_status != TaskStatus::UnInit,
    {
        self.task_status = status;
    }

    /// Overwrites the saved context as a whole. Nothing else changes.
    pub fn set_task_cx(&mut self, task_cx: TaskContext)
        ensures
            *final(self) == (TaskControlBlock { task_cx, ..*old(self) }),
    {
        self.task_cx = task_cx;
    }

    /// Overwrites the start time, whether or not one was recorded before.
    /// Nothing else changes.
    pub fn set_start_time(&mut self, start_time: usize)
        ensures
            *final(self) == (TaskControlBlock { start_time, ..*old(self) }),
    {
        self.start_time = start_time;
    }

    /// Counts one call of syscall `index`. An `index` of `MAX_SYSCALL_NUM`
    /// or more is swallowed: the block stays as it was.
    pub fn record_syscall(&mut self, index: usize)
        requires
            index < MAX_SYSCALL_NUM ==> old(self).syscall_times@[index as int] < u32::MAX,
        ensures
            final(self).syscall_times@ == count_call(old(self).syscall_times@, index as int),
            final(self).task_status == old(self).task_status,
            final(self).task_cx == old(self).task_cx,
            final(self).start_time == old(self).start_time,
    {
        if index < MAX_SYSCALL_NUM {
            self.syscall_times[index] += 1;
        }
    }

    /// The current status.
    pub fn get_status(&self) -> (status: TaskStatus)
        ensures
            status == self.task_status,
    {
        self.task_status
    }

    /// A copy of the saved context.
    pub fn get_task_cx(&self) -> (task_cx: TaskContext)
        ensures
            task_cx == self.task_cx,
    {
        self.task_cx
    }

    /// The recorded start time.
    pub fn get_start_time(&self) -> (start_time: usize)
        ensures
            start_time == self.start_time,
    {
        self.start_time
    }

    /// A copy of the counter table.
    pub fn get_syscall_times(&self) -> (table: [u32; MAX_SYSCALL_NUM])
        ensures
            table == self.syscall_times,
    {
        self.syscall_times
    }
}

/// The zero-initialised snapshot holds status `UnInit`, time zero and zero in
/// every counter, and so does a snapshot built from the status read from a
/// fresh control block: the two agree in every field.
pub proof fn lemma_zero_init_matches_fresh_task(
    zero: TaskInfo,
    built: TaskInfo,
    tcb: TaskControlBlock,
)
    requires
        zero@ == TaskInfoView::blank(TaskStatus::UnInit),
        tcb.is_fresh(),
        built@ == TaskInfoView::blank(tcb.task_status),
    ensures
        zero@.status == TaskStatus::UnInit,
        zero@.time == 0,
        zero@.syscall_times.len() == MAX_SYSCALL_NUM,
        forall|i: int| 0 <= i < MAX_SYSCALL_NUM ==> zero@.syscall_times[i] == 0,
        built@ == zero@,
{
}

} // verus!
