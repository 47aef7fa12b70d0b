//! The snapshot of a task's accounting that is handed to introspection
//! callers.

use vstd::prelude::*;
use crate::config::MAX_SYSCALL_NUM;
use crate::counters::{count_call, zero_counts};
use crate::status::TaskStatus;

verus! {

/// What a [`TaskInfo`] holds, as mathematical values.
pub struct TaskInfoView {
    /// Status of the task at snapshot time.
    pub status: TaskStatus,
    /// Calls counted per syscall identifier; `MAX_SYSCALL_NUM` entries.
    pub syscall_times: Seq<u32>,
    /// Total running time of the task.
    pub time: usize,
}

impl TaskInfoView {
    /// The snapshot that carries `status` and no accounting yet: all
    /// counters zero, time zero.
    pub open spec fn blank(status: TaskStatus) -> TaskInfoView {
        TaskInfoView { status, syscall_times: zero_counts(), time: 0 }
    }
}

/// Task information: a copy of a task's status and accounting, detached
/// from the control block it was taken from.
#[derive(Copy, Clone)]
pub struct TaskInfo {
    /// Task status in its life cycle.
    status: TaskStatus,
    /// The number of calls made by the task, per syscall.
    syscall_times: [u32; MAX_SYSCALL_NUM],
    /// Total running time of the task.
    time: usize,
}

impl View for TaskInfo {
    type V = TaskInfoView;

    closed spec fn view(&self) -> TaskInfoView {
        TaskInfoView { status: self.status, syscall_times: self.syscall_times@, time: self.time }
    }
}

impl TaskInfo {
    /// The table of a snapshot has one counter per syscall identifier.
    pub broadcast proof fn lemma_table_len(self)
        ensures
            (#[trigger] self@).syscall_times.len() == MAX_SYSCALL_NUM,
    {
    }

    /// A snapshot with the given status, no calls counted and zero time.
    pub fn new(status: TaskStatus) -> (info: Self)
        ensures
            info@ == TaskInfoView::blank(status),
    {
        let syscall_times = [0; MAX_SYSCALL_NUM];
        let info = TaskInfo { status, syscall_times, time: 0 };
        assert(info@.syscall_times =~= zero_counts());
        info
    }

    /// The "no information yet" snapshot: status `UnInit`, no calls counted,
    /// zero time. It holds the same fields as `new(TaskStatus::UnInit)`.
    pub fn zero_init() -> (info: Self)
        ensures
            info@ == TaskInfoView::blank(TaskStatus::UnInit),
    {
        let info = Self {
            status: TaskStatus::UnInit,
            syscall_times: [0; MAX_SYSCALL_NUM],
            time: 0,
        };
        assert(info@.syscall_times =~= zero_counts());
        info
    }

    /// The status held by the snapshot.
    pub fn get_status(&self) -> (status: TaskStatus)
        ensures
            status == self@.status,
    {
        self.status
    }

    /// A copy of the snapshot's counter table.
    pub fn get_syscall_times(&self) -> (table: [u32; MAX_SYSCALL_NUM])
        ensures
            table@ == self@.syscall_times,
    {
        self.syscall_times
    }

    /// The running time held by the snapshot.
    pub fn get_time(&self) -> (time: usize)
        ensures
            time == self@.time,
    {
        self.time
    }

    /// Replaces the status; counters and time stay.
    pub fn set_status(&mut self, status: TaskStatus)
        ensures
            final(self)@ == (TaskInfoView { status, ..old(self)@ }),
    {
        self.status = status;
    }

    /// Counts one call of syscall `index`. An `index` of `MAX_SYSCALL_NUM`
    /// or more is ignored: the snapshot stays as it was.
    pub fn add_syscall_time(&mut self, index: usize)
        requires
            index < MAX_SYSCALL_NUM ==> old(self)@.syscall_times[index as int] < u32::MAX,
        ensures
            final(self)@ == (TaskInfoView {
                syscall_times: count_call(old(self)@.syscall_times, index as int),
                ..old(self)@
            }),
    {
        if index < MAX_SYSCALL_NUM {
            self.syscall_times[index] += 1;
        }
    }

    /// Replaces the running time; status and counters stay.
    pub fn set_time(&mut self, time: usize)
        ensures
            final(self)@ == (TaskInfoView { time, ..old(self)@ }),
    {
        self.time = time
    }

    /// Replaces the whole counter table by a copy of `syscall_times`; status
    /// and time stay.
    pub fn set_syscall_times(&mut self, syscall_times: [u32; MAX_SYSCALL_NUM])
        ensures
            final(self)@ == (TaskInfoView { syscall_times: syscall_times@, ..old(self)@ }),
    {
        self.syscall_times = syscall_times
    }
}

/// A snapshot shares nothing with the table it was copied from: once its
/// table was set to `taken` it holds `taken`, whatever is counted afterwards
/// in the source. Counting a call of syscall `index` there gives a table
/// that is one ahead of the snapshot's at `index` and equal to it everywhere
/// else.
pub proof fn lemma_snapshot_keeps_its_table(
    before: TaskInfo,
    snapshot: TaskInfo,
    taken: Seq<u32>,
    index: int,
)
    requires
        taken.len() == MAX_SYSCALL_NUM,
        snapshot@ == (TaskInfoView { syscall_times: taken, ..before@ }),
        0 <= index < MAX_SYSCALL_NUM,
        taken[index] < u32::MAX,
    ensures
        snapshot@.syscall_times == taken,
        count_call(taken, index)[index] == snapshot@.syscall_times[index] + 1,
        forall|i: int|
            0 <= i < MAX_SYSCALL_NUM && i != index ==> count_call(taken, index)[i]
                == snapshot@.syscall_times[i],
{
}

} // verus!
