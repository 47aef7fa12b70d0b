//! The saved execution context of a suspended task.

use vstd::prelude::*;

verus! {

/// Number of callee-saved registers kept in a [`TaskContext`].
pub const SAVED_REGISTERS: usize = 12;

/// The processor state a context switch saves and restores. The control
/// block stores it and hands it back as one value; it never looks inside.
#[derive(Copy, Clone, Debug, PartialEq, Eq)]
pub struct TaskContext {
    /// Address at which the task resumes.
    pub ra: usize,
    /// Stack pointer.
    pub sp: usize,
    /// Callee-saved registers.
    pub s: [usize; SAVED_REGISTERS],
}

impl TaskContext {
    /// Whether every register of the context is zero.
    pub open spec fn is_zero(self) -> bool {
        &&& self.ra == 0
        &&& self.sp == 0
        &&& forall|i: int| 0 <= i < SAVED_REGISTERS ==> self.s@[i] == 0
    }

    /// The context of a task that has never run: all registers zero.
    pub fn zero_init() -> (cx: Self)
        ensures
            cx.is_zero(),
    {
        TaskContext { ra: 0, sp: 0, s: [0; SAVED_REGISTERS] }
    }
}

} // verus!
