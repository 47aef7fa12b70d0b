//! Build-time constants shared with the syscall dispatch layer.

use vstd::prelude::*;

verus! {

/// Capacity of a task's syscall counter table: valid syscall identifiers are
/// `0 .. MAX_SYSCALL_NUM`.
pub const MAX_SYSCALL_NUM: usize = 500;

} // verus!
