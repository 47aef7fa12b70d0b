//! Per-task bookkeeping for a kernel scheduler: the lifecycle status of a
//! task, its control block, and the snapshot handed to introspection callers.

pub mod config;
pub mod context;
pub mod control_block;
pub mod counters;
pub mod info;
pub mod status;

pub use config::MAX_SYSCALL_NUM;
pub use context::TaskContext;
pub use control_block::TaskControlBlock;
pub use info::{TaskInfo, TaskInfoView};
pub use status::TaskStatus;
