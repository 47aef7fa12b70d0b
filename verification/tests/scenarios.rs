use task_control::{TaskControlBlock, TaskInfo, TaskStatus, MAX_SYSCALL_NUM};

#[test]
fn running_task_is_reported_with_its_counts() {
    let mut tcb = TaskControlBlock::new();
    tcb.set_status(TaskStatus::Ready);
    tcb.set_status(TaskStatus::Running);
    tcb.set_start_time(100);
    tcb.record_syscall(5);
    tcb.record_syscall(5);
    tcb.record_syscall(5);
    tcb.record_syscall(7);

    let now: usize = 150;
    let mut info = TaskInfo::zero_init();
    info.set_status(tcb.get_status());
    info.set_time(now - tcb.get_start_time());
    info.set_syscall_times(tcb.get_syscall_times());

    assert_eq!(info.get_status(), TaskStatus::Running);
    assert_eq!(info.get_time(), 50);
    let table = info.get_syscall_times();
    for i in 0..MAX_SYSCALL_NUM {
        let expected = match i {
            5 => 3,
            7 => 1,
            _ => 0,
        };
        assert_eq!(table[i], expected);
    }
}

#[test]
fn syscall_at_the_boundary_is_not_counted() {
    let mut tcb = TaskControlBlock::new();
    tcb.record_syscall(MAX_SYSCALL_NUM);
    assert_eq!(tcb.syscall_times, [0u32; MAX_SYSCALL_NUM]);

    tcb.record_syscall(MAX_SYSCALL_NUM - 1);
    let before = tcb.syscall_times;
    tcb.record_syscall(MAX_SYSCALL_NUM);
    assert_eq!(tcb.syscall_times, before);
    assert_eq!(tcb.syscall_times[MAX_SYSCALL_NUM - 1], 1);

    let mut info = TaskInfo::zero_init();
    info.add_syscall_time(MAX_SYSCALL_NUM);
    assert_eq!(info.get_syscall_times(), [0u32; MAX_SYSCALL_NUM]);
}

#[test]
fn snapshot_does_not_follow_later_counting() {
    let mut tcb = TaskControlBlock::new();
    tcb.record_syscall(3);
    tcb.record_syscall(3);
    tcb.record_syscall(400);
    let at_snapshot = tcb.syscall_times;

    let mut info = TaskInfo::new(tcb.get_status());
    info.set_syscall_times(tcb.syscall_times);

    tcb.record_syscall(3);
    tcb.syscall_times[400] += 1;
    tcb.syscall_times[0] = 9;

    assert_eq!(info.get_syscall_times(), at_snapshot);
    assert_eq!(info.get_syscall_times()[3], 2);
    assert_eq!(info.get_syscall_times()[400], 1);
    assert_eq!(info.get_syscall_times()[0], 0);
    assert_eq!(tcb.syscall_times[3], 3);
    assert_eq!(tcb.syscall_times[400], 2);
}

#[test]
fn zero_init_equals_snapshot_of_a_fresh_task() {
    let tcb = TaskControlBlock::new();
    let built = TaskInfo::new(tcb.get_status());
    let zero = TaskInfo::zero_init();
    assert_eq!(zero.get_status(), TaskStatus::UnInit);
    assert_eq!(zero.get_time(), 0);
    assert_eq!(zero.get_syscall_times(), [0u32; MAX_SYSCALL_NUM]);
    assert_eq!(zero.get_status(), built.get_status());
    assert_eq!(zero.get_time(), built.get_time());
    assert_eq!(zero.get_syscall_times(), built.get_syscall_times());
}

#[test]
fn table_has_the_configured_capacity() {
    assert_eq!(MAX_SYSCALL_NUM, 500);
    assert_eq!(TaskControlBlock::new().syscall_times.len(), 500);
    assert_eq!(TaskInfo::zero_init().get_syscall_times().len(), 500);
}
