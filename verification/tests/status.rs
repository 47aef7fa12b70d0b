use task_control::TaskStatus;

#[test]
fn status_compares_by_variant() {
    let all = [
        TaskStatus::UnInit,
        TaskStatus::Ready,
        TaskStatus::Running,
        TaskStatus::Exited,
    ];
    for (i, a) in all.iter().enumerate() {
        for (j, b) in all.iter().enumerate() {
            assert_eq!(a == b, i == j);
        }
    }
}

#[test]
fn status_is_copied() {
    let status = TaskStatus::Running;
    let copy = status;
    assert_eq!(status, copy);
    assert_eq!(status.clone(), TaskStatus::Running);
}
