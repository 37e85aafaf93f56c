use atomata::sweep::Progress;

#[test]
fn running_mean_of_run_times() {
    let mut progress = Progress::new(10);
    progress.record_run(1000);
    assert_eq!(progress.completed, 1);
    assert_eq!(progress.average_run_ms, 1000);
    progress.record_run(2000);
    assert_eq!(progress.average_run_ms, 1500);
    progress.record_run(600);
    assert_eq!(progress.average_run_ms, 1200);
    assert_eq!(progress.total, 10);
}

#[test]
fn remaining_time() {
    let mut progress = Progress::new(17280);
    progress.record_run(5000);
    assert_eq!(progress.remaining_ms(), 5000 * 17279);
    // 86395 s: 23 hours and 59 minutes.
    assert_eq!(progress.remaining_hours_minutes(), (23, 59));
    let done = Progress { total: 1, completed: 2, average_run_ms: 10 };
    assert_eq!(done.remaining_ms(), 0);
    assert_eq!(done.remaining_hours_minutes(), (0, 0));
}
