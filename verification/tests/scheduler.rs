use task_with_me::model::Task;
use task_with_me::lists::{find_task, is_running};
use task_with_me::schedule::{due_tasks, next_run, task_is_due};

fn task(id: u128, active: bool, next: Option<i128>) -> Task {
    Task {
        id,
        title: format!("task {}", id),
        command: "true".to_string(),
        interval_seconds: 60,
        is_active: active,
        last_run: None,
        next_run: next,
        created_at: 0,
        success_count: 0,
        failure_count: 0,
        last_output: String::new(),
    }
}

#[test]
fn next_run_is_now_plus_interval() {
    assert_eq!(next_run(1_000, 60), 61_000);
    assert_eq!(next_run(0, 0), 0);
    assert_eq!(next_run(-5_000, 1), -4_000);
}

#[test]
fn next_run_fits_the_largest_inputs() {
    assert_eq!(
        next_run(i64::MAX, u64::MAX),
        i64::MAX as i128 + u64::MAX as i128 * 1000
    );
    assert_eq!(next_run(i64::MIN, 0), i64::MIN as i128);
}

#[test]
fn a_task_is_due_when_its_time_has_come() {
    let running: Vec<u128> = vec![];
    assert!(task_is_due(&task(1, true, Some(100)), 100, &running));
    assert!(task_is_due(&task(1, true, Some(100)), 101, &running));
    assert!(!task_is_due(&task(1, true, Some(100)), 99, &running));
}

#[test]
fn an_inactive_or_unscheduled_task_is_never_due() {
    let running: Vec<u128> = vec![];
    assert!(!task_is_due(&task(1, false, Some(0)), 100, &running));
    assert!(!task_is_due(&task(1, true, None), 100, &running));
    assert!(!task_is_due(&task(1, false, None), 100, &running));
}

#[test]
fn a_running_task_is_not_due() {
    let running: Vec<u128> = vec![7, 1];
    assert!(!task_is_due(&task(1, true, Some(0)), 100, &running));
    assert!(task_is_due(&task(2, true, Some(0)), 100, &running));
}

#[test]
fn due_tasks_lists_every_due_task_in_order() {
    let tasks = vec![
        task(1, true, Some(50)),
        task(2, false, None),
        task(3, true, Some(150)),
        task(4, true, Some(100)),
        task(5, true, Some(10)),
    ];
    let running: Vec<u128> = vec![5];
    assert_eq!(due_tasks(100, &tasks, &running), vec![1, 4]);
    assert_eq!(due_tasks(200, &tasks, &running), vec![1, 3, 4]);
    assert_eq!(due_tasks(0, &tasks, &running), Vec::<u128>::new());
    assert_eq!(due_tasks(200, &tasks, &vec![]), vec![1, 3, 4, 5]);
    assert_eq!(due_tasks(200, &vec![], &running), Vec::<u128>::new());
}

#[test]
fn due_tasks_compares_with_a_far_next_run() {
    let far = next_run(i64::MAX, u64::MAX);
    let tasks = vec![task(1, true, Some(far)), task(2, true, Some(i64::MAX as i128))];
    assert_eq!(due_tasks(i64::MAX, &tasks, &vec![]), vec![2]);
}

#[test]
fn find_task_gives_the_first_match() {
    let tasks = vec![task(4, false, None), task(9, false, None), task(4, true, Some(1))];
    assert_eq!(find_task(&tasks, 4), Some(0));
    assert_eq!(find_task(&tasks, 9), Some(1));
    assert_eq!(find_task(&tasks, 5), None);
    assert_eq!(find_task(&vec![], 4), None);
}

#[test]
fn is_running_looks_for_the_id() {
    assert!(is_running(&vec![3, 4], 4));
    assert!(!is_running(&vec![3, 4], 5));
    assert!(!is_running(&vec![], 5));
}
