use task_with_me::events::Message;
use task_with_me::model::{ExecutionLog, NotificationLevel, Screen, Task, TaskFilter};
use task_with_me::present::{
    format_duration, level_label, recent_places, same_text, search_hit, stat_text, success_rate,
    Rate,
};
use task_with_me::state::TaskWithMe;
use task_with_me::templates::{get_templates, Platform};

fn task(id: u128, title: &str, command: &str, active: bool) -> Task {
    Task {
        id,
        title: title.to_string(),
        command: command.to_string(),
        interval_seconds: 60,
        is_active: active,
        last_run: None,
        next_run: if active { Some(0) } else { None },
        created_at: 0,
        success_count: 0,
        failure_count: 0,
        last_output: String::new(),
    }
}

fn rated(successes: u32, failures: u32) -> Task {
    let mut t = task(1, "t", "c", false);
    t.success_count = successes;
    t.failure_count = failures;
    t
}

fn log(id: u128, task_id: u128) -> ExecutionLog {
    ExecutionLog { id, task_id, timestamp: 0, success: true, output: String::new(), duration_ms: 0 }
}

fn app_with(tasks: Vec<Task>) -> TaskWithMe {
    let mut app = TaskWithMe::initial(Platform::Linux);
    app.update_at(Message::TasksLoaded(Ok(tasks)), 0, 0, 0);
    app
}

#[test]
fn durations_use_the_largest_whole_unit() {
    assert_eq!(format_duration(0), "0s");
    assert_eq!(format_duration(59), "59s");
    assert_eq!(format_duration(60), "1m");
    assert_eq!(format_duration(119), "1m");
    assert_eq!(format_duration(3599), "59m");
    assert_eq!(format_duration(3600), "1h");
    assert_eq!(format_duration(86399), "23h");
    assert_eq!(format_duration(86400), "1d");
    assert_eq!(format_duration(u64::MAX), "213503982334601d");
}

fn percent_of(successes: u32, failures: u32) -> f64 {
    let rate = success_rate(&rated(successes, failures));
    rate.numerator as f64 / rate.denominator as f64
}

#[test]
fn success_rate_is_the_share_of_successes() {
    assert_eq!(success_rate(&rated(7, 3)), Rate { numerator: 700, denominator: 10 });
    assert_eq!(success_rate(&rated(1, 2)), Rate { numerator: 100, denominator: 3 });
    assert_eq!(success_rate(&rated(1, 1000)), Rate { numerator: 100, denominator: 1001 });
    assert_eq!(percent_of(7, 3), 70.0);
    assert_eq!(percent_of(1, 0), 100.0);
    assert_eq!(percent_of(0, 1), 0.0);
    assert_eq!(percent_of(1, 3), 25.0);
    assert!(percent_of(1, 1000) > 0.0999 && percent_of(1, 1000) < 0.1);
    assert!(percent_of(1000, 1) > 99.9 && percent_of(1000, 1) < 100.0);
}

#[test]
fn success_rate_of_a_task_that_never_ran_is_zero() {
    assert_eq!(success_rate(&rated(0, 0)), Rate { numerator: 0, denominator: 1 });
    assert_eq!(percent_of(0, 0), 0.0);
}

#[test]
fn success_rate_holds_the_largest_counters() {
    assert_eq!(
        success_rate(&rated(u32::MAX, u32::MAX)),
        Rate { numerator: 100 * u32::MAX as u64, denominator: 2 * u32::MAX as u64 }
    );
    assert_eq!(percent_of(u32::MAX, u32::MAX), 50.0);
    assert_eq!(percent_of(u32::MAX, 0), 100.0);
    assert!(percent_of(u32::MAX, 1) < 100.0);
}

#[test]
fn success_rate_reads_the_counters_alone() {
    let mut a = rated(3, 5);
    let expected = success_rate(&a);
    a.id = 99;
    a.title = "other".to_string();
    a.is_active = true;
    a.next_run = Some(7);
    a.last_run = Some(1);
    a.interval_seconds = 1;
    assert_eq!(success_rate(&a), expected);
}

#[test]
fn levels_have_labels() {
    assert_eq!(level_label(NotificationLevel::Info), "INFO");
    assert_eq!(level_label(NotificationLevel::Success), "SUCCESS");
    assert_eq!(level_label(NotificationLevel::Warning), "WARNING");
    assert_eq!(level_label(NotificationLevel::Error), "ERROR");
}

#[test]
fn titles_name_the_page() {
    let mut app = TaskWithMe::initial(Platform::Linux);
    assert_eq!(app.title(), "Overview - Task with Me");
    app.screen = Screen::Tasks;
    assert_eq!(app.title(), "Tasks - Task with Me");
    app.screen = Screen::Logs(None);
    assert_eq!(app.title(), "Logs - Task with Me");
    app.screen = Screen::Logs(Some(3));
    assert_eq!(app.title(), "Logs - Task with Me");
    app.screen = Screen::Settings;
    assert_eq!(app.title(), "Settings - Task with Me");
}

#[test]
fn the_search_ignores_case() {
    let mut app = app_with(vec![
        task(1, "Backup Documents", "tar -czf x", true),
        task(2, "Health Ping", "PING -c 4 8.8.8.8", false),
        task(3, "Cleanup", "find /tmp", true),
    ]);
    app.search_query = "ping".to_string();
    let shown: Vec<u128> = app.filtered_tasks().iter().map(|t| t.id).collect();
    assert_eq!(shown, vec![2]);
    app.search_query = "UP".to_string();
    let shown: Vec<u128> = app.filtered_tasks().iter().map(|t| t.id).collect();
    assert_eq!(shown, vec![1, 3]);
    app.search_query = "TAR".to_string();
    let shown: Vec<u128> = app.filtered_tasks().iter().map(|t| t.id).collect();
    assert_eq!(shown, vec![1]);
    app.search_query = "nothing".to_string();
    assert!(app.filtered_tasks().is_empty());
}

#[test]
fn the_filter_goes_by_the_switch() {
    let mut app = app_with(vec![
        task(1, "a", "x", true),
        task(2, "b", "x", false),
        task(3, "c", "x", true),
    ]);
    assert_eq!(app.filtered_tasks().len(), 3);
    app.filter = TaskFilter::Active;
    let shown: Vec<u128> = app.filtered_tasks().iter().map(|t| t.id).collect();
    assert_eq!(shown, vec![1, 3]);
    app.filter = TaskFilter::Inactive;
    let shown: Vec<u128> = app.filtered_tasks().iter().map(|t| t.id).collect();
    assert_eq!(shown, vec![2]);
    app.search_query = "B".to_string();
    assert_eq!(app.filtered_tasks().len(), 1);
    app.filter = TaskFilter::Active;
    assert!(app.filtered_tasks().is_empty());
}

#[test]
fn search_hit_looks_in_title_and_command() {
    assert!(search_hit("", "title", "command", true));
    assert!(search_hit("tit", "title", "command", false));
    assert!(search_hit("man", "title", "command", false));
    assert!(!search_hit("x", "title", "command", false));
    assert!(!search_hit("titles", "title", "command", false));
    assert!(search_hit("", "title", "command", false));
}

#[test]
fn the_overview_counts() {
    let mut a = task(1, "a", "x", true);
    a.success_count = 3;
    a.failure_count = 1;
    let mut b = task(2, "b", "x", false);
    b.success_count = 0;
    b.failure_count = 4;
    let mut app = app_with(vec![a, b, task(3, "c", "x", true)]);
    app.update_at(Message::ExecuteTask(3), 0, 0, 0);
    let overview = app.overview();
    assert_eq!(overview.total, 3);
    assert_eq!(overview.active, 2);
    assert_eq!(overview.running, 1);
    assert_eq!(overview.success_rate, 37);
    let empty = TaskWithMe::initial(Platform::Linux).overview();
    assert_eq!((empty.total, empty.active, empty.running, empty.success_rate), (0, 0, 0, 0));
}

#[test]
fn the_log_page_shows_the_newest_first() {
    let mut app = app_with(vec![task(1, "a", "x", false)]);
    app.update_at(
        Message::LogsLoaded(Ok(vec![log(1, 1), log(2, 2), log(3, 1), log(4, 2)])),
        0,
        0,
        0,
    );
    let all: Vec<u128> = app.visible_logs(None).iter().map(|l| l.id).collect();
    assert_eq!(all, vec![4, 3, 2, 1]);
    let of_one: Vec<u128> = app.visible_logs(Some(1)).iter().map(|l| l.id).collect();
    assert_eq!(of_one, vec![3, 1]);
    assert!(app.visible_logs(Some(9)).is_empty());
}

#[test]
fn the_log_page_shows_fifty_at_most() {
    let mut app = app_with(vec![]);
    let logs: Vec<ExecutionLog> = (1..=120).map(|i| log(i, i % 2)).collect();
    app.update_at(Message::LogsLoaded(Ok(logs)), 0, 0, 0);
    let all: Vec<u128> = app.visible_logs(None).iter().map(|l| l.id).collect();
    assert_eq!(all, (71..=120).rev().collect::<Vec<u128>>());
    let even: Vec<u128> = app.visible_logs(Some(0)).iter().map(|l| l.id).collect();
    assert_eq!(even.len(), 50);
    assert_eq!(even[0], 120);
    assert_eq!(even[49], 22);
}

#[test]
fn an_unknown_task_has_no_title() {
    let app = app_with(vec![task(1, "a", "x", false), task(1, "b", "x", false)]);
    assert_eq!(app.task_title(1), "a");
    assert_eq!(app.task_title(2), "Unknown");
}

#[test]
fn the_success_rate_card_shows_a_percentage() {
    assert_eq!(stat_text("Success Rate", 70), "70%");
    assert_eq!(stat_text("Total Tasks", 70), "70");
    assert_eq!(stat_text("success rate", 0), "0");
    assert!(same_text("abc", "abc"));
    assert!(!same_text("abc", "abd"));
    assert!(!same_text("abc", "ab"));
    assert!(same_text("", ""));
}

#[test]
fn templates_follow_the_platform() {
    let linux = get_templates(Platform::Linux);
    let names: Vec<&str> = linux.iter().map(|t| t.name).collect();
    assert_eq!(names, vec!["System Cleanup", "Backup Documents", "Check Disk Space", "Health Ping"]);
    let intervals: Vec<u64> = linux.iter().map(|t| t.interval).collect();
    assert_eq!(intervals, vec![3600, 86400, 300, 60]);
    assert_eq!(linux[0].description, "Remove temp files");
    assert_eq!(linux[0].command, "find /tmp -name '*.tmp' -mtime +7 -delete");
    assert_eq!(linux[1].command, "tar -czf ~/backups/docs-$(date +%Y%m%d).tar.gz ~/Documents");
    assert_eq!(linux[2].command, "df -h");
    assert_eq!(linux[3].command, "ping -c 4 8.8.8.8");

    let mac: Vec<&str> = get_templates(Platform::MacOs).iter().map(|t| t.command).collect();
    assert_eq!(mac, linux.iter().map(|t| t.command).collect::<Vec<_>>());

    let windows: Vec<&str> = get_templates(Platform::Windows).iter().map(|t| t.command).collect();
    assert_eq!(
        windows,
        vec![
            "del /q /s %TEMP%\\*.tmp",
            "echo Backup complete",
            "wmic logicaldisk get size,freespace",
            "ping -n 4 8.8.8.8"
        ]
    );

    let other: Vec<&str> = get_templates(Platform::Other).iter().map(|t| t.command).collect();
    assert_eq!(
        other,
        vec!["del /q /s %TEMP%\\*.tmp", "echo Backup complete", "df -h", "ping -c 4 8.8.8.8"]
    );
}

fn ran(id: u128, at: Option<i64>) -> Task {
    let mut t = task(id, "t", "c", false);
    t.last_run = at;
    t
}

#[test]
fn recent_places_lists_the_latest_runs_first() {
    let tasks = vec![
        ran(1, Some(10)),
        ran(2, None),
        ran(3, Some(30)),
        ran(4, Some(20)),
        ran(5, Some(30)),
        ran(6, Some(5)),
        ran(7, Some(40)),
        ran(8, Some(1)),
    ];
    assert_eq!(recent_places(&tasks, 5), vec![6, 2, 4, 3, 0]);
    assert_eq!(recent_places(&tasks, 2), vec![6, 2]);
    assert_eq!(recent_places(&tasks, 0), Vec::<usize>::new());
    assert_eq!(recent_places(&tasks, 100), vec![6, 2, 4, 3, 0, 5, 7]);
    assert_eq!(recent_places(&vec![], 5), Vec::<usize>::new());
    assert_eq!(recent_places(&vec![ran(1, None)], 5), Vec::<usize>::new());
}

#[test]
fn recent_places_agrees_with_a_stable_sort() {
    let times = [3, 1, 3, 2, 2, 9, 1, 3, 0, 9, 4];
    let tasks: Vec<Task> = times.iter().enumerate().map(|(i, t)| ran(i as u128, Some(*t))).collect();
    let mut expected: Vec<usize> = (0..tasks.len()).collect();
    expected.sort_by(|a, b| tasks[*b].last_run.cmp(&tasks[*a].last_run));
    expected.truncate(5);
    assert_eq!(recent_places(&tasks, 5), expected);
}

#[test]
fn the_dashboard_lists_five_recent_tasks() {
    let app = app_with((1..=8).map(|i| ran(i, if i % 4 == 0 { None } else { Some(i as i64) })).collect());
    let recent: Vec<u128> = app.recent_tasks().iter().map(|t| t.id).collect();
    assert_eq!(recent, vec![7, 6, 5, 3, 2]);
    assert!(app_with(vec![ran(1, None)]).recent_tasks().is_empty());
}
