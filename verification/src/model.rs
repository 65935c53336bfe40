//! The data that the engine keeps: tasks, execution logs, settings,
//! notifications and task templates.

use vstd::prelude::*;

verus! {

/// Identity of a task, a log entry or a notification: the 128 bits of a UUID.
pub type Id = u128;

/// An instant, in milliseconds since the Unix epoch.
pub type Millis = i64;

/// An instant that may lie beyond what the clock can show: any instant plus
/// any interval fits.
pub type WideMillis = i128;

/// A recurring shell command with its schedule state.
#[derive(Debug)]
pub struct Task {
    pub id: Id,
    pub title: String,
    pub command: String,
    pub interval_seconds: u64,
    pub is_active: bool,
    pub last_run: Option<Millis>,
    pub next_run: Option<WideMillis>,
    pub created_at: Millis,
    pub success_count: u32,
    pub failure_count: u32,
    /// Output of the last run. Not persisted.
    pub last_output: String,
}

/// What a [`Task`] holds, as mathematical values.
pub struct TaskView {
    pub id: Id,
    pub title: Seq<char>,
    pub command: Seq<char>,
    pub interval_seconds: u64,
    pub is_active: bool,
    pub last_run: Option<Millis>,
    pub next_run: Option<WideMillis>,
    pub created_at: Millis,
    pub success_count: u32,
    pub failure_count: u32,
    pub last_output: Seq<char>,
}

impl View for Task {
    type V = TaskView;

    open spec fn view(&self) -> TaskView {
        TaskView {
            id: self.id,
            title: self.title@,
            command: self.command@,
            interval_seconds: self.interval_seconds,
            is_active: self.is_active,
            last_run: self.last_run,
            next_run: self.next_run,
            created_at: self.created_at,
            success_count: self.success_count,
            failure_count: self.failure_count,
            last_output: self.last_output@,
        }
    }
}

impl TaskView {
    /// A task is scheduled exactly when it is active.
    pub open spec fn well_formed(self) -> bool {
        self.is_active <==> self.next_run is Some
    }
}

impl Clone for Task {
    fn clone(&self) -> (r: Self)
        ensures
            r == *self,
    {
        Task {
            id: self.id,
            title: self.title.clone(),
            command: self.command.clone(),
            interval_seconds: self.interval_seconds,
            is_active: self.is_active,
            last_run: self.last_run,
            next_run: self.next_run,
            created_at: self.created_at,
            success_count: self.success_count,
            failure_count: self.failure_count,
            last_output: self.last_output.clone(),
        }
    }
}

impl Task {
    /// Whether the task is scheduled exactly when it is active.
    pub fn is_well_formed(&self) -> (b: bool)
        ensures
            b == self@.well_formed(),
    {
        self.is_active == self.next_run.is_some()
    }
}

/// Record of one completed run. Never changed once made.
#[derive(Debug)]
pub struct ExecutionLog {
    pub id: Id,
    pub task_id: Id,
    pub timestamp: Millis,
    pub success: bool,
    pub output: String,
    pub duration_ms: u64,
}

/// What an [`ExecutionLog`] holds, as mathematical values.
pub struct ExecutionLogView {
    pub id: Id,
    pub task_id: Id,
    pub timestamp: Millis,
    pub success: bool,
    pub output: Seq<char>,
    pub duration_ms: u64,
}

impl View for ExecutionLog {
    type V = ExecutionLogView;

    open spec fn view(&self) -> ExecutionLogView {
        ExecutionLogView {
            id: self.id,
            task_id: self.task_id,
            timestamp: self.timestamp,
            success: self.success,
            output: self.output@,
            duration_ms: self.duration_ms,
        }
    }
}

impl Clone for ExecutionLog {
    fn clone(&self) -> (r: Self)
        ensures
            r == *self,
    {
        ExecutionLog {
            id: self.id,
            task_id: self.task_id,
            timestamp: self.timestamp,
            success: self.success,
            output: self.output.clone(),
            duration_ms: self.duration_ms,
        }
    }
}

/// Outcome of one run of a command, as the execution engine reports it.
#[derive(Debug)]
pub struct ExecutionResult {
    pub success: bool,
    pub output: String,
    pub duration_ms: u64,
}

/// What an [`ExecutionResult`] holds, as mathematical values.
pub struct ExecutionResultView {
    pub success: bool,
    pub output: Seq<char>,
    pub duration_ms: u64,
}

impl View for ExecutionResult {
    type V = ExecutionResultView;

    open spec fn view(&self) -> ExecutionResultView {
        ExecutionResultView {
            success: self.success,
            output: self.output@,
            duration_ms: self.duration_ms,
        }
    }
}

impl Clone for ExecutionResult {
    fn clone(&self) -> (r: Self)
        ensures
            r == *self,
    {
        ExecutionResult {
            success: self.success,
            output: self.output.clone(),
            duration_ms: self.duration_ms,
        }
    }
}

/// Colour scheme of the front end. Stored, never read by the engine.
#[derive(Debug, Clone, Copy, PartialEq, Eq, Structural)]
pub enum AppTheme {
    Light,
    Dark,
}

/// Process-wide settings.
#[derive(Debug, Clone, Copy)]
pub struct Config {
    /// Seconds between two scans for due tasks.
    pub refresh_interval: u64,
    /// Most log entries that are kept.
    pub max_logs: usize,
    pub theme: AppTheme,
    pub log_to_file: bool,
}

impl Config {
    /// The settings of a fresh installation.
    pub open spec fn initial() -> Config {
        Config { refresh_interval: 5, max_logs: 500, theme: AppTheme::Dark, log_to_file: true }
    }

    /// What a saved configuration satisfies: it polls at least once a second
    /// and keeps at least ten log entries.
    pub open spec fn well_formed(self) -> bool {
        self.refresh_interval >= 1 && self.max_logs >= 10
    }
}

impl Default for Config {
    fn default() -> (r: Self)
        ensures
            r == Config::initial(),
    {
        Config { refresh_interval: 5, max_logs: 500, theme: AppTheme::Dark, log_to_file: true }
    }
}

/// Severity of a notification.
#[derive(Debug, Clone, Copy, PartialEq, Eq, Structural)]
pub enum NotificationLevel {
    Info,
    Success,
    Warning,
    Error,
}

/// A short-lived message for the user.
#[derive(Debug)]
pub struct Notification {
    pub id: Id,
    pub message: String,
    pub level: NotificationLevel,
    pub timestamp: Millis,
}

/// What a [`Notification`] holds, as mathematical values.
pub struct NotificationView {
    pub id: Id,
    pub message: Seq<char>,
    pub level: NotificationLevel,
    pub timestamp: Millis,
}

impl View for Notification {
    type V = NotificationView;

    open spec fn view(&self) -> NotificationView {
        NotificationView {
            id: self.id,
            message: self.message@,
            level: self.level,
            timestamp: self.timestamp,
        }
    }
}

impl Clone for Notification {
    fn clone(&self) -> (r: Self)
        ensures
            r == *self,
    {
        Notification {
            id: self.id,
            message: self.message.clone(),
            level: self.level,
            timestamp: self.timestamp,
        }
    }
}

/// Which tasks the task list shows.
#[derive(Debug, Clone, Copy, PartialEq, Eq, Structural)]
pub enum TaskFilter {
    All,
    Active,
    Inactive,
}

/// The page that the front end shows.
#[derive(Debug, Clone, Copy)]
pub enum Screen {
    Overview,
    Tasks,
    /// The logs of one task, or of all.
    Logs(Option<Id>),
    Settings,
}

/// The views of the items of `s`, in order.
pub open spec fn views<T: View>(s: Seq<T>) -> Seq<T::V> {
    Seq::new(s.len(), |i: int| s[i]@)
}

/// Copies a list of tasks.
pub fn clone_tasks(tasks: &Vec<Task>) -> (r: Vec<Task>)
    ensures
        r@ == tasks@,
{
    let mut r: Vec<Task> = Vec::new();
    let mut i: usize = 0;
    while i < tasks.len()
        invariant
            i <= tasks.len(),
            r@ == tasks@.subrange(0, i as int),
        decreases tasks.len() - i,
    {
        r.push(tasks[i].clone());
        assert(r@ =~= tasks@.subrange(0, i + 1));
        i += 1;
    }
    assert(tasks@.subrange(0, tasks.len() as int) =~= tasks@);
    r
}

/// Copies a list of log entries.
pub fn clone_logs(logs: &Vec<ExecutionLog>) -> (r: Vec<ExecutionLog>)
    ensures
        r@ == logs@,
{
    let mut r: Vec<ExecutionLog> = Vec::new();
    let mut i: usize = 0;
    while i < logs.len()
        invariant
            i <= logs.len(),
            r@ == logs@.subrange(0, i as int),
        decreases logs.len() - i,
    {
        r.push(logs[i].clone());
        assert(r@ =~= logs@.subrange(0, i + 1));
        i += 1;
    }
    assert(logs@.subrange(0, logs.len() as int) =~= logs@);
    r
}

} // verus!
