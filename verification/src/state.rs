//! The controller: the one owner of tasks, logs, settings, running set and
//! notifications. It takes one message at a time and answers with the
//! outside work to start.

use std::collections::VecDeque;
use vstd::prelude::*;
use vstd::string::*;
use crate::clock::{current_millis, fresh_id, is_random_uuid};
use crate::error::AppError;
use crate::events::{Effect, EffectView, Message};
use crate::model::{
    Config, ExecutionLog, ExecutionResult, Id, Millis, Notification, NotificationLevel,
    NotificationView, Screen, Task, TaskFilter, clone_logs, views,
};
use crate::lists::{find_task, is_running, remove_id, remove_notifications, remove_tasks, trim_logs};
use crate::schedule::{due_tasks, next_run};
use crate::templates::{Platform, TaskTemplate, get_templates};
use crate::text::{blank, decimal_string, parse_decimal};
use crate::transitions::{MAX_NOTIFICATIONS, StateView, bumped};

verus! {

/// The state of the application.
#[derive(Debug)]
pub struct TaskWithMe {
    pub tasks: Vec<Task>,
    pub logs: Vec<ExecutionLog>,
    pub config: Config,
    pub screen: Screen,
    /// Title field of the creation form.
    pub title_input: String,
    /// Command field of the creation form.
    pub command_input: String,
    /// Interval field of the creation form.
    pub interval_input: String,
    pub search_query: String,
    pub filter: TaskFilter,
    /// The notifications, oldest first.
    pub notifications: VecDeque<Notification>,
    /// The ids of the tasks with a run in flight.
    pub running_tasks: Vec<Id>,
    /// Polling field of the settings form.
    pub refresh_input: String,
    /// Log bound field of the settings form.
    pub max_logs_input: String,
    pub templates: Vec<TaskTemplate>,
}

impl View for TaskWithMe {
    type V = StateView;

    open spec fn view(&self) -> StateView {
        StateView {
            tasks: views(self.tasks@),
            logs: views(self.logs@),
            config: self.config,
            screen: self.screen,
            title_input: self.title_input@,
            command_input: self.command_input@,
            interval_input: self.interval_input@,
            search_query: self.search_query@,
            filter: self.filter,
            notifications: views(self.notifications@),
            running_tasks: self.running_tasks@,
            refresh_input: self.refresh_input@,
            max_logs_input: self.max_logs_input@,
            templates: views(self.templates@),
        }
    }
}

impl TaskWithMe {
    /// The state of a fresh start.
    pub fn initial(platform: Platform) -> (r: TaskWithMe)
        ensures
            r@ == StateView::initial(platform),
            r@.well_formed(),
    {
        let config = Config::default();
        let r = TaskWithMe {
            tasks: Vec::new(),
            logs: Vec::new(),
            config,
            screen: Screen::Overview,
            title_input: String::new(),
            command_input: String::new(),
            interval_input: String::new(),
            search_query: String::new(),
            filter: TaskFilter::All,
            notifications: VecDeque::new(),
            running_tasks: Vec::new(),
            refresh_input: decimal_string(config.refresh_interval),
            max_logs_input: decimal_string(config.max_logs as u64),
            templates: get_templates(platform),
        };
        assert(r@.tasks =~= Seq::empty());
        assert(r@.logs =~= Seq::empty());
        assert(r@.notifications =~= Seq::empty());
        r
    }

    /// Starts the application: the fresh state, and the three documents to
    /// read.
    pub fn new(platform: Platform) -> (r: (TaskWithMe, Vec<Effect>))
        ensures
            r.0@ == StateView::initial(platform),
            r.0@.well_formed(),
            views(r.1@) == seq![EffectView::LoadConfig, EffectView::LoadTasks, EffectView::LoadLogs],
    {
        let app = TaskWithMe::initial(platform);
        let mut effects: Vec<Effect> = Vec::new();
        effects.push(Effect::LoadConfig);
        effects.push(Effect::LoadTasks);
        effects.push(Effect::LoadLogs);
        assert(views(effects@) =~= seq![
            EffectView::LoadConfig,
            EffectView::LoadTasks,
            EffectView::LoadLogs,
        ]);
        (app, effects)
    }

    /// Appends a notification with the given id and time. When the queue
    /// would hold more than ten, the oldest one leaves.
    pub fn notify_at(&mut self, id: Id, message: String, level: NotificationLevel, now: Millis)
        ensures
            final(self)@ == old(self)@.notified(id, message@, level, now),
    {
        self.notifications.push_back(Notification { id, message, level, timestamp: now });
        if self.notifications.len() > MAX_NOTIFICATIONS {
            self.notifications.pop_front();
        }
        assert(views(self.notifications@) =~= old(self)@.notified(
            id,
            message@,
            level,
            now,
        ).notifications);
    }

    /// Appends a notification under a fresh id, stamped with the current
    /// time.
    pub fn notify(&mut self, message: String, level: NotificationLevel)
        ensures
            exists|id: Id, now: Millis|
                is_random_uuid(id) && final(self)@ == #[trigger] old(self)@.notified(
                    id,
                    message@,
                    level,
                    now,
                ),
    {
        let id = fresh_id();
        let now = current_millis();
        self.notify_at(id, message, level, now);
    }
}

/// No outside work.
fn no_effects() -> (r: Vec<Effect>)
    ensures
        views(r@) == Seq::<EffectView>::empty(),
{
    let r: Vec<Effect> = Vec::new();
    assert(views(r@) =~= Seq::<EffectView>::empty());
    r
}

/// One piece of outside work.
fn one_effect(effect: Effect) -> (r: Vec<Effect>)
    ensures
        views(r@) == seq![effect@],
{
    let mut r: Vec<Effect> = Vec::new();
    r.push(effect);
    assert(views(r@) =~= seq![effect@]);
    r
}

impl TaskWithMe {
    /// Appends a warning and asks for nothing.
    fn warn(&mut self, text: &str, now: Millis, note_id: Id) -> (r: Vec<Effect>)
        ensures
            final(self)@ == old(self)@.notified(note_id, text@, NotificationLevel::Warning, now),
            views(r@) == Seq::<EffectView>::empty(),
    {
        self.notify_at(note_id, String::from_str(text), NotificationLevel::Warning, now);
        no_effects()
    }

    /// Reports a failed piece of outside work: `prefix`, then the error's
    /// text.
    fn note_failure(&mut self, prefix: &str, error: &AppError, now: Millis, note_id: Id) -> (r:
        Vec<Effect>)
        ensures
            final(self)@ == old(self)@.failure_noted(prefix@, *error, now, note_id),
            views(r@) == Seq::<EffectView>::empty(),
    {
        let text = error.describe();
        let message = String::from_str(prefix).concat(text.as_str());
        self.notify_at(note_id, message, NotificationLevel::Error, now);
        no_effects()
    }

    /// Creates a task from the creation form, at `now`. The task gets
    /// `task_id`, the notification `note_id`.
    pub fn create_task_at(&mut self, now: Millis, task_id: Id, note_id: Id) -> (r: Vec<Effect>)
        ensures
            final(self)@ == old(self)@.create_requested(now, task_id, note_id).state,
            views(r@) == old(self)@.create_requested(now, task_id, note_id).effects,
    {
        if blank(self.title_input.as_str()) {
            return self.warn("Task title cannot be empty", now, note_id);
        }
        if blank(self.command_input.as_str()) {
            return self.warn("Command cannot be empty", now, note_id);
        }
        let interval: u64 = match parse_decimal(self.interval_input.as_str()) {
            Some(n) => n,
            None => 0,
        };
        if interval == 0 {
            return self.warn("Invalid interval", now, note_id);
        }
        let mut title = String::new();
        let mut command = String::new();
        core::mem::swap(&mut self.title_input, &mut title);
        core::mem::swap(&mut self.command_input, &mut command);
        self.interval_input = String::new();
        let message = String::from_str("Task '").concat(title.as_str()).concat("' created");
        let task = Task {
            id: task_id,
            title,
            command,
            interval_seconds: interval,
            is_active: false,
            last_run: None,
            next_run: None,
            created_at: now,
            success_count: 0,
            failure_count: 0,
            last_output: String::new(),
        };
        self.notify_at(note_id, message, NotificationLevel::Success, now);
        one_effect(Effect::SaveTask(task))
    }

    /// Flips the switch of the first task with this id, at `now`.
    pub fn toggle_task_at(&mut self, id: Id, now: Millis, note_id: Id) -> (r: Vec<Effect>)
        ensures
            final(self)@ == old(self)@.toggle_requested(id, now, note_id).state,
            views(r@) == old(self)@.toggle_requested(id, now, note_id).effects,
    {
        let pos: usize = match find_task(&self.tasks, id) {
            Some(pos) => pos,
            None => {
                return no_effects();
            },
        };
        let mut task = self.tasks[pos].clone();
        task.is_active = !task.is_active;
        if task.is_active {
            task.next_run = Some(next_run(now, task.interval_seconds));
        } else {
            task.next_run = None;
        }
        let status = if task.is_active {
            "activated"
        } else {
            "paused"
        };
        let message = String::from_str("Task '").concat(task.title.as_str()).concat("' ").concat(
            status,
        );
        self.tasks.set(pos, task.clone());
        assert(views(self.tasks@) =~= views(old(self).tasks@).update(pos as int, task@));
        self.notify_at(note_id, message, NotificationLevel::Info, now);
        one_effect(Effect::SaveTask(task))
    }

    /// Asks for a run of the task with this id, at `now`.
    pub fn execute_task_at(&mut self, id: Id, now: Millis, note_id: Id) -> (r: Vec<Effect>)
        ensures
            final(self)@ == old(self)@.execute_requested(id, now, note_id).state,
            views(r@) == old(self)@.execute_requested(id, now, note_id).effects,
    {
        if is_running(&self.running_tasks, id) {
            return self.warn("Task is already running", now, note_id);
        }
        let pos: usize = match find_task(&self.tasks, id) {
            Some(pos) => pos,
            None => {
                return no_effects();
            },
        };
        let task = self.tasks[pos].clone();
        self.running_tasks.push(id);
        let message = String::from_str("Executing '").concat(task.title.as_str()).concat("'...");
        self.notify_at(note_id, message, NotificationLevel::Info, now);
        one_effect(Effect::Run(task))
    }
}

/// A counter after one more event.
pub fn bump(count: u32) -> (r: u32)
    ensures
        r == bumped(count),
        r >= count,
{
    if count < u32::MAX {
        count + 1
    } else {
        count
    }
}

impl TaskWithMe {
    /// Deletes the tasks with this id, at `now`.
    pub fn delete_task_at(&mut self, id: Id, now: Millis, note_id: Id) -> (r: Vec<Effect>)
        ensures
            final(self)@ == old(self)@.delete_requested(id, now, note_id).state,
            views(r@) == old(self)@.delete_requested(id, now, note_id).effects,
    {
        match find_task(&self.tasks, id) {
            Some(pos) => {
                let message = String::from_str("Deleted task '").concat(
                    self.tasks[pos].title.as_str(),
                ).concat("'");
                self.notify_at(note_id, message, NotificationLevel::Info, now);
            },
            None => {},
        }
        remove_tasks(&mut self.tasks, id);
        one_effect(Effect::DeleteTask(id))
    }

    /// Takes in the end of a run of the task with this id, at `now`. The log
    /// entry gets `log_id`, the notification `note_id`.
    pub fn task_executed_at(
        &mut self,
        id: Id,
        result: Result<ExecutionResult, AppError>,
        now: Millis,
        log_id: Id,
        note_id: Id,
    ) -> (r: Vec<Effect>)
        ensures
            final(self)@ == old(self)@.task_executed(id, result, now, log_id, note_id).state,
            views(r@) == old(self)@.task_executed(id, result, now, log_id, note_id).effects,
    {
        remove_id(&mut self.running_tasks, id);
        let outcome = match result {
            Ok(outcome) => outcome,
            Err(e) => {
                return self.note_failure("Execution error: ", &e, now, note_id);
            },
        };
        let pos: usize = match find_task(&self.tasks, id) {
            Some(pos) => pos,
            None => {
                return no_effects();
            },
        };
        let mut task = self.tasks[pos].clone();
        task.last_run = Some(now);
        task.last_output = outcome.output.clone();
        if outcome.success {
            task.success_count = bump(task.success_count);
        } else {
            task.failure_count = bump(task.failure_count);
        }
        if task.is_active {
            task.next_run = Some(next_run(now, task.interval_seconds));
        }
        let succeeded: bool = outcome.success;
        let log = ExecutionLog {
            id: log_id,
            task_id: id,
            timestamp: now,
            success: outcome.success,
            output: outcome.output,
            duration_ms: outcome.duration_ms,
        };
        self.tasks.set(pos, task.clone());
        assert(views(self.tasks@) =~= views(old(self).tasks@).update(pos as int, task@));
        let ghost pushed = views(self.logs@).push(log@);
        self.logs.push(log);
        assert(views(self.logs@) =~= pushed);
        trim_logs(&mut self.logs, self.config.max_logs);
        let saved_logs = clone_logs(&self.logs);
        if succeeded {
            let message = String::from_str("Task '").concat(task.title.as_str()).concat(
                "' completed successfully",
            );
            self.notify_at(note_id, message, NotificationLevel::Success, now);
        } else {
            let message = String::from_str("Task '").concat(task.title.as_str()).concat(
                "' failed",
            );
            self.notify_at(note_id, message, NotificationLevel::Error, now);
        }
        let ghost task_view = task@;
        let ghost logs_view = views(saved_logs@);
        let mut effects: Vec<Effect> = Vec::new();
        effects.push(Effect::SaveTask(task));
        effects.push(Effect::SaveLogs(saved_logs));
        assert(views(effects@) =~= seq![
            EffectView::SaveTask(task_view),
            EffectView::SaveLogs(logs_view),
        ]);
        effects
    }
}

impl TaskWithMe {
    /// Takes in the settings that were read.
    pub fn config_loaded(&mut self, config: Config)
        ensures
            final(self)@ == old(self)@.config_loaded(config),
    {
        self.config = config;
        self.refresh_input = decimal_string(config.refresh_interval);
        self.max_logs_input = decimal_string(config.max_logs as u64);
    }

    /// Makes the settings form's values the current settings and asks for
    /// them to be saved.
    pub fn save_settings(&mut self) -> (r: Vec<Effect>)
        ensures
            final(self)@ == old(self)@.save_settings().state,
            views(r@) == old(self)@.save_settings().effects,
            old(self).config.well_formed() ==> final(self).config.well_formed(),
    {
        match parse_decimal(self.refresh_input.as_str()) {
            Some(interval) => {
                self.config.refresh_interval = if interval < 1 {
                    1
                } else {
                    interval
                };
            },
            None => {},
        }
        match parse_decimal(self.max_logs_input.as_str()) {
            Some(max_logs) => {
                if max_logs <= usize::MAX as u64 {
                    self.config.max_logs = if max_logs < 10 {
                        10
                    } else {
                        max_logs as usize
                    };
                }
            },
            None => {},
        }
        one_effect(Effect::SaveConfig(self.config))
    }

    /// Fills the creation form from the template at `index`, at `now`.
    pub fn select_template_at(&mut self, index: usize, now: Millis, note_id: Id)
        ensures
            final(self)@ == old(self)@.select_template(index, now, note_id),
    {
        if index < self.templates.len() {
            let template = self.templates[index];
            self.title_input = String::from_str(template.name);
            self.command_input = String::from_str(template.command);
            self.interval_input = decimal_string(template.interval);
            let message = String::from_str("Template loaded: ").concat(template.name);
            self.notify_at(note_id, message, NotificationLevel::Info, now);
        }
    }

    /// Scans for due tasks at `now` and dispatches each of them.
    pub fn check_scheduled_at(&self, now: Millis) -> (r: Vec<Effect>)
        ensures
            views(r@) == self@.check_scheduled(now).effects,
    {
        let due = due_tasks(now, &self.tasks, &self.running_tasks);
        let mut r: Vec<Effect> = Vec::new();
        let mut i: usize = 0;
        while i < due.len()
            invariant
                i <= due.len(),
                r@.len() == i,
                forall|k: int| 0 <= k < i ==> (#[trigger] r@[k])@ == EffectView::Dispatch(due@[k]),
            decreases due.len() - i,
        {
            r.push(Effect::Dispatch(due[i]));
            i += 1;
        }
        assert(views(r@) =~= self@.check_scheduled(now).effects);
        r
    }

    /// Applies `message` at `now`. A task or log entry made on the way gets
    /// `entity_id`, a notification gets `note_id`. Returns the outside work
    /// to start, in order.
    pub fn update_at(&mut self, message: Message, now: Millis, entity_id: Id, note_id: Id) -> (r:
        Vec<Effect>)
        ensures
            final(self)@ == old(self)@.step(message, now, entity_id, note_id).state,
            views(r@) == old(self)@.step(message, now, entity_id, note_id).effects,
    {
        match message {
            Message::ChangeScreen(screen) => {
                self.screen = screen;
                no_effects()
            },
            Message::TitleInput(s) => {
                self.title_input = s;
                no_effects()
            },
            Message::CommandInput(s) => {
                self.command_input = s;
                no_effects()
            },
            Message::IntervalInput(s) => {
                self.interval_input = s;
                no_effects()
            },
            Message::CreateTask => self.create_task_at(now, entity_id, note_id),
            Message::DeleteTask(id) => self.delete_task_at(id, now, note_id),
            Message::ToggleTask(id) => self.toggle_task_at(id, now, note_id),
            Message::ExecuteTask(id) => self.execute_task_at(id, now, note_id),
            Message::TasksLoaded(Ok(tasks)) => {
                self.tasks = tasks;
                no_effects()
            },
            Message::TasksLoaded(Err(e)) => self.note_failure(
                "Failed to load tasks: ",
                &e,
                now,
                note_id,
            ),
            Message::LogsLoaded(Ok(logs)) => {
                self.logs = logs;
                no_effects()
            },
            Message::LogsLoaded(Err(e)) => self.note_failure(
                "Failed to load logs: ",
                &e,
                now,
                note_id,
            ),
            Message::TaskSaved(Ok(_)) => one_effect(Effect::LoadTasks),
            Message::TaskSaved(Err(e)) => self.note_failure("Failed to save: ", &e, now, note_id),
            Message::TaskExecuted(id, result) => self.task_executed_at(
                id,
                result,
                now,
                entity_id,
                note_id,
            ),
            Message::TaskDeleted(Ok(_)) => one_effect(Effect::LoadTasks),
            Message::TaskDeleted(Err(e)) => self.note_failure(
                "Failed to delete: ",
                &e,
                now,
                note_id,
            ),
            Message::ConfigLoaded(Ok(config)) => {
                self.config_loaded(config);
                no_effects()
            },
            Message::ConfigLoaded(Err(e)) => self.note_failure(
                "Failed to load settings: ",
                &e,
                now,
                note_id,
            ),
            Message::ConfigSaved(Ok(_)) => {
                self.notify_at(
                    note_id,
                    String::from_str("Settings saved"),
                    NotificationLevel::Success,
                    now,
                );
                self.screen = Screen::Overview;
                no_effects()
            },
            Message::ConfigSaved(Err(e)) => self.note_failure(
                "Failed to save settings: ",
                &e,
                now,
                note_id,
            ),
            Message::SelectTemplate(index) => {
                self.select_template_at(index, now, note_id);
                no_effects()
            },
            Message::SearchInput(s) => {
                self.search_query = s;
                no_effects()
            },
            Message::FilterChanged(filter) => {
                self.filter = filter;
                no_effects()
            },
            Message::ViewTaskLogs(id) => {
                self.screen = Screen::Logs(Some(id));
                no_effects()
            },
            Message::CloseNotification(id) => {
                remove_notifications(&mut self.notifications, id);
                no_effects()
            },
            Message::ClearNotifications => {
                self.notifications.clear();
                assert(views(self.notifications@) =~= Seq::<NotificationView>::empty());
                no_effects()
            },
            Message::ThemeChanged(theme) => {
                self.config.theme = theme;
                no_effects()
            },
            Message::RefreshIntervalChanged(s) => {
                self.refresh_input = s;
                no_effects()
            },
            Message::MaxLogsChanged(s) => {
                self.max_logs_input = s;
                no_effects()
            },
            Message::SaveSettings => self.save_settings(),
            Message::Tick => no_effects(),
            Message::CheckScheduledTasks => self.check_scheduled_at(now),
        }
    }

    /// Applies `message` now: it reads the clock, draws two fresh ids and
    /// takes the step that [`TaskWithMe::update_at`] takes with them.
    pub fn update(&mut self, message: Message) -> (r: Vec<Effect>)
        ensures
            exists|now: Millis, entity_id: Id, note_id: Id|
                {
                    &&& is_random_uuid(entity_id)
                    &&& is_random_uuid(note_id)
                    &&& final(self)@ == (#[trigger] old(self)@.step(
                        message,
                        now,
                        entity_id,
                        note_id,
                    )).state
                    &&& views(r@) == old(self)@.step(message, now, entity_id, note_id).effects
                },
    {
        let now = current_millis();
        let entity_id = fresh_id();
        let note_id = fresh_id();
        self.update_at(message, now, entity_id, note_id)
    }
}

} // verus!
