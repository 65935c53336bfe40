//! The controller as a mathematical state machine: what each message makes
//! of the state, and which outside work it asks for.

use vstd::prelude::*;
use crate::error::AppError;
use crate::events::{EffectView, Message};
use crate::lists::{ids_without, kept_logs, notifications_without, position, tasks_without};
use crate::model::{
    Config, ExecutionLogView, ExecutionResult, ExecutionResultView, Id, Millis,
    NotificationLevel, NotificationView, Screen, TaskFilter, TaskView, views,
};
use crate::schedule::{due_ids, run_after};
use crate::templates::{Platform, TaskTemplateView, templates};
use crate::text::{decimal, decimal_value, is_blank};

verus! {

/// Most notifications that are kept.
pub const MAX_NOTIFICATIONS: usize = 10;

/// What the controller holds, as mathematical values.
pub struct StateView {
    pub tasks: Seq<TaskView>,
    pub logs: Seq<ExecutionLogView>,
    pub config: Config,
    pub screen: Screen,
    pub title_input: Seq<char>,
    pub command_input: Seq<char>,
    pub interval_input: Seq<char>,
    pub search_query: Seq<char>,
    pub filter: TaskFilter,
    pub notifications: Seq<NotificationView>,
    pub running_tasks: Seq<Id>,
    pub refresh_input: Seq<char>,
    pub max_logs_input: Seq<char>,
    pub templates: Seq<TaskTemplateView>,
}

/// The outcome of one message: the next state and the outside work to start,
/// in order.
pub struct Step {
    pub state: StateView,
    pub effects: Seq<EffectView>,
}

/// A counter after one more event. It stays at its largest value rather than
/// start again from zero.
pub open spec fn bumped(count: u32) -> u32 {
    if count < u32::MAX {
        (count + 1) as u32
    } else {
        count
    }
}

/// The task after its switch was flipped at `now`: switched on, it runs next
/// one interval from `now`; switched off, it has no next run.
pub open spec fn toggled_task(task: TaskView, now: Millis) -> TaskView {
    if task.is_active {
        TaskView { is_active: false, next_run: None, ..task }
    } else {
        TaskView {
            is_active: true,
            next_run: Some(run_after(now, task.interval_seconds) as i128),
            ..task
        }
    }
}

/// The task after a run of it completed at `now` with `result`.
pub open spec fn completed_task(task: TaskView, result: ExecutionResultView, now: Millis)
    -> TaskView {
    TaskView {
        last_run: Some(now),
        last_output: result.output,
        success_count: if result.success {
            bumped(task.success_count)
        } else {
            task.success_count
        },
        failure_count: if result.success {
            task.failure_count
        } else {
            bumped(task.failure_count)
        },
        next_run: if task.is_active {
            Some(run_after(now, task.interval_seconds) as i128)
        } else {
            task.next_run
        },
        ..task
    }
}

impl StateView {
    /// The state of a fresh start: nothing loaded yet, the default settings,
    /// and the settings form filled from them.
    pub open spec fn initial(platform: Platform) -> StateView {
        StateView {
            tasks: Seq::empty(),
            logs: Seq::empty(),
            config: Config::initial(),
            screen: Screen::Overview,
            title_input: Seq::empty(),
            command_input: Seq::empty(),
            interval_input: Seq::empty(),
            search_query: Seq::empty(),
            filter: TaskFilter::All,
            notifications: Seq::empty(),
            running_tasks: Seq::empty(),
            refresh_input: decimal(5),
            max_logs_input: decimal(500),
            templates: templates(platform),
        }
    }

    /// What holds of the state between any two messages: a task is scheduled
    /// exactly when it is active, no task runs twice at once, and the queue
    /// of notifications and the log stay within their bounds.
    pub open spec fn well_formed(self) -> bool {
        &&& forall|i: int| 0 <= i < self.tasks.len() ==> (#[trigger] self.tasks[i]).well_formed()
        &&& self.running_tasks.no_duplicates()
        &&& self.notifications.len() <= MAX_NOTIFICATIONS
        &&& self.logs.len() <= self.config.max_logs
    }

    /// The state with one more notification. The oldest one leaves when the
    /// queue would grow beyond its bound.
    pub open spec fn notified(
        self,
        id: Id,
        message: Seq<char>,
        level: NotificationLevel,
        now: Millis,
    ) -> StateView {
        let all = self.notifications.push(
            NotificationView { id, message, level, timestamp: now },
        );
        StateView {
            notifications: if all.len() > MAX_NOTIFICATIONS {
                all.drop_first()
            } else {
                all
            },
            ..self
        }
    }

    /// The task that the creation form describes.
    pub open spec fn form_task(self, interval_seconds: u64, now: Millis, id: Id) -> TaskView {
        TaskView {
            id,
            title: self.title_input,
            command: self.command_input,
            interval_seconds,
            is_active: false,
            last_run: None,
            next_run: None,
            created_at: now,
            success_count: 0,
            failure_count: 0,
            last_output: Seq::empty(),
        }
    }

    /// A task is created from the form. A blank title, a blank command or an
    /// interval that is no positive number is refused with a warning and
    /// changes nothing else. The new task is inactive, and goes to the saved
    /// tasks: it enters the list when they are read again.
    pub open spec fn create_requested(self, now: Millis, task_id: Id, note_id: Id) -> Step {
        let interval = decimal_value(self.interval_input);
        if is_blank(self.title_input) {
            Step {
                state: self.notified(
                    note_id,
                    "Task title cannot be empty"@,
                    NotificationLevel::Warning,
                    now,
                ),
                effects: Seq::empty(),
            }
        } else if is_blank(self.command_input) {
            Step {
                state: self.notified(
                    note_id,
                    "Command cannot be empty"@,
                    NotificationLevel::Warning,
                    now,
                ),
                effects: Seq::empty(),
            }
        } else if interval is None || interval->0 == 0 {
            Step {
                state: self.notified(note_id, "Invalid interval"@, NotificationLevel::Warning, now),
                effects: Seq::empty(),
            }
        } else {
            let task = self.form_task(interval->0, now, task_id);
            Step {
                state: StateView {
                    title_input: Seq::empty(),
                    command_input: Seq::empty(),
                    interval_input: Seq::empty(),
                    ..self
                }.notified(
                    note_id,
                    "Task '"@ + task.title + "' created"@,
                    NotificationLevel::Success,
                    now,
                ),
                effects: seq![EffectView::SaveTask(task)],
            }
        }
    }

    /// Every task with this id leaves the list, and the saved tasks are told
    /// to drop it. Logs stay as they are.
    pub open spec fn delete_requested(self, id: Id, now: Millis, note_id: Id) -> Step {
        let pos = position(self.tasks, id);
        let noted = if pos < self.tasks.len() {
            self.notified(
                note_id,
                "Deleted task '"@ + self.tasks[pos].title + "'"@,
                NotificationLevel::Info,
                now,
            )
        } else {
            self
        };
        Step {
            state: StateView { tasks: tasks_without(self.tasks, id), ..noted },
            effects: seq![EffectView::DeleteTask(id)],
        }
    }

    /// The switch of the first task with this id is flipped, and the task is
    /// saved. An unknown id changes nothing.
    pub open spec fn toggle_requested(self, id: Id, now: Millis, note_id: Id) -> Step {
        let pos = position(self.tasks, id);
        if pos < self.tasks.len() {
            let task = toggled_task(self.tasks[pos], now);
            Step {
                state: StateView { tasks: self.tasks.update(pos, task), ..self }.notified(
                    note_id,
                    "Task '"@ + task.title + "' "@ + (if task.is_active {
                        "activated"@
                    } else {
                        "paused"@
                    }),
                    NotificationLevel::Info,
                    now,
                ),
                effects: seq![EffectView::SaveTask(task)],
            }
        } else {
            Step { state: self, effects: Seq::empty() }
        }
    }

    /// A run of the task is asked for. While one is in flight the request is
    /// refused with a warning. Otherwise the id joins the running set and the
    /// command is started. An unknown id changes nothing.
    pub open spec fn execute_requested(self, id: Id, now: Millis, note_id: Id) -> Step {
        let pos = position(self.tasks, id);
        if self.running_tasks.contains(id) {
            Step {
                state: self.notified(
                    note_id,
                    "Task is already running"@,
                    NotificationLevel::Warning,
                    now,
                ),
                effects: Seq::empty(),
            }
        } else if pos < self.tasks.len() {
            Step {
                state: StateView { running_tasks: self.running_tasks.push(id), ..self }.notified(
                    note_id,
                    "Executing '"@ + self.tasks[pos].title + "'..."@,
                    NotificationLevel::Info,
                    now,
                ),
                effects: seq![EffectView::Run(self.tasks[pos])],
            }
        } else {
            Step { state: self, effects: Seq::empty() }
        }
    }

    /// The log entry of a run that completed at `now`.
    pub open spec fn log_entry(task_id: Id, result: ExecutionResultView, now: Millis, id: Id)
        -> ExecutionLogView {
        ExecutionLogView {
            id,
            task_id,
            timestamp: now,
            success: result.success,
            output: result.output,
            duration_ms: result.duration_ms,
        }
    }

    /// A run has ended. The id leaves the running set in any case. If the
    /// command ran, the first task with the id takes the outcome, a log entry
    /// is appended, the log is cut to its bound, and both are saved. If the
    /// command could not be started, or the task is gone, tasks and log stay
    /// as they are.
    pub open spec fn task_executed(
        self,
        id: Id,
        result: Result<ExecutionResult, AppError>,
        now: Millis,
        log_id: Id,
        note_id: Id,
    ) -> Step {
        let pos = position(self.tasks, id);
        let idle = StateView { running_tasks: ids_without(self.running_tasks, id), ..self };
        match result {
            Ok(outcome) => if pos < self.tasks.len() {
                let task = completed_task(self.tasks[pos], outcome@, now);
                let logs = kept_logs(
                    self.logs.push(Self::log_entry(id, outcome@, now, log_id)),
                    self.config.max_logs as nat,
                );
                let state = StateView { tasks: self.tasks.update(pos, task), logs, ..idle };
                Step {
                    state: if outcome.success {
                        state.notified(
                            note_id,
                            "Task '"@ + task.title + "' completed successfully"@,
                            NotificationLevel::Success,
                            now,
                        )
                    } else {
                        state.notified(
                            note_id,
                            "Task '"@ + task.title + "' failed"@,
                            NotificationLevel::Error,
                            now,
                        )
                    },
                    effects: seq![EffectView::SaveTask(task), EffectView::SaveLogs(logs)],
                }
            } else {
                Step { state: idle, effects: Seq::empty() }
            },
            Err(e) => Step {
                state: idle.notified(
                    note_id,
                    "Execution error: "@ + e@.text(),
                    NotificationLevel::Error,
                    now,
                ),
                effects: Seq::empty(),
            },
        }
    }

    /// The state after a failure was reported: `prefix`, then the error's
    /// text.
    pub open spec fn failure_noted(
        self,
        prefix: Seq<char>,
        error: AppError,
        now: Millis,
        note_id: Id,
    ) -> StateView {
        self.notified(note_id, prefix + error@.text(), NotificationLevel::Error, now)
    }

    /// The settings were read: they replace the current ones and fill the
    /// settings form.
    pub open spec fn config_loaded(self, config: Config) -> StateView {
        StateView {
            config,
            refresh_input: decimal(config.refresh_interval as nat),
            max_logs_input: decimal(config.max_logs as nat),
            ..self
        }
    }

    /// The settings that the settings form describes: a field that holds a
    /// number replaces the setting, raised to the least value allowed; any
    /// other field leaves the setting as it is.
    pub open spec fn form_config(self) -> Config {
        let refresh = decimal_value(self.refresh_input);
        let max_logs = decimal_value(self.max_logs_input);
        Config {
            refresh_interval: if refresh is Some {
                if refresh->0 < 1 {
                    1
                } else {
                    refresh->0
                }
            } else {
                self.config.refresh_interval
            },
            max_logs: if max_logs is Some && max_logs->0 <= usize::MAX {
                if max_logs->0 < 10 {
                    10
                } else {
                    max_logs->0 as usize
                }
            } else {
                self.config.max_logs
            },
            ..self.config
        }
    }

    /// The form's settings become the current ones and are saved.
    pub open spec fn save_settings(self) -> Step {
        let config = self.form_config();
        Step { state: StateView { config, ..self }, effects: seq![EffectView::SaveConfig(config)] }
    }

    /// The template at `index` fills the creation form. An index beyond the
    /// templates changes nothing.
    pub open spec fn select_template(self, index: usize, now: Millis, note_id: Id) -> StateView {
        if index < self.templates.len() {
            let template = self.templates[index as int];
            StateView {
                title_input: template.name,
                command_input: template.command,
                interval_input: decimal(template.interval as nat),
                ..self
            }.notified(
                note_id,
                "Template loaded: "@ + template.name,
                NotificationLevel::Info,
                now,
            )
        } else {
            self
        }
    }

    /// The timer fired: every due task is dispatched, in the order of the
    /// task list.
    pub open spec fn check_scheduled(self, now: Millis) -> Step {
        Step {
            state: self,
            effects: due_ids(self.tasks, now, self.running_tasks).map_values(
                |id: Id| EffectView::Dispatch(id),
            ),
        }
    }

    /// This state, with no outside work to start.
    pub open spec fn quiet(self) -> Step {
        Step { state: self, effects: Seq::empty() }
    }

    /// What `message` makes of the state at `now`. A task or log entry made
    /// in the step gets `entity_id`, a notification gets `note_id`.
    pub open spec fn step(self, message: Message, now: Millis, entity_id: Id, note_id: Id)
        -> Step {
        match message {
            Message::ChangeScreen(screen) => StateView { screen, ..self }.quiet(),
            Message::TitleInput(s) => StateView { title_input: s@, ..self }.quiet(),
            Message::CommandInput(s) => StateView { command_input: s@, ..self }.quiet(),
            Message::IntervalInput(s) => StateView { interval_input: s@, ..self }.quiet(),
            Message::CreateTask => self.create_requested(now, entity_id, note_id),
            Message::DeleteTask(id) => self.delete_requested(id, now, note_id),
            Message::ToggleTask(id) => self.toggle_requested(id, now, note_id),
            Message::ExecuteTask(id) => self.execute_requested(id, now, note_id),
            Message::TasksLoaded(Ok(tasks)) => StateView { tasks: views(tasks@), ..self }.quiet(),
            Message::TasksLoaded(Err(e)) => self.failure_noted(
                "Failed to load tasks: "@,
                e,
                now,
                note_id,
            ).quiet(),
            Message::LogsLoaded(Ok(logs)) => StateView { logs: views(logs@), ..self }.quiet(),
            Message::LogsLoaded(Err(e)) => self.failure_noted(
                "Failed to load logs: "@,
                e,
                now,
                note_id,
            ).quiet(),
            Message::TaskSaved(Ok(_)) => Step { state: self, effects: seq![EffectView::LoadTasks] },
            Message::TaskSaved(Err(e)) => self.failure_noted(
                "Failed to save: "@,
                e,
                now,
                note_id,
            ).quiet(),
            Message::TaskExecuted(id, result) => self.task_executed(
                id,
                result,
                now,
                entity_id,
                note_id,
            ),
            Message::TaskDeleted(Ok(_)) => Step {
                state: self,
                effects: seq![EffectView::LoadTasks],
            },
            Message::TaskDeleted(Err(e)) => self.failure_noted(
                "Failed to delete: "@,
                e,
                now,
                note_id,
            ).quiet(),
            Message::ConfigLoaded(Ok(config)) => self.config_loaded(config).quiet(),
            Message::ConfigLoaded(Err(e)) => self.failure_noted(
                "Failed to load settings: "@,
                e,
                now,
                note_id,
            ).quiet(),
            Message::ConfigSaved(Ok(_)) => StateView { screen: Screen::Overview, ..self }.notified(
                note_id,
                "Settings saved"@,
                NotificationLevel::Success,
                now,
            ).quiet(),
            Message::ConfigSaved(Err(e)) => self.failure_noted(
                "Failed to save settings: "@,
                e,
                now,
                note_id,
            ).quiet(),
            Message::SelectTemplate(index) => self.select_template(index, now, note_id).quiet(),
            Message::SearchInput(s) => StateView { search_query: s@, ..self }.quiet(),
            Message::FilterChanged(filter) => StateView { filter, ..self }.quiet(),
            Message::ViewTaskLogs(id) => StateView { screen: Screen::Logs(Some(id)), ..self }.quiet(),
            Message::CloseNotification(id) => StateView {
                notifications: notifications_without(self.notifications, id),
                ..self
            }.quiet(),
            Message::ClearNotifications => StateView {
                notifications: Seq::empty(),
                ..self
            }.quiet(),
            Message::ThemeChanged(theme) => StateView {
                config: Config { theme, ..self.config },
                ..self
            }.quiet(),
            Message::RefreshIntervalChanged(s) => StateView { refresh_input: s@, ..self }.quiet(),
            Message::MaxLogsChanged(s) => StateView { max_logs_input: s@, ..self }.quiet(),
            Message::SaveSettings => self.save_settings(),
            Message::Tick => self.quiet(),
            Message::CheckScheduledTasks => self.check_scheduled(now),
        }
    }
}

} // verus!
