//! What enters the controller and what it asks for in return.

use vstd::prelude::*;
use crate::error::AppError;
use crate::model::{
    AppTheme, Config, ExecutionLog, ExecutionLogView, ExecutionResult, Id, Screen, Task,
    TaskFilter, TaskView, views,
};

verus! {

/// `Result`'s `clone`, which std derives: a copy of the same variant, made
/// by the `clone` of what it holds.
pub assume_specification<T: Clone, E: Clone>[ <Result<T, E> as Clone>::clone ](
    result: &Result<T, E>,
) -> (res: Result<T, E>)
    ensures
        result is Ok ==> res is Ok && cloned::<T>(result->Ok_0, res->Ok_0),
        result is Err ==> res is Err && cloned::<E>(result->Err_0, res->Err_0),
;

/// An intent of the user, the completion of outside work, or a timer event.
#[derive(Debug, Clone)]
pub enum Message {
    ChangeScreen(Screen),
    TitleInput(String),
    CommandInput(String),
    IntervalInput(String),
    CreateTask,
    DeleteTask(Id),
    ToggleTask(Id),
    ExecuteTask(Id),
    TasksLoaded(Result<Vec<Task>, AppError>),
    LogsLoaded(Result<Vec<ExecutionLog>, AppError>),
    TaskSaved(Result<(), AppError>),
    TaskExecuted(Id, Result<ExecutionResult, AppError>),
    TaskDeleted(Result<(), AppError>),
    ConfigLoaded(Result<Config, AppError>),
    ConfigSaved(Result<(), AppError>),
    SelectTemplate(usize),
    SearchInput(String),
    FilterChanged(TaskFilter),
    ViewTaskLogs(Id),
    CloseNotification(Id),
    ClearNotifications,
    ThemeChanged(AppTheme),
    RefreshIntervalChanged(String),
    MaxLogsChanged(String),
    SaveSettings,
    Tick,
    CheckScheduledTasks,
}

/// Outside work that the controller asks for. Each piece of work ends in one
/// [`Message`] that is handed back to the controller.
#[derive(Debug)]
pub enum Effect {
    /// Read the settings; answer with `ConfigLoaded`.
    LoadConfig,
    /// Read the task document; answer with `TasksLoaded`.
    LoadTasks,
    /// Read the log document; answer with `LogsLoaded`.
    LoadLogs,
    /// Write the task into the task document; answer with `TaskSaved`.
    SaveTask(Task),
    /// Remove the task from the task document; answer with `TaskDeleted`.
    DeleteTask(Id),
    /// Replace the log document; answer with `Tick`.
    SaveLogs(Vec<ExecutionLog>),
    /// Write the settings; answer with `ConfigSaved`.
    SaveConfig(Config),
    /// Run the task's command; answer with `TaskExecuted` under its id.
    Run(Task),
    /// Hand `ExecuteTask` with this id back to the controller.
    Dispatch(Id),
}

/// What an [`Effect`] holds, as mathematical values.
pub enum EffectView {
    LoadConfig,
    LoadTasks,
    LoadLogs,
    SaveTask(TaskView),
    DeleteTask(Id),
    SaveLogs(Seq<ExecutionLogView>),
    SaveConfig(Config),
    Run(TaskView),
    Dispatch(Id),
}

impl View for Effect {
    type V = EffectView;

    open spec fn view(&self) -> EffectView {
        match *self {
            Effect::LoadConfig => EffectView::LoadConfig,
            Effect::LoadTasks => EffectView::LoadTasks,
            Effect::LoadLogs => EffectView::LoadLogs,
            Effect::SaveTask(task) => EffectView::SaveTask(task@),
            Effect::DeleteTask(id) => EffectView::DeleteTask(id),
            Effect::SaveLogs(logs) => EffectView::SaveLogs(views(logs@)),
            Effect::SaveConfig(config) => EffectView::SaveConfig(config),
            Effect::Run(task) => EffectView::Run(task@),
            Effect::Dispatch(id) => EffectView::Dispatch(id),
        }
    }
}

} // verus!
