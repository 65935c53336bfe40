//! What holds of the controller whatever messages arrive.

use vstd::prelude::*;
use crate::error::AppError;
use crate::events::{EffectView, Message};
use crate::model::{
    ExecutionResult, Id, Millis, NotificationLevel, NotificationView, TaskView, views,
};
use crate::lists::{
    lemma_ids_without, lemma_notifications_without, lemma_position_from, lemma_tasks_without,
    position,
};
use crate::transitions::{MAX_NOTIFICATIONS, StateView};

verus! {

/// Whether every task is scheduled exactly when it is active.
pub open spec fn tasks_well_formed(tasks: Seq<TaskView>) -> bool {
    forall|i: int| 0 <= i < tasks.len() ==> (#[trigger] tasks[i]).well_formed()
}

/// A queue of at most ten notifications holds at most ten after one more:
/// the eleventh pushes the oldest out, and the newest is the last.
pub proof fn lemma_notified_bounded(
    state: StateView,
    id: Id,
    message: Seq<char>,
    level: NotificationLevel,
    now: Millis,
)
    requires
        state.notifications.len() <= MAX_NOTIFICATIONS,
    ensures
        state.notified(id, message, level, now).notifications.len() <= MAX_NOTIFICATIONS,
        state.notified(id, message, level, now).notifications.last() == (NotificationView {
            id,
            message,
            level,
            timestamp: now,
        }),
        state.notifications.len() == MAX_NOTIFICATIONS ==> state.notified(
            id,
            message,
            level,
            now,
        ).notifications == state.notifications.drop_first().push(
            NotificationView { id, message, level, timestamp: now },
        ),
        state.notifications.len() < MAX_NOTIFICATIONS ==> state.notified(
            id,
            message,
            level,
            now,
        ).notifications == state.notifications.push(
            NotificationView { id, message, level, timestamp: now },
        ),
{
    let note = NotificationView { id, message, level, timestamp: now };
    if state.notifications.len() == MAX_NOTIFICATIONS {
        assert(state.notifications.push(note).drop_first() =~= state.notifications.drop_first().push(
            note,
        ));
    }
}

/// Every task stays scheduled exactly when it is active, whatever message
/// arrives, as long as the tasks that are read from the task document are.
pub proof fn lemma_step_keeps_tasks_well_formed(
    state: StateView,
    message: Message,
    now: Millis,
    entity_id: Id,
    note_id: Id,
)
    requires
        tasks_well_formed(state.tasks),
        message matches Message::TasksLoaded(Ok(tasks)) ==> tasks_well_formed(views(tasks@)),
    ensures
        tasks_well_formed(state.step(message, now, entity_id, note_id).state.tasks),
{
    let next = state.step(message, now, entity_id, note_id).state;
    match message {
        Message::DeleteTask(id) => {
            lemma_tasks_without(state.tasks, id);
            assert forall|i: int| 0 <= i < next.tasks.len() implies (
            #[trigger] next.tasks[i]).well_formed() by {
                let k = choose|k: int| 0 <= k < state.tasks.len() && state.tasks[k] == next.tasks[i];
                assert(state.tasks[k].well_formed());
            }
        },
        Message::ToggleTask(id) => {
            lemma_position_from(state.tasks, id, 0);
        },
        Message::TaskExecuted(id, result) => {
            lemma_position_from(state.tasks, id, 0);
        },
        _ => {},
    }
}

/// A task that is created is inactive, unscheduled and has run zero times.
pub proof fn lemma_created_task_is_idle(state: StateView, now: Millis, task_id: Id, note_id: Id)
    ensures
        forall|i: int|
            0 <= i < state.create_requested(now, task_id, note_id).effects.len() ==> ((
            #[trigger] state.create_requested(now, task_id, note_id).effects[i]) matches EffectView::SaveTask(
                task,
            ) && !task.is_active && task.next_run is None && task.success_count == 0
                && task.failure_count == 0 && task.id == task_id && task.well_formed()),
{
}

/// Switching a task on schedules it one interval from now; switching it off
/// unschedules it. Either way it is scheduled exactly when it is active.
pub proof fn lemma_toggle_schedules(state: StateView, id: Id, now: Millis, note_id: Id)
    requires
        position(state.tasks, id) < state.tasks.len(),
    ensures
        ({
            let pos = position(state.tasks, id);
            let before = state.tasks[pos];
            let after = state.toggle_requested(id, now, note_id).state.tasks[pos];
            &&& after.id == id
            &&& after.is_active == !before.is_active
            &&& after.is_active ==> after.next_run == Some(
                (now + before.interval_seconds * 1000) as i128,
            )
            &&& !after.is_active ==> after.next_run is None
            &&& after.well_formed()
            &&& after.success_count == before.success_count
            &&& after.failure_count == before.failure_count
        }),
{
    lemma_position_from(state.tasks, id, 0);
}

/// After a run of an active task completes at `now`, the task runs next one
/// interval after `now`, whenever it was to run before. Its counters never
/// go down: the one for the outcome goes up by one, unless it is at its
/// largest value.
pub proof fn lemma_completion_reschedules(
    state: StateView,
    id: Id,
    outcome: ExecutionResult,
    now: Millis,
    log_id: Id,
    note_id: Id,
)
    requires
        position(state.tasks, id) < state.tasks.len(),
    ensures
        ({
            let pos = position(state.tasks, id);
            let before = state.tasks[pos];
            let next = state.task_executed(id, Ok(outcome), now, log_id, note_id).state;
            let after = next.tasks[pos];
            &&& next.tasks.len() == state.tasks.len()
            &&& after.id == id
            &&& after.last_run == Some(now)
            &&& after.last_output == outcome.output@
            &&& before.is_active ==> after.next_run == Some(
                (now + before.interval_seconds * 1000) as i128,
            )
            &&& after.is_active == before.is_active
            &&& after.success_count >= before.success_count
            &&& after.failure_count >= before.failure_count
            &&& outcome.success && before.success_count < u32::MAX ==> after.success_count
                == before.success_count + 1 && after.failure_count == before.failure_count
            &&& !outcome.success && before.failure_count < u32::MAX ==> after.failure_count
                == before.failure_count + 1 && after.success_count == before.success_count
        }),
{
    lemma_position_from(state.tasks, id, 0);
}

/// No counter of a task that stays in the list ever goes down, whatever
/// message arrives, unless the list is replaced by the saved tasks or the
/// task is deleted.
pub proof fn lemma_counters_never_decrease(
    state: StateView,
    message: Message,
    now: Millis,
    entity_id: Id,
    note_id: Id,
)
    requires
        !(message is TasksLoaded),
        !(message is DeleteTask),
    ensures
        ({
            let next = state.step(message, now, entity_id, note_id).state;
            &&& next.tasks.len() == state.tasks.len()
            &&& forall|i: int|
                0 <= i < state.tasks.len() ==> {
                    &&& (#[trigger] next.tasks[i]).id == state.tasks[i].id
                    &&& next.tasks[i].success_count >= state.tasks[i].success_count
                    &&& next.tasks[i].failure_count >= state.tasks[i].failure_count
                }
        }),
{
    match message {
        Message::ToggleTask(id) => {
            lemma_position_from(state.tasks, id, 0);
        },
        Message::TaskExecuted(id, result) => {
            lemma_position_from(state.tasks, id, 0);
        },
        _ => {},
    }
}

/// The running set never holds an id twice, whatever message arrives.
pub proof fn lemma_step_keeps_running_distinct(
    state: StateView,
    message: Message,
    now: Millis,
    entity_id: Id,
    note_id: Id,
)
    requires
        state.running_tasks.no_duplicates(),
    ensures
        state.step(message, now, entity_id, note_id).state.running_tasks.no_duplicates(),
{
    match message {
        Message::TaskExecuted(id, result) => {
            lemma_ids_without(state.running_tasks, id);
        },
        _ => {},
    }
}

/// A task whose run is in flight is not started again: the request changes
/// neither the running set nor tasks nor logs, starts nothing, and appends a
/// warning.
pub proof fn lemma_running_task_is_not_started(
    state: StateView,
    id: Id,
    now: Millis,
    note_id: Id,
)
    requires
        state.running_tasks.contains(id),
    ensures
        ({
            let step = state.execute_requested(id, now, note_id);
            &&& step.effects == Seq::<EffectView>::empty()
            &&& step.state.running_tasks == state.running_tasks
            &&& step.state.tasks == state.tasks
            &&& step.state.logs == state.logs
            &&& step.state.notifications.last() == (NotificationView {
                id: note_id,
                message: "Task is already running"@,
                level: NotificationLevel::Warning,
                timestamp: now,
            })
        }),
{
}

/// A run that is started puts its task into the running set, where it stays
/// until the end of the run is taken in; after that it is out.
pub proof fn lemma_running_from_start_to_end(
    state: StateView,
    id: Id,
    result: Result<ExecutionResult, AppError>,
    now: Millis,
    log_id: Id,
    note_id: Id,
)
    ensures
        state.execute_requested(id, now, note_id).effects.len() > 0 ==> state.execute_requested(
            id,
            now,
            note_id,
        ).state.running_tasks.contains(id),
        !state.task_executed(id, result, now, log_id, note_id).state.running_tasks.contains(id),
        forall|other: Id|
            other != id ==> (#[trigger] state.task_executed(
                id,
                result,
                now,
                log_id,
                note_id,
            ).state.running_tasks.contains(other) <==> state.running_tasks.contains(other)),
{
    lemma_ids_without(state.running_tasks, id);
    let started = state.execute_requested(id, now, note_id);
    if started.effects.len() > 0 {
        assert(started.state.running_tasks[state.running_tasks.len() as int] == id);
    }
}

/// The queue of notifications never holds more than ten, whatever message
/// arrives.
pub proof fn lemma_step_keeps_notifications_bounded(
    state: StateView,
    message: Message,
    now: Millis,
    entity_id: Id,
    note_id: Id,
)
    requires
        state.notifications.len() <= MAX_NOTIFICATIONS,
    ensures
        state.step(message, now, entity_id, note_id).state.notifications.len()
            <= MAX_NOTIFICATIONS,
{
    match message {
        Message::CloseNotification(id) => {
            lemma_notifications_without(state.notifications, id);
        },
        _ => {},
    }
}

/// After the end of a run is taken in, the log holds no more than the bound
/// allows, whatever it held before.
pub proof fn lemma_completion_bounds_log(
    state: StateView,
    id: Id,
    outcome: ExecutionResult,
    now: Millis,
    log_id: Id,
    note_id: Id,
)
    requires
        position(state.tasks, id) < state.tasks.len(),
    ensures
        ({
            let next = state.task_executed(id, Ok(outcome), now, log_id, note_id).state;
            let entry = StateView::log_entry(id, outcome@, now, log_id);
            &&& next.logs.len() <= state.config.max_logs
            &&& state.config.max_logs > 0 ==> next.logs.len() > 0 && next.logs.last() == entry
        }),
{
}

/// The log never holds more than the bound allows, whatever message arrives,
/// as long as no longer log is read from the log document and the bound is
/// not set below the size of the log.
pub proof fn lemma_step_keeps_log_bounded(
    state: StateView,
    message: Message,
    now: Millis,
    entity_id: Id,
    note_id: Id,
)
    requires
        state.logs.len() <= state.config.max_logs,
        message matches Message::LogsLoaded(Ok(logs)) ==> logs@.len() <= state.config.max_logs,
        message matches Message::ConfigLoaded(Ok(config)) ==> state.logs.len() <= config.max_logs,
        message is SaveSettings ==> state.logs.len() <= state.form_config().max_logs,
    ensures
        ({
            let next = state.step(message, now, entity_id, note_id).state;
            next.logs.len() <= next.config.max_logs
        }),
{
}

/// The state stays well formed, whatever message arrives, as long as the
/// documents that are read hold well-formed tasks and no more log entries
/// than the bound allows, and the bound is not set below the size of the
/// log.
pub proof fn lemma_step_keeps_well_formed(
    state: StateView,
    message: Message,
    now: Millis,
    entity_id: Id,
    note_id: Id,
)
    requires
        state.well_formed(),
        message matches Message::TasksLoaded(Ok(tasks)) ==> tasks_well_formed(views(tasks@)),
        message matches Message::LogsLoaded(Ok(logs)) ==> logs@.len() <= state.config.max_logs,
        message matches Message::ConfigLoaded(Ok(config)) ==> state.logs.len() <= config.max_logs,
        message is SaveSettings ==> state.logs.len() <= state.form_config().max_logs,
    ensures
        state.step(message, now, entity_id, note_id).state.well_formed(),
{
    lemma_step_keeps_tasks_well_formed(state, message, now, entity_id, note_id);
    lemma_step_keeps_running_distinct(state, message, now, entity_id, note_id);
    lemma_step_keeps_notifications_bounded(state, message, now, entity_id, note_id);
    lemma_step_keeps_log_bounded(state, message, now, entity_id, note_id);
}

} // verus!
