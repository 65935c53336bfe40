//! What the persistence layer decides. Each collection is one document,
//! read and written whole. This module says what a document that was read
//! yields, and what is written back; reading, decoding and writing are the
//! caller's.

use vstd::prelude::*;
use crate::error::AppError;
use crate::model::{Config, ExecutionLog, Id, Task, TaskView, views};
use crate::lists::{find_task, lemma_position_from, position, remove_tasks, tasks_without};

verus! {

/// The tasks with `task` in the place of the first task that has its id, or
/// at the end if none has.
pub open spec fn upserted(tasks: Seq<TaskView>, task: TaskView) -> Seq<TaskView> {
    let pos = position(tasks, task.id);
    if pos < tasks.len() {
        tasks.update(pos, task)
    } else {
        tasks.push(task)
    }
}

/// Puts `task` in the place of the first task with its id, or at the end if
/// there is none.
pub fn upsert_task(tasks: &mut Vec<Task>, task: Task)
    ensures
        views(final(tasks)@) == upserted(views(old(tasks)@), task@),
{
    match find_task(tasks, task.id) {
        Some(pos) => {
            tasks.set(pos, task);
            assert(views(tasks@) =~= views(old(tasks)@).update(pos as int, task@));
        },
        None => {
            tasks.push(task);
            assert(views(tasks@) =~= views(old(tasks)@).push(task@));
        },
    }
}

/// What reading a collection yields. `document` is `None` where the document
/// is absent, else what decoding it gave. An absent document stands for
/// `absent`. A malformed one is an error: nothing is made up in its place.
pub fn loaded<T>(document: Option<Result<T, serde_json::Error>>, absent: T) -> (r: Result<
    T,
    AppError,
>)
    ensures
        document is None ==> r == Ok::<T, AppError>(absent),
        document matches Some(Ok(value)) ==> r == Ok::<T, AppError>(value),
        document matches Some(Err(_)) ==> r matches Err(AppError::Serialization(_)),
{
    match document {
        None => Ok(absent),
        Some(Ok(value)) => Ok(value),
        Some(Err(e)) => Err(AppError::from(e)),
    }
}

/// The tasks that reading the task document yields: none if it is absent.
pub fn load_tasks(document: Option<Result<Vec<Task>, serde_json::Error>>) -> (r: Result<
    Vec<Task>,
    AppError,
>)
    ensures
        document is None ==> (r matches Ok(tasks) && tasks@.len() == 0),
        document matches Some(Ok(value)) ==> r == Ok::<Vec<Task>, AppError>(value),
        document matches Some(Err(_)) ==> r matches Err(AppError::Serialization(_)),
{
    loaded(document, Vec::new())
}

/// The log that reading the log document yields: empty if it is absent.
pub fn load_logs(document: Option<Result<Vec<ExecutionLog>, serde_json::Error>>) -> (r: Result<
    Vec<ExecutionLog>,
    AppError,
>)
    ensures
        document is None ==> (r matches Ok(logs) && logs@.len() == 0),
        document matches Some(Ok(value)) ==> r == Ok::<Vec<ExecutionLog>, AppError>(value),
        document matches Some(Err(_)) ==> r matches Err(AppError::Serialization(_)),
{
    loaded(document, Vec::new())
}

/// The settings that reading the settings document yields, and whether they
/// have to be written: an absent document stands for the default settings,
/// which are then written.
pub fn load_config(document: Option<Result<Config, serde_json::Error>>) -> (r: Result<
    (Config, bool),
    AppError,
>)
    ensures
        document is None ==> r == Ok::<(Config, bool), AppError>((Config::initial(), true)),
        document matches Some(Ok(value)) ==> r == Ok::<(Config, bool), AppError>((value, false)),
        document matches Some(Err(_)) ==> r matches Err(AppError::Serialization(_)),
{
    match document {
        None => Ok((Config::default(), true)),
        Some(Ok(config)) => Ok((config, false)),
        Some(Err(e)) => Err(AppError::from(e)),
    }
}

/// The task document to write after `task` was saved: the tasks that the
/// document held, with `task` in the place of the first one with its id, or
/// at the end. An absent document holds no tasks. A malformed document is an
/// error and stays as it is: nothing is written over it.
pub fn save_task(document: Option<Result<Vec<Task>, serde_json::Error>>, task: Task) -> (r: Result<
    Vec<Task>,
    AppError,
>)
    ensures
        document is None ==> (r matches Ok(tasks) && views(tasks@) == seq![task@]),
        document matches Some(Ok(held)) ==> (r matches Ok(tasks) && views(tasks@) == upserted(
            views(held@),
            task@,
        )),
        document matches Some(Err(_)) ==> r matches Err(AppError::Serialization(_)),
{
    match document {
        None => {
            let mut tasks: Vec<Task> = Vec::new();
            tasks.push(task);
            assert(views(tasks@) =~= seq![task@]);
            Ok(tasks)
        },
        Some(Ok(held)) => {
            let mut tasks = held;
            upsert_task(&mut tasks, task);
            Ok(tasks)
        },
        Some(Err(e)) => Err(AppError::from(e)),
    }
}

/// The task document after the tasks with this id were deleted, or `None`
/// where nothing is written because the document is absent. A malformed
/// document is an error and stays as it is.
pub fn delete_task(document: Option<Result<Vec<Task>, serde_json::Error>>, id: Id) -> (r: Result<
    Option<Vec<Task>>,
    AppError,
>)
    ensures
        document is None ==> r == Ok::<Option<Vec<Task>>, AppError>(None),
        document matches Some(Ok(tasks)) ==> (r matches Ok(Some(rest)) && views(rest@)
            == tasks_without(views(tasks@), id)),
        document matches Some(Err(_)) ==> r matches Err(AppError::Serialization(_)),
{
    match document {
        None => Ok(None),
        Some(Ok(tasks)) => {
            let mut rest = tasks;
            remove_tasks(&mut rest, id);
            Ok(Some(rest))
        },
        Some(Err(e)) => Err(AppError::from(e)),
    }
}

/// A task that was saved is in the document, once more than before if its
/// id is new, and every other task is where it was.
pub proof fn lemma_upserted(tasks: Seq<TaskView>, task: TaskView)
    ensures
        upserted(tasks, task).contains(task),
        position(tasks, task.id) < tasks.len() ==> upserted(tasks, task).len() == tasks.len(),
        position(tasks, task.id) == tasks.len() ==> upserted(tasks, task).len() == tasks.len() + 1,
        forall|i: int|
            0 <= i < tasks.len() && i != position(tasks, task.id) ==> #[trigger] upserted(
                tasks,
                task,
            )[i] == tasks[i],
        position(upserted(tasks, task), task.id) == position(tasks, task.id),
{
    lemma_position_from(tasks, task.id, 0);
    let pos = position(tasks, task.id);
    let after = upserted(tasks, task);
    assert(after[pos] == task);
    lemma_position_from(after, task.id, 0);
    let found = position(after, task.id);
    if found < pos {
        assert(tasks[found].id != task.id);
    }
}

/// Saving a task twice is the same as saving it once.
pub proof fn lemma_upserted_twice(tasks: Seq<TaskView>, task: TaskView)
    ensures
        upserted(upserted(tasks, task), task) == upserted(tasks, task),
{
    lemma_upserted(tasks, task);
    lemma_position_from(tasks, task.id, 0);
    let once = upserted(tasks, task);
    assert(once[position(tasks, task.id)] == task);
    assert(once.update(position(once, task.id), task) =~= once);
}

} // verus!
