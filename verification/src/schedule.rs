//! The scheduler: when a task runs next, and which tasks are due.

use vstd::prelude::*;
use crate::lists::is_running;
use crate::model::{Id, Millis, Task, TaskView, WideMillis, views};

verus! {

/// The instant `interval_seconds` after `now`, in milliseconds.
pub open spec fn run_after(now: Millis, interval_seconds: u64) -> int {
    now + interval_seconds * 1000
}

/// The instant at which a task with this interval runs next when it is
/// activated, or completes a run, at `now`. The schedule goes by the clock,
/// not by the run before: a task that ran late does not catch up.
pub fn next_run(now: Millis, interval_seconds: u64) -> (r: WideMillis)
    ensures
        r == run_after(now, interval_seconds),
        r >= now,
{
    now as i128 + interval_seconds as i128 * 1000
}

/// Whether the task is due at `now`: it is active, its next run has come and
/// no run of it is in flight.
pub open spec fn is_due(task: TaskView, now: Millis, running: Seq<Id>) -> bool {
    &&& task.is_active
    &&& task.next_run is Some
    &&& now >= task.next_run->0
    &&& !running.contains(task.id)
}

/// The ids of the due tasks, in the order of the tasks.
pub open spec fn due_ids(tasks: Seq<TaskView>, now: Millis, running: Seq<Id>) -> Seq<Id> {
    tasks.filter(|t: TaskView| is_due(t, now, running)).map_values(|t: TaskView| t.id)
}

/// Whether the task is due at `now`.
pub fn task_is_due(task: &Task, now: Millis, running: &Vec<Id>) -> (b: bool)
    ensures
        b == is_due(task@, now, running@),
{
    if !task.is_active {
        return false;
    }
    match task.next_run {
        Some(at) => now as i128 >= at && !is_running(running, task.id),
        None => false,
    }
}

/// The tasks to dispatch at `now`: every due task, once, in the order of the
/// task list. Nothing is held back and nothing is reordered.
pub fn due_tasks(now: Millis, tasks: &Vec<Task>, running: &Vec<Id>) -> (r: Vec<Id>)
    ensures
        r@ == due_ids(views(tasks@), now, running@),
{
    let ghost all = views(tasks@);
    let ghost due = |t: TaskView| is_due(t, now, running@);
    let mut r: Vec<Id> = Vec::new();
    let mut i: usize = 0;
    proof {
        reveal(Seq::filter);
        assert(all.subrange(0, 0) =~= Seq::<TaskView>::empty());
        assert(due_ids(all.subrange(0, 0), now, running@) =~= Seq::<Id>::empty());
    }
    while i < tasks.len()
        invariant
            i <= tasks.len(),
            all == views(tasks@),
            r@ == due_ids(all.subrange(0, i as int), now, running@),
        decreases tasks.len() - i,
    {
        proof {
            lemma_due_ids_step(all.subrange(0, i + 1), now, running@);
            assert(all.subrange(0, i + 1).drop_last() =~= all.subrange(0, i as int));
        }
        if task_is_due(&tasks[i], now, running) {
            r.push(tasks[i].id);
        }
        i += 1;
    }
    assert(all.subrange(0, tasks.len() as int) =~= all);
    r
}

/// The due ids of a nonempty list are those of all but the last task,
/// followed by the last task's id if it is due.
pub proof fn lemma_due_ids_step(tasks: Seq<TaskView>, now: Millis, running: Seq<Id>)
    requires
        tasks.len() > 0,
    ensures
        due_ids(tasks, now, running) == if is_due(tasks.last(), now, running) {
            due_ids(tasks.drop_last(), now, running).push(tasks.last().id)
        } else {
            due_ids(tasks.drop_last(), now, running)
        },
{
    reveal(Seq::filter);
    let due = |t: TaskView| is_due(t, now, running);
    let id_of = |t: TaskView| t.id;
    if is_due(tasks.last(), now, running) {
        assert(tasks.filter(due) == tasks.drop_last().filter(due).push(tasks.last()));
        assert(tasks.drop_last().filter(due).push(tasks.last()).map_values(id_of)
            =~= tasks.drop_last().filter(due).map_values(id_of).push(tasks.last().id));
    }
}

/// An id is dispatched exactly when a task with that id is due.
pub proof fn lemma_due_ids_contains(
    tasks: Seq<TaskView>,
    now: Millis,
    running: Seq<Id>,
    id: Id,
)
    ensures
        due_ids(tasks, now, running).contains(id) <==> exists|i: int|
            0 <= i < tasks.len() && (#[trigger] tasks[i]).id == id && is_due(
                tasks[i],
                now,
                running,
            ),
    decreases tasks.len(),
{
    if tasks.len() == 0 {
        reveal(Seq::filter);
        assert(due_ids(tasks, now, running) =~= Seq::<Id>::empty());
    } else {
        lemma_due_ids_step(tasks, now, running);
        lemma_due_ids_contains(tasks.drop_last(), now, running, id);
        let rest = due_ids(tasks.drop_last(), now, running);
        let last = tasks.last();
        if due_ids(tasks, now, running).contains(id) {
            if is_due(last, now, running) && !rest.contains(id) {
                let k = choose|k: int|
                    0 <= k < rest.push(last.id).len() && rest.push(last.id)[k] == id;
                if k < rest.len() {
                    assert(rest[k] == id);
                }
                assert(tasks[tasks.len() - 1].id == id);
            } else {
                let i = choose|i: int|
                    0 <= i < tasks.drop_last().len() && (#[trigger] tasks.drop_last()[i]).id == id
                        && is_due(tasks.drop_last()[i], now, running);
                assert(tasks[i].id == id && is_due(tasks[i], now, running));
            }
        }
        if exists|i: int|
            0 <= i < tasks.len() && (#[trigger] tasks[i]).id == id && is_due(
                tasks[i],
                now,
                running,
            ) {
            let i = choose|i: int|
                0 <= i < tasks.len() && (#[trigger] tasks[i]).id == id && is_due(
                    tasks[i],
                    now,
                    running,
                );
            if i < tasks.len() - 1 {
                assert(tasks.drop_last()[i].id == id);
                assert(rest.contains(id));
                let k = choose|k: int| 0 <= k < rest.len() && rest[k] == id;
                if is_due(last, now, running) {
                    assert(rest.push(last.id)[k] == id);
                }
            } else {
                assert(rest.push(last.id)[rest.len() as int] == id);
            }
        }
    }
}

/// No task that is running is dispatched.
pub proof fn lemma_due_ids_not_running(
    tasks: Seq<TaskView>,
    now: Millis,
    running: Seq<Id>,
    id: Id,
)
    requires
        running.contains(id),
    ensures
        !due_ids(tasks, now, running).contains(id),
{
    lemma_due_ids_contains(tasks, now, running, id);
}

} // verus!
