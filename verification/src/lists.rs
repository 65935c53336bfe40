//! The lists that the engine keeps, and what is done to them: finding a
//! task by its id, removing by id, and cutting the log to its bound.

use std::collections::VecDeque;
use vstd::prelude::*;
use vstd::std_specs::vecdeque::VecDequeAdditionalSpecFns;
use crate::model::{
    ExecutionLog, ExecutionLogView, Id, Notification, NotificationView, Task, TaskView, views,
};

verus! {

/// Index of the first task at or after `from` with this id, or the number of
/// tasks if there is none.
pub open spec fn position_from(tasks: Seq<TaskView>, id: Id, from: int) -> int
    decreases tasks.len() - from,
{
    if from < 0 || from >= tasks.len() {
        tasks.len() as int
    } else if tasks[from].id == id {
        from
    } else {
        position_from(tasks, id, from + 1)
    }
}

/// Index of the first task with this id, or the number of tasks if there is
/// none.
pub open spec fn position(tasks: Seq<TaskView>, id: Id) -> int {
    position_from(tasks, id, 0)
}

/// The position is that of a task with the id, and no earlier task has it.
pub proof fn lemma_position_from(tasks: Seq<TaskView>, id: Id, from: int)
    requires
        0 <= from <= tasks.len(),
    ensures
        from <= position_from(tasks, id, from) <= tasks.len(),
        position_from(tasks, id, from) < tasks.len() ==> tasks[position_from(tasks, id, from)].id
            == id,
        forall|k: int| from <= k < position_from(tasks, id, from) ==> (#[trigger] tasks[k]).id != id,
    decreases tasks.len() - from,
{
    if from < tasks.len() && tasks[from].id != id {
        lemma_position_from(tasks, id, from + 1);
    }
}

/// Where the first task with this id stands.
pub fn find_task(tasks: &Vec<Task>, id: Id) -> (r: Option<usize>)
    ensures
        match r {
            Some(i) => i < tasks.len() && i == position(views(tasks@), id),
            None => position(views(tasks@), id) == tasks.len(),
        },
{
    let ghost all = views(tasks@);
    let mut i: usize = 0;
    while i < tasks.len()
        invariant
            i <= tasks.len(),
            all == views(tasks@),
            position(all, id) == position_from(all, id, i as int),
        decreases tasks.len() - i,
    {
        if tasks[i].id == id {
            return Some(i);
        }
        i += 1;
    }
    None
}

/// Whether `running` holds `id`.
pub fn is_running(running: &Vec<Id>, id: Id) -> (b: bool)
    ensures
        b == running@.contains(id),
{
    let mut i: usize = 0;
    while i < running.len()
        invariant
            i <= running.len(),
            forall|k: int| 0 <= k < i ==> running@[k] != id,
        decreases running.len() - i,
    {
        if running[i] == id {
            return true;
        }
        i += 1;
    }
    false
}

/// The tasks but those with this id, in order.
pub open spec fn tasks_without(tasks: Seq<TaskView>, id: Id) -> Seq<TaskView> {
    tasks.filter(|t: TaskView| t.id != id)
}

/// The tasks without an id are those of all but the last task without it,
/// followed by the last task unless it has the id.
pub proof fn lemma_tasks_without_last(tasks: Seq<TaskView>, id: Id)
    ensures
        tasks.len() > 0 ==> tasks_without(tasks, id) == if tasks.last().id != id {
            tasks_without(tasks.drop_last(), id).push(tasks.last())
        } else {
            tasks_without(tasks.drop_last(), id)
        },
        tasks_without(Seq::empty(), id) == Seq::<TaskView>::empty(),
{
    reveal(Seq::filter);
}

/// Removing the tasks with an id leaves tasks of the list only, none of them
/// with the id.
pub proof fn lemma_tasks_without(tasks: Seq<TaskView>, id: Id)
    ensures
        forall|i: int|
            0 <= i < tasks_without(tasks, id).len() ==> {
                &&& (#[trigger] tasks_without(tasks, id)[i]).id != id
                &&& tasks.contains(tasks_without(tasks, id)[i])
            },
        tasks_without(tasks, id).len() <= tasks.len(),
    decreases tasks.len(),
{
    lemma_tasks_without_last(tasks, id);
    if tasks.len() > 0 {
        let rest = tasks.drop_last();
        lemma_tasks_without(rest, id);
        let kept = tasks_without(rest, id);
        assert forall|i: int| 0 <= i < tasks_without(tasks, id).len() implies {
            &&& (#[trigger] tasks_without(tasks, id)[i]).id != id
            &&& tasks.contains(tasks_without(tasks, id)[i])
        } by {
            if i < kept.len() {
                assert(rest.contains(kept[i]));
                let k = choose|k: int| 0 <= k < rest.len() && rest[k] == kept[i];
                assert(tasks[k] == kept[i]);
            } else {
                assert(tasks[tasks.len() - 1] == tasks.last());
            }
        }
    }
}

/// Removes every task with this id.
pub fn remove_tasks(tasks: &mut Vec<Task>, id: Id)
    ensures
        views(final(tasks)@) == tasks_without(views(old(tasks)@), id),
{
    let ghost all = views(tasks@);
    let mut kept: Vec<Task> = Vec::new();
    let mut i: usize = 0;
    proof {
        lemma_tasks_without_last(Seq::empty(), id);
        assert(all.subrange(0, 0) =~= Seq::<TaskView>::empty());
        assert(views(kept@) =~= Seq::<TaskView>::empty());
    }
    while i < tasks.len()
        invariant
            i <= tasks.len(),
            all == views(tasks@),
            views(kept@) == tasks_without(all.subrange(0, i as int), id),
        decreases tasks.len() - i,
    {
        proof {
            lemma_tasks_without_last(all.subrange(0, i + 1), id);
            assert(all.subrange(0, i + 1).drop_last() =~= all.subrange(0, i as int));
        }
        if tasks[i].id != id {
            let ghost before = views(kept@);
            kept.push(tasks[i].clone());
            assert(views(kept@) =~= before.push(tasks[i as int]@));
        }
        i += 1;
    }
    assert(all.subrange(0, tasks.len() as int) =~= all);
    *tasks = kept;
}

/// The ids but this one, in order.
pub open spec fn ids_without(ids: Seq<Id>, id: Id) -> Seq<Id> {
    ids.filter(|r: Id| r != id)
}

/// The ids without one are those of all but the last without it, followed by
/// the last unless it is that one.
pub proof fn lemma_ids_without_last(ids: Seq<Id>, id: Id)
    ensures
        ids.len() > 0 ==> ids_without(ids, id) == if ids.last() != id {
            ids_without(ids.drop_last(), id).push(ids.last())
        } else {
            ids_without(ids.drop_last(), id)
        },
        ids_without(Seq::empty(), id) == Seq::<Id>::empty(),
{
    reveal(Seq::filter);
}

/// Removing an id removes it everywhere, keeps every other id, and brings in
/// no duplicate.
pub proof fn lemma_ids_without(ids: Seq<Id>, id: Id)
    ensures
        !ids_without(ids, id).contains(id),
        forall|other: Id|
            other != id ==> (#[trigger] ids_without(ids, id).contains(other) <==> ids.contains(
                other,
            )),
        ids.no_duplicates() ==> ids_without(ids, id).no_duplicates(),
        ids_without(ids, id).len() <= ids.len(),
        !ids.contains(id) ==> ids_without(ids, id) == ids,
    decreases ids.len(),
{
    lemma_ids_without_last(ids, id);
    if ids.len() == 0 {
        assert(ids =~= Seq::<Id>::empty());
    } else {
        let rest = ids.drop_last();
        let last = ids.last();
        lemma_ids_without(rest, id);
        let kept = ids_without(rest, id);
        assert(ids =~= rest.push(last));
        assert forall|other: Id| other != id implies (#[trigger] ids_without(ids, id).contains(
            other,
        ) <==> ids.contains(other)) by {
            if ids.contains(other) {
                let k = choose|k: int| 0 <= k < ids.len() && ids[k] == other;
                if k < rest.len() {
                    assert(rest[k] == other);
                    assert(rest.contains(other));
                    assert(kept.contains(other));
                    let j = choose|j: int| 0 <= j < kept.len() && kept[j] == other;
                    if last != id {
                        assert(kept.push(last)[j] == other);
                    }
                } else {
                    assert(kept.push(last)[kept.len() as int] == other);
                }
            }
            if ids_without(ids, id).contains(other) {
                let j = choose|j: int|
                    0 <= j < ids_without(ids, id).len() && ids_without(ids, id)[j] == other;
                if j < kept.len() {
                    assert(kept[j] == other);
                    assert(kept.contains(other));
                    let k = choose|k: int| 0 <= k < rest.len() && rest[k] == other;
                    assert(ids[k] == other);
                } else {
                    assert(ids[ids.len() - 1] == other);
                }
            }
        }
        if last != id {
            if kept.push(last).contains(id) {
                let j = choose|j: int| 0 <= j < kept.push(last).len() && kept.push(last)[j] == id;
                assert(kept[j] == id);
            }
            if ids.no_duplicates() {
                assert(rest.no_duplicates());
                if kept.contains(last) {
                    assert(rest.contains(last));
                    let k = choose|k: int| 0 <= k < rest.len() && rest[k] == last;
                    assert(ids[k] == ids[ids.len() - 1]);
                }
                assert(kept.push(last).no_duplicates());
            }
        }
        if !ids.contains(id) {
            assert(ids[ids.len() - 1] != id);
            if rest.contains(id) {
                let k = choose|k: int| 0 <= k < rest.len() && rest[k] == id;
                assert(ids[k] == id);
            }
        }
    }
}

/// Removes every occurrence of this id.
pub fn remove_id(ids: &mut Vec<Id>, id: Id)
    ensures
        final(ids)@ == ids_without(old(ids)@, id),
{
    let ghost all = ids@;
    let mut kept: Vec<Id> = Vec::new();
    let mut i: usize = 0;
    proof {
        lemma_ids_without_last(Seq::empty(), id);
        assert(all.subrange(0, 0) =~= Seq::<Id>::empty());
    }
    while i < ids.len()
        invariant
            i <= ids.len(),
            all == ids@,
            kept@ == ids_without(all.subrange(0, i as int), id),
        decreases ids.len() - i,
    {
        proof {
            lemma_ids_without_last(all.subrange(0, i + 1), id);
            assert(all.subrange(0, i + 1).drop_last() =~= all.subrange(0, i as int));
        }
        if ids[i] != id {
            kept.push(ids[i]);
        }
        i += 1;
    }
    assert(all.subrange(0, ids.len() as int) =~= all);
    *ids = kept;
}

/// The notifications but those with this id, in order.
pub open spec fn notifications_without(notes: Seq<NotificationView>, id: Id) -> Seq<
    NotificationView,
> {
    notes.filter(|n: NotificationView| n.id != id)
}

/// The notifications without an id are those of all but the last without
/// it, followed by the last unless it has the id.
pub proof fn lemma_notifications_without_last(notes: Seq<NotificationView>, id: Id)
    ensures
        notes.len() > 0 ==> notifications_without(notes, id) == if notes.last().id != id {
            notifications_without(notes.drop_last(), id).push(notes.last())
        } else {
            notifications_without(notes.drop_last(), id)
        },
        notifications_without(Seq::empty(), id) == Seq::<NotificationView>::empty(),
{
    reveal(Seq::filter);
}

/// Closing a notification never makes the queue longer.
pub proof fn lemma_notifications_without(notes: Seq<NotificationView>, id: Id)
    ensures
        notifications_without(notes, id).len() <= notes.len(),
    decreases notes.len(),
{
    lemma_notifications_without_last(notes, id);
    if notes.len() > 0 {
        lemma_notifications_without(notes.drop_last(), id);
    }
}

/// Removes every notification with this id.
pub fn remove_notifications(notes: &mut VecDeque<Notification>, id: Id)
    ensures
        views(final(notes)@) == notifications_without(views(old(notes)@), id),
{
    let ghost all = views(notes@);
    let mut kept: VecDeque<Notification> = VecDeque::new();
    let mut i: usize = 0;
    proof {
        lemma_notifications_without_last(Seq::empty(), id);
        assert(all.subrange(0, 0) =~= Seq::<NotificationView>::empty());
        assert(views(kept@) =~= Seq::<NotificationView>::empty());
    }
    while i < notes.len()
        invariant
            i <= notes.len(),
            all == views(notes@),
            views(kept@) == notifications_without(all.subrange(0, i as int), id),
        decreases notes.len() - i,
    {
        proof {
            lemma_notifications_without_last(all.subrange(0, i + 1), id);
            assert(all.subrange(0, i + 1).drop_last() =~= all.subrange(0, i as int));
        }
        if notes[i].id != id {
            let ghost before = views(kept@);
            kept.push_back(notes[i].clone());
            assert(views(kept@) =~= before.push(notes[i as int]@));
        }
        i += 1;
    }
    assert(all.subrange(0, notes.len() as int) =~= all);
    *notes = kept;
}

/// The `max` most recently inserted entries of `logs`, in insertion order.
pub open spec fn kept_logs(logs: Seq<ExecutionLogView>, max: nat) -> Seq<ExecutionLogView> {
    if logs.len() > max {
        logs.subrange(logs.len() - max, logs.len() as int)
    } else {
        logs
    }
}

/// What is kept of a log is never more than the bound, and is its newest
/// part, in insertion order.
pub proof fn lemma_kept_logs(logs: Seq<ExecutionLogView>, max: nat)
    ensures
        kept_logs(logs, max).len() <= max,
        kept_logs(logs, max).len() <= logs.len(),
        kept_logs(logs, max).len() == if logs.len() <= max {
            logs.len()
        } else {
            max
        },
        forall|i: int|
            0 <= i < kept_logs(logs, max).len() ==> #[trigger] kept_logs(logs, max)[i] == logs[logs.len()
                - kept_logs(logs, max).len() + i],
{
}

/// Cutting the log after one insertion removes the oldest entry alone when
/// the log was full, and nothing when it was not.
pub proof fn lemma_one_eviction_suffices(
    logs: Seq<ExecutionLogView>,
    entry: ExecutionLogView,
    max: nat,
)
    requires
        logs.len() <= max,
    ensures
        kept_logs(logs.push(entry), max).len() <= max,
        logs.len() < max ==> kept_logs(logs.push(entry), max) == logs.push(entry),
        logs.len() == max && max > 0 ==> kept_logs(logs.push(entry), max) == logs.drop_first().push(
            entry,
        ),
{
    if logs.len() == max && max > 0 {
        assert(logs.push(entry).subrange(1, logs.len() as int + 1) =~= logs.drop_first().push(entry));
    }
}

/// Cuts the log to its `max` newest entries, oldest first out.
pub fn trim_logs(logs: &mut Vec<ExecutionLog>, max: usize)
    ensures
        views(final(logs)@) == kept_logs(views(old(logs)@), max as nat),
        final(logs)@.len() <= max,
{
    let ghost all = views(logs@);
    let ghost mut dropped: int = 0;
    assert(all.subrange(0, all.len() as int) =~= all);
    while logs.len() > max
        invariant
            0 <= dropped <= all.len(),
            logs@.len() == all.len() - dropped,
            dropped > 0 ==> logs@.len() >= max,
            views(logs@) == all.subrange(dropped, all.len() as int),
        decreases logs.len(),
    {
        let ghost before = views(logs@);
        logs.remove(0);
        proof {
            dropped = dropped + 1;
            assert(views(logs@) =~= before.subrange(1, before.len() as int));
            assert(views(logs@) =~= all.subrange(dropped, all.len() as int));
        }
    }
}

} // verus!
