//! What the front end shows, computed from the state: titles, durations,
//! success rates, the filtered task list, the dashboard numbers and the log
//! page.

use vstd::prelude::*;
use vstd::string::*;
use crate::model::{
    ExecutionLog, ExecutionLogView, Id, NotificationLevel, Screen, Task, TaskFilter, TaskView,
    views,
};
use crate::lists::{find_task, position};
use crate::state::TaskWithMe;
use crate::text::{chars_of, contains_text, decimal, decimal_string, occurs_in};

verus! {

/// The window title for a page.
pub open spec fn screen_title(screen: Screen) -> Seq<char> {
    match screen {
        Screen::Overview => "Overview - Task with Me"@,
        Screen::Tasks => "Tasks - Task with Me"@,
        Screen::Logs(_) => "Logs - Task with Me"@,
        Screen::Settings => "Settings - Task with Me"@,
    }
}

/// The label under which a notification of this level is shown.
pub open spec fn level_name(level: NotificationLevel) -> Seq<char> {
    match level {
        NotificationLevel::Info => "INFO"@,
        NotificationLevel::Success => "SUCCESS"@,
        NotificationLevel::Warning => "WARNING"@,
        NotificationLevel::Error => "ERROR"@,
    }
}

/// The label under which a notification of this level is shown.
pub fn level_label(level: NotificationLevel) -> (r: &'static str)
    ensures
        r@ == level_name(level),
{
    match level {
        NotificationLevel::Info => "INFO",
        NotificationLevel::Success => "SUCCESS",
        NotificationLevel::Warning => "WARNING",
        NotificationLevel::Error => "ERROR",
    }
}

/// A number of seconds in its largest whole unit: seconds below a minute,
/// minutes below an hour, hours below a day, days from there on. What is
/// left over is dropped.
pub open spec fn duration_text(seconds: u64) -> Seq<char> {
    if seconds < 60 {
        decimal(seconds as nat) + "s"@
    } else if seconds < 3600 {
        decimal((seconds / 60) as nat) + "m"@
    } else if seconds < 86400 {
        decimal((seconds / 3600) as nat) + "h"@
    } else {
        decimal((seconds / 86400) as nat) + "d"@
    }
}

/// A number of seconds in its largest whole unit.
pub fn format_duration(seconds: u64) -> (r: String)
    ensures
        r@ == duration_text(seconds),
{
    if seconds < 60 {
        decimal_string(seconds).concat("s")
    } else if seconds < 3600 {
        decimal_string(seconds / 60).concat("m")
    } else if seconds < 86400 {
        decimal_string(seconds / 3600).concat("h")
    } else {
        decimal_string(seconds / 86400).concat("d")
    }
}

/// The share of successes among `successes + failures` runs, in whole
/// percent, rounded down; 0 where nothing ran.
pub open spec fn percent(successes: nat, failures: nat) -> nat {
    if successes + failures == 0 {
        0
    } else {
        100 * successes / (successes + failures)
    }
}

/// The share lies between 0 and 100, and is the largest whole number of
/// percent that the successes reach.
pub proof fn lemma_percent(successes: nat, failures: nat)
    ensures
        percent(successes, failures) <= 100,
        successes + failures > 0 ==> percent(successes, failures) * (successes + failures) <= 100
            * successes < (percent(successes, failures) + 1) * (successes + failures),
        successes + failures == 0 ==> percent(successes, failures) == 0,
        failures == 0 && successes > 0 ==> percent(successes, failures) == 100,
        successes == 0 ==> percent(successes, failures) == 0,
{
    let total = successes + failures;
    if total > 0 {
        let q = (100 * successes) / total;
        let r = (100 * successes) % total;
        vstd::arithmetic::div_mod::lemma_fundamental_div_mod((100 * successes) as int, total as int);
        vstd::arithmetic::div_mod::lemma_mod_bound((100 * successes) as int, total as int);
        assert(100 * successes == total * q + r);
        assert(total * q == q * total) by (nonlinear_arith);
        assert((q + 1) * total == q * total + total) by (nonlinear_arith);
        if q > 100 {
            assert(q * total >= 101 * total) by (nonlinear_arith)
                requires
                    q >= 101,
                    total > 0,
            ;
        }
        if failures == 0 {
            assert(q * total <= 100 * total);
            if q < 100 {
                assert((q + 1) * total <= 100 * total) by (nonlinear_arith)
                    requires
                        q + 1 <= 100,
                        total > 0,
                ;
            }
        }
        if successes == 0 {
            if q > 0 {
                assert(q * total >= total) by (nonlinear_arith)
                    requires
                        q >= 1,
                        total > 0,
                ;
            }
        }
    }
}

/// A rate in percent, as the exact fraction `numerator / denominator`. The
/// denominator is never 0.
#[derive(Debug, Clone, Copy, PartialEq, Eq, Structural)]
pub struct Rate {
    pub numerator: u64,
    pub denominator: u64,
}

/// The success rate of `successes` successful runs and `failures` failed
/// ones: a hundred times the successes over the number of runs, and 0 (over
/// 1) where nothing ran.
pub open spec fn rate_of(successes: nat, failures: nat) -> (nat, nat) {
    if successes + failures == 0 {
        (0, 1)
    } else {
        (100 * successes, successes + failures)
    }
}

/// The success rate lies between 0 and 100. Where something ran, it is 100
/// exactly when nothing failed and 0 exactly when nothing succeeded. Its
/// whole part is the whole percent.
pub proof fn lemma_rate_of(successes: nat, failures: nat)
    ensures
        rate_of(successes, failures).1 > 0,
        0 <= rate_of(successes, failures).0 <= 100 * rate_of(successes, failures).1,
        successes + failures > 0 ==> (rate_of(successes, failures).0 == 100 * rate_of(
            successes,
            failures,
        ).1 <==> failures == 0),
        successes + failures > 0 ==> (rate_of(successes, failures).0 == 0 <==> successes == 0),
        successes + failures == 0 ==> rate_of(successes, failures).0 == 0,
        rate_of(successes, failures).0 / rate_of(successes, failures).1 == percent(
            successes,
            failures,
        ),
{
}

/// The share of successful runs among all runs of the task, in percent; 0
/// for a task that never ran. Nothing but the two counters of the task
/// enters.
pub fn success_rate(task: &Task) -> (r: Rate)
    ensures
        r.numerator == rate_of(task.success_count as nat, task.failure_count as nat).0,
        r.denominator == rate_of(task.success_count as nat, task.failure_count as nat).1,
        r.denominator > 0,
        r.numerator <= 100 * r.denominator,
{
    let runs: u64 = task.success_count as u64 + task.failure_count as u64;
    if runs == 0 {
        Rate { numerator: 0, denominator: 1 }
    } else {
        Rate { numerator: 100 * (task.success_count as u64), denominator: runs }
    }
}

/// The lower-case form of a text under Unicode's mapping.
pub uninterp spec fn lowercase(text: Seq<char>) -> Seq<char>;

/// `str::to_lowercase`: the text with each character replaced by its
/// lower-case form under Unicode's Lowercase property. The result depends on
/// the text alone.
#[verifier::external_body]
fn to_lower(text: &str) -> (r: String)
    ensures
        r@ == lowercase(text@),
{
    text.to_lowercase()
}

/// Whether a search finds a task, given the lower-case forms of the query,
/// of the task's title and of its command: an empty query finds every task,
/// any other query those that hold it in the title or in the command.
pub fn search_hit(query_lower: &str, title_lower: &str, command_lower: &str, query_is_empty: bool)
    -> (b: bool)
    ensures
        b == (query_is_empty || occurs_in(query_lower@, title_lower@) || occurs_in(
            query_lower@,
            command_lower@,
        )),
{
    query_is_empty || contains_text(title_lower, query_lower) || contains_text(
        command_lower,
        query_lower,
    )
}

/// Whether the filter lets a task with this switch through.
pub open spec fn passes_filter(is_active: bool, filter: TaskFilter) -> bool {
    match filter {
        TaskFilter::All => true,
        TaskFilter::Active => is_active,
        TaskFilter::Inactive => !is_active,
    }
}

/// Whether the task list shows the task: the search finds it, without
/// regard to case, and the filter lets it through.
pub open spec fn is_shown(task: TaskView, query: Seq<char>, filter: TaskFilter) -> bool {
    &&& query.len() == 0 || occurs_in(lowercase(query), lowercase(task.title)) || occurs_in(
        lowercase(query),
        lowercase(task.command),
    )
    &&& passes_filter(task.is_active, filter)
}

/// The tasks that the task list shows, in the order of the tasks.
pub open spec fn shown_tasks(tasks: Seq<TaskView>, query: Seq<char>, filter: TaskFilter) -> Seq<
    TaskView,
> {
    tasks.filter(|t: TaskView| is_shown(t, query, filter))
}

/// The shown tasks of a list are those of all but the last task, followed
/// by the last task if it is shown.
pub proof fn lemma_shown_tasks_last(tasks: Seq<TaskView>, query: Seq<char>, filter: TaskFilter)
    ensures
        tasks.len() > 0 ==> shown_tasks(tasks, query, filter) == if is_shown(
            tasks.last(),
            query,
            filter,
        ) {
            shown_tasks(tasks.drop_last(), query, filter).push(tasks.last())
        } else {
            shown_tasks(tasks.drop_last(), query, filter)
        },
        shown_tasks(Seq::empty(), query, filter) == Seq::<TaskView>::empty(),
{
    reveal(Seq::filter);
}

/// Whether the filter lets a task with this switch through.
pub fn filter_passes(is_active: bool, filter: TaskFilter) -> (b: bool)
    ensures
        b == passes_filter(is_active, filter),
{
    match filter {
        TaskFilter::All => true,
        TaskFilter::Active => is_active,
        TaskFilter::Inactive => !is_active,
    }
}

/// The entries of `logs` that belong to `task_id`, or all of them where no
/// task is named, newest first, `limit` at most.
pub open spec fn page_of_logs(logs: Seq<ExecutionLogView>, task_id: Option<Id>, limit: nat) -> Seq<
    ExecutionLogView,
>
    decreases logs.len(),
{
    if logs.len() == 0 || limit == 0 {
        Seq::empty()
    } else if task_id is None || logs.last().task_id == task_id->0 {
        seq![logs.last()] + page_of_logs(logs.drop_last(), task_id, (limit - 1) as nat)
    } else {
        page_of_logs(logs.drop_last(), task_id, limit)
    }
}

/// Most log entries that the log page shows.
pub const LOG_PAGE_SIZE: usize = 50;

/// The numbers of the dashboard.
#[derive(Debug, Clone, Copy)]
pub struct Overview {
    /// Number of tasks.
    pub total: usize,
    /// Number of active tasks.
    pub active: usize,
    /// Number of tasks with a run in flight.
    pub running: usize,
    /// Share of successful runs among all runs of all tasks, in whole
    /// percent, rounded down.
    pub success_rate: usize,
}

/// Number of active tasks.
pub open spec fn active_count(tasks: Seq<TaskView>) -> nat
    decreases tasks.len(),
{
    if tasks.len() == 0 {
        0
    } else {
        active_count(tasks.drop_last()) + if tasks.last().is_active {
            1nat
        } else {
            0nat
        }
    }
}

/// Number of successful runs of all tasks together.
pub open spec fn total_successes(tasks: Seq<TaskView>) -> nat
    decreases tasks.len(),
{
    if tasks.len() == 0 {
        0
    } else {
        total_successes(tasks.drop_last()) + tasks.last().success_count as nat
    }
}

/// Number of failed runs of all tasks together.
pub open spec fn total_failures(tasks: Seq<TaskView>) -> nat
    decreases tasks.len(),
{
    if tasks.len() == 0 {
        0
    } else {
        total_failures(tasks.drop_last()) + tasks.last().failure_count as nat
    }
}

/// No more tasks are active than there are, and the totals are bounded by
/// what the counters can hold.
pub proof fn lemma_totals_bounded(tasks: Seq<TaskView>)
    ensures
        active_count(tasks) <= tasks.len(),
        total_successes(tasks) <= tasks.len() * u32::MAX,
        total_failures(tasks) <= tasks.len() * u32::MAX,
    decreases tasks.len(),
{
    if tasks.len() > 0 {
        lemma_totals_bounded(tasks.drop_last());
        assert((tasks.len() - 1) * u32::MAX + u32::MAX == tasks.len() * u32::MAX)
            by (nonlinear_arith);
    }
}

impl TaskWithMe {
    /// The window title.
    pub fn title(&self) -> (r: String)
        ensures
            r@ == screen_title(self.screen),
    {
        match self.screen {
            Screen::Overview => String::from_str("Overview - Task with Me"),
            Screen::Tasks => String::from_str("Tasks - Task with Me"),
            Screen::Logs(_) => String::from_str("Logs - Task with Me"),
            Screen::Settings => String::from_str("Settings - Task with Me"),
        }
    }

    /// The tasks that the task list shows: those that the search finds and
    /// the filter lets through, in the order of the tasks.
    pub fn filtered_tasks<'a>(&'a self) -> (r: Vec<&'a Task>)
        ensures
            views(r@) == shown_tasks(self@.tasks, self@.search_query, self@.filter),
    {
        let ghost all = views(self.tasks@);
        let ghost query = self.search_query@;
        let query_is_empty: bool = self.search_query.as_str().is_empty();
        let query_lower = to_lower(self.search_query.as_str());
        let mut r: Vec<&'a Task> = Vec::new();
        let mut i: usize = 0;
        proof {
            lemma_shown_tasks_last(Seq::empty(), query, self.filter);
            assert(all.subrange(0, 0) =~= Seq::<TaskView>::empty());
            assert(views(r@) =~= Seq::<TaskView>::empty());
        }
        while i < self.tasks.len()
            invariant
                i <= self.tasks.len(),
                all == views(self.tasks@),
                query == self.search_query@,
                query_is_empty == (query.len() == 0),
                query_lower@ == lowercase(query),
                views(r@) == shown_tasks(all.subrange(0, i as int), query, self.filter),
            decreases self.tasks.len() - i,
        {
            proof {
                lemma_shown_tasks_last(all.subrange(0, i + 1), query, self.filter);
                assert(all.subrange(0, i + 1).drop_last() =~= all.subrange(0, i as int));
            }
            let task = &self.tasks[i];
            let title_lower = to_lower(task.title.as_str());
            let command_lower = to_lower(task.command.as_str());
            if search_hit(
                query_lower.as_str(),
                title_lower.as_str(),
                command_lower.as_str(),
                query_is_empty,
            ) && filter_passes(task.is_active, self.filter) {
                let ghost before = views(r@);
                r.push(task);
                assert(views(r@) =~= before.push(task@));
            }
            i += 1;
        }
        assert(all.subrange(0, self.tasks.len() as int) =~= all);
        r
    }

    /// The numbers of the dashboard.
    pub fn overview(&self) -> (r: Overview)
        ensures
            r.total == self@.tasks.len(),
            r.active == active_count(self@.tasks),
            r.running == self@.running_tasks.len(),
            r.success_rate == percent(total_successes(self@.tasks), total_failures(self@.tasks)),
    {
        let ghost all = views(self.tasks@);
        let mut active: usize = 0;
        let mut successes: u128 = 0;
        let mut failures: u128 = 0;
        let mut i: usize = 0;
        assert(all.subrange(0, 0) =~= Seq::<TaskView>::empty());
        while i < self.tasks.len()
            invariant
                i <= self.tasks.len(),
                all == views(self.tasks@),
                active == active_count(all.subrange(0, i as int)),
                successes == total_successes(all.subrange(0, i as int)),
                failures == total_failures(all.subrange(0, i as int)),
            decreases self.tasks.len() - i,
        {
            proof {
                assert(all.subrange(0, i + 1).drop_last() =~= all.subrange(0, i as int));
                lemma_totals_bounded(all.subrange(0, i as int));
                assert(i * u32::MAX <= usize::MAX * u32::MAX) by (nonlinear_arith)
                    requires
                        i <= usize::MAX,
                ;
            }
            if self.tasks[i].is_active {
                active += 1;
            }
            successes += self.tasks[i].success_count as u128;
            failures += self.tasks[i].failure_count as u128;
            i += 1;
        }
        proof {
            assert(all.subrange(0, self.tasks.len() as int) =~= all);
            lemma_totals_bounded(all);
            lemma_percent(successes as nat, failures as nat);
            assert(self.tasks.len() * u32::MAX <= usize::MAX * u32::MAX) by (nonlinear_arith)
                requires
                    self.tasks.len() <= usize::MAX,
            ;
        }
        let runs: u128 = successes + failures;
        let success_rate: usize = if runs == 0 {
            0
        } else {
            (100 * successes / runs) as usize
        };
        Overview {
            total: self.tasks.len(),
            active,
            running: self.running_tasks.len(),
            success_rate,
        }
    }

    /// The title of the first task with this id, or "Unknown" where no task
    /// has it.
    pub fn task_title(&self, id: Id) -> (r: String)
        ensures
            r@ == if position(self@.tasks, id) < self@.tasks.len() {
                self@.tasks[position(self@.tasks, id)].title
            } else {
                "Unknown"@
            },
    {
        match find_task(&self.tasks, id) {
            Some(pos) => self.tasks[pos].title.clone(),
            None => String::from_str("Unknown"),
        }
    }

    /// The entries of the log page: those of the task, or all where no task
    /// is named, newest first, fifty at most.
    pub fn visible_logs<'a>(&'a self, task_id: Option<Id>) -> (r: Vec<&'a ExecutionLog>)
        ensures
            views(r@) == page_of_logs(self@.logs, task_id, LOG_PAGE_SIZE as nat),
    {
        let ghost all = views(self.logs@);
        let mut r: Vec<&'a ExecutionLog> = Vec::new();
        let mut i: usize = self.logs.len();
        assert(all.subrange(0, i as int) =~= all);
        assert(views(r@) =~= Seq::<ExecutionLogView>::empty());
        while i > 0 && r.len() < LOG_PAGE_SIZE
            invariant
                i <= self.logs.len(),
                all == views(self.logs@),
                r@.len() <= LOG_PAGE_SIZE,
                page_of_logs(all, task_id, LOG_PAGE_SIZE as nat) == views(r@) + page_of_logs(
                    all.subrange(0, i as int),
                    task_id,
                    (LOG_PAGE_SIZE - r@.len()) as nat,
                ),
            decreases i,
        {
            let ghost before = views(r@);
            let ghost rest = all.subrange(0, i as int);
            proof {
                assert(rest.drop_last() =~= all.subrange(0, i - 1));
            }
            i -= 1;
            let log = &self.logs[i];
            let wanted: bool = match task_id {
                Some(id) => log.task_id == id,
                None => true,
            };
            if wanted {
                r.push(log);
                assert(views(r@) =~= before.push(log@));
                assert(before + (seq![rest.last()] + page_of_logs(
                    rest.drop_last(),
                    task_id,
                    (LOG_PAGE_SIZE - before.len() - 1) as nat,
                )) =~= before.push(log@) + page_of_logs(
                    rest.drop_last(),
                    task_id,
                    (LOG_PAGE_SIZE - before.len() - 1) as nat,
                ));
            }
        }
        assert(views(r@) + Seq::<ExecutionLogView>::empty() =~= views(r@));
        r
    }
}

/// What a dashboard card shows for a number: the success rate as a
/// percentage, any other number plainly.
pub fn stat_text(label: &str, value: usize) -> (r: String)
    ensures
        r@ == if label@ == "Success Rate"@ {
            decimal(value as nat) + "%"@
        } else {
            decimal(value as nat)
        },
{
    if same_text(label, "Success Rate") {
        decimal_string(value as u64).concat("%")
    } else {
        decimal_string(value as u64)
    }
}

/// Whether two texts are the same, character for character.
pub fn same_text(a: &str, b: &str) -> (r: bool)
    ensures
        r == (a@ == b@),
{
    let left = chars_of(a);
    let right = chars_of(b);
    let n: usize = left.len();
    if n != right.len() {
        return false;
    }
    let mut i: usize = 0;
    while i < n
        invariant
            left@ == a@,
            right@ == b@,
            n == a@.len(),
            n == b@.len(),
            i <= n,
            forall|k: int| 0 <= k < i ==> a@[k] == b@[k],
        decreases n - i,
    {
        if left[i] != right[i] {
            return false;
        }
        i += 1;
    }
    assert(a@ =~= b@);
    true
}

/// Most tasks that the dashboard lists as recent.
pub const RECENT_SHOWN: usize = 5;

/// Whether the task at `a` is listed before the task at `b` among the recent
/// ones: both have run, and `a` ran later, or at the same instant and stands
/// earlier in the task list.
pub open spec fn listed_before(tasks: Seq<TaskView>, a: int, b: int) -> bool {
    &&& tasks[a].last_run is Some
    &&& tasks[b].last_run is Some
    &&& tasks[a].last_run->0 > tasks[b].last_run->0 || (tasks[a].last_run->0
        == tasks[b].last_run->0 && a < b)
}

/// Whether `picks` are the places of the most recently run tasks, `limit` at
/// most: each pick has run, the picks stand latest run first, every task
/// that has run and was not picked comes after all picks, and where fewer
/// than `limit` are picked no task that has run is left out.
pub open spec fn is_recent_selection(tasks: Seq<TaskView>, picks: Seq<usize>, limit: nat) -> bool {
    &&& picks.len() <= limit
    &&& forall|k: int|
        0 <= k < picks.len() ==> (#[trigger] picks[k]) < tasks.len() && tasks[picks[k] as int].last_run
            is Some
    &&& forall|k: int, l: int|
        0 <= k < l < picks.len() ==> listed_before(
            tasks,
            #[trigger] picks[k] as int,
            #[trigger] picks[l] as int,
        )
    &&& forall|k: int, j: int|
        0 <= k < picks.len() && 0 <= j < tasks.len() && (#[trigger] tasks[j]).last_run is Some
            && !picks.contains(j as usize) ==> listed_before(tasks, #[trigger] picks[k] as int, j)
    &&& picks.len() < limit ==> forall|j: int|
        0 <= j < tasks.len() && (#[trigger] tasks[j]).last_run is Some ==> picks.contains(
            j as usize,
        )
}

/// The places of the `limit` most recently run tasks, latest run first.
/// Tasks that ran at the same instant stay in the order of the task list.
pub fn recent_places(tasks: &Vec<Task>, limit: usize) -> (picks: Vec<usize>)
    ensures
        is_recent_selection(views(tasks@), picks@, limit as nat),
{
    let ghost all = views(tasks@);
    let mut picks: Vec<usize> = Vec::new();
    let mut done: bool = false;
    while picks.len() < limit && !done
        invariant
            all == views(tasks@),
            picks@.len() <= limit,
            forall|k: int|
                0 <= k < picks@.len() ==> (#[trigger] picks@[k]) < all.len() && all[picks@[k] as int].last_run
                    is Some,
            forall|k: int, l: int|
                0 <= k < l < picks@.len() ==> listed_before(
                    all,
                    #[trigger] picks@[k] as int,
                    #[trigger] picks@[l] as int,
                ),
            forall|j: int|
                0 <= j < all.len() && (#[trigger] all[j]).last_run is Some ==> (picks@.contains(
                    j as usize,
                ) <==> picks@.len() > 0 && (j == picks@.last() || listed_before(
                    all,
                    j,
                    picks@.last() as int,
                ))),
            done ==> forall|j: int|
                0 <= j < all.len() && (#[trigger] all[j]).last_run is Some ==> picks@.contains(
                    j as usize,
                ),
        decreases limit - picks@.len() + if done { 0int } else { 1int },
    {
        let mut best: Option<usize> = None;
        let mut i: usize = 0;
        while i < tasks.len()
            invariant
                i <= tasks.len(),
                all == views(tasks@),
                picks@.len() > 0 ==> picks@.last() < all.len() && all[picks@.last() as int].last_run
                    is Some,
                best matches Some(b) ==> b < i && all[b as int].last_run is Some && (picks@.len()
                    > 0 ==> listed_before(all, picks@.last() as int, b as int)),
                forall|j: int|
                    0 <= j < i && (#[trigger] all[j]).last_run is Some && (picks@.len() > 0
                        ==> listed_before(all, picks@.last() as int, j)) ==> best is Some && (j
                        == best->0 || listed_before(all, best->0 as int, j)),
            decreases tasks.len() - i,
        {
            let candidate: bool = match tasks[i].last_run {
                Some(at) => {
                    let beyond: bool = if picks.len() > 0 {
                        let last: usize = picks[picks.len() - 1];
                        match tasks[last].last_run {
                            Some(last_at) => last_at > at || (last_at == at && last < i),
                            None => false,
                        }
                    } else {
                        true
                    };
                    beyond && match best {
                        Some(b) => match tasks[b].last_run {
                            Some(best_at) => at > best_at,
                            None => false,
                        },
                        None => true,
                    }
                },
                None => false,
            };
            if candidate {
                best = Some(i);
            }
            i += 1;
        }
        match best {
            Some(b) => {
                let ghost before = picks@;
                picks.push(b);
                proof {
                    assert(picks@.last() == b);
                    assert forall|j: int|
                        0 <= j < all.len() && (#[trigger] all[j]).last_run is Some implies (
                    picks@.contains(j as usize) <==> (j == b || listed_before(all, j, b as int))) by {
                        if before.contains(j as usize) {
                            let k = choose|k: int| 0 <= k < before.len() && before[k] == j as usize;
                            assert(picks@[k] == j as usize);
                        }
                        if j == b {
                            assert(picks@[before.len() as int] == j as usize);
                        }
                        if picks@.contains(j as usize) && j != b {
                            let k = choose|k: int| 0 <= k < picks@.len() && picks@[k] == j as usize;
                            assert(before[k] == j as usize);
                        }
                    }
                    assert forall|k: int, l: int| 0 <= k < l < picks@.len() implies listed_before(
                        all,
                        #[trigger] picks@[k] as int,
                        #[trigger] picks@[l] as int,
                    ) by {
                        if l == before.len() {
                            assert(before[k] == picks@[k]);
                            assert(before.contains(picks@[k]));
                        } else {
                            assert(before[k] == picks@[k] && before[l] == picks@[l]);
                        }
                    }
                }
            },
            None => {
                done = true;
            },
        }
    }
    proof {
        assert forall|k: int, j: int|
            0 <= k < picks@.len() && 0 <= j < all.len() && (#[trigger] all[j]).last_run is Some
                && !picks@.contains(j as usize) implies listed_before(
            all,
            #[trigger] picks@[k] as int,
            j,
        ) by {
            if k < picks@.len() - 1 {
                assert(listed_before(all, picks@[k] as int, picks@[picks@.len() - 1] as int));
            }
        }
    }
    picks
}

impl TaskWithMe {
    /// The tasks that the dashboard lists as recent: the five that ran
    /// last, latest run first.
    pub fn recent_tasks<'a>(&'a self) -> (r: Vec<&'a Task>)
        ensures
            exists|picks: Seq<usize>|
                {
                    &&& #[trigger] is_recent_selection(self@.tasks, picks, RECENT_SHOWN as nat)
                    &&& r@.len() == picks.len()
                    &&& forall|k: int| 0 <= k < r@.len() ==> (#[trigger] r@[k])@ == self@.tasks[picks[k] as int]
                },
    {
        let picks = recent_places(&self.tasks, RECENT_SHOWN);
        let mut r: Vec<&'a Task> = Vec::new();
        let mut k: usize = 0;
        while k < picks.len()
            invariant
                k <= picks.len(),
                r@.len() == k,
                is_recent_selection(views(self.tasks@), picks@, RECENT_SHOWN as nat),
                forall|m: int| 0 <= m < k ==> (#[trigger] r@[m])@ == views(self.tasks@)[picks@[m] as int],
            decreases picks.len() - k,
        {
            let place: usize = picks[k];
            r.push(&self.tasks[place]);
            k += 1;
        }
        proof {
            let chosen = picks@;
            assert(is_recent_selection(self@.tasks, chosen, RECENT_SHOWN as nat));
            assert(r@.len() == chosen.len());
            assert(forall|m: int|
                0 <= m < r@.len() ==> (#[trigger] r@[m])@ == self@.tasks[chosen[m] as int]);
        }
        r
    }
}

/// There is one selection of recent tasks at most.
pub proof fn lemma_recent_selection_unique(
    tasks: Seq<TaskView>,
    p: Seq<usize>,
    q: Seq<usize>,
    limit: nat,
)
    requires
        is_recent_selection(tasks, p, limit),
        is_recent_selection(tasks, q, limit),
    ensures
        p == q,
{
    lemma_recent_prefix_agrees(tasks, p, q, limit, p.len() as int);
    lemma_recent_prefix_agrees(tasks, q, p, limit, q.len() as int);
    assert(p =~= q);
}

/// Two selections of recent tasks agree on the first `n` places of the
/// first, and the second is no shorter than that.
proof fn lemma_recent_prefix_agrees(
    tasks: Seq<TaskView>,
    p: Seq<usize>,
    q: Seq<usize>,
    limit: nat,
    n: int,
)
    requires
        is_recent_selection(tasks, p, limit),
        is_recent_selection(tasks, q, limit),
        0 <= n <= p.len(),
    ensures
        n <= q.len(),
        forall|k: int| 0 <= k < n ==> p[k] == q[k],
    decreases n,
{
    if n > 0 {
        lemma_recent_prefix_agrees(tasks, p, q, limit, n - 1);
        let k = n - 1;
        let a = p[k];
        assert(a < tasks.len() && tasks[a as int].last_run is Some);
        if q.len() <= k {
            // q is short, so it holds every task that has run, among them p[k]
            assert(q.contains(a));
            let l = choose|l: int| 0 <= l < q.len() && q[l] == a;
            assert(p[l] == q[l]);
            assert(listed_before(tasks, p[l] as int, p[k] as int));
        } else {
            let b = q[k];
            assert(b < tasks.len() && tasks[b as int].last_run is Some);
            if a != b {
                if q.contains(a) {
                    let l = choose|l: int| 0 <= l < q.len() && q[l] == a;
                    if l < k {
                        assert(p[l] == q[l]);
                        assert(listed_before(tasks, p[l] as int, p[k] as int));
                    } else {
                        assert(listed_before(tasks, q[k] as int, q[l] as int));
                    }
                } else {
                    assert(listed_before(tasks, q[k] as int, a as int));
                }
                // here b is listed before a
                if p.contains(b) {
                    let l = choose|l: int| 0 <= l < p.len() && p[l] == b;
                    if l < k {
                        assert(p[l] == q[l]);
                        assert(listed_before(tasks, q[l] as int, q[k] as int));
                    } else {
                        assert(listed_before(tasks, p[k] as int, p[l] as int));
                    }
                } else {
                    assert(listed_before(tasks, p[k] as int, b as int));
                }
            }
        }
    }
}

} // verus!
