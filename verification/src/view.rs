//! What the dashboard shows, computed from its state: counts, list rows, the details card,
//! the uptime clock and the popup's place on screen.

use vstd::prelude::*;

use crate::app::App;
use crate::clock::{chrono_seconds_between, div_toward_zero, now_timestamp, seconds_between, Timestamp};
use crate::task::Task;

verus! {

/// How many tasks in `s` are completed.
pub open spec fn count_completed(s: Seq<Task>) -> nat
    decreases s.len(),
{
    if s.len() == 0 {
        0
    } else {
        count_completed(s.drop_last()) + if s.last().completed {
            1nat
        } else {
            0nat
        }
    }
}

/// No more tasks are completed than there are tasks.
pub proof fn lemma_count_completed_bounded(s: Seq<Task>)
    ensures
        count_completed(s) <= s.len(),
    decreases s.len(),
{
    if s.len() > 0 {
        lemma_count_completed_bounded(s.drop_last());
    }
}

/// The task counts on the dashboard.
#[derive(Clone, Copy, Debug, PartialEq, Eq, Structural)]
pub struct DashboardStats {
    pub total: usize,
    pub completed: usize,
    pub pending: usize,
}

/// How many tasks there are, how many are completed and how many are still pending.
pub fn dashboard_stats(tasks: &Vec<Task>) -> (stats: DashboardStats)
    ensures
        stats.total == tasks@.len(),
        stats.completed == count_completed(tasks@),
        stats.pending == tasks@.len() - count_completed(tasks@),
        stats.completed == tasks@.filter(|t: Task| t.completed).len(),
        stats.completed + stats.pending == stats.total,
{
    let mut completed: usize = 0;
    let mut i: usize = 0;
    while i < tasks.len()
        invariant
            i <= tasks@.len(),
            completed == count_completed(tasks@.subrange(0, i as int)),
        decreases tasks@.len() - i,
    {
        assert(tasks@.subrange(0, i + 1).drop_last() =~= tasks@.subrange(0, i as int));
        proof {
            lemma_count_completed_bounded(tasks@.subrange(0, i as int));
        }
        if tasks[i].completed {
            completed = completed + 1;
        }
        i = i + 1;
    }
    assert(tasks@.subrange(0, i as int) =~= tasks@);
    proof {
        lemma_count_completed_bounded(tasks@);
        crate::laws::law_count_completed_counts(tasks@, tasks@[0]);
    }
    DashboardStats { total: tasks.len(), completed, pending: tasks.len() - completed }
}

/// How one task is marked in the task list.
#[derive(Clone, Copy, Debug, PartialEq, Eq, Structural)]
pub struct TaskRow {
    /// The row is the highlighted one.
    pub selected: bool,
    /// The task is completed.
    pub completed: bool,
}

/// One row per task, in order: whether it is the highlighted row and whether it is completed.
pub fn task_rows(app: &App) -> (rows: Vec<TaskRow>)
    ensures
        rows@.len() == app@.tasks.len(),
        forall|i: int|
            0 <= i < rows@.len() ==> #[trigger] rows@[i] == (TaskRow {
                selected: i == app@.selected,
                completed: app@.tasks[i].completed,
            }),
{
    let mut rows: Vec<TaskRow> = Vec::new();
    let mut i: usize = 0;
    while i < app.store.tasks.len()
        invariant
            i <= app@.tasks.len(),
            rows@.len() == i,
            forall|j: int|
                0 <= j < i ==> #[trigger] rows@[j] == (TaskRow {
                    selected: j == app@.selected,
                    completed: app@.tasks[j].completed,
                }),
        decreases app@.tasks.len() - i,
    {
        rows.push(
            TaskRow {
                selected: i == app.selected_task_index,
                completed: app.store.tasks[i].completed,
            },
        );
        i = i + 1;
    }
    rows
}

/// The position of the task whose details are shown: the highlighted one, when it exists.
pub fn selected_task(app: &App) -> (shown: Option<usize>)
    ensures
        shown == (if app@.selected < app@.tasks.len() {
            Some(app@.selected)
        } else {
            None::<usize>
        }),
{
    if app.store.tasks.is_empty() || app.selected_task_index >= app.store.tasks.len() {
        None
    } else {
        Some(app.selected_task_index)
    }
}

/// The remainder of `a` divided by a positive `b` when the quotient is rounded toward zero;
/// it has the sign of `a`.
pub open spec fn rem_toward_zero(a: int, b: int) -> int {
    a - b * div_toward_zero(a, b)
}

/// A length of time split into hours, minutes and seconds.
#[derive(Clone, Copy, Debug, PartialEq, Eq, Structural)]
pub struct Uptime {
    pub hours: i64,
    pub minutes: i64,
    pub seconds: i64,
}

/// `elapsed` seconds split into whole hours, the minutes past the hour and the seconds past the
/// minute, each rounded toward zero (so a negative span gives negative parts).
pub open spec fn uptime_of(elapsed: i64) -> Uptime {
    Uptime {
        hours: div_toward_zero(elapsed as int, 3600) as i64,
        minutes: rem_toward_zero(div_toward_zero(elapsed as int, 60), 60) as i64,
        seconds: rem_toward_zero(elapsed as int, 60) as i64,
    }
}

/// Splits `elapsed` seconds into whole hours, the minutes past the hour and the seconds past
/// the minute, each rounded toward zero (so a negative span gives negative parts).
pub fn uptime(elapsed: i64) -> (u: Uptime)
    ensures
        u == uptime_of(elapsed),
{
    let seconds: i64 = elapsed % 60;
    let minutes: i64 = (elapsed / 60) % 60;
    let hours: i64 = elapsed / 3600;
    Uptime { hours, minutes, seconds }
}

/// The whole seconds from `start` to `now`, as chrono counts them; 0 when chrono cannot
/// represent one of the two instants.
pub open spec fn elapsed_between(start: Timestamp, now: Timestamp) -> i64 {
    match seconds_between(start, now) {
        Some(e) => e,
        None => 0,
    }
}

/// The whole seconds from `start` to `now`, rounded toward zero; 0 when chrono cannot represent
/// one of the two instants.
pub fn elapsed_seconds(start: Timestamp, now: Timestamp) -> (e: i64)
    ensures
        e == elapsed_between(start, now),
{
    match chrono_seconds_between(start, now) {
        Some(e) => e,
        None => 0,
    }
}

impl App {
    /// How long this run has lasted, by the clock now (an instant at or after the Unix epoch), as
    /// hours, minutes and seconds.
    pub fn uptime_now(&self) -> (u: Uptime)
        ensures
            exists|now: Timestamp|
                now.secs >= 0 && now.nanos < 1_000_000_000 && u == uptime_of(
                    #[trigger] elapsed_between(self.start_time, now),
                ),
    {
        let now = now_timestamp();
        uptime(elapsed_seconds(self.start_time, now))
    }
}

} // verus!
