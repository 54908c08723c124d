//! The execution history as a sequence of records, and the firing laws that
//! the matcher and the guard give together.
use vstd::prelude::*;

use crate::clock::WallClock;
use crate::matcher::{day_policy, in_window, parsed_days, verdict, Verdict};
use crate::task::{RepeatMode, Task};

verus! {

/// The status of one execution record.
#[derive(Clone, Copy, Debug, PartialEq, Eq, Structural)]
pub enum ExecStatus {
    Started,
    Completed,
    Failed,
}

/// One entry of the execution history.
#[derive(Clone, Copy, Debug, PartialEq, Eq, Structural)]
pub struct ExecutionRecord {
    pub task_id: i64,
    /// Local time of the run, in seconds.
    pub time: i64,
    pub status: ExecStatus,
}

/// Seconds in a calendar day.
pub const SECONDS_PER_DAY: i64 = 86400;

/// The first second of the local calendar day that holds `t`.
pub open spec fn day_start(t: int) -> int {
    t - t % (SECONDS_PER_DAY as int)
}

/// How many records of `h` belong to the task `id`, whatever their status.
pub open spec fn executions_of(h: Seq<ExecutionRecord>, id: i64) -> nat
    decreases h.len(),
{
    if h.len() == 0 {
        0
    } else {
        executions_of(h.drop_last(), id) + if h.last().task_id == id {
            1nat
        } else {
            0nat
        }
    }
}

/// How many records of `h` belong to the task `id` and lie at or after `since`.
pub open spec fn executions_since(h: Seq<ExecutionRecord>, id: i64, since: int) -> nat
    decreases h.len(),
{
    if h.len() == 0 {
        0
    } else {
        executions_since(h.drop_last(), id, since) + if h.last().task_id == id && h.last().time
            >= since {
            1nat
        } else {
            0nat
        }
    }
}

proof fn lemma_record_counts(h: Seq<ExecutionRecord>, id: i64, since: int, k: int)
    requires
        0 <= k < h.len(),
        h[k].task_id == id,
    ensures
        executions_of(h, id) >= 1,
        h[k].time >= since ==> executions_since(h, id, since) >= 1,
    decreases h.len(),
{
    if k < h.len() - 1 {
        lemma_record_counts(h.drop_last(), id, since, k);
    }
}

/// A daily task passes the day policy on every weekday.
pub proof fn lemma_daily_every_day(task: Task, weekday: int, executions_total: int)
    requires
        task.repeat_mode == RepeatMode::Daily,
    ensures
        day_policy(task.repeat_mode, parsed_days(task.custom_days), weekday, executions_total),
{
}

/// A once task passes the day policy while it has no execution record, and
/// never again once the history holds a record of it, whatever its status.
pub proof fn lemma_once_until_recorded(task: Task, weekday: int, h: Seq<ExecutionRecord>, k: int)
    requires
        task.repeat_mode == RepeatMode::Once,
        0 <= k < h.len(),
        h[k].task_id == task.id,
    ensures
        day_policy(task.repeat_mode, parsed_days(task.custom_days), weekday, 0),
        !day_policy(
            task.repeat_mode,
            parsed_days(task.custom_days),
            weekday,
            executions_of(h, task.id) as int,
        ),
{
    lemma_record_counts(h, task.id, 0, k);
}

/// Two cycles on one calendar day, both inside a daily task's window: the
/// first fires when the task has no record that day, and once its run is
/// recorded at the first cycle's time, the second cycle does not fire.
pub proof fn lemma_daily_fires_once_per_day(
    task: Task,
    first: WallClock,
    second: WallClock,
    h: Seq<ExecutionRecord>,
    t1: i64,
    t2: i64,
    status: ExecStatus,
)
    requires
        task.repeat_mode == RepeatMode::Daily,
        in_window(task.hour as int, task.minute as int, first.hour as int, first.minute as int),
        in_window(task.hour as int, task.minute as int, second.hour as int, second.minute as int),
        day_start(t1 as int) == day_start(t2 as int),
        executions_since(h, task.id, day_start(t1 as int)) == 0,
    ensures
        verdict(
            task,
            first,
            executions_of(h, task.id) as int,
            executions_since(h, task.id, day_start(t1 as int)) as int,
        ) == Verdict::Fire,
        verdict(
            task,
            second,
            executions_of(h.push(ExecutionRecord { task_id: task.id, time: t1, status }), task.id)
                as int,
            executions_since(
                h.push(ExecutionRecord { task_id: task.id, time: t1, status }),
                task.id,
                day_start(t2 as int),
            ) as int,
        ) == Verdict::AlreadyRunToday,
{
    let h2 = h.push(ExecutionRecord { task_id: task.id, time: t1, status });
    assert(h2[h.len() as int].time >= day_start(t2 as int));
    lemma_record_counts(h2, task.id, day_start(t2 as int), h.len() as int);
}

} // verus!
