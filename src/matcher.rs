//! The task matcher and the execution guard: whether a task fires now.
use vstd::prelude::*;

use crate::clock::WallClock;
use crate::task::{RepeatMode, Task};

verus! {

/// What the JSON text `s` holds when it is an array of 64-bit integers.
pub uninterp spec fn json_i64_list(s: Seq<char>) -> Option<Seq<i64>>;

#[verifier::external_type_specification]
#[verifier::external_body]
pub struct ExJsonError(serde_json::Error);

/// Relies on `serde_json::from_str::<Vec<i64>>`: it reads the text as a JSON
/// array of integers and fails on anything else.
#[verifier::external_body]
fn parse_i64_list(s: &str) -> (r: Result<Vec<i64>, serde_json::Error>)
    ensures
        match r {
            Ok(v) => json_i64_list(s@) == Some(v@),
            Err(_) => json_i64_list(s@) is None,
        },
{
    serde_json::from_str::<Vec<i64>>(s)
}

/// Minutes from the trigger time to the current time, within one day's clock.
pub open spec fn minute_delta(hour: int, minute: int, cur_hour: int, cur_minute: int) -> int {
    (cur_hour * 60 + cur_minute) - (hour * 60 + minute)
}

/// The three-minute window that opens at the trigger time.
pub open spec fn in_window(hour: int, minute: int, cur_hour: int, cur_minute: int) -> bool {
    0 <= minute_delta(hour, minute, cur_hour, cur_minute) <= 2
}

/// The weekday numbers that a task's custom-day text holds, if it holds any.
pub open spec fn parsed_days(text: Option<String>) -> Option<Seq<i64>> {
    match text {
        Some(s) => json_i64_list(s@),
        None => None,
    }
}

/// Whether `weekday` is among the listed days; no list matches no day.
pub open spec fn listed_day(days: Option<Seq<i64>>, weekday: int) -> bool {
    match days {
        Some(d) => exists|j: int| 0 <= j < d.len() && d[j] == weekday,
        None => false,
    }
}

/// The integers that an optional list holds.
pub open spec fn list_view(days: Option<Vec<i64>>) -> Option<Seq<i64>> {
    match days {
        Some(v) => Some(v@),
        None => None,
    }
}

/// Whether a task of this mode may fire on `weekday`, given its days and how
/// many execution records it has.
pub open spec fn day_policy(
    mode: RepeatMode,
    days: Option<Seq<i64>>,
    weekday: int,
    executions_total: int,
) -> bool {
    match mode {
        RepeatMode::Daily => true,
        RepeatMode::Weekday => 1 <= weekday <= 5,
        RepeatMode::Weekend => weekday == 0 || weekday == 6,
        RepeatMode::Custom => listed_day(days, weekday),
        RepeatMode::Once => executions_total == 0,
        RepeatMode::Unknown => false,
    }
}

/// The outcome of evaluating one task in one cycle.
#[derive(Clone, Copy, Debug, PartialEq, Eq, Structural)]
pub enum Verdict {
    /// The current time is outside the task's window.
    OutsideWindow,
    /// Today is not one of the task's days, or a once task has already run.
    NotToday,
    /// The task already has an execution record today.
    AlreadyRunToday,
    /// The task fires now.
    Fire,
}

/// The verdict on `task` at `now`, given its execution records in all and today.
pub open spec fn verdict(task: Task, now: WallClock, executions_total: int, executions_today: int) -> Verdict {
    if !in_window(task.hour as int, task.minute as int, now.hour as int, now.minute as int) {
        Verdict::OutsideWindow
    } else if !day_policy(task.repeat_mode, parsed_days(task.custom_days), now.weekday as int, executions_total) {
        Verdict::NotToday
    } else if executions_today > 0 {
        Verdict::AlreadyRunToday
    } else {
        Verdict::Fire
    }
}

/// Whether the current time lies in the window that opens at `hour:minute`
/// and lasts three minutes.
pub fn time_window_matches(hour: i64, minute: i64, cur_hour: i64, cur_minute: i64) -> (r: bool)
    ensures
        r == in_window(hour as int, minute as int, cur_hour as int, cur_minute as int),
{
    let now = (cur_hour as i128) * 60 + (cur_minute as i128);
    let then = (hour as i128) * 60 + (minute as i128);
    let delta = now - then;
    0 <= delta && delta <= 2
}

/// Reads a custom-day text as a list of weekday numbers.
pub fn parse_custom_days(text: &Option<String>) -> (r: Option<Vec<i64>>)
    ensures
        match r {
            Some(v) => parsed_days(*text) == Some(v@),
            None => parsed_days(*text) is None,
        },
{
    match text {
        Some(s) => match parse_i64_list(s.as_str()) {
            Ok(v) => Some(v),
            Err(_) => None,
        },
        None => None,
    }
}

/// Whether `weekday` is among the parsed custom days.
pub fn custom_day_matches(days: &Option<Vec<i64>>, weekday: u32) -> (r: bool)
    ensures
        r == listed_day(list_view(*days), weekday as int),
{
    match days {
        Some(v) => {
            let w = weekday as i64;
            let mut i: usize = 0;
            while i < v.len()
                invariant
                    0 <= i <= v.len(),
                    list_view(*days) == Some(v@),
                    w == weekday as int,
                    forall|j: int| 0 <= j < i ==> v@[j] != w,
                decreases v.len() - i,
            {
                if v[i] == w {
                    assert(list_view(*days)->Some_0[i as int] == weekday as int);
                    return true;
                }
                i = i + 1;
            }
            false
        },
        None => false,
    }
}

/// The day-policy half of the matcher.
pub fn day_policy_matches(
    mode: RepeatMode,
    custom_days: &Option<String>,
    weekday: u32,
    executions_total: u64,
) -> (r: bool)
    ensures
        r == day_policy(mode, parsed_days(*custom_days), weekday as int, executions_total as int),
{
    match mode {
        RepeatMode::Daily => true,
        RepeatMode::Weekday => 1 <= weekday && weekday <= 5,
        RepeatMode::Weekend => weekday == 0 || weekday == 6,
        RepeatMode::Custom => {
            let days = parse_custom_days(custom_days);
            custom_day_matches(&days, weekday)
        },
        RepeatMode::Once => executions_total == 0,
        RepeatMode::Unknown => false,
    }
}

/// Decides whether `task` fires at `now`: its window must be open, today must
/// be one of its days, and it must have no execution record yet today.
pub fn evaluate(task: &Task, now: &WallClock, executions_total: u64, executions_today: u64) -> (r: Verdict)
    ensures
        r == verdict(*task, *now, executions_total as int, executions_today as int),
{
    if !time_window_matches(task.hour, task.minute, now.hour as i64, now.minute as i64) {
        Verdict::OutsideWindow
    } else if !day_policy_matches(task.repeat_mode, &task.custom_days, now.weekday, executions_total) {
        Verdict::NotToday
    } else if executions_today > 0 {
        Verdict::AlreadyRunToday
    } else {
        Verdict::Fire
    }
}

} // verus!
