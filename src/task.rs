//! The data model of a scheduled task.
use vstd::prelude::*;

verus! {

/// How a task decides whether today is one of its days.
#[derive(Clone, Copy, Debug, PartialEq, Eq, Structural)]
pub enum RepeatMode {
    Daily,
    Weekday,
    Weekend,
    Custom,
    Once,
    /// A mode name that the store holds but that is not known: never fires.
    Unknown,
}

/// The mode that a stored mode name stands for.
pub open spec fn mode_named(s: Seq<char>) -> RepeatMode {
    if s == "daily"@ {
        RepeatMode::Daily
    } else if s == "weekday"@ {
        RepeatMode::Weekday
    } else if s == "weekend"@ {
        RepeatMode::Weekend
    } else if s == "custom"@ {
        RepeatMode::Custom
    } else if s == "once"@ {
        RepeatMode::Once
    } else {
        RepeatMode::Unknown
    }
}

impl RepeatMode {
    /// Reads a stored mode name (`daily`, `weekday`, `weekend`, `custom`, `once`).
    pub fn from_name(s: &str) -> (r: RepeatMode)
        ensures
            r == mode_named(s@),
    {
        let owned = s.to_owned();
        proof {
            reveal_strlit("daily");
            reveal_strlit("weekday");
            reveal_strlit("weekend");
            reveal_strlit("custom");
            reveal_strlit("once");
        }
        if owned == "daily".to_owned() {
            RepeatMode::Daily
        } else if owned == "weekday".to_owned() {
            RepeatMode::Weekday
        } else if owned == "weekend".to_owned() {
            RepeatMode::Weekend
        } else if owned == "custom".to_owned() {
            RepeatMode::Custom
        } else if owned == "once".to_owned() {
            RepeatMode::Once
        } else {
            RepeatMode::Unknown
        }
    }
}

/// A scheduled task as the store holds it.
#[derive(Clone, Debug)]
pub struct Task {
    pub id: i64,
    pub name: String,
    /// Trigger hour, 0 to 23.
    pub hour: i64,
    /// Trigger minute, 0 to 59.
    pub minute: i64,
    pub repeat_mode: RepeatMode,
    /// The weekday numbers of a custom task, as a JSON array text.
    pub custom_days: Option<String>,
    pub playlist_id: i64,
    /// Target volume, 0 to 100.
    pub volume: i64,
    /// Fade-in length in seconds; 0 or less means no fade.
    pub fade_in_duration: i64,
    /// Cap on the whole run in minutes.
    pub duration_minutes: Option<i64>,
    /// Higher runs first within one cycle.
    pub priority: i64,
}

} // verus!
