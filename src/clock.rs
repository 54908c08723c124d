//! Local wall-clock readings, as the matcher needs them.
use vstd::prelude::*;

verus! {

/// A reading of the local clock, broken into the fields that the matcher reads.
#[derive(Clone, Copy, Debug, PartialEq, Eq, Structural)]
pub struct WallClock {
    pub year: i32,
    /// 1 to 12.
    pub month: u32,
    /// 1 to 31.
    pub day: u32,
    /// 0 to 23.
    pub hour: u32,
    /// 0 to 59.
    pub minute: u32,
    /// Days since Sunday: Sunday is 0, Saturday is 6.
    pub weekday: u32,
}

impl WallClock {
    /// Every field lies in its calendar range.
    pub open spec fn wf(&self) -> bool {
        &&& 1 <= self.month <= 12
        &&& 1 <= self.day <= 31
        &&& self.hour < 24
        &&& self.minute < 60
        &&& self.weekday < 7
    }

    /// Reads the local clock now.
    pub fn now() -> (r: WallClock)
        ensures
            r.wf(),
    {
        local_now()
    }
}

/// Relies on chrono's `Local::now` and on its `Timelike`, `Datelike` and
/// `Weekday::num_days_from_sunday` accessors, whose documented ranges are
/// the ones that `wf` states. What time it is, nothing promises.
#[verifier::external_body]
fn local_now() -> (r: WallClock)
    ensures
        r.wf(),
{
    let now = chrono::Local::now();
    WallClock {
        year: chrono::Datelike::year(&now),
        month: chrono::Datelike::month(&now),
        day: chrono::Datelike::day(&now),
        hour: chrono::Timelike::hour(&now),
        minute: chrono::Timelike::minute(&now),
        weekday: chrono::Datelike::weekday(&now).num_days_from_sunday(),
    }
}

} // verus!
