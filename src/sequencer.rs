//! The playback sequencer: a state machine that walks a playlist with
//! fade-in and a cap on the run's length.
//!
//! The caller performs each action that `advance` hands out (a device call,
//! a store update or a wait) and then calls `advance` again with the seconds
//! that have passed since the run began.
use vstd::prelude::*;
use vstd::arithmetic::div_mod::{lemma_div_is_ordered, lemma_div_multiples_vanish};

use crate::history::ExecStatus;

verus! {

/// Volume is counted in hundredths of a percent: full scale is this many.
pub const FULL_SCALE_BPS: u64 = 10000;

/// One audio item of a playlist, in play order.
#[derive(Clone, Debug)]
pub struct PlaylistItem {
    pub audio_id: i64,
    pub path: String,
    /// Length of the item in whole seconds.
    pub duration_secs: u64,
    pub name: String,
}

impl PlaylistItem {
    /// An item as the store lists it; a negative stored length counts as zero.
    pub fn new(audio_id: i64, path: String, duration: i64, name: String) -> (r: PlaylistItem)
        ensures
            r.audio_id == audio_id,
            r.path@ == path@,
            r.duration_secs == if duration < 0 {
                0
            } else {
                duration as int
            },
            r.name@ == name@,
    {
        let duration_secs: u64 = if duration < 0 {
            0
        } else {
            duration as u64
        };
        PlaylistItem { audio_id, path, duration_secs, name }
    }
}

/// Why a run ends as failed.
#[derive(Clone, Copy, Debug, PartialEq, Eq, Structural)]
pub enum PlaybackError {
    /// The playlist holds no item.
    EmptyPlaylist,
    /// The device could not start an item.
    PlaybackStart,
}

/// What the caller is to do next.
#[derive(Clone, Copy, Debug, PartialEq, Eq, Structural)]
pub enum Action {
    /// Queue the playlist's audio ids for automatic play and mark the
    /// playback as scheduled.
    Prepare,
    /// Set the volume, then start the item at `index`.
    Start { index: usize, volume_bps: u64 },
    /// Set the volume, then wait one second.
    FadeStep { volume_bps: u64 },
    /// Wait this many seconds.
    Sleep { secs: u64 },
    /// Stop the device.
    Stop,
    /// Add one to the item's play count and set its last-played time.
    RecordPlay { audio_id: i64 },
    /// Mark the run's execution record completed. The run is over.
    Complete,
    /// Mark the run's execution record failed. The run is over.
    Fail { error: PlaybackError },
}

impl Action {
    /// The status that the run's execution record takes at this action, when
    /// the action ends the run.
    pub fn record_status(&self) -> (r: Option<ExecStatus>)
        ensures
            r == match *self {
                Action::Complete => Some(ExecStatus::Completed),
                Action::Fail { .. } => Some(ExecStatus::Failed),
                _ => None,
            },
    {
        match self {
            Action::Complete => Some(ExecStatus::Completed),
            Action::Fail { .. } => Some(ExecStatus::Failed),
            _ => None,
        }
    }
}

/// Where a run stands.
#[derive(Clone, Copy, Debug, PartialEq, Eq, Structural)]
pub enum Phase {
    /// Nothing done yet.
    Begin,
    /// About to check the cap and start the item at `index`.
    NextItem { index: usize },
    /// The item at `index` was asked to start.
    Started { index: usize },
    /// The fade step `step` of the item at `index` was issued.
    Fading { index: usize, step: u64 },
    /// The wait for the item at `index` was issued; `truncated` when the cap
    /// cut it short.
    Waited { index: usize, truncated: bool },
    /// The device was stopped by the cap.
    Closing,
    /// The run is over.
    Done,
}

/// The volume of fade step `step` out of `steps`: a linear ramp from 0 to
/// `target`, rounded down.
pub open spec fn fade_level(target: int, steps: int, step: int) -> int {
    target * step / steps
}

/// Whether a run under `cap` has used it up after `elapsed` seconds.
pub open spec fn cap_reached(cap: Option<u64>, elapsed: int) -> bool {
    match cap {
        Some(c) => elapsed >= c,
        None => false,
    }
}

/// How long to wait for an item of `duration` seconds, `elapsed` seconds
/// into a run under `cap`: its length, or what is left of the cap if less.
pub open spec fn wait_for(duration: int, cap: Option<u64>, elapsed: int) -> int {
    match cap {
        Some(c) => {
            let remaining = if c > elapsed {
                c - elapsed
            } else {
                0
            };
            if duration <= remaining {
                duration
            } else {
                remaining
            }
        },
        None => duration,
    }
}

/// The cap in seconds for a cap in minutes. A cap of zero or fewer minutes
/// is used up at once; one beyond the range of `u64` seconds is held at its
/// largest value.
pub open spec fn cap_of_minutes(minutes: Option<i64>) -> Option<u64> {
    match minutes {
        Some(m) => Some(
            if m <= 0 {
                0
            } else if m * 60 > u64::MAX {
                u64::MAX
            } else {
                (m * 60) as u64
            },
        ),
        None => None,
    }
}

/// Converts a run's cap from minutes to seconds.
pub fn cap_seconds(duration_minutes: Option<i64>) -> (r: Option<u64>)
    ensures
        r == cap_of_minutes(duration_minutes),
{
    match duration_minutes {
        Some(m) => {
            if m <= 0 {
                Some(0)
            } else {
                let secs = (m as u128) * 60;
                if secs > u64::MAX as u128 {
                    Some(u64::MAX)
                } else {
                    Some(secs as u64)
                }
            }
        },
        None => None,
    }
}

/// The volume of fade step `step` out of `steps`, toward `target_bps`.
/// It never exceeds the target and reaches it exactly at the last step.
pub fn fade_volume(target_bps: u64, steps: u64, step: u64) -> (r: u64)
    requires
        target_bps <= FULL_SCALE_BPS,
        0 < steps,
        step <= steps,
    ensures
        r == fade_level(target_bps as int, steps as int, step as int),
        r <= target_bps,
        step == steps ==> r == target_bps,
{
    proof {
        lemma_fade_level(target_bps as int, steps as int, step as int);
        assert((target_bps as int) * (step as int) <= 10000 * 0x1_0000_0000_0000_0000) by (nonlinear_arith)
            requires
                target_bps <= 10000,
                step <= 0xffff_ffff_ffff_ffff,
        ;
    }
    let v = (target_bps as u128) * (step as u128) / (steps as u128);
    v as u64
}

proof fn lemma_fade_level(target: int, steps: int, step: int)
    requires
        0 <= target,
        0 < steps,
        0 <= step <= steps,
    ensures
        0 <= fade_level(target, steps, step) <= target,
        step == steps ==> fade_level(target, steps, step) == target,
{
    assert(0 <= target * step <= target * steps) by (nonlinear_arith)
        requires
            0 <= target,
            0 <= step <= steps,
    ;
    lemma_div_is_ordered(target * step, target * steps, steps);
    lemma_div_is_ordered(0, target * step, steps);
    lemma_div_multiples_vanish(target, steps);
    assert(steps * target == target * steps) by (nonlinear_arith);
}

/// One playlist run.
pub struct Sequencer {
    /// The items in play order.
    pub items: Vec<PlaylistItem>,
    /// Target volume in hundredths of a percent.
    pub target_bps: u64,
    /// Fade-in length in seconds, one step each; 0 plays at once at the target.
    pub fade_steps: u64,
    /// Cap on the run in seconds.
    pub cap_secs: Option<u64>,
    pub phase: Phase,
}

impl Sequencer {
    /// The configuration is in range and the phase points into the playlist.
    pub open spec fn wf(&self) -> bool {
        &&& self.target_bps <= FULL_SCALE_BPS
        &&& match self.phase {
            Phase::NextItem { index } => index <= self.items.len(),
            Phase::Started { index } => index < self.items.len(),
            Phase::Fading { index, step } => index < self.items.len() && step <= self.fade_steps
                && self.fade_steps > 0,
            Phase::Waited { index, .. } => index < self.items.len(),
            _ => true,
        }
    }

    /// The volume at which an item starts.
    pub open spec fn start_volume(&self) -> u64 {
        if self.fade_steps > 0 {
            0
        } else {
            self.target_bps
        }
    }

    /// The wait for the item at `index`, `elapsed` seconds into the run.
    pub open spec fn wait_step(&self, index: usize, elapsed: u64) -> (Phase, Action) {
        let d = self.items@[index as int].duration_secs as int;
        let w = wait_for(d, self.cap_secs, elapsed as int);
        (Phase::Waited { index, truncated: w < d }, Action::Sleep { secs: w as u64 })
    }

    /// The next phase and action after the last action finished `elapsed`
    /// seconds into the run.
    pub open spec fn step(&self, elapsed: u64) -> (Phase, Action) {
        match self.phase {
            Phase::Begin => if self.items.len() == 0 {
                (Phase::Done, Action::Fail { error: PlaybackError::EmptyPlaylist })
            } else {
                (Phase::NextItem { index: 0 }, Action::Prepare)
            },
            Phase::NextItem { index } => if index >= self.items.len() {
                (Phase::Done, Action::Complete)
            } else if cap_reached(self.cap_secs, elapsed as int) {
                (Phase::Closing, Action::Stop)
            } else {
                (Phase::Started { index }, Action::Start { index, volume_bps: self.start_volume() })
            },
            Phase::Started { index } => if self.fade_steps > 0 {
                (
                    Phase::Fading { index, step: 0 },
                    Action::FadeStep {
                        volume_bps: fade_level(
                            self.target_bps as int,
                            self.fade_steps as int,
                            0,
                        ) as u64,
                    },
                )
            } else {
                self.wait_step(index, elapsed)
            },
            Phase::Fading { index, step } => if step < self.fade_steps {
                (
                    Phase::Fading { index, step: (step + 1) as u64 },
                    Action::FadeStep {
                        volume_bps: fade_level(
                            self.target_bps as int,
                            self.fade_steps as int,
                            step + 1,
                        ) as u64,
                    },
                )
            } else {
                self.wait_step(index, elapsed)
            },
            Phase::Waited { index, truncated } => if truncated {
                (Phase::Closing, Action::Stop)
            } else {
                (
                    Phase::NextItem { index: (index + 1) as usize },
                    Action::RecordPlay { audio_id: self.items@[index as int].audio_id },
                )
            },
            Phase::Closing => (Phase::Done, Action::Complete),
            Phase::Done => (Phase::Done, Action::Complete),
        }
    }

    /// A run of `items` at `volume` percent, fading in over `fade_in_duration`
    /// seconds (none when 0 or less), capped at `cap_secs` seconds.
    pub fn new(items: Vec<PlaylistItem>, volume: i64, fade_in_duration: i64, cap_secs: Option<u64>) -> (r: Sequencer)
        requires
            0 <= volume <= 100,
        ensures
            r.wf(),
            r.items@ == items@,
            r.target_bps == volume * 100,
            r.fade_steps == if fade_in_duration > 0 {
                fade_in_duration as int
            } else {
                0
            },
            r.cap_secs == cap_secs,
            r.phase == Phase::Begin,
    {
        let fade_steps: u64 = if fade_in_duration > 0 {
            fade_in_duration as u64
        } else {
            0
        };
        Sequencer { items, target_bps: (volume as u64) * 100, fade_steps, cap_secs, phase: Phase::Begin }
    }

    /// Whether the run is over.
    pub fn is_done(&self) -> (r: bool)
        ensures
            r == (self.phase == Phase::Done),
    {
        self.phase == Phase::Done
    }

    fn wait_item(&self, index: usize, elapsed: u64) -> (r: (Phase, Action))
        requires
            index < self.items.len(),
        ensures
            r == self.wait_step(index, elapsed),
    {
        let d = self.items[index].duration_secs;
        let w: u64 = match self.cap_secs {
            Some(c) => {
                let remaining: u64 = if c > elapsed {
                    c - elapsed
                } else {
                    0
                };
                if d <= remaining {
                    d
                } else {
                    remaining
                }
            },
            None => d,
        };
        (Phase::Waited { index, truncated: w < d }, Action::Sleep { secs: w })
    }

    /// Moves the run on after its last action finished, `elapsed_secs` into
    /// the run, and returns the next action.
    pub fn advance(&mut self, elapsed_secs: u64) -> (r: Action)
        requires
            old(self).wf(),
            old(self).phase != Phase::Done,
        ensures
            final(self).wf(),
            (final(self).phase, r) == old(self).step(elapsed_secs),
            final(self).items == old(self).items,
            final(self).target_bps == old(self).target_bps,
            final(self).fade_steps == old(self).fade_steps,
            final(self).cap_secs == old(self).cap_secs,
    {
        let (phase, action) = match self.phase {
            Phase::Begin => if self.items.len() == 0 {
                (Phase::Done, Action::Fail { error: PlaybackError::EmptyPlaylist })
            } else {
                (Phase::NextItem { index: 0 }, Action::Prepare)
            },
            Phase::NextItem { index } => if index >= self.items.len() {
                (Phase::Done, Action::Complete)
            } else if match self.cap_secs {
                Some(c) => elapsed_secs >= c,
                None => false,
            } {
                (Phase::Closing, Action::Stop)
            } else {
                let volume_bps = if self.fade_steps > 0 {
                    0
                } else {
                    self.target_bps
                };
                (Phase::Started { index }, Action::Start { index, volume_bps })
            },
            Phase::Started { index } => if self.fade_steps > 0 {
                let volume_bps = fade_volume(self.target_bps, self.fade_steps, 0);
                (Phase::Fading { index, step: 0 }, Action::FadeStep { volume_bps })
            } else {
                self.wait_item(index, elapsed_secs)
            },
            Phase::Fading { index, step } => if step < self.fade_steps {
                let volume_bps = fade_volume(self.target_bps, self.fade_steps, step + 1);
                (Phase::Fading { index, step: step + 1 }, Action::FadeStep { volume_bps })
            } else {
                self.wait_item(index, elapsed_secs)
            },
            Phase::Waited { index, truncated } => if truncated {
                (Phase::Closing, Action::Stop)
            } else {
                (Phase::NextItem { index: index + 1 }, Action::RecordPlay { audio_id: self.items[index].audio_id })
            },
            Phase::Closing => (Phase::Done, Action::Complete),
            Phase::Done => (Phase::Done, Action::Complete),
        };
        self.phase = phase;
        action
    }

    /// Ends the run after the device failed to start the current item.
    pub fn start_failed(&mut self) -> (r: Action)
        requires
            old(self).phase is Started,
        ensures
            r == (Action::Fail { error: PlaybackError::PlaybackStart }),
            final(self).phase == Phase::Done,
            final(self).items == old(self).items,
            final(self).target_bps == old(self).target_bps,
            final(self).fade_steps == old(self).fade_steps,
            final(self).cap_secs == old(self).cap_secs,
    {
        self.phase = Phase::Done;
        Action::Fail { error: PlaybackError::PlaybackStart }
    }

    /// The audio ids of the playlist, in play order, for the device's queue.
    pub fn audio_ids(&self) -> (r: Vec<i64>)
        ensures
            r@.len() == self.items@.len(),
            forall|i: int| 0 <= i < r@.len() ==> r@[i] == self.items@[i].audio_id,
    {
        let mut ids: Vec<i64> = Vec::new();
        let mut i: usize = 0;
        while i < self.items.len()
            invariant
                0 <= i <= self.items.len(),
                ids@.len() == i,
                forall|j: int| 0 <= j < i ==> ids@[j] == self.items@[j].audio_id,
            decreases self.items.len() - i,
        {
            ids.push(self.items[i].audio_id);
            i = i + 1;
        }
        ids
    }
}

/// Every volume that a run sets lies at or under its target, and the last
/// fade step sets the target exactly.
pub proof fn lemma_volume_within_target(s: Sequencer, elapsed: u64)
    requires
        s.wf(),
    ensures
        match s.step(elapsed).1 {
            Action::Start { volume_bps, .. } => volume_bps <= s.target_bps,
            Action::FadeStep { volume_bps } => volume_bps <= s.target_bps,
            _ => true,
        },
        s.phase matches Phase::Fading { step, .. } && step + 1 == s.fade_steps ==> s.step(elapsed).1
            == (Action::FadeStep { volume_bps: s.target_bps }),
{
    if s.fade_steps > 0 {
        lemma_fade_level(s.target_bps as int, s.fade_steps as int, 0);
        if let Phase::Fading { step, .. } = s.phase {
            if step < s.fade_steps {
                lemma_fade_level(s.target_bps as int, s.fade_steps as int, step + 1);
            }
        }
    }
}

/// An item's play is recorded only after a wait that the cap did not cut
/// short, and it is that item's play that is recorded; a wait cut short is
/// followed by a stop.
pub proof fn lemma_play_recorded_only_in_full(s: Sequencer, elapsed: u64)
    requires
        s.wf(),
    ensures
        s.step(elapsed).1 is RecordPlay ==> (s.phase matches Phase::Waited { index, truncated }
            && !truncated && s.step(elapsed).1 == (Action::RecordPlay {
            audio_id: s.items@[index as int].audio_id,
        })),
        s.phase matches Phase::Waited { truncated, .. } && truncated ==> s.step(elapsed)
            == (Phase::Closing, Action::Stop),
{
}

} // verus!
