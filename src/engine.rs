//! The timer state machine: which interval runs, since when, and what a
//! frame drawn at a given instant shows.

use vstd::prelude::*;
use crate::clock::{NANOS_PER_SEC, SECS_PER_MINUTE};

verus! {

/// Which interval, if any, is running.
#[derive(Clone, Copy, Debug, PartialEq, Eq, Structural)]
pub enum TimerState {
    Idle,
    Working,
    Paused,
}

/// The fixed configuration of one interval kind.
pub struct IntervalConfig {
    /// Length of the interval, in nanoseconds.
    pub duration: u64,
    /// Title shown while the interval runs.
    pub label: String,
    /// The state entered when the interval elapses or is skipped.
    pub successor: TimerState,
}

/// What one frame shows: the state, the time left in it, and the instant
/// at which it was entered.
#[derive(Clone, Copy, Debug, PartialEq, Eq, Structural)]
pub struct Snapshot {
    pub state: TimerState,
    /// Nanoseconds left in the current interval; the work duration while idle.
    pub remaining: u64,
    pub started_at: u64,
}

/// `a - b`, or zero where `b` exceeds `a`.
pub open spec fn sat_sub(a: nat, b: nat) -> nat {
    if a >= b {
        (a - b) as nat
    } else {
        0
    }
}

/// The abstract state of a [`TimerEngine`].
pub struct EngineModel {
    pub state: TimerState,
    pub started_at: nat,
    pub work: nat,
    pub pause: nat,
    pub work_next: TimerState,
    pub pause_next: TimerState,
    pub work_label: Seq<char>,
    pub pause_label: Seq<char>,
}

impl EngineModel {
    /// Both intervals last some time.
    pub open spec fn wf(self) -> bool {
        self.work > 0 && self.pause > 0
    }

    /// The configured duration shown for `s`: idle shows the work duration.
    pub open spec fn duration_of(self, s: TimerState) -> nat {
        match s {
            TimerState::Paused => self.pause,
            _ => self.work,
        }
    }

    /// The state that follows `s` when its interval ends; idle has none.
    pub open spec fn successor_of(self, s: TimerState) -> TimerState {
        match s {
            TimerState::Working => self.work_next,
            TimerState::Paused => self.pause_next,
            TimerState::Idle => TimerState::Idle,
        }
    }

    /// Time left at `now`: the configured duration less the time elapsed
    /// since the interval began, never below zero; the work duration while
    /// idle.
    pub open spec fn remaining_at(self, now: nat) -> nat {
        if self.state is Idle {
            self.work
        } else {
            sat_sub(self.duration_of(self.state), sat_sub(now, self.started_at))
        }
    }

    /// A running interval has no time left at `now`.
    pub open spec fn expired_at(self, now: nat) -> bool {
        self.state !is Idle && self.remaining_at(now) == 0
    }

    /// Same configuration as `other`.
    pub open spec fn same_config(self, other: EngineModel) -> bool {
        &&& self.work == other.work
        &&& self.pause == other.pause
        &&& self.work_next == other.work_next
        &&& self.pause_next == other.pause_next
        &&& self.work_label == other.work_label
        &&& self.pause_label == other.pause_label
    }

    /// Enters state `s` at `now`.
    pub open spec fn enter(self, s: TimerState, now: nat) -> EngineModel {
        EngineModel { state: s, started_at: now, ..self }
    }

    /// Moves on to the successor of the current state, armed at `now`.
    pub open spec fn advanced(self, now: nat) -> EngineModel {
        self.enter(self.successor_of(self.state), now)
    }

    /// The engine after a tick at `now`: advanced once if the interval has
    /// run out, unchanged otherwise.
    pub open spec fn after_tick(self, now: nat) -> EngineModel {
        if self.expired_at(now) {
            self.advanced(now)
        } else {
            self
        }
    }

    /// The engine after a start at `now`: working from `now` if idle,
    /// unchanged otherwise.
    pub open spec fn after_start(self, now: nat) -> EngineModel {
        if self.state is Idle {
            self.enter(TimerState::Working, now)
        } else {
            self
        }
    }

    /// The engine after a skip at `now`: the successor, armed at `now`, if an
    /// interval runs; unchanged while idle.
    pub open spec fn after_skip(self, now: nat) -> EngineModel {
        if self.state is Idle {
            self
        } else {
            self.advanced(now)
        }
    }

    /// The engine after a reset at `now`: idle.
    pub open spec fn after_reset(self, now: nat) -> EngineModel {
        self.enter(TimerState::Idle, now)
    }

    /// `snap` shows this engine at `now`.
    pub open spec fn shows(self, snap: Snapshot, now: nat) -> bool {
        &&& snap.state == self.state
        &&& snap.remaining as nat == self.remaining_at(now)
        &&& snap.started_at as nat == self.started_at
    }
}

/// The engine of a Pomodoro timer: a work interval and a pause interval,
/// each followed by a configured successor.
pub struct TimerEngine {
    state: TimerState,
    started_at: u64,
    work: IntervalConfig,
    pause: IntervalConfig,
}

impl View for TimerEngine {
    type V = EngineModel;

    closed spec fn view(&self) -> EngineModel {
        EngineModel {
            state: self.state,
            started_at: self.started_at as nat,
            work: self.work.duration as nat,
            pause: self.pause.duration as nat,
            work_next: self.work.successor,
            pause_next: self.pause.successor,
            work_label: self.work.label@,
            pause_label: self.pause.label@,
        }
    }
}

/// Nanoseconds in one minute.
pub const NANOS_PER_MINUTE: u64 = NANOS_PER_SEC * SECS_PER_MINUTE;

/// The longest interval, in minutes, whose length fits in nanoseconds.
pub const MAX_MINUTES: u64 = 307_445_734;

impl Snapshot {
    /// A countdown is running, so the display should draw again shortly.
    pub fn needs_refresh(&self) -> (r: bool)
        ensures
            r == (self.state != TimerState::Idle),
    {
        self.state != TimerState::Idle
    }
}

impl TimerEngine {
    /// An idle engine with the given intervals, created at `now`.
    pub fn new(work: IntervalConfig, pause: IntervalConfig, now: u64) -> (r: TimerEngine)
        requires
            work.duration > 0,
            pause.duration > 0,
        ensures
            r@.wf(),
            r@.state == TimerState::Idle,
            r@.started_at == now as nat,
            r@.work == work.duration as nat,
            r@.pause == pause.duration as nat,
            r@.work_next == work.successor,
            r@.pause_next == pause.successor,
            r@.work_label == work.label@,
            r@.pause_label == pause.label@,
    {
        TimerEngine { state: TimerState::Idle, started_at: now, work, pause }
    }

    /// The usual Pomodoro engine, idle at `now`: work for `work_minutes`,
    /// then pause for `pause_minutes`, then work again.
    pub fn standard(work_minutes: u64, pause_minutes: u64, now: u64) -> (r: TimerEngine)
        requires
            0 < work_minutes <= MAX_MINUTES,
            0 < pause_minutes <= MAX_MINUTES,
        ensures
            r@.wf(),
            r@.state == TimerState::Idle,
            r@.started_at == now as nat,
            r@.work == work_minutes * NANOS_PER_MINUTE,
            r@.pause == pause_minutes * NANOS_PER_MINUTE,
            r@.work_next == TimerState::Paused,
            r@.pause_next == TimerState::Working,
            r@.work_label == "Session de travail"@,
            r@.pause_label == "Pause"@,
    {
        let work = IntervalConfig {
            duration: work_minutes * NANOS_PER_MINUTE,
            label: String::from_str("Session de travail"),
            successor: TimerState::Paused,
        };
        let pause = IntervalConfig {
            duration: pause_minutes * NANOS_PER_MINUTE,
            label: String::from_str("Pause"),
            successor: TimerState::Working,
        };
        TimerEngine::new(work, pause, now)
    }

    /// The current state.
    pub fn state(&self) -> (r: TimerState)
        ensures
            r == self@.state,
    {
        self.state
    }

    /// The instant at which the current state was entered.
    pub fn started_at(&self) -> (r: u64)
        ensures
            r as nat == self@.started_at,
    {
        self.started_at
    }

    /// The duration configured for `s`; idle shows the work duration.
    pub fn duration_of(&self, s: TimerState) -> (r: u64)
        ensures
            r as nat == self@.duration_of(s),
    {
        match s {
            TimerState::Paused => self.pause.duration,
            _ => self.work.duration,
        }
    }

    /// The state that follows `s`; idle has none.
    pub fn successor_of(&self, s: TimerState) -> (r: TimerState)
        ensures
            r == self@.successor_of(s),
    {
        match s {
            TimerState::Working => self.work.successor,
            TimerState::Paused => self.pause.successor,
            TimerState::Idle => TimerState::Idle,
        }
    }

    /// The title of the running interval; none while idle.
    pub fn active_label(&self) -> (r: Option<&str>)
        ensures
            self@.state is Idle ==> r is None,
            self@.state is Working ==> r is Some && r->0@ == self@.work_label,
            self@.state is Paused ==> r is Some && r->0@ == self@.pause_label,
    {
        match self.state {
            TimerState::Working => Some(self.work.label.as_str()),
            TimerState::Paused => Some(self.pause.label.as_str()),
            TimerState::Idle => None,
        }
    }

    /// What a frame drawn at `now` shows, without changing anything.
    pub fn snapshot_at(&self, now: u64) -> (r: Snapshot)
        ensures
            self@.shows(r, now as nat),
    {
        let remaining = if self.state == TimerState::Idle {
            self.work.duration
        } else {
            let elapsed = now.saturating_sub(self.started_at);
            self.duration_of(self.state).saturating_sub(elapsed)
        };
        Snapshot { state: self.state, remaining, started_at: self.started_at }
    }

    /// Evaluates the engine at `now`. When the running interval has no time
    /// left, the engine moves on to its successor, armed at `now`, before the
    /// snapshot is taken, so the frame shows the fresh interval.
    pub fn tick(&mut self, now: u64) -> (r: Snapshot)
        requires
            old(self)@.wf(),
        ensures
            final(self)@.wf(),
            final(self)@ == old(self)@.after_tick(now as nat),
            final(self)@.shows(r, now as nat),
    {
        let snap = self.snapshot_at(now);
        if snap.state != TimerState::Idle && snap.remaining == 0 {
            self.state = self.successor_of(self.state);
            self.started_at = now;
            self.snapshot_at(now)
        } else {
            snap
        }
    }

    /// Begins working at `now`; does nothing unless idle.
    pub fn start(&mut self, now: u64)
        requires
            old(self)@.wf(),
        ensures
            final(self)@.wf(),
            final(self)@ == old(self)@.after_start(now as nat),
    {
        if self.state == TimerState::Idle {
            self.state = TimerState::Working;
            self.started_at = now;
        }
    }

    /// Ends the running interval at once and enters its successor at `now`;
    /// does nothing while idle.
    pub fn skip(&mut self, now: u64)
        requires
            old(self)@.wf(),
        ensures
            final(self)@.wf(),
            final(self)@ == old(self)@.after_skip(now as nat),
    {
        if self.state != TimerState::Idle {
            self.state = self.successor_of(self.state);
            self.started_at = now;
        }
    }

    /// Returns to idle from any state.
    pub fn reset(&mut self, now: u64)
        requires
            old(self)@.wf(),
        ensures
            final(self)@.wf(),
            final(self)@ == old(self)@.after_reset(now as nat),
    {
        self.state = TimerState::Idle;
        self.started_at = now;
    }
}

} // verus!
