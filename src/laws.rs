//! Properties of the engine that hold across calls, proved over the model
//! that the operations' contracts speak of.

use vstd::prelude::*;
use crate::engine::{EngineModel, Snapshot, TimerState};

verus! {

/// While the interval has time left, the countdown never goes up: of two
/// ticks at `t1 <= t2` with no command between them, neither of which finds
/// the interval run out, the second shows no more time left than the first.
pub proof fn lemma_countdown_monotonic(m: EngineModel, t1: nat, t2: nat, s1: Snapshot, s2: Snapshot)
    requires
        m.wf(),
        t1 <= t2,
        !m.expired_at(t1),
        !m.expired_at(t2),
        m.after_tick(t1).shows(s1, t1),
        m.after_tick(t1).after_tick(t2).shows(s2, t2),
    ensures
        s1.remaining >= s2.remaining,
        s1.state == s2.state,
{
}

/// However far past the end of its interval a tick comes, it finds no time
/// left rather than a negative amount, and it moves on to the successor.
pub proof fn lemma_remaining_clamps(m: EngineModel, now: nat)
    requires
        m.wf(),
        m.state !is Idle,
        now >= m.started_at + m.duration_of(m.state),
    ensures
        m.remaining_at(now) == 0,
        m.expired_at(now),
        m.after_tick(now) == m.advanced(now),
{
}

/// A tick that finds the interval run out shows the successor with its full
/// duration, never a frame with zero left.
pub proof fn lemma_no_stale_zero(m: EngineModel, now: nat, s: Snapshot)
    requires
        m.wf(),
        m.expired_at(now),
        m.after_tick(now).shows(s, now),
    ensures
        s.state == m.successor_of(m.state),
        s.remaining as nat == m.duration_of(s.state),
        s.remaining > 0,
        s.started_at as nat == now,
{
}

/// While idle, a tick changes nothing and shows the work duration, whatever
/// the instant.
pub proof fn lemma_idle_shows_work(m: EngineModel, now: nat, s: Snapshot)
    requires
        m.state is Idle,
        m.after_tick(now).shows(s, now),
    ensures
        m.after_tick(now) == m,
        s.state is Idle,
        s.remaining as nat == m.work,
{
}

/// A reset leads to idle from every state, at any point of any interval,
/// and keeps the configuration.
pub proof fn lemma_reset_to_idle(m: EngineModel, now: nat)
    requires
        m.wf(),
    ensures
        m.after_reset(now).state is Idle,
        m.after_reset(now).wf(),
        m.after_reset(now).same_config(m),
{
}

} // verus!
