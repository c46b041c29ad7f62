use vstd::prelude::*;

use crate::slot::{Handoff, ReactionSlot};
use crate::thresholds::{Thresholds, ADJUST_STEP};

verus! {

/// How long, in milliseconds, a threshold adjustment suspends state transitions.
pub const GRACE_PERIOD_MS: u64 = 7000;

/// Where the ambient loudness stands against the thresholds.
#[derive(Clone, Copy, Debug, PartialEq, Eq, Structural)]
pub enum ReactionState {
    Acceptable,
    TooLoud,
    TooQuiet,
}

/// A reaction the monitor asks its executor to run.
#[derive(Clone, Copy, Debug, PartialEq, Eq, Structural)]
pub enum Reaction {
    EnteredTooLoud,
    EnteredTooQuiet,
    EnteredAcceptable,
    AnnounceLouder,
    AnnounceQuieter,
    ThresholdsReplaced,
}

/// A reaction to run, with the hand-off of the reaction slot that it takes over.
#[derive(Clone, Copy, Debug, PartialEq, Eq, Structural)]
pub struct Dispatch {
    pub reaction: Reaction,
    pub handoff: Handoff,
}

/// Why a configuration change was refused; the previous configuration stays.
#[derive(Clone, Copy, Debug, PartialEq, Eq, Structural)]
pub enum ConfigError {
    /// `too_quiet` is not below `too_loud`, or the grace margin is negative.
    InvalidThresholds,
    /// Moving the thresholds by the adjustment step would leave the level range.
    OutOfRange,
}

/// The reaction that goes with entering `state`.
pub open spec fn entered(state: ReactionState) -> Reaction {
    match state {
        ReactionState::Acceptable => Reaction::EnteredAcceptable,
        ReactionState::TooLoud => Reaction::EnteredTooLoud,
        ReactionState::TooQuiet => Reaction::EnteredTooQuiet,
    }
}

/// The transition table: the state that `loudness` leads to from `state`.
pub open spec fn next_state(state: ReactionState, t: Thresholds, loudness: int) -> ReactionState {
    match state {
        ReactionState::Acceptable => if t.too_loud_spec(loudness) {
            ReactionState::TooLoud
        } else if t.too_quiet_spec(loudness) {
            ReactionState::TooQuiet
        } else {
            ReactionState::Acceptable
        },
        ReactionState::TooLoud => if t.acceptable_from_too_loud_spec(loudness) {
            ReactionState::Acceptable
        } else {
            ReactionState::TooLoud
        },
        ReactionState::TooQuiet => if t.acceptable_from_too_quiet_spec(loudness) {
            ReactionState::Acceptable
        } else {
            ReactionState::TooQuiet
        },
    }
}

pub open spec fn grace_end(now: u64) -> u64 {
    if now + GRACE_PERIOD_MS > u64::MAX {
        u64::MAX
    } else {
        (now + GRACE_PERIOD_MS) as u64
    }
}

/// The threshold state machine with its reaction slot.
///
/// Times are milliseconds on a monotonic clock; loudness levels are millibels.
#[derive(Clone, Copy, Debug, PartialEq, Eq, Structural)]
pub struct Monitor {
    pub state: ReactionState,
    pub thresholds: Thresholds,
    /// Transitions are suspended while the time is before this instant.
    pub grace_ends_at: u64,
    pub slot: ReactionSlot,
}

impl Monitor {
    pub open spec fn wf(self) -> bool {
        self.thresholds.valid()
    }

    pub open spec fn in_grace(self, now: u64) -> bool {
        now < self.grace_ends_at
    }

    /// The state a loudness reading at `now` leads to.
    pub open spec fn state_after(self, loudness: int, now: u64) -> ReactionState {
        if self.in_grace(now) {
            self.state
        } else {
            next_state(self.state, self.thresholds, loudness)
        }
    }

    /// Whether a loudness reading at `now` makes a transition.
    pub open spec fn transitions(self, loudness: int, now: u64) -> bool {
        self.state_after(loudness, now) != self.state
    }

    /// The monitor after a loudness reading at `now`.
    pub open spec fn after_loudness(self, loudness: int, now: u64) -> Monitor {
        if self.transitions(loudness, now) {
            Monitor {
                state: self.state_after(loudness, now),
                slot: self.slot.replaced(),
                ..self
            }
        } else {
            self
        }
    }

    /// What a loudness reading at `now` dispatches: the reaction to the state
    /// entered, on a transition, and nothing otherwise.
    pub open spec fn loudness_dispatch(self, loudness: int, now: u64) -> Option<Dispatch> {
        if self.transitions(loudness, now) {
            Some(
                Dispatch {
                    reaction: entered(self.state_after(loudness, now)),
                    handoff: self.slot.handoff(),
                },
            )
        } else {
            None
        }
    }

    /// The monitor after its thresholds were set to `t` at `now`: the grace
    /// period restarts, the state stays, and the slot is taken by the adjustment.
    pub open spec fn after_adjustment(self, t: Thresholds, now: u64) -> Monitor {
        Monitor { thresholds: t, grace_ends_at: grace_end(now), slot: self.slot.replaced(), ..self }
    }

    pub open spec fn adjustment_dispatch(self, reaction: Reaction) -> Dispatch {
        Dispatch { reaction, handoff: self.slot.handoff() }
    }

    /// A monitor in the acceptable state with an empty reaction slot and no grace
    /// period running.
    pub fn new(thresholds: Thresholds) -> (r: Monitor)
        requires
            thresholds.valid(),
        ensures
            r.wf(),
            r.state == ReactionState::Acceptable,
            r.thresholds == thresholds,
            r.grace_ends_at == 0,
            r.slot == ReactionSlot::new_spec(),
    {
        Monitor {
            state: ReactionState::Acceptable,
            thresholds,
            grace_ends_at: 0,
            slot: ReactionSlot::new(),
        }
    }

    /// Evaluate a new loudness reading taken at `now`. Outside the grace period
    /// the transition table decides; a transition dispatches the reaction to the
    /// state entered, which supersedes the active reaction.
    pub fn on_loudness(&mut self, loudness: i32, now: u64) -> (r: Option<Dispatch>)
        requires
            old(self).wf(),
        ensures
            final(self).wf(),
            *final(self) == old(self).after_loudness(loudness as int, now),
            r == old(self).loudness_dispatch(loudness as int, now),
    {
        if now < self.grace_ends_at {
            return None;
        }
        let t = self.thresholds;
        let next = match self.state {
            ReactionState::Acceptable => if t.too_loud(loudness) {
                ReactionState::TooLoud
            } else if t.too_quiet(loudness) {
                ReactionState::TooQuiet
            } else {
                ReactionState::Acceptable
            },
            ReactionState::TooLoud => if t.acceptable_from_too_loud(loudness) {
                ReactionState::Acceptable
            } else {
                ReactionState::TooLoud
            },
            ReactionState::TooQuiet => if t.acceptable_from_too_quiet(loudness) {
                ReactionState::Acceptable
            } else {
                ReactionState::TooQuiet
            },
        };
        if next == self.state {
            return None;
        }
        let reaction = match next {
            ReactionState::Acceptable => Reaction::EnteredAcceptable,
            ReactionState::TooLoud => Reaction::EnteredTooLoud,
            ReactionState::TooQuiet => Reaction::EnteredTooQuiet,
        };
        self.state = next;
        let handoff = self.slot.replace();
        Some(Dispatch { reaction, handoff })
    }

    fn adjust(&mut self, t: Thresholds, now: u64, reaction: Reaction) -> (r: Dispatch)
        requires
            old(self).wf(),
            t.valid(),
        ensures
            final(self).wf(),
            *final(self) == old(self).after_adjustment(t, now),
            r == old(self).adjustment_dispatch(reaction),
    {
        self.thresholds = t;
        self.grace_ends_at = now.saturating_add(GRACE_PERIOD_MS);
        let handoff = self.slot.replace();
        Dispatch { reaction, handoff }
    }

    /// Replace the thresholds wholesale. Invalid thresholds are refused and change
    /// nothing; otherwise the grace period restarts and the adjustment reaction is
    /// dispatched, also when `t` equals the current thresholds. The state does not
    /// change.
    pub fn on_thresholds(&mut self, t: Thresholds, now: u64) -> (r: Result<Dispatch, ConfigError>)
        requires
            old(self).wf(),
        ensures
            final(self).wf(),
            r.is_err() <==> !t.valid(),
            r.is_err() ==> r == Err::<Dispatch, ConfigError>(ConfigError::InvalidThresholds)
                && *final(self) == *old(self),
            r.is_ok() ==> r == Ok::<Dispatch, ConfigError>(
                old(self).adjustment_dispatch(Reaction::ThresholdsReplaced),
            ) && *final(self) == old(self).after_adjustment(t, now),
    {
        if !t.is_valid() {
            return Err(ConfigError::InvalidThresholds);
        }
        Ok(self.adjust(t, now, Reaction::ThresholdsReplaced))
    }

    /// The "louder" override: both thresholds go up by the adjustment step, the
    /// grace period restarts and the announcement is dispatched. Refused, with
    /// nothing changed, where the step would leave the level range.
    pub fn on_louder(&mut self, now: u64) -> (r: Result<Dispatch, ConfigError>)
        requires
            old(self).wf(),
        ensures
            final(self).wf(),
            r.is_err() <==> !old(self).thresholds.can_shift(ADJUST_STEP as int),
            r.is_err() ==> r == Err::<Dispatch, ConfigError>(ConfigError::OutOfRange)
                && *final(self) == *old(self),
            r.is_ok() ==> r == Ok::<Dispatch, ConfigError>(
                old(self).adjustment_dispatch(Reaction::AnnounceLouder),
            ) && *final(self) == old(self).after_adjustment(
                old(self).thresholds.shifted(ADJUST_STEP as int),
                now,
            ),
    {
        let mut t = self.thresholds;
        if t.too_loud > i32::MAX - ADJUST_STEP || t.too_quiet > i32::MAX - ADJUST_STEP {
            return Err(ConfigError::OutOfRange);
        }
        t.louder();
        Ok(self.adjust(t, now, Reaction::AnnounceLouder))
    }

    /// The "quieter" override: both thresholds go down by the adjustment step, the
    /// grace period restarts and the announcement is dispatched. Refused, with
    /// nothing changed, where the step would leave the level range.
    pub fn on_quieter(&mut self, now: u64) -> (r: Result<Dispatch, ConfigError>)
        requires
            old(self).wf(),
        ensures
            final(self).wf(),
            r.is_err() <==> !old(self).thresholds.can_shift(-ADJUST_STEP as int),
            r.is_err() ==> r == Err::<Dispatch, ConfigError>(ConfigError::OutOfRange)
                && *final(self) == *old(self),
            r.is_ok() ==> r == Ok::<Dispatch, ConfigError>(
                old(self).adjustment_dispatch(Reaction::AnnounceQuieter),
            ) && *final(self) == old(self).after_adjustment(
                old(self).thresholds.shifted(-ADJUST_STEP as int),
                now,
            ),
    {
        let mut t = self.thresholds;
        if t.too_loud < i32::MIN + ADJUST_STEP || t.too_quiet < i32::MIN + ADJUST_STEP {
            return Err(ConfigError::OutOfRange);
        }
        t.quieter();
        Ok(self.adjust(t, now, Reaction::AnnounceQuieter))
    }

    /// A reaction reports that it ran to its end.
    pub fn on_finished(&mut self, id: u64) -> (r: bool)
        requires
            old(self).wf(),
        ensures
            final(self).wf(),
            r == (old(self).slot.active == Some(id)),
            final(self).state == old(self).state,
            final(self).thresholds == old(self).thresholds,
            final(self).grace_ends_at == old(self).grace_ends_at,
            final(self).slot.next_id == old(self).slot.next_id,
            final(self).slot.active == if r { None } else { old(self).slot.active },
    {
        self.slot.finished(id)
    }
}

/// The monitor after a run of loudness readings, each a level and the time it was taken.
pub open spec fn after_readings(m: Monitor, readings: Seq<(int, u64)>) -> Monitor
    decreases readings.len(),
{
    if readings.len() == 0 {
        m
    } else {
        let last = readings.last();
        after_readings(m, readings.drop_last()).after_loudness(last.0, last.1)
    }
}

/// Hysteresis: from too loud, only a level strictly below `too_loud - grace` returns
/// to acceptable, and from too quiet only one strictly above `too_quiet + grace`;
/// a level merely back past the threshold itself keeps the state.
pub proof fn lemma_hysteresis(t: Thresholds, loudness: int)
    ensures
        next_state(ReactionState::TooLoud, t, loudness) == ReactionState::Acceptable
            <==> loudness < t.too_loud - t.grace,
        next_state(ReactionState::TooLoud, t, loudness) == ReactionState::TooLoud
            <==> loudness >= t.too_loud - t.grace,
        next_state(ReactionState::TooQuiet, t, loudness) == ReactionState::Acceptable
            <==> loudness > t.too_quiet + t.grace,
        next_state(ReactionState::TooQuiet, t, loudness) == ReactionState::TooQuiet
            <==> loudness <= t.too_quiet + t.grace,
{
}

/// Grace period: after a threshold adjustment at `at`, every loudness reading taken
/// before `at + GRACE_PERIOD_MS` leaves the monitor unchanged and dispatches
/// nothing, whatever its level; once the period is over the transition table
/// decides again. (The clock is taken not to run past the end of `u64`.)
pub proof fn lemma_grace_period(m: Monitor, t: Thresholds, at: u64, readings: Seq<(int, u64)>)
    requires
        at + GRACE_PERIOD_MS <= u64::MAX,
        forall|i: int| 0 <= i < readings.len() ==> readings[i].1 < at + GRACE_PERIOD_MS,
    ensures
        after_readings(m.after_adjustment(t, at), readings) == m.after_adjustment(t, at),
        forall|loudness: int, now: u64|
            now < at + GRACE_PERIOD_MS ==> (#[trigger] m.after_adjustment(t, at).loudness_dispatch(
                loudness,
                now,
            )).is_none(),
        forall|loudness: int, now: u64|
            now >= at + GRACE_PERIOD_MS ==> #[trigger] m.after_adjustment(t, at).state_after(
                loudness,
                now,
            ) == next_state(m.state, t, loudness),
    decreases readings.len(),
{
    let a = m.after_adjustment(t, at);
    if readings.len() > 0 {
        let rest = readings.drop_last();
        assert forall|i: int| 0 <= i < rest.len() implies rest[i].1 < at + GRACE_PERIOD_MS by {
            assert(rest[i] == readings[i]);
        }
        lemma_grace_period(m, t, at, rest);
        assert(readings.last() == readings[readings.len() - 1]);
    }
}

/// Reapplying the thresholds already in force makes no transition: each
/// application keeps the state and the thresholds, and each one dispatches the
/// adjustment reaction once (adjustments are never deduplicated).
pub proof fn lemma_reapply_thresholds(m: Monitor, t: Thresholds, first: u64, second: u64)
    requires
        m.wf(),
        t.valid(),
    ensures
        m.after_adjustment(t, first).state == m.state,
        m.after_adjustment(t, first).after_adjustment(t, second).state == m.state,
        m.after_adjustment(t, first).after_adjustment(t, second).thresholds
            == m.after_adjustment(t, first).thresholds,
        m.after_adjustment(t, first).adjustment_dispatch(Reaction::ThresholdsReplaced).reaction
            == Reaction::ThresholdsReplaced,
        m.after_adjustment(t, first).adjustment_dispatch(
            Reaction::ThresholdsReplaced,
        ).handoff.cancel == Some(m.slot.next_id),
{
}

} // verus!
