use vstd::prelude::*;

use crate::controls::Command;

verus! {

/// Levels are integers in millibels: hundredths of a decibel relative to full scale.
/// One decibel.
pub const DECIBEL: i32 = 100;

/// How far the manual "louder" and "quieter" overrides move both thresholds.
pub const ADJUST_STEP: i32 = 600;

/// The loudness limits of the monitor, in millibels.
///
/// A valid value has `too_quiet < too_loud` and `grace >= 0`; `grace` is the
/// hysteresis margin that a level must cross back over before a too-loud or
/// too-quiet state is left.
#[derive(Clone, Copy, Debug, PartialEq, Eq, Structural)]
pub struct Thresholds {
    pub too_loud: i32,
    pub too_quiet: i32,
    pub grace: i32,
}

impl Thresholds {
    pub open spec fn valid(self) -> bool {
        self.too_quiet < self.too_loud && self.grace >= 0
    }

    pub open spec fn too_loud_spec(self, loudness: int) -> bool {
        loudness > self.too_loud
    }

    pub open spec fn too_quiet_spec(self, loudness: int) -> bool {
        loudness < self.too_quiet
    }

    pub open spec fn acceptable_from_too_loud_spec(self, loudness: int) -> bool {
        loudness < self.too_loud - self.grace
    }

    pub open spec fn acceptable_from_too_quiet_spec(self, loudness: int) -> bool {
        loudness > self.too_quiet + self.grace
    }

    /// Both thresholds moved by `delta`, the grace margin kept.
    pub open spec fn shifted(self, delta: int) -> Thresholds {
        Thresholds {
            too_loud: (self.too_loud + delta) as i32,
            too_quiet: (self.too_quiet + delta) as i32,
            grace: self.grace,
        }
    }

    pub open spec fn can_shift(self, delta: int) -> bool {
        &&& i32::MIN <= self.too_loud + delta <= i32::MAX
        &&& i32::MIN <= self.too_quiet + delta <= i32::MAX
    }

    /// What `command` would make of these thresholds, before validity is considered.
    pub open spec fn commanded(self, command: Command) -> Thresholds {
        match command {
            Command::IncreaseTooLoud => Thresholds { too_loud: (self.too_loud + DECIBEL) as i32, ..self },
            Command::DecreaseTooLoud => Thresholds { too_loud: (self.too_loud - DECIBEL) as i32, ..self },
            Command::IncreaseTooQuite => Thresholds { too_quiet: (self.too_quiet + DECIBEL) as i32, ..self },
            Command::DecreaseTooQuite => Thresholds { too_quiet: (self.too_quiet - DECIBEL) as i32, ..self },
            Command::IncreaseGrace => Thresholds { grace: (self.grace + DECIBEL) as i32, ..self },
            Command::DecreaseGrace => Thresholds { grace: (self.grace - DECIBEL) as i32, ..self },
        }
    }

    pub open spec fn can_command(self, command: Command) -> bool {
        match command {
            Command::IncreaseTooLoud => self.too_loud + DECIBEL <= i32::MAX,
            Command::DecreaseTooLoud => self.too_loud - DECIBEL >= i32::MIN,
            Command::IncreaseTooQuite => self.too_quiet + DECIBEL <= i32::MAX,
            Command::DecreaseTooQuite => self.too_quiet - DECIBEL >= i32::MIN,
            Command::IncreaseGrace => self.grace + DECIBEL <= i32::MAX,
            Command::DecreaseGrace => self.grace - DECIBEL >= i32::MIN,
        }
    }

    pub fn new(too_loud: i32, too_quiet: i32, grace: i32) -> (r: Thresholds)
        ensures
            r == (Thresholds { too_loud, too_quiet, grace }),
    {
        Thresholds { too_loud, too_quiet, grace }
    }

    /// Whether `too_quiet < too_loud` and the grace margin is not negative; an
    /// update that breaks this is rejected.
    pub fn is_valid(&self) -> (r: bool)
        ensures
            r == self.valid(),
    {
        self.too_quiet < self.too_loud && self.grace >= 0
    }

    /// Leaving the acceptable state upward: strictly above `too_loud`.
    pub fn too_loud(&self, loudness: i32) -> (r: bool)
        ensures
            r == self.too_loud_spec(loudness as int),
    {
        loudness > self.too_loud
    }

    /// Leaving the acceptable state downward: strictly below `too_quiet`.
    pub fn too_quiet(&self, loudness: i32) -> (r: bool)
        ensures
            r == self.too_quiet_spec(loudness as int),
    {
        loudness < self.too_quiet
    }

    /// Back from too loud: strictly below `too_loud - grace`.
    pub fn acceptable_from_too_loud(&self, loudness: i32) -> (r: bool)
        ensures
            r == self.acceptable_from_too_loud_spec(loudness as int),
    {
        (loudness as i64) < (self.too_loud as i64) - (self.grace as i64)
    }

    /// Back from too quiet: strictly above `too_quiet + grace`.
    pub fn acceptable_from_too_quiet(&self, loudness: i32) -> (r: bool)
        ensures
            r == self.acceptable_from_too_quiet_spec(loudness as int),
    {
        (loudness as i64) > (self.too_quiet as i64) + (self.grace as i64)
    }

    /// `too_loud` as a predicate on a borrowed level.
    pub fn too_loud_pred(&self) -> (r: impl Fn(&i32) -> bool + '_)
        ensures
            forall|l: &i32| #[trigger] r.requires((l,)),
            forall|l: &i32, b: bool| r.ensures((l,), b) ==> b == self.too_loud_spec(*l as int),
    {
        move |loudness: &i32| -> (b: bool)
            ensures
                b == self.too_loud_spec(*loudness as int),
            { *loudness > self.too_loud }
    }

    /// `too_quiet` as a predicate on a borrowed level.
    pub fn too_quite_pred(&self) -> (r: impl Fn(&i32) -> bool + '_)
        ensures
            forall|l: &i32| #[trigger] r.requires((l,)),
            forall|l: &i32, b: bool| r.ensures((l,), b) ==> b == self.too_quiet_spec(*l as int),
    {
        move |loudness: &i32| -> (b: bool)
            ensures
                b == self.too_quiet_spec(*loudness as int),
            { *loudness < self.too_quiet }
    }

    /// `acceptable_from_too_loud` as a predicate on a borrowed level.
    pub fn acceptable_from_too_loud_pred(&self) -> (r: impl Fn(&i32) -> bool + '_)
        ensures
            forall|l: &i32| #[trigger] r.requires((l,)),
            forall|l: &i32, b: bool|
                r.ensures((l,), b) ==> b == self.acceptable_from_too_loud_spec(*l as int),
    {
        move |loudness: &i32| -> (b: bool)
            ensures
                b == self.acceptable_from_too_loud_spec(*loudness as int),
            { self.acceptable_from_too_loud(*loudness) }
    }

    /// `acceptable_from_too_quiet` as a predicate on a borrowed level.
    pub fn acceptable_from_too_quite_pred(&self) -> (r: impl Fn(&i32) -> bool + '_)
        ensures
            forall|l: &i32| #[trigger] r.requires((l,)),
            forall|l: &i32, b: bool|
                r.ensures((l,), b) ==> b == self.acceptable_from_too_quiet_spec(*l as int),
    {
        move |loudness: &i32| -> (b: bool)
            ensures
                b == self.acceptable_from_too_quiet_spec(*loudness as int),
            { self.acceptable_from_too_quiet(*loudness) }
    }

    /// Raise both thresholds by the adjustment step.
    pub fn louder(&mut self)
        requires
            old(self).can_shift(ADJUST_STEP as int),
        ensures
            *final(self) == old(self).shifted(ADJUST_STEP as int),
            old(self).valid() ==> final(self).valid(),
    {
        self.too_loud = self.too_loud + ADJUST_STEP;
        self.too_quiet = self.too_quiet + ADJUST_STEP;
    }

    /// Lower both thresholds by the adjustment step.
    pub fn quieter(&mut self)
        requires
            old(self).can_shift(-ADJUST_STEP as int),
        ensures
            *final(self) == old(self).shifted(-ADJUST_STEP as int),
            old(self).valid() ==> final(self).valid(),
    {
        self.too_loud = self.too_loud - ADJUST_STEP;
        self.too_quiet = self.too_quiet - ADJUST_STEP;
    }

    /// Apply a one-decibel manual command. A command that would leave `too_quiet`
    /// at or above `too_loud`, or the grace margin negative, is refused: the
    /// thresholds stay as they were and `false` is returned.
    pub fn update(&mut self, command: Command) -> (r: bool)
        requires
            old(self).can_command(command),
        ensures
            r == old(self).commanded(command).valid(),
            *final(self) == if r { old(self).commanded(command) } else { *old(self) },
    {
        let mut next = *self;
        match command {
            Command::IncreaseTooLoud => next.too_loud = next.too_loud + DECIBEL,
            Command::DecreaseTooLoud => next.too_loud = next.too_loud - DECIBEL,
            Command::IncreaseTooQuite => next.too_quiet = next.too_quiet + DECIBEL,
            Command::DecreaseTooQuite => next.too_quiet = next.too_quiet - DECIBEL,
            Command::IncreaseGrace => next.grace = next.grace + DECIBEL,
            Command::DecreaseGrace => next.grace = next.grace - DECIBEL,
        }
        if next.is_valid() {
            *self = next;
            true
        } else {
            false
        }
    }
}

impl Default for Thresholds {
    fn default() -> (r: Thresholds)
        ensures
            r == (Thresholds { too_loud: -3000i32, too_quiet: -8000i32, grace: 600i32 }),
    {
        Thresholds { too_loud: -3000, too_quiet: -8000, grace: 600 }
    }
}

} // verus!
