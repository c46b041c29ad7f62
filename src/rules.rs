use vstd::prelude::*;

use crate::monitor::Reaction;
use crate::sound_files::SoundFiles;

verus! {

/// How long the annoying lights stay on, and then off, in each blink.
pub const BLINK_MS: u64 = 2000;

/// The HTTP status with which the music service says it is already in the
/// requested state.
pub const ALREADY_IN_STATE_STATUS: u16 = 403;

/// An independently switchable group of lights.
#[derive(Clone, Copy, Debug, PartialEq, Eq, Structural)]
pub enum Zone {
    Annoying,
    Nice,
}

/// One call to a collaborator that a routine makes.
#[derive(Clone, Debug)]
pub enum Step {
    /// Start playing the sound file at this path; it becomes the current playback.
    Play(String),
    /// Sleep until the current playback is expected to be done.
    WaitForPlayback,
    LightsOn(Zone),
    LightsOff(Zone),
    ResumeMusic,
    PauseMusic,
    Sleep(u64),
}

/// How a collaborator call ended.
#[derive(Clone, Copy, Debug, PartialEq, Eq, Structural)]
pub enum Outcome {
    Done,
    /// The collaborator was already in the requested state.
    AlreadyInState,
    Failed,
}

/// How an outcome is to be logged.
#[derive(Clone, Copy, Debug, PartialEq, Eq, Structural)]
pub enum Report {
    Nothing,
    Warning,
    Error,
}

/// The steps of a reaction, run in order. A failed step ends the routine; a step
/// that found its collaborator already in the requested state counts as done.
/// After the last step the routine starts over at `repeat_from`, if set, until
/// it is cancelled.
#[derive(Debug)]
pub struct Routine {
    pub steps: Vec<Step>,
    pub repeat_from: Option<usize>,
}

impl Routine {
    pub open spec fn wf(&self) -> bool {
        match self.repeat_from {
            Some(k) => k < self.steps@.len(),
            None => true,
        }
    }

    /// The step that follows step `pos` after `outcome`, if the routine goes on.
    pub open spec fn next_spec(&self, pos: int, outcome: Outcome) -> Option<int> {
        if outcome == Outcome::Failed {
            None
        } else if pos + 1 < self.steps@.len() {
            Some(pos + 1)
        } else {
            match self.repeat_from {
                Some(k) => Some(k as int),
                None => None,
            }
        }
    }

    /// The step to run first, if any.
    pub fn first(&self) -> (r: Option<usize>)
        ensures
            r == if self.steps@.len() > 0 {
                Some(0usize)
            } else {
                None
            },
    {
        if self.steps.len() > 0 {
            Some(0)
        } else {
            None
        }
    }

    /// The step to run after step `pos` ended with `outcome`; `None` when the
    /// routine is over.
    pub fn next(&self, pos: usize, outcome: Outcome) -> (r: Option<usize>)
        requires
            self.wf(),
            pos < self.steps@.len(),
        ensures
            r.is_some() == self.next_spec(pos as int, outcome).is_some(),
            r.is_some() ==> r.unwrap() as int == self.next_spec(pos as int, outcome).unwrap(),
            r.is_some() ==> r.unwrap() < self.steps@.len(),
    {
        if outcome == Outcome::Failed {
            None
        } else if pos < self.steps.len() - 1 {
            Some(pos + 1)
        } else {
            self.repeat_from
        }
    }
}

/// How to log an outcome: a benign conflict is a warning, a failure an error.
pub fn report(outcome: Outcome) -> (r: Report)
    ensures
        r == match outcome {
            Outcome::Done => Report::Nothing,
            Outcome::AlreadyInState => Report::Warning,
            Outcome::Failed => Report::Error,
        },
{
    match outcome {
        Outcome::Done => Report::Nothing,
        Outcome::AlreadyInState => Report::Warning,
        Outcome::Failed => Report::Error,
    }
}

/// The outcome of a music-service call that returned an error, from the HTTP
/// status of the error response, if there was one.
pub fn music_error_outcome(status: Option<u16>) -> (r: Outcome)
    ensures
        r == if status == Some(ALREADY_IN_STATE_STATUS) {
            Outcome::AlreadyInState
        } else {
            Outcome::Failed
        },
{
    match status {
        Some(code) => if code == ALREADY_IN_STATE_STATUS {
            Outcome::AlreadyInState
        } else {
            Outcome::Failed
        },
        None => Outcome::Failed,
    }
}

pub open spec fn too_loud_steps(files: SoundFiles) -> Seq<Step> {
    seq![
        Step::Play(files.too_loud_anouncement),
        Step::WaitForPlayback,
        Step::Play(files.annoying),
        Step::LightsOn(Zone::Annoying),
        Step::Sleep(BLINK_MS),
        Step::LightsOff(Zone::Annoying),
        Step::Sleep(BLINK_MS),
    ]
}

pub open spec fn acceptable_steps(files: SoundFiles) -> Seq<Step> {
    seq![
        Step::Play(files.too_loud_anouncement),
        Step::WaitForPlayback,
        Step::ResumeMusic,
        Step::LightsOn(Zone::Nice),
        Step::LightsOff(Zone::Annoying),
    ]
}

pub open spec fn too_quiet_steps(files: SoundFiles) -> Seq<Step> {
    seq![
        Step::Play(files.too_quiet_anouncement),
        Step::WaitForPlayback,
        Step::LightsOff(Zone::Nice),
        Step::PauseMusic,
    ]
}

/// A routine of one step that plays one of `choices`.
pub open spec fn plays_one_of(r: Routine, choices: Seq<String>) -> bool {
    &&& r.steps@.len() == 1
    &&& r.repeat_from.is_none()
    &&& match r.steps@[0] {
        Step::Play(path) => choices.contains(path),
        _ => false,
    }
}

/// Turns reactions into routines over the configured sound files.
pub struct RuleExecutor {
    pub sound_files: SoundFiles,
}

impl RuleExecutor {
    pub open spec fn routine_spec(&self, reaction: Reaction, r: Routine) -> bool {
        match reaction {
            Reaction::EnteredTooLoud => r.steps@ == too_loud_steps(self.sound_files) && r.repeat_from
                == Some(3usize),
            Reaction::EnteredAcceptable => r.steps@ == acceptable_steps(self.sound_files)
                && r.repeat_from.is_none(),
            Reaction::EnteredTooQuiet => r.steps@ == too_quiet_steps(self.sound_files)
                && r.repeat_from.is_none(),
            Reaction::AnnounceLouder => plays_one_of(r, self.sound_files.louder_anouncements@),
            Reaction::AnnounceQuieter => plays_one_of(r, self.sound_files.quieter_anouncements@),
            Reaction::ThresholdsReplaced => r.steps@.len() == 0 && r.repeat_from.is_none(),
        }
    }

    pub fn new(sound_files: SoundFiles) -> (r: RuleExecutor)
        ensures
            r.sound_files == sound_files,
    {
        RuleExecutor { sound_files }
    }

    /// The too-loud announcement, then the annoying sound, then the annoying
    /// lights blinking until the routine is cancelled. Any failure ends it.
    pub fn too_loud(&self) -> (r: Routine)
        ensures
            r.wf(),
            self.routine_spec(Reaction::EnteredTooLoud, r),
    {
        let steps = vec![
            Step::Play(self.sound_files.too_loud_anouncement.clone()),
            Step::WaitForPlayback,
            Step::Play(self.sound_files.annoying.clone()),
            Step::LightsOn(Zone::Annoying),
            Step::Sleep(BLINK_MS),
            Step::LightsOff(Zone::Annoying),
            Step::Sleep(BLINK_MS),
        ];
        proof {
            assert(steps@ =~= too_loud_steps(self.sound_files));
        }
        Routine { steps, repeat_from: Some(3) }
    }

    /// The announcement, then: resume the music, switch the nice lights on and
    /// the annoying lights off. Any failure ends it.
    pub fn acceptable(&self) -> (r: Routine)
        ensures
            r.wf(),
            self.routine_spec(Reaction::EnteredAcceptable, r),
    {
        let steps = vec![
            Step::Play(self.sound_files.too_loud_anouncement.clone()),
            Step::WaitForPlayback,
            Step::ResumeMusic,
            Step::LightsOn(Zone::Nice),
            Step::LightsOff(Zone::Annoying),
        ];
        proof {
            assert(steps@ =~= acceptable_steps(self.sound_files));
        }
        Routine { steps, repeat_from: None }
    }

    /// The too-quiet announcement, then: switch the nice lights off and pause the
    /// music. Any failure ends it.
    pub fn too_quiet(&self) -> (r: Routine)
        ensures
            r.wf(),
            self.routine_spec(Reaction::EnteredTooQuiet, r),
    {
        let steps = vec![
            Step::Play(self.sound_files.too_quiet_anouncement.clone()),
            Step::WaitForPlayback,
            Step::LightsOff(Zone::Nice),
            Step::PauseMusic,
        ];
        proof {
            assert(steps@ =~= too_quiet_steps(self.sound_files));
        }
        Routine { steps, repeat_from: None }
    }

    /// Play one of the "louder" announcements, chosen at random.
    pub fn announce_louder(&self) -> (r: Routine)
        requires
            self.sound_files.louder_anouncements@.len() > 0,
        ensures
            r.wf(),
            self.routine_spec(Reaction::AnnounceLouder, r),
    {
        let path = self.sound_files.random_louder_announcement().clone();
        Routine { steps: vec![Step::Play(path)], repeat_from: None }
    }

    /// Play one of the "quieter" announcements, chosen at random.
    pub fn announce_quieter(&self) -> (r: Routine)
        requires
            self.sound_files.quieter_anouncements@.len() > 0,
        ensures
            r.wf(),
            self.routine_spec(Reaction::AnnounceQuieter, r),
    {
        let path = self.sound_files.random_quieter_announcement().clone();
        Routine { steps: vec![Step::Play(path)], repeat_from: None }
    }

    /// The routine that carries out `reaction`.
    pub fn routine_for(&self, reaction: Reaction) -> (r: Routine)
        requires
            reaction == Reaction::AnnounceLouder ==> self.sound_files.louder_anouncements@.len() > 0,
            reaction == Reaction::AnnounceQuieter ==> self.sound_files.quieter_anouncements@.len()
                > 0,
        ensures
            r.wf(),
            self.routine_spec(reaction, r),
    {
        match reaction {
            Reaction::EnteredTooLoud => self.too_loud(),
            Reaction::EnteredAcceptable => self.acceptable(),
            Reaction::EnteredTooQuiet => self.too_quiet(),
            Reaction::AnnounceLouder => self.announce_louder(),
            Reaction::AnnounceQuieter => self.announce_quieter(),
            Reaction::ThresholdsReplaced => Routine {
                steps: Vec::new(),
                repeat_from: None,
            },
        }
    }
}

} // verus!
