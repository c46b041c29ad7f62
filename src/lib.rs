// A loudness monitor: 16-bit audio frames become mean-square energies, a sliding
// window of energies becomes a level in millibels, and a hysteretic state machine
// over that level and live-updatable thresholds dispatches reactions through a
// single cancellable slot.

pub mod audio;
pub mod controls;
pub mod monitor;
pub mod rules;
pub mod slot;
pub mod sound_files;
pub mod thresholds;

pub use audio::{EnergyWindow, LoudnessAggregator, PlayHandle};
pub use controls::Command;
pub use monitor::{ConfigError, Dispatch, Monitor, Reaction, ReactionState};
pub use rules::{Outcome, Report, Routine, RuleExecutor, Step, Zone};
pub use slot::{Handoff, ReactionSlot};
pub use sound_files::{SoundFiles, SoundFilesError};
pub use thresholds::Thresholds;
