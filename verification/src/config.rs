//! Start-up settings.

use vstd::prelude::*;
use crate::sequencer::engine::{DEFAULT_BPM, DEFAULT_STEPS};

verus! {

/// The settings an application starts the sequencer with.
#[derive(Debug, Clone, Copy, PartialEq, Eq)]
pub struct Config {
    /// Tempo in beats per minute.
    pub bpm: u32,
    /// Number of steps in one cycle.
    pub steps: usize,
}

impl Default for Config {
    /// 120 beats per minute and eight steps, as a new engine has them.
    fn default() -> (config: Self)
        ensures
            config.bpm == DEFAULT_BPM,
            config.steps == DEFAULT_STEPS,
    {
        Config { bpm: DEFAULT_BPM, steps: DEFAULT_STEPS }
    }
}

} // verus!
