//! Autosave settings and the decisions of the autosave loop.

use vstd::prelude::*;

verus! {

/// How often autosave runs and how many autosaves it keeps.
#[derive(Debug, Clone)]
pub struct AutosaveConfig {
    /// Seconds between autosave rounds.
    pub interval_seconds: u64,
    /// Autosaves kept per document.
    pub max_autosaves: usize,
}

impl Default for AutosaveConfig {
    /// Every 30 seconds, keeping 10 autosaves.
    fn default() -> (r: AutosaveConfig)
        ensures
            r.interval_seconds == 30,
            r.max_autosaves == 10,
    {
        AutosaveConfig { interval_seconds: 30, max_autosaves: 10 }
    }
}

/// What the autosave loop woke up for.
#[derive(Debug, Clone, Copy, PartialEq, Eq)]
pub enum AutosaveEvent {
    /// The interval elapsed.
    Tick,
    /// The shutdown signal changed to the given value.
    ShutdownChanged(bool),
}

/// What the autosave loop does next.
#[derive(Debug, Clone, Copy, PartialEq, Eq)]
pub enum AutosaveStep {
    /// Delete old autosaves, keeping this many.
    CleanUp(usize),
    /// Nothing to do; wait for the next event.
    Wait,
    /// Leave the loop.
    Stop,
}

/// The step of the autosave loop for an event: a tick cleans up down to the
/// configured number of autosaves, a shutdown signal set to `true` stops the
/// loop, and one set to `false` is ignored.
pub fn next_step(config: &AutosaveConfig, event: AutosaveEvent) -> (r: AutosaveStep)
    ensures
        match event {
            AutosaveEvent::Tick => r == AutosaveStep::CleanUp(config.max_autosaves),
            AutosaveEvent::ShutdownChanged(stop) => r == (if stop {
                AutosaveStep::Stop
            } else {
                AutosaveStep::Wait
            }),
        },
{
    match event {
        AutosaveEvent::Tick => AutosaveStep::CleanUp(config.max_autosaves),
        AutosaveEvent::ShutdownChanged(stop) => {
            if stop {
                AutosaveStep::Stop
            } else {
                AutosaveStep::Wait
            }
        },
    }
}

} // verus!
