//! Verbosity settings and timers of the command line's debug output.
//! Writing the messages is left to the program around the library.

use crate::clock::{instant_elapsed, instant_now};
use vstd::prelude::*;

verus! {

/// Settings of the debug logger.
#[derive(Debug, Clone, Copy)]
pub struct DebugLoggerConfig {
    pub verbose: bool,
    pub debug: bool,
    pub use_colors: bool,
    pub use_korean: bool,
}

impl Default for DebugLoggerConfig {
    fn default() -> (c: Self)
        ensures
            !c.verbose,
            !c.debug,
            c.use_colors,
            !c.use_korean,
    {
        DebugLoggerConfig { verbose: false, debug: false, use_colors: true, use_korean: false }
    }
}

/// Debug logger: its settings, and the instants the run and the current
/// step started.
pub struct DebugLogger {
    pub config: DebugLoggerConfig,
    pub start_time: std::time::Instant,
    pub step_time: std::time::Instant,
}

impl DebugLogger {
    /// A logger with the given settings, its timers started now.
    pub fn new(config: DebugLoggerConfig) -> (l: Self)
        ensures
            l.config == config,
    {
        let now = instant_now();
        let step = instant_now();
        DebugLogger { config, start_time: now, step_time: step }
    }

    /// A logger with the given verbosity, the other settings default.
    pub fn with_settings(verbose: bool, debug: bool) -> (l: Self)
        ensures
            l.config.verbose == verbose,
            l.config.debug == debug,
            l.config.use_colors,
            !l.config.use_korean,
    {
        let d = DebugLoggerConfig::default();
        DebugLogger::new(DebugLoggerConfig { verbose, debug, ..d })
    }

    /// Whether verbose messages are shown: in verbose or debug mode.
    pub fn shows_verbose(&self) -> (b: bool)
        ensures
            b == (self.config.verbose || self.config.debug),
    {
        self.config.verbose || self.config.debug
    }

    /// Whether debug messages, timings and dumps are shown.
    pub fn shows_debug(&self) -> (b: bool)
        ensures
            b == self.config.debug,
    {
        self.config.debug
    }

    /// Restarts the step timer.
    pub fn reset_step_timer(&mut self)
        ensures
            final(self).config == old(self).config,
            final(self).start_time == old(self).start_time,
    {
        self.step_time = instant_now();
    }

    /// The time since the logger was created.
    pub fn elapsed(&self) -> std::time::Duration {
        instant_elapsed(&self.start_time)
    }

    /// The time since the current step started.
    pub fn step_elapsed(&self) -> std::time::Duration {
        instant_elapsed(&self.step_time)
    }
}

} // verus!
