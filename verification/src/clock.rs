//! Clock settings.
use vstd::prelude::*;

verus! {

/// How the clock is shown.
#[derive(Debug, Clone, Copy, PartialEq, Eq, Structural)]
pub struct ClockSettings {
    /// Whether the clock uses the 12-hour format.
    pub twelve_hour: bool,
}

impl Default for ClockSettings {
    /// The 24-hour clock is the default.
    fn default() -> (s: ClockSettings)
        ensures
            !s.twelve_hour,
    {
        ClockSettings { twelve_hour: false }
    }
}

impl ClockSettings {
    /// The default settings: a 24-hour clock.
    pub fn new() -> (s: ClockSettings)
        ensures
            !s.twelve_hour,
    {
        ClockSettings::default()
    }
}

} // verus!
