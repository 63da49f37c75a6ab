//! Power settings: what the power button and the lid do, and when the device
//! sleeps or shuts down by itself.
use vstd::prelude::*;

use std::time::Duration;

verus! {

/// What pressing the power button (or closing the lid) does.
#[derive(Debug, Clone, Copy, PartialEq, Eq, Structural)]
pub enum PowerButtonAction {
    Suspend,
    Shutdown,
    Nothing,
}

/// How long the device stays suspended before it shuts down.
#[derive(Debug, Clone, Copy, PartialEq, Eq, Structural)]
pub enum AutoShutdownDelay {
    Secs10,
    Secs30,
    Secs60,
    Mins2,
    Mins5,
    Mins10,
    Mins30,
    Mins60,
    Never,
}

/// The power settings.
#[derive(Debug, Clone, Copy, PartialEq, Eq, Structural)]
pub struct PowerSettings {
    pub power_button_action: PowerButtonAction,
    pub lid_close_action: PowerButtonAction,
    pub auto_sleep_when_charging: bool,
    pub auto_sleep_duration_minutes: i32,
    pub auto_shutdown_delay: AutoShutdownDelay,
}

/// The `Duration` that `Duration::from_secs(secs)` makes.
pub uninterp spec fn duration_from_secs(secs: u64) -> Duration;

/// Calls `std::time::Duration::from_secs`; the contract claims only that the
/// result is the one named `duration_from_secs(secs)`, the same for the same
/// number of seconds.
#[verifier::external_body]
fn secs_to_duration(secs: u64) -> (d: Duration)
    ensures
        d == duration_from_secs(secs),
{
    Duration::from_secs(secs)
}

impl PowerButtonAction {
    /// Position of the variant in declaration order.
    pub open spec fn repr(self) -> usize {
        match self {
            PowerButtonAction::Suspend => 0,
            PowerButtonAction::Shutdown => 1,
            PowerButtonAction::Nothing => 2,
        }
    }

    /// The variant at position `repr` in declaration order, if there is one.
    pub fn from_repr(repr: usize) -> (a: Option<PowerButtonAction>)
        ensures
            a is Some <==> repr < 3,
            a matches Some(x) ==> x.repr() == repr,
    {
        match repr {
            0 => Some(PowerButtonAction::Suspend),
            1 => Some(PowerButtonAction::Shutdown),
            2 => Some(PowerButtonAction::Nothing),
            _ => None,
        }
    }
}

impl Default for PowerButtonAction {
    /// Suspending is the default.
    fn default() -> (a: PowerButtonAction)
        ensures
            a == PowerButtonAction::Suspend,
    {
        PowerButtonAction::Suspend
    }
}

impl AutoShutdownDelay {
    /// Position of the variant in declaration order.
    pub open spec fn repr(self) -> usize {
        match self {
            AutoShutdownDelay::Secs10 => 0,
            AutoShutdownDelay::Secs30 => 1,
            AutoShutdownDelay::Secs60 => 2,
            AutoShutdownDelay::Mins2 => 3,
            AutoShutdownDelay::Mins5 => 4,
            AutoShutdownDelay::Mins10 => 5,
            AutoShutdownDelay::Mins30 => 6,
            AutoShutdownDelay::Mins60 => 7,
            AutoShutdownDelay::Never => 8,
        }
    }

    /// The delay in seconds, or `None` for never.
    pub open spec fn delay_secs(self) -> Option<u64> {
        match self {
            AutoShutdownDelay::Secs10 => Some(10),
            AutoShutdownDelay::Secs30 => Some(30),
            AutoShutdownDelay::Secs60 => Some(60),
            AutoShutdownDelay::Mins2 => Some(120),
            AutoShutdownDelay::Mins5 => Some(300),
            AutoShutdownDelay::Mins10 => Some(600),
            AutoShutdownDelay::Mins30 => Some(1800),
            AutoShutdownDelay::Mins60 => Some(3600),
            AutoShutdownDelay::Never => None,
        }
    }

    /// The variant at position `repr` in declaration order, if there is one.
    pub fn from_repr(repr: usize) -> (d: Option<AutoShutdownDelay>)
        ensures
            d is Some <==> repr < 9,
            d matches Some(x) ==> x.repr() == repr,
    {
        match repr {
            0 => Some(AutoShutdownDelay::Secs10),
            1 => Some(AutoShutdownDelay::Secs30),
            2 => Some(AutoShutdownDelay::Secs60),
            3 => Some(AutoShutdownDelay::Mins2),
            4 => Some(AutoShutdownDelay::Mins5),
            5 => Some(AutoShutdownDelay::Mins10),
            6 => Some(AutoShutdownDelay::Mins30),
            7 => Some(AutoShutdownDelay::Mins60),
            8 => Some(AutoShutdownDelay::Never),
            _ => None,
        }
    }

    /// The delay as a `Duration`, or `None` when the device never shuts down.
    pub fn to_duration(&self) -> (d: Option<Duration>)
        ensures
            match self.delay_secs() {
                Some(secs) => d == Some(duration_from_secs(secs)),
                None => d is None,
            },
    {
        match self {
            AutoShutdownDelay::Secs10 => Some(secs_to_duration(10)),
            AutoShutdownDelay::Secs30 => Some(secs_to_duration(30)),
            AutoShutdownDelay::Secs60 => Some(secs_to_duration(60)),
            AutoShutdownDelay::Mins2 => Some(secs_to_duration(2 * 60)),
            AutoShutdownDelay::Mins5 => Some(secs_to_duration(5 * 60)),
            AutoShutdownDelay::Mins10 => Some(secs_to_duration(10 * 60)),
            AutoShutdownDelay::Mins30 => Some(secs_to_duration(30 * 60)),
            AutoShutdownDelay::Mins60 => Some(secs_to_duration(60 * 60)),
            AutoShutdownDelay::Never => None,
        }
    }
}

impl Default for AutoShutdownDelay {
    /// Five minutes is the default.
    fn default() -> (d: AutoShutdownDelay)
        ensures
            d == AutoShutdownDelay::Mins5,
    {
        AutoShutdownDelay::Mins5
    }
}

/// The settings a device starts with.
pub open spec fn default_power_settings() -> PowerSettings {
    PowerSettings {
        power_button_action: PowerButtonAction::Suspend,
        lid_close_action: PowerButtonAction::Shutdown,
        auto_sleep_when_charging: true,
        auto_sleep_duration_minutes: 5,
        auto_shutdown_delay: AutoShutdownDelay::Mins5,
    }
}

impl Default for PowerSettings {
    /// The power button suspends, closing the lid shuts down, the device
    /// sleeps after five minutes even when charging, and shuts down after five
    /// minutes of sleep.
    fn default() -> (s: PowerSettings)
        ensures
            s == default_power_settings(),
    {
        PowerSettings {
            lid_close_action: PowerButtonAction::Shutdown,
            power_button_action: PowerButtonAction::Suspend,
            auto_sleep_when_charging: true,
            auto_sleep_duration_minutes: 5,
            auto_shutdown_delay: AutoShutdownDelay::Mins5,
        }
    }
}

impl PowerSettings {
    /// The default settings.
    pub fn new() -> (s: PowerSettings)
        ensures
            s == default_power_settings(),
    {
        PowerSettings::default()
    }
}

/// Reading a variant's position back gives the same variant.
pub proof fn lemma_power_button_action_repr_roundtrip(a: PowerButtonAction)
    ensures
        a.repr() < 3,
        forall|b: PowerButtonAction| b.repr() == a.repr() ==> b == a,
{
}

/// Reading a variant's position back gives the same variant.
pub proof fn lemma_auto_shutdown_delay_repr_roundtrip(d: AutoShutdownDelay)
    ensures
        d.repr() < 9,
        forall|e: AutoShutdownDelay| e.repr() == d.repr() ==> e == d,
{
}

/// Only `Never` has no duration, and the delays grow strictly in declaration order.
pub proof fn lemma_delays_increase(d: AutoShutdownDelay, e: AutoShutdownDelay)
    ensures
        d.delay_secs() is None <==> d == AutoShutdownDelay::Never,
        d.repr() < e.repr() && e != AutoShutdownDelay::Never ==> d.delay_secs().unwrap()
            < e.delay_secs().unwrap(),
{
}

} // verus!
