use vstd::prelude::*;

verus! {

/// Built-in default length of a micro-break, in minutes.
pub const DEFAULT_MICROBREAK_DURATION: u32 = 20;

/// Built-in default length of a full break, in minutes.
pub const DEFAULT_BREAK_DURATION: u32 = 5;

/// Built-in default work time between micro-breaks, in minutes.
pub const DEFAULT_MICROBREAK_INTERVAL: u32 = 20;

/// Built-in default work time between full breaks, in minutes.
pub const DEFAULT_BREAK_INTERVAL: u32 = 34;

/// User-configurable break policy. Durations and intervals are in minutes
/// and must be positive to be meaningful; `sanitized` maps any zero field
/// back to its built-in default so the scheduler never divides by zero or
/// schedules a break instantly.
#[derive(Clone, Copy, Debug, PartialEq, Eq, Structural)]
pub struct BreakSettings {
    pub microbreak_duration: u32,
    pub break_duration: u32,
    pub microbreak_interval: u32,
    pub break_interval: u32,
    pub enable_notifications: bool,
    pub enable_sounds: bool,
    pub start_on_boot: bool,
    pub pause_on_suspend: bool,
}

impl BreakSettings {
    /// The built-in default configuration.
    pub open spec fn spec_defaults() -> BreakSettings {
        BreakSettings {
            microbreak_duration: DEFAULT_MICROBREAK_DURATION,
            break_duration: DEFAULT_BREAK_DURATION,
            microbreak_interval: DEFAULT_MICROBREAK_INTERVAL,
            break_interval: DEFAULT_BREAK_INTERVAL,
            enable_notifications: true,
            enable_sounds: true,
            start_on_boot: false,
            pause_on_suspend: true,
        }
    }

    /// Last-known-good fallback: the configuration used when nothing was
    /// ever loaded from the settings store.
    pub fn defaults() -> (s: BreakSettings)
        ensures
            s == BreakSettings::spec_defaults(),
    {
        BreakSettings {
            microbreak_duration: DEFAULT_MICROBREAK_DURATION,
            break_duration: DEFAULT_BREAK_DURATION,
            microbreak_interval: DEFAULT_MICROBREAK_INTERVAL,
            break_interval: DEFAULT_BREAK_INTERVAL,
            enable_notifications: true,
            enable_sounds: true,
            start_on_boot: false,
            pause_on_suspend: true,
        }
    }

    /// All durations and intervals are positive.
    pub open spec fn is_valid(self) -> bool {
        &&& self.microbreak_duration > 0
        &&& self.break_duration > 0
        &&& self.microbreak_interval > 0
        &&& self.break_interval > 0
    }

    /// `self` with every zero duration or interval replaced by its built-in
    /// default; all other fields are kept as they are.
    pub open spec fn spec_sanitized(self) -> BreakSettings {
        BreakSettings {
            microbreak_duration: if self.microbreak_duration == 0 {
                DEFAULT_MICROBREAK_DURATION
            } else {
                self.microbreak_duration
            },
            break_duration: if self.break_duration == 0 {
                DEFAULT_BREAK_DURATION
            } else {
                self.break_duration
            },
            microbreak_interval: if self.microbreak_interval == 0 {
                DEFAULT_MICROBREAK_INTERVAL
            } else {
                self.microbreak_interval
            },
            break_interval: if self.break_interval == 0 {
                DEFAULT_BREAK_INTERVAL
            } else {
                self.break_interval
            },
            ..self
        }
    }

    /// Settings-store boundary validation: a configuration error (a zero
    /// duration or interval) falls back to the built-in default for that
    /// field rather than being propagated as a hard failure.
    pub fn sanitized(self) -> (s: BreakSettings)
        ensures
            s == self.spec_sanitized(),
            s.is_valid(),
            self.is_valid() ==> s == self,
    {
        BreakSettings {
            microbreak_duration: if self.microbreak_duration == 0 {
                DEFAULT_MICROBREAK_DURATION
            } else {
                self.microbreak_duration
            },
            break_duration: if self.break_duration == 0 {
                DEFAULT_BREAK_DURATION
            } else {
                self.break_duration
            },
            microbreak_interval: if self.microbreak_interval == 0 {
                DEFAULT_MICROBREAK_INTERVAL
            } else {
                self.microbreak_interval
            },
            break_interval: if self.break_interval == 0 {
                DEFAULT_BREAK_INTERVAL
            } else {
                self.break_interval
            },
            ..self
        }
    }

    /// Effective work time between micro-breaks, in seconds, after the
    /// zero-field fallback.
    pub open spec fn microbreak_interval_seconds(self) -> int {
        self.spec_sanitized().microbreak_interval * 60
    }

    /// Effective work time between full breaks, in seconds, after the
    /// zero-field fallback.
    pub open spec fn break_interval_seconds(self) -> int {
        self.spec_sanitized().break_interval * 60
    }
}

} // verus!
