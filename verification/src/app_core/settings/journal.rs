//! Which application events are written to the log.
use vstd::prelude::*;

verus! {

/// The least severe level of the events that are logged.
#[derive(Clone, Copy, Debug, PartialEq, Eq, Structural)]
pub enum LevelFilter {
    Off,
    Error,
    Warn,
    Info,
    Debug,
    Trace,
}

/// Logging of application events.
#[derive(Clone, Copy, Debug, PartialEq, Eq, Structural)]
pub struct AppEvents {
    pub level: LevelFilter,
}

impl AppEvents {
    /// Warnings and errors are logged.
    pub fn new() -> (a: Self)
        ensures
            a.level == LevelFilter::Warn,
    {
        AppEvents { level: LevelFilter::Warn }
    }
}

/// The log settings.
#[derive(Clone, Copy, Debug, PartialEq, Eq, Structural)]
pub struct Journal {
    pub app_events: AppEvents,
}

impl Journal {
    /// The default log settings.
    pub fn new() -> (j: Self)
        ensures
            j.app_events.level == LevelFilter::Warn,
    {
        Journal { app_events: AppEvents::new() }
    }
}

} // verus!
