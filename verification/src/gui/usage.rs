//! The help window.
use vstd::prelude::*;

verus! {

/// The sections of the help window.
#[derive(Clone, Copy, Debug, PartialEq, Eq, Structural)]
pub enum Section {
    Overview,
    ChatTabs,
    Chat,
}

/// The help window: the section it shows.
#[derive(Debug)]
pub struct UsageWindow {
    pub active_tab: Section,
}

impl UsageWindow {
    /// The help window on its overview.
    pub fn new() -> (w: Self)
        ensures
            w.active_tab == Section::Overview,
    {
        UsageWindow { active_tab: Section::Overview }
    }
}

} // verus!
