//! The top menu: which dialogs are open.
use vstd::prelude::*;

verus! {

/// The dialogs the menu opens, and whether the window is pinned on top.
#[derive(Debug)]
pub struct Menu {
    pub show_settings: bool,
    pub show_about: bool,
    pub show_update: bool,
    pub show_usage: bool,

    pin_window: bool,
}

impl Menu {
    /// A menu with no dialog open and the window not pinned.
    pub fn new() -> (m: Self)
        ensures
            !m.settings_open(),
            !m.about_open(),
            !m.update_open(),
            !m.usage_open(),
            !m.pinned(),
    {
        Menu {
            show_settings: false,
            show_about: false,
            show_update: false,
            show_usage: false,
            pin_window: false,
        }
    }

    /// Whether the settings dialog is open.
    pub closed spec fn settings_open(self) -> bool {
        self.show_settings
    }

    /// Whether the about dialog is open.
    pub closed spec fn about_open(self) -> bool {
        self.show_about
    }

    /// Whether the update dialog is open.
    pub closed spec fn update_open(self) -> bool {
        self.show_update
    }

    /// Whether the usage guide is open.
    pub closed spec fn usage_open(self) -> bool {
        self.show_usage
    }

    /// Whether the window is pinned on top.
    pub closed spec fn pinned(self) -> bool {
        self.pin_window
    }

    /// Whether any dialog is open.
    pub fn dialogs_visible(&self) -> (r: bool)
        ensures
            r == (self.settings_open() || self.about_open() || self.update_open() || self.usage_open()),
    {
        self.show_settings || self.show_about || self.show_update || self.show_usage
    }

    /// Opens the usage guide.
    pub fn open_usage(&mut self)
        ensures
            final(self).usage_open(),
            final(self).pinned() == old(self).pinned(),
            final(self).settings_open() == old(self).settings_open(),
            final(self).about_open() == old(self).about_open(),
            final(self).update_open() == old(self).update_open(),
    {
        self.show_usage = true;
    }

    /// Toggles pinning (the pin checkbox); returns whether the window is now pinned.
    pub fn toggle_pin(&mut self) -> (r: bool)
        ensures
            r == final(self).pinned(),
            final(self).pinned() == !old(self).pinned(),
            final(self).settings_open() == old(self).settings_open(),
            final(self).about_open() == old(self).about_open(),
            final(self).update_open() == old(self).update_open(),
            final(self).usage_open() == old(self).usage_open(),
    {
        self.pin_window = !self.pin_window;
        self.pin_window
    }
}

} // verus!
