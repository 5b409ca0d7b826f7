//! The application's settings.
pub mod journal;
pub mod notifications;
pub mod ui;

use vstd::prelude::*;

use crate::collections::{list_contains, names_of, retain_names, without_names};

pub use journal::{AppEvents, Journal, LevelFilter};
pub use notifications::{BuiltInSound, Highlights, Notifications, Sound};
pub use ui::{ChatColours, Colour, ThemeMode, UI};

verus! {

/// Where the settings file is.
#[derive(Clone, Debug)]
pub enum Source {
    /// `settings.yaml` in the working directory.
    DefaultPath,
    /// A path given by the user.
    CustomPath(String),
}

impl Source {
    /// The path given by the user, or `None` for the default location (which depends on the
    /// working directory).
    pub fn custom_path(&self) -> (r: Option<&str>)
        ensures
            match self {
                Source::DefaultPath => r is None,
                Source::CustomPath(p) => r matches Some(q) && q@ == p@,
            },
    {
        match self {
            Source::DefaultPath => None,
            Source::CustomPath(p) => Some(p.as_str()),
        }
    }
}

/// The file name of the settings in the working directory.
pub const DEFAULT_FILE_NAME: &'static str = "settings.yaml";

/// Where chat messages start: at the top of the view, or at its bottom.
#[derive(Clone, Copy, Debug, PartialEq, Eq, Structural)]
pub enum ChatPosition {
    Top,
    Bottom,
}

/// Connection and chat-list settings.
#[derive(Clone, Debug)]
pub struct ChatSettings {
    /// The user's own name on the chat server.
    pub username: String,
    /// Channels and users whose chats are opened after connecting.
    pub autojoin: Vec<String>,
    /// Where chat messages start.
    pub chat_position: ChatPosition,
    /// Whether to show a marker above the first unread message.
    pub track_unread_messages: bool,
}

/// The application's settings.
#[derive(Debug)]
pub struct Settings {
    settings_path: Source,

    pub chat: ChatSettings,
    pub notifications: Notifications,
    pub ui: UI,
    pub journal: Journal,
}

impl Settings {
    /// Where the settings were read from.
    pub closed spec fn path(self) -> Source {
        self.settings_path
    }

    /// Everything but the file: chat, notification, interface and journal settings.
    pub closed spec fn content(self) -> (ChatSettings, Notifications, UI, Journal) {
        (self.chat, self.notifications, self.ui, self.journal)
    }

    /// The highlight keywords, as character sequences.
    pub closed spec fn highlight_words(self) -> Seq<Seq<char>> {
        self.notifications.highlights.words@.map_values(|w: String| w@)
    }

    /// Adds a chat to the auto-join list, unless it is there already.
    pub fn add_autojoin(&mut self, name: String)
        ensures
            final(self).path() == old(self).path(),
            final(self).content().0.autojoin@ == (if names_of(old(self).content().0.autojoin@).contains(name@) {
                old(self).content().0.autojoin@
            } else {
                old(self).content().0.autojoin@.push(name)
            }),
            final(self).content().0.username == old(self).content().0.username,
            final(self).content().0.chat_position == old(self).content().0.chat_position,
            final(self).content().0.track_unread_messages == old(self).content().0.track_unread_messages,
            final(self).content().1 == old(self).content().1,
            final(self).content().2 == old(self).content().2,
            final(self).content().3 == old(self).content().3,
    {
        if !list_contains(self.chat.autojoin.as_slice(), name.as_str()) {
            self.chat.autojoin.push(name);
        }
    }

    /// Takes a chat out of the auto-join list.
    pub fn remove_autojoin(&mut self, name: String)
        ensures
            final(self).path() == old(self).path(),
            final(self).content().0.autojoin@ == without_names(
                old(self).content().0.autojoin@,
                set![name@],
            ),
            final(self).content().0.username == old(self).content().0.username,
            final(self).content().0.chat_position == old(self).content().0.chat_position,
            final(self).content().0.track_unread_messages == old(self).content().0.track_unread_messages,
            final(self).content().1 == old(self).content().1,
            final(self).content().2 == old(self).content().2,
            final(self).content().3 == old(self).content().3,
    {
        let mut removed: Vec<String> = Vec::new();
        removed.push(name);
        assert(names_of(removed@) =~= set![removed@[0]@]);
        retain_names(&mut self.chat.autojoin, removed.as_slice());
    }

    /// Where chat messages start.
    pub fn chat_position(&self) -> (r: ChatPosition)
        ensures
            r == self.content().0.chat_position,
    {
        self.chat.chat_position
    }

    /// The highlight keywords.
    pub fn words(&self) -> (r: &Vec<String>)
        ensures
            r@.map_values(|w: String| w@) == self.highlight_words(),
    {
        &self.notifications.highlights.words
    }

    /// The settings parts, with the file they belong to.
    pub fn new(
        settings_path: Source,
        chat: ChatSettings,
        notifications: Notifications,
        ui: UI,
        journal: Journal,
    ) -> (s: Self)
        ensures
            s.path() == settings_path,
            s.content() == (chat, notifications, ui, journal),
    {
        Settings { settings_path, chat, notifications, ui, journal }
    }

    /// The file that saving writes the settings to: the one they were read from.
    pub fn save(&self) -> (r: &Source)
        ensures
            *r == self.path(),
    {
        &self.settings_path
    }

    /// Replaces the settings by those read back from their file, which stays theirs.
    pub fn reload(&mut self, loaded: Settings)
        ensures
            final(self).path() == old(self).path(),
            final(self).content() == loaded.content(),
    {
        let mut fresh = loaded;
        std::mem::swap(&mut fresh.settings_path, &mut self.settings_path);
        *self = fresh;
    }
}

} // verus!
