//! Notification settings: highlight keywords and sounds.
use vstd::prelude::*;

use crate::app_core::settings::ui::Colour;
use crate::text::push_str;

verus! {

/// The sounds that come with the application.
#[derive(Clone, Copy, Debug, PartialEq, Eq, Structural)]
pub enum BuiltInSound {
    Bell,
    DoubleBell,
    PartyHorn,
    Ping,
    Tick,
    TwoTone,
}

/// The name shown for a built-in sound.
pub open spec fn builtin_sound_name(s: BuiltInSound) -> Seq<char> {
    match s {
        BuiltInSound::Bell => "bell"@,
        BuiltInSound::DoubleBell => "double bell"@,
        BuiltInSound::PartyHorn => "party horn"@,
        BuiltInSound::Ping => "ping"@,
        BuiltInSound::Tick => "tick"@,
        BuiltInSound::TwoTone => "two-tone"@,
    }
}

impl BuiltInSound {
    /// The name shown for the sound.
    pub fn name(&self) -> (r: &'static str)
        ensures
            r@ == builtin_sound_name(*self),
    {
        match self {
            BuiltInSound::Bell => "bell",
            BuiltInSound::DoubleBell => "double bell",
            BuiltInSound::PartyHorn => "party horn",
            BuiltInSound::Ping => "ping",
            BuiltInSound::Tick => "tick",
            BuiltInSound::TwoTone => "two-tone",
        }
    }
}

impl BuiltInSound {
    /// The file of the sound, among the application's sounds.
    pub fn file_name(&self) -> (r: &'static str)
        ensures
            r@ == match *self {
                BuiltInSound::Bell => "bell.mp3"@,
                BuiltInSound::DoubleBell => "double-bell.mp3"@,
                BuiltInSound::PartyHorn => "party-horn.mp3"@,
                BuiltInSound::Ping => "ping.mp3"@,
                BuiltInSound::Tick => "tick.mp3"@,
                BuiltInSound::TwoTone => "two-tone.mp3"@,
            },
    {
        match self {
            BuiltInSound::Bell => "bell.mp3",
            BuiltInSound::DoubleBell => "double-bell.mp3",
            BuiltInSound::PartyHorn => "party-horn.mp3",
            BuiltInSound::Ping => "ping.mp3",
            BuiltInSound::Tick => "tick.mp3",
            BuiltInSound::TwoTone => "two-tone.mp3",
        }
    }
}

/// A notification sound.
#[derive(Clone, Copy, Debug, PartialEq, Eq, Structural)]
pub enum Sound {
    BuiltIn(BuiltInSound),
}

impl Sound {
    /// The description shown for the sound: `built-in (<name>)`.
    pub fn describe(&self) -> (r: String)
        ensures
            match self {
                Sound::BuiltIn(s) => r@ == "built-in ("@ + builtin_sound_name(*s) + ")"@,
            },
    {
        match self {
            Sound::BuiltIn(s) => {
                let mut r = String::new();
                push_str(&mut r, "built-in (");
                push_str(&mut r, s.name());
                push_str(&mut r, ")");
                r
            },
        }
    }
}

/// What highlights the user, and how.
#[derive(Clone, Debug)]
pub struct Highlights {
    pub colour: Colour,
    /// Keywords that highlight a message.
    pub words: Vec<String>,
    /// The sound played on a highlight.
    pub sound: Option<Sound>,
}

impl Highlights {
    /// A light pink colour, no keywords and no sound.
    pub fn new() -> (h: Self)
        ensures
            h.colour == (Colour { r: 250, g: 200, b: 255 }),
            h.words@.len() == 0,
            h.sound is None,
    {
        Highlights { colour: Colour::from_rgb(250, 200, 255), words: Vec::new(), sound: None }
    }
}

/// Notification settings.
#[derive(Clone, Debug)]
pub struct Notifications {
    pub highlights: Highlights,
}

impl Notifications {
    /// The default notification settings.
    pub fn new() -> (n: Self)
        ensures
            n.highlights.colour == (Colour { r: 250, g: 200, b: 255 }),
            n.highlights.words@.len() == 0,
            n.highlights.sound is None,
    {
        Notifications { highlights: Highlights::new() }
    }
}

} // verus!
