//! Interface settings: theme and colours.
use vstd::prelude::*;

use crate::collections::NameMap;

verus! {

/// A colour, by its red, green and blue components.
#[derive(Clone, Copy, Debug, PartialEq, Eq, Structural)]
pub struct Colour {
    pub r: u8,
    pub g: u8,
    pub b: u8,
}

impl Colour {
    /// The colour with the given components.
    pub fn from_rgb(r: u8, g: u8, b: u8) -> (c: Self)
        ensures
            c.r == r && c.g == g && c.b == b,
    {
        Colour { r, g, b }
    }
}

/// Dark or light interface.
#[derive(Clone, Copy, Debug, PartialEq, Eq, Structural)]
pub enum ThemeMode {
    Dark,
    Light,
}

/// Colours of usernames in the chat.
#[derive(Debug)]
pub struct ChatColours {
    /// The user's own name.
    pub own: Colour,
    /// Colours chosen for other users, by lowercase username.
    pub users: NameMap<Colour>,
}

impl ChatColours {
    /// The default colours: a light cyan for the user's own name, none chosen for others.
    pub fn new() -> (c: Self)
        ensures
            c.own == (Colour { r: 200, g: 255, b: 250 }),
            c.users@ == Map::<Seq<char>, Colour>::empty(),
    {
        ChatColours { own: Colour::from_rgb(200, 255, 250), users: NameMap::new() }
    }
}

/// Interface settings.
#[derive(Debug)]
pub struct UI {
    pub theme: ThemeMode,
    pub colours: ChatColours,
}

impl UI {
    /// The dark theme with the default colours.
    pub fn new() -> (u: Self)
        ensures
            u.theme == ThemeMode::Dark,
            u.colours.own == (Colour { r: 200, g: 255, b: 250 }),
            u.colours.users@ == Map::<Seq<char>, Colour>::empty(),
    {
        UI { theme: ThemeMode::Dark, colours: ChatColours::new() }
    }
}

} // verus!
