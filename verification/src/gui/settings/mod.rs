//! The settings window: which tab is open, what is typed in it, and the edits it makes to the
//! settings.
pub mod chat;

use vstd::prelude::*;

pub use chat::AutojoinSection;

use crate::app_core::settings::{BuiltInSound, ChatColours, Colour, LevelFilter, Notifications, Sound, ThemeMode};
use crate::app_core::updater::AUTOUPDATE_INTERVAL_MINUTES;
use crate::gui::state::window_attention::NotificationStyle;
use crate::gui::{valid_chat_name, validate_username, HIGHLIGHTS_SEPARATOR};
use crate::app_core::chat::ChatType;
use crate::text::{chars_of, decimal, lowercase_of, push_char, push_decimal, push_str, str_eq, to_lowercase};

verus! {

/// The tabs of the settings window.
#[derive(Clone, Copy, Debug, PartialEq, Eq, Structural)]
pub enum Tab {
    Application,
    Chat,
    Interface,
    Notifications,
    Logging,
}

/// The MD5 digest of the UTF-8 bytes of a text, written as lowercase hexadecimal digits.
pub uninterp spec fn md5_hex(text: Seq<char>) -> Seq<char>;

/// Calls `md5::compute` on the UTF-8 bytes of `text` and writes the digest with `{:x}`; the
/// contract names the result and claims nothing else of it.
#[verifier::external_body]
fn md5_hex_of(text: &str) -> (r: String)
    ensures
        r@ == md5_hex(text@),
{
    format!("{:x}", md5::compute(text.as_bytes()))
}

/// The digest of the one username that is offered the party horn.
pub const PARTY_HORN_DIGEST: &'static str = "cdb6d5ffca1edf2659aa721c19ccec1b";

/// The built-in sounds offered in the settings, in order; the party horn only when unlocked.
pub open spec fn builtin_sound_options(party_horn: bool) -> Seq<BuiltInSound> {
    if party_horn {
        seq![
            BuiltInSound::Bell,
            BuiltInSound::DoubleBell,
            BuiltInSound::PartyHorn,
            BuiltInSound::Ping,
            BuiltInSound::TwoTone,
        ]
    } else {
        seq![BuiltInSound::Bell, BuiltInSound::DoubleBell, BuiltInSound::Ping, BuiltInSound::TwoTone]
    }
}

/// The built-in sounds offered to a user whose name has the given digest.
pub fn builtin_sounds_for_digest(digest: &str) -> (r: Vec<BuiltInSound>)
    ensures
        r@ == builtin_sound_options(digest@ == PARTY_HORN_DIGEST@),
{
    let mut r = Vec::new();
    r.push(BuiltInSound::Bell);
    r.push(BuiltInSound::DoubleBell);
    if str_eq(digest, PARTY_HORN_DIGEST) {
        r.push(BuiltInSound::PartyHorn);
    }
    r.push(BuiltInSound::Ping);
    r.push(BuiltInSound::TwoTone);
    r
}

/// The built-in sounds offered to the user `username`.
pub fn offered_builtin_sounds(username: &str) -> (r: Vec<BuiltInSound>)
    ensures
        r@ == builtin_sound_options(md5_hex(username@) == PARTY_HORN_DIGEST@),
{
    let digest = md5_hex_of(username);
    builtin_sounds_for_digest(digest.as_str())
}

/// The notification styles offered: the intensive one everywhere but on Linux.
pub fn notification_styles(linux: bool) -> (r: Vec<NotificationStyle>)
    ensures
        r@ == (if linux {
            seq![NotificationStyle::Moderate]
        } else {
            seq![NotificationStyle::Moderate, NotificationStyle::Intensive]
        }),
{
    let mut r = Vec::new();
    r.push(NotificationStyle::Moderate);
    if !linux {
        r.push(NotificationStyle::Intensive);
    }
    r
}

/// Whether the notification timeout can be set: only for the intensive style, and not on Linux.
pub fn timeout_adjustable(style: NotificationStyle, linux: bool) -> (r: bool)
    ensures
        r == (style == NotificationStyle::Intensive && !linux),
{
    style == NotificationStyle::Intensive && !linux
}

/// A text with its spaces replaced by underscores.
pub open spec fn underscored(s: Seq<char>) -> Seq<char> {
    s.map_values(|c: char| if c == ' ' { '_' } else { c })
}

/// The key under which a custom colour for a typed username is kept: the lowercase name,
/// with underscores for spaces.
pub fn custom_user_key(input: &str) -> (r: String)
    ensures
        r@ == underscored(lowercase_of(input@)),
{
    let lowered = to_lowercase(input);
    let cs = chars_of(lowered.as_str());
    let mut r = String::new();
    let n = cs.len();
    for i in 0..n
        invariant
            n == cs@.len(),
            cs@ == lowercase_of(input@),
            r@ == underscored(cs@.take(i as int)),
    {
        let c = cs[i];
        push_char(&mut r, if c == ' ' { '_' } else { c });
        assert(underscored(cs@.take(i + 1)) == underscored(cs@.take(i as int)).push(
            if c == ' ' { '_' } else { c },
        ));
    }
    assert(cs@.take(n as int) == cs@);
    r
}

/// The heading of the colour settings, which belong to the current theme.
pub fn colours_heading(theme: ThemeMode) -> (r: String)
    ensures
        r@ == "chat colours ("@ + (if theme == ThemeMode::Dark {
            "dark theme"@
        } else {
            "light theme"@
        }) + ")"@,
{
    let mut r = String::new();
    push_str(&mut r, "chat colours (");
    match theme {
        ThemeMode::Dark => push_str(&mut r, "dark theme"),
        ThemeMode::Light => push_str(&mut r, "light theme"),
    }
    push_str(&mut r, ")");
    r
}

/// How many rows of custom user colours are shown before the list scrolls: at most ten.
pub fn visible_colour_rows(count: usize) -> (r: usize)
    ensures
        r == (if count < 10 { count } else { 10 }),
{
    if count < 10 {
        count
    } else {
        10
    }
}

/// The log levels offered for application events.
pub fn offered_log_levels() -> (r: Vec<LevelFilter>)
    ensures
        r@ == seq![LevelFilter::Debug, LevelFilter::Info, LevelFilter::Warn, LevelFilter::Error],
{
    let mut r = Vec::new();
    r.push(LevelFilter::Debug);
    r.push(LevelFilter::Info);
    r.push(LevelFilter::Warn);
    r.push(LevelFilter::Error);
    r
}

/// The hint on automatic updates.
pub fn autoupdate_hint() -> (r: String)
    ensures
        r@ == "checked every "@ + decimal(AUTOUPDATE_INTERVAL_MINUTES as nat)
            + " minutes. to apply an update, restart the application"@,
{
    let mut r = String::new();
    push_str(&mut r, "checked every ");
    push_decimal(&mut r, AUTOUPDATE_INTERVAL_MINUTES as u64);
    push_str(&mut r, " minutes. to apply an update, restart the application");
    r
}

/// The line on the last check of an update URL: nothing before one, `OK` when it worked, and
/// the reason when it failed.
pub fn url_test_label(result: &Option<Result<(), String>>) -> (r: Option<String>)
    ensures
        match result {
            None => r is None,
            Some(Ok(())) => r matches Some(s) && s@ == "apply result: OK"@,
            Some(Err(why)) => r matches Some(s) && s@ == "apply result: FAIL ("@ + why@ + ")"@,
        },
{
    match result {
        None => None,
        Some(Ok(())) => Some("apply result: OK".to_owned()),
        Some(Err(why)) => {
            let mut s = String::new();
            push_str(&mut s, "apply result: FAIL (");
            push_str(&mut s, why.as_str());
            push_str(&mut s, ")");
            Some(s)
        },
    }
}

/// What the settings window holds between frames.
#[derive(Debug)]
pub struct Settings {
    pub active_tab: Tab,
    pub autojoin: AutojoinSection,
    /// A username to give a custom colour.
    pub username_input: String,
    /// The colour to give it.
    pub username_colour_input: Colour,
    /// Whether the chat password is shown.
    pub visible_password: bool,
    /// The highlight keywords as typed.
    pub highlights_input: String,
    /// The built-in sound picked in the sound list.
    pub notifications_builtin_sound: BuiltInSound,
}

impl Settings {
    /// The chat tab open, nothing typed, the password hidden and the bell picked.
    pub fn new() -> (s: Self)
        ensures
            s.active_tab == Tab::Chat,
            s.autojoin.channel_input()@.len() == 0,
            s.autojoin.user_input()@.len() == 0,
            s.username_input@.len() == 0,
            s.username_colour_input == (Colour { r: 0, g: 0, b: 0 }),
            !s.visible_password,
            s.highlights_input@.len() == 0,
            s.notifications_builtin_sound == BuiltInSound::Bell,
    {
        Settings {
            active_tab: Tab::Chat,
            autojoin: AutojoinSection::new(),
            username_input: String::new(),
            username_colour_input: Colour::from_rgb(0, 0, 0),
            visible_password: false,
            highlights_input: String::new(),
            notifications_builtin_sound: BuiltInSound::Bell,
        }
    }

    /// Picks, in the sound list, the built-in sound that the settings play.
    pub fn sync_sound(&mut self, notifications: &Notifications)
        ensures
            final(self).notifications_builtin_sound == match notifications.highlights.sound {
                Some(Sound::BuiltIn(s)) => s,
                None => old(self).notifications_builtin_sound,
            },
            final(self).highlights_input == old(self).highlights_input,
            final(self).active_tab == old(self).active_tab,
    {
        match notifications.highlights.sound {
            Some(Sound::BuiltIn(s)) => {
                self.notifications_builtin_sound = s;
            },
            None => {},
        }
    }

    /// Makes the picked built-in sound the one the settings play.
    pub fn choose_builtin_sound(&self, notifications: &mut Notifications)
        ensures
            final(notifications).highlights.sound == Some(
                Sound::BuiltIn(self.notifications_builtin_sound),
            ),
            final(notifications).highlights.words == old(notifications).highlights.words,
            final(notifications).highlights.colour == old(notifications).highlights.colour,
    {
        notifications.highlights.sound = Some(Sound::BuiltIn(self.notifications_builtin_sound));
    }

    /// Fills an empty keyword field with the keywords of the settings, joined by `", "`.
    pub fn fill_highlights_input(&mut self, words: &[String])
        ensures
            final(self).highlights_input@ == (if old(self).highlights_input@.len() == 0 {
                crate::gui::state::join_keywords(words@.map_values(|w: String| w@))
            } else {
                old(self).highlights_input@
            }),
            final(self).active_tab == old(self).active_tab,
    {
        if self.highlights_input.as_str().is_empty() {
            let ghost ws = words@.map_values(|w: String| w@);
            let mut joined = String::new();
            let n = words.len();
            for i in 0..n
                invariant
                    n == words@.len(),
                    ws == words@.map_values(|w: String| w@),
                    joined@ == crate::gui::state::join_keywords(ws.take(i as int)),
            {
                if i > 0 {
                    push_str(&mut joined, HIGHLIGHTS_SEPARATOR);
                    proof {
                        reveal_strlit(", ");
                    }
                }
                push_str(&mut joined, words[i].as_str());
                assert(ws.take(i + 1).drop_last() == ws.take(i as int));
            }
            assert(ws.take(n as int) == ws);
            self.highlights_input = joined;
        }
    }

    /// Gives the typed username the chosen colour, when a valid name is typed, and empties the
    /// field; tells whether it did.
    pub fn add_user_colour(&mut self, colours: &mut ChatColours) -> (added: bool)
        ensures
            added == (old(self).username_input@.len() > 0 && valid_chat_name(
                old(self).username_input@,
                ChatType::Person,
            )),
            added ==> final(colours).users@ == old(colours).users@.insert(
                underscored(lowercase_of(old(self).username_input@)),
                old(self).username_colour_input,
            ) && final(self).username_input@.len() == 0,
            !added ==> final(colours).users@ == old(colours).users@ && final(self).username_input
                == old(self).username_input,
            final(colours).own == old(colours).own,
            final(self).username_colour_input == old(self).username_colour_input,
    {
        if self.username_input.as_str().is_empty() {
            return false;
        }
        match validate_username(self.username_input.as_str()) {
            Ok(()) => {
                let key = custom_user_key(self.username_input.as_str());
                colours.users.insert(key, self.username_colour_input);
                self.username_input = String::new();
                true
            },
            Err(_) => false,
        }
    }
}

} // verus!
