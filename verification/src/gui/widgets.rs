//! What the interface's small widgets decide: the error popup's queue, the connection
//! indicator's signal strength, link targets and hover texts, and username colours.
use vstd::prelude::*;

use crate::app_core::chat::{is_channel, MessageType};
use crate::app_core::settings::{ChatColours, Colour};
use crate::text::{decimal, lowercase_of, push_decimal, push_str, str_eq, to_lowercase};

verus! {

/// A shadow at the top of the chat view, `height` pixels tall.
#[derive(Debug)]
pub struct InnerShadow {
    height: usize,
}

impl InnerShadow {
    /// The height of the shadow.
    pub closed spec fn spec_height(self) -> usize {
        self.height
    }

    /// A shadow `height` pixels tall.
    pub fn new(height: usize) -> (s: Self)
        ensures
            s.spec_height() == height,
    {
        InnerShadow { height }
    }

    /// The height of the shadow.
    pub fn height(&self) -> (r: usize)
        ensures
            r == self.spec_height(),
    {
        self.height
    }
}

/// An error reported to the user: its text (with its cause, if any), and whether the
/// application cannot go on after it.
#[derive(Debug)]
pub struct ErrorWrapper {
    pub error: String,
    pub source: Option<String>,
    pub is_fatal: bool,
}

/// What the user did in the error popup.
#[derive(Clone, Copy, Debug, PartialEq, Eq, Structural)]
pub enum ModalAction {
    Close,
    Exit,
    Restart,
}

/// What the application is asked to do after the error popup.
#[derive(Clone, Copy, Debug, PartialEq, Eq, Structural)]
pub enum PopupRequest {
    /// Restart the application.
    Restart,
    /// Exit with status 1.
    Exit,
}

/// The buttons offered for an error: restart and exit for a fatal one, close otherwise.
pub fn modal_actions(is_fatal: bool) -> (r: Vec<ModalAction>)
    ensures
        r@ == (if is_fatal {
            seq![ModalAction::Restart, ModalAction::Exit]
        } else {
            seq![ModalAction::Close]
        }),
{
    let mut r = Vec::new();
    if is_fatal {
        r.push(ModalAction::Restart);
        r.push(ModalAction::Exit);
    } else {
        r.push(ModalAction::Close);
    }
    r
}

/// An error as the popup shows it: its text, the text of its cause (shown as "Caused by the
/// following error"), and whether it is fatal.
pub open spec fn error_view(e: ErrorWrapper) -> (Seq<char>, Option<Seq<char>>, bool) {
    (e.error@, match e.source {
        Some(s) => Some(s@),
        None => None,
    }, e.is_fatal)
}

/// The errors waiting to be shown; the most recent is shown first.
#[derive(Debug)]
pub struct ErrorPopup {
    errors: Vec<ErrorWrapper>,
}

impl ErrorPopup {
    /// The waiting errors, oldest first, by text, cause and fatality.
    pub closed spec fn queue(self) -> Seq<(Seq<char>, Option<Seq<char>>, bool)> {
        self.errors@.map_values(|e: ErrorWrapper| error_view(e))
    }

    /// No error waiting.
    pub fn new() -> (p: Self)
        ensures
            p.queue().len() == 0,
    {
        ErrorPopup { errors: Vec::new() }
    }

    /// Queues an error.
    pub fn push_error(&mut self, error: ErrorWrapper)
        ensures
            final(self).queue() == old(self).queue().push(error_view(error)),
    {
        let ghost before = self.errors@;
        self.errors.push(error);
        assert(self.errors@.map_values(|e: ErrorWrapper| error_view(e)) == before.map_values(
            |e: ErrorWrapper| error_view(e),
        ).push(error_view(error)));
    }

    /// The error shown: the most recent one.
    pub fn most_recent(&self) -> (r: Option<&ErrorWrapper>)
        ensures
            match r {
                Some(e) => self.queue().len() > 0 && error_view(*e) == self.queue().last(),
                None => self.queue().len() == 0,
            },
    {
        let n = self.errors.len();
        if n == 0 {
            None
        } else {
            Some(&self.errors[n - 1])
        }
    }

    /// Handles the popup's outcome: closing (or dismissing a non-fatal error) drops the shown
    /// error; restart and exit are handed to the application and keep it.
    pub fn resolve(&mut self, action: Option<ModalAction>, dismissed: bool) -> (r: Option<PopupRequest>)
        ensures
            ({
                let q = old(self).queue();
                let drop = q.len() > 0 && match action {
                    Some(ModalAction::Close) => true,
                    None => dismissed && !q.last().2,
                    _ => false,
                };
                &&& final(self).queue() == (if drop {
                    q.drop_last()
                } else {
                    q
                })
                &&& r == (if q.len() == 0 {
                    None
                } else {
                    match action {
                        Some(ModalAction::Restart) => Some(PopupRequest::Restart),
                        Some(ModalAction::Exit) => Some(PopupRequest::Exit),
                        _ => None,
                    }
                })
            }),
    {
        let n = self.errors.len();
        if n == 0 {
            return None;
        }
        let ghost before = self.errors@;
        let fatal = self.errors[n - 1].is_fatal;
        match action {
            None => {
                if dismissed && !fatal {
                    self.errors.pop();
                    assert(self.errors@.map_values(|e: ErrorWrapper| error_view(e))
                        == before.map_values(|e: ErrorWrapper| error_view(e)).drop_last());
                }
                None
            },
            Some(ModalAction::Close) => {
                self.errors.pop();
                assert(self.errors@.map_values(|e: ErrorWrapper| error_view(e))
                    == before.map_values(|e: ErrorWrapper| error_view(e)).drop_last());
                None
            },
            Some(ModalAction::Restart) => Some(PopupRequest::Restart),
            Some(ModalAction::Exit) => Some(PopupRequest::Exit),
        }
    }
}

/// The signal strength shown for an event `delta_ns` nanoseconds ago: four bars up to ten
/// seconds, three up to 25, two up to 40, one beyond (or for a time in the future), and none
/// when offline.
pub open spec fn signal_bars(connected: bool, delta_ns: i64) -> i32 {
    if !connected {
        0
    } else if 0 <= delta_ns <= 10_000_000_000 {
        4
    } else if 10_000_000_000 < delta_ns <= 25_000_000_000 {
        3
    } else if 25_000_000_000 < delta_ns <= 40_000_000_000 {
        2
    } else {
        1
    }
}

/// The connection indicator: when the connection last showed activity, and where it goes.
#[derive(Debug)]
pub struct ConnectionIndicator {
    /// The time of the last activity, in nanoseconds on the application's clock.
    pub last_update: i64,
    pub connected: bool,
    pub server: String,
    /// Seconds without activity after which the server is considered gone.
    pub ping_timeout: u32,
}

impl ConnectionIndicator {
    /// An indicator with the given state, last refreshed at `now`.
    pub fn new(connected: bool, server: String, ping_timeout: u32, now: i64) -> (c: Self)
        ensures
            c.last_update == now,
            c.connected == connected,
            c.server == server,
            c.ping_timeout == ping_timeout,
    {
        ConnectionIndicator { last_update: now, connected, server, ping_timeout }
    }

    /// Records activity at `now`.
    pub fn refresh(&mut self, now: i64)
        ensures
            final(self).last_update == now,
            final(self).connected == old(self).connected,
            final(self).server == old(self).server,
            final(self).ping_timeout == old(self).ping_timeout,
    {
        self.last_update = now;
    }

    /// Marks the connection as down.
    pub fn disconnect(&mut self)
        ensures
            !final(self).connected,
            final(self).last_update == old(self).last_update,
            final(self).server == old(self).server,
            final(self).ping_timeout == old(self).ping_timeout,
    {
        self.connected = false;
    }

    /// Marks the connection as up with the given server, refreshed at `now`.
    pub fn connect(&mut self, server: String, ping_timeout: u32, now: i64)
        ensures
            final(self).connected,
            final(self).last_update == now,
            final(self).server == server,
            final(self).ping_timeout == ping_timeout,
    {
        self.refresh(now);
        self.connected = true;
        self.server = server;
        self.ping_timeout = ping_timeout;
    }

    /// The number of bars shown for activity `delta_ns` nanoseconds ago.
    pub fn signal_strength(&self, delta_ns: i64) -> (r: i32)
        ensures
            r == signal_bars(self.connected, delta_ns),
    {
        if !self.connected {
            0
        } else if 0 <= delta_ns && delta_ns <= 10_000_000_000 {
            4
        } else if 10_000_000_000 < delta_ns && delta_ns <= 25_000_000_000 {
            3
        } else if 25_000_000_000 < delta_ns && delta_ns <= 40_000_000_000 {
            2
        } else {
            1
        }
    }
}

/// The page of a beatmap set.
pub fn beatmap_location(beatmap_id: u64) -> (r: String)
    ensures
        r@ == "https://osu.ppy.sh/beatmapsets/"@ + decimal(beatmap_id as nat),
{
    let mut r = String::new();
    push_str(&mut r, "https://osu.ppy.sh/beatmapsets/");
    push_decimal(&mut r, beatmap_id);
    r
}

/// The hover text of a beatmap set link.
pub fn beatmap_hover_text(beatmap_id: u64) -> (r: String)
    ensures
        r@ == "Beatmap #"@ + decimal(beatmap_id as nat) + " (open in browser)"@,
{
    let mut r = String::new();
    push_str(&mut r, "Beatmap #");
    push_decimal(&mut r, beatmap_id);
    push_str(&mut r, " (open in browser)");
    r
}

/// The page of a beatmap difficulty.
pub fn difficulty_location(difficulty_id: u64) -> (r: String)
    ensures
        r@ == "https://osu.ppy.sh/beatmaps/"@ + decimal(difficulty_id as nat),
{
    let mut r = String::new();
    push_str(&mut r, "https://osu.ppy.sh/beatmaps/");
    push_decimal(&mut r, difficulty_id);
    r
}

/// The hover text of a beatmap difficulty link.
pub fn difficulty_hover_text(difficulty_id: u64) -> (r: String)
    ensures
        r@ == "Difficulty #"@ + decimal(difficulty_id as nat) + " (open in browser)"@,
{
    let mut r = String::new();
    push_str(&mut r, "Difficulty #");
    push_decimal(&mut r, difficulty_id);
    push_str(&mut r, " (open in browser)");
    r
}

/// The hover text of a link to a chat: `Open #channel` for a channel, `Chat with <user>`
/// otherwise.
pub fn chat_link_title(location: &str) -> (r: String)
    ensures
        r@ == (if location@.len() > 0 && location@[0] == '#' {
            "Open "@ + location@
        } else {
            "Chat with "@ + location@
        }),
{
    let mut r = String::new();
    if is_channel(location) {
        push_str(&mut r, "Open ");
    } else {
        push_str(&mut r, "Chat with ");
    }
    push_str(&mut r, location);
    r
}

/// The text kept with a username for copying: ` <username>`.
pub fn username_copy_text(username: &str) -> (r: String)
    ensures
        r@ == " <"@ + username@ + ">"@,
{
    let mut r = String::new();
    push_str(&mut r, " <");
    push_str(&mut r, username);
    push_str(&mut r, ">");
    r
}

/// The colour of a username: the user's own colour for their own messages, else the colour
/// chosen for the lowercase name, else the default.
pub fn choose_colour(
    username: &str,
    own_username: Option<&str>,
    colours: &ChatColours,
    default_colour: Colour,
) -> (c: Colour)
    ensures
        c == (if own_username matches Some(o) && o@ == username@ {
            colours.own
        } else if colours.users@.dom().contains(lowercase_of(username@)) {
            colours.users@[lowercase_of(username@)]
        } else {
            default_colour
        }),
{
    let is_own = match own_username {
        Some(o) => str_eq(o, username),
        None => false,
    };
    if is_own {
        return colours.own;
    }
    let key = to_lowercase(username);
    match colours.users.get(key.as_str()) {
        Some(c) => *c,
        None => default_colour,
    }
}

/// How a piece of chat text is drawn.
#[derive(Clone, Copy, Debug, PartialEq, Eq, Structural)]
pub enum TextStyle {
    Highlight,
    Italics,
    Monospace,
}

/// The styles of a message's text: highlighted when it highlights the user, in italics for
/// an action.
pub fn message_styles(message_type: MessageType, highlight: bool) -> (r: Vec<TextStyle>)
    ensures
        r@ == (if highlight { seq![TextStyle::Highlight] } else { Seq::<TextStyle>::empty() }) + (
        if message_type == MessageType::Action {
            seq![TextStyle::Italics]
        } else {
            Seq::<TextStyle>::empty()
        }),
{
    let mut r = Vec::new();
    if highlight {
        r.push(TextStyle::Highlight);
    }
    if message_type == MessageType::Action {
        r.push(TextStyle::Italics);
    }
    proof {
        assert(r@ =~= (if highlight { seq![TextStyle::Highlight] } else { Seq::<TextStyle>::empty() }) + (
        if message_type == MessageType::Action {
            seq![TextStyle::Italics]
        } else {
            Seq::<TextStyle>::empty()
        }));
    }
    r
}

/// The label of the chat a highlighted message came from: the channel, or `(PM)` for a
/// private chat.
pub fn chat_name_label(chat_name: &str) -> (r: String)
    ensures
        r@ == (if chat_name@.len() > 0 && chat_name@[0] == '#' {
            chat_name@
        } else {
            "(PM)"@
        }),
{
    if is_channel(chat_name) {
        chat_name.to_owned()
    } else {
        "(PM)".to_owned()
    }
}

/// The background of a chat row, as a colour and an opacity: the search colour for a search
/// result, else the highlight colour for a highlighted message, else none.
pub fn row_background(
    search_result_colour: Option<Colour>,
    has_highlight: bool,
    highlight_colour: Colour,
    opacity: u8,
) -> (r: Option<(Colour, u8)>)
    ensures
        r == match search_result_colour {
            Some(c) => Some((c, opacity)),
            None => if has_highlight {
                Some((highlight_colour, opacity))
            } else {
                None
            },
        },
{
    match search_result_colour {
        Some(c) => Some((c, opacity)),
        None => if has_highlight {
            Some((highlight_colour, opacity))
        } else {
            None
        },
    }
}

/// The button of the chat a copied highlight came from: its label (the channel, or `(PM)`),
/// and the chat and message that "Go to message" switches to; none for a message that was not
/// copied from a chat.
pub fn original_chat_reference(message: &crate::app_core::chat::Message) -> (r: Option<(String, String, Option<usize>)>)
    ensures
        match message.original_chat {
            None => r is None,
            Some(c) => r matches Some((label, chat, id)) && chat@ == c@ && id == message.id
                && label@ == (if c@.len() > 0 && c@[0] == '#' { c@ } else { "(PM)"@ }),
        },
{
    match &message.original_chat {
        None => None,
        Some(c) => Some((chat_name_label(c.as_str()), c.clone(), message.id)),
    }
}

/// What an osu! link asks for.
#[derive(Clone, Debug, PartialEq, Eq)]
pub enum OsuAction {
    Chat(String),
    OpenBeatmap(u64),
    OpenDifficulty(u64),
    Multiplayer(u64),
}

/// The kind of a link in a chat message.
#[derive(Clone, Debug, PartialEq, Eq)]
pub enum LinkType {
    Http,
    Https,
    Osu(OsuAction),
    Channel,
}

/// Whether osu! links are handled by the application, or opened in the browser.
#[derive(Clone, Copy, Debug, PartialEq, Eq, Structural)]
pub struct LinkBehaviour {
    pub handle_osu_chat_links: bool,
    pub handle_osu_beatmap_links: bool,
}

/// What clicking a link does, and the text shown on hover (besides the browser's own).
#[derive(Debug)]
pub enum LinkAction {
    OpenUrl { url: String, hover: Option<String> },
    OpenChat { chat: String, hover: String },
}

/// What clicking a link at `location` does: web links and multiplayer lobbies open in the
/// browser; chat links open the chat when the application handles them; beatmap links open
/// the beatmap's page, with a hover text when the application handles them; channel links
/// open the channel.
pub fn link_action(link_type: &LinkType, location: &str, behaviour: LinkBehaviour) -> (r: LinkAction)
    ensures
        match link_type {
            LinkType::Http | LinkType::Https | LinkType::Osu(OsuAction::Multiplayer(_)) => (r matches LinkAction::OpenUrl { url, hover } && url@ == location@ && hover is None),
            LinkType::Osu(OsuAction::Chat(name)) => if behaviour.handle_osu_chat_links {
                r matches LinkAction::OpenChat { chat, hover } && chat@ == name@ && hover@ == (if location@.len() > 0 && location@[0] == '#' {
                    "Open "@ + location@
                } else {
                    "Chat with "@ + location@
                })
            } else {
                r matches LinkAction::OpenUrl { url, hover } && url@ == location@ && hover is None
            },
            LinkType::Osu(OsuAction::OpenBeatmap(id)) => r matches LinkAction::OpenUrl { url, hover } && url@ == "https://osu.ppy.sh/beatmapsets/"@ + decimal(*id as nat)
                && (if behaviour.handle_osu_beatmap_links {
                    hover matches Some(h) && h@ == "Beatmap #"@ + decimal(*id as nat) + " (open in browser)"@
                } else {
                    hover is None
                }),
            LinkType::Osu(OsuAction::OpenDifficulty(id)) => r matches LinkAction::OpenUrl { url, hover } && url@ == "https://osu.ppy.sh/beatmaps/"@ + decimal(*id as nat)
                && (if behaviour.handle_osu_beatmap_links {
                    hover matches Some(h) && h@ == "Difficulty #"@ + decimal(*id as nat) + " (open in browser)"@
                } else {
                    hover is None
                }),
            LinkType::Channel => r matches LinkAction::OpenChat { chat, hover } && chat@ == location@ && hover@ == "Open "@ + location@,
        },
{
    match link_type {
        LinkType::Http | LinkType::Https | LinkType::Osu(OsuAction::Multiplayer(_)) => {
            LinkAction::OpenUrl { url: location.to_owned(), hover: None }
        },
        LinkType::Osu(OsuAction::Chat(name)) => {
            if behaviour.handle_osu_chat_links {
                LinkAction::OpenChat { chat: name.clone(), hover: chat_link_title(location) }
            } else {
                LinkAction::OpenUrl { url: location.to_owned(), hover: None }
            }
        },
        LinkType::Osu(OsuAction::OpenBeatmap(id)) => {
            let hover = if behaviour.handle_osu_beatmap_links {
                Some(beatmap_hover_text(*id))
            } else {
                None
            };
            LinkAction::OpenUrl { url: beatmap_location(*id), hover }
        },
        LinkType::Osu(OsuAction::OpenDifficulty(id)) => {
            let hover = if behaviour.handle_osu_beatmap_links {
                Some(difficulty_hover_text(*id))
            } else {
                None
            };
            LinkAction::OpenUrl { url: difficulty_location(*id), hover }
        },
        LinkType::Channel => {
            let mut hover = String::new();
            push_str(&mut hover, "Open ");
            push_str(&mut hover, location);
            LinkAction::OpenChat { chat: location.to_owned(), hover }
        },
    }
}

/// Dates of messages as shown in their tooltips.
pub trait FormattedTimestamp {
    /// The date in the local time zone.
    fn formatted_date_local(&self) -> String;

    /// The date in UTC.
    fn formatted_date_utc(&self) -> String;
}

/// Closing the popup right after an error was queued gives back the queue as it was.
pub proof fn lemma_close_undoes_push(
    queue: Seq<(Seq<char>, Option<Seq<char>>, bool)>,
    error: (Seq<char>, Option<Seq<char>>, bool),
)
    ensures
        queue.push(error).len() > 0,
        queue.push(error).drop_last() == queue,
{
    assert(queue.push(error).drop_last() =~= queue);
}

} // verus!
