//! The interface's state: open chats, the active tab, the connection, and highlight keywords.
pub mod window_attention;

use vstd::prelude::*;

use crate::app_core::chat::{
    Chat, ChatState, ChatType, ConnectionStatus, Message, MessageType, spec_chat_type,
};
use crate::app_core::settings::Settings;
use crate::gui::update_window::UpdateStatus;
use crate::collections::{NameSet, names_of, without_names};
use crate::gui::HIGHLIGHTS_TAB_NAME;
use crate::gui::chat_tabs::{shift_item, shifted};
use crate::text::{
    chars_of, lowercase_of, push_char, push_str, split_chars, split_seq, str_eq, to_lowercase, trim_chars,
    trim_seq,
};

verus! {

/// Whether the chat at `i` is the first one whose normalized name is `name`.
pub open spec fn is_first_chat(chats: Seq<Chat>, name: Seq<char>, i: int) -> bool {
    &&& 0 <= i < chats.len()
    &&& chats[i].normalized_name@ == name
    &&& forall|j: int| 0 <= j < i ==> chats[j].normalized_name@ != name
}

/// The position of the first chat named `name` (by normalized name), if there is one.
pub open spec fn first_chat(chats: Seq<Chat>, name: Seq<char>) -> Option<int> {
    if exists|i: int| #[trigger] is_first_chat(chats, name, i) {
        Some(choose|i: int| #[trigger] is_first_chat(chats, name, i))
    } else {
        None
    }
}

proof fn lemma_some_first_chat(chats: Seq<Chat>, name: Seq<char>, k: int)
    requires
        0 <= k < chats.len(),
        chats[k].normalized_name@ == name,
    ensures
        exists|i: int| #[trigger] is_first_chat(chats, name, i),
    decreases k,
{
    if forall|j: int| 0 <= j < k ==> chats[j].normalized_name@ != name {
        assert(is_first_chat(chats, name, k));
    } else {
        let j = choose|j: int| 0 <= j < k && chats[j].normalized_name@ == name;
        lemma_some_first_chat(chats, name, j);
    }
}

/// The first chat named `name` is the only one before which no chat has that name, and
/// there is none exactly when no chat has that name.
pub proof fn lemma_first_chat(chats: Seq<Chat>, name: Seq<char>)
    ensures
        match first_chat(chats, name) {
            Some(i) => is_first_chat(chats, name, i),
            None => forall|k: int| 0 <= k < chats.len() ==> chats[k].normalized_name@ != name,
        },
        forall|i: int| #[trigger] is_first_chat(chats, name, i) ==> first_chat(chats, name) == Some(i),
{
    if exists|k: int| 0 <= k < chats.len() && chats[k].normalized_name@ == name {
        let k = choose|k: int| 0 <= k < chats.len() && chats[k].normalized_name@ == name;
        lemma_some_first_chat(chats, name, k);
    }
    assert forall|i: int| #[trigger] is_first_chat(chats, name, i) implies first_chat(chats, name) == Some(i) by {
        let c = choose|c: int| #[trigger] is_first_chat(chats, name, c);
        if c < i {
            assert(chats[c].normalized_name@ == name);
        } else if c > i {
            assert(chats[i].normalized_name@ == name);
        }
    }
}

/// The highlight keywords in a settings text: the lowercase forms of its non-empty pieces
/// between `", "`, after trimming.
pub open spec fn keywords_of(words: Seq<char>) -> Set<Seq<char>> {
    Set::new(
        |k: Seq<char>|
            exists|i: int|
                0 <= i < split_seq(trim_seq(words), ", "@).len() && split_seq(
                    trim_seq(words),
                    ", "@,
                )[i].len() > 0 && #[trigger] lowercase_of(split_seq(trim_seq(words), ", "@)[i])
                    == k,
    )
}

/// Words joined by `", "`.
pub open spec fn join_keywords(ws: Seq<Seq<char>>) -> Seq<char>
    decreases ws.len(),
{
    if ws.len() == 0 {
        seq![]
    } else if ws.len() == 1 {
        ws[0]
    } else {
        join_keywords(ws.drop_last()) + ", "@ + ws.last()
    }
}

/// Whether to ask for attention and play a sound for a highlighted message.
#[derive(Clone, Copy, Debug, PartialEq, Eq, Structural)]
pub struct NotifyPlan {
    pub request_attention: bool,
    pub play_sound: bool,
}

/// What an incoming message asks of the window: notifications are due for highlights when
/// enabled, and for private chats when enabled; then attention is requested from an unfocused
/// window, and the sound (when one is set) plays for a highlight, only in an unfocused window
/// when so configured.
pub fn notification_plan(
    flash_for_highlights: bool,
    flash_for_private_messages: bool,
    chat_type: ChatType,
    window_unfocused: bool,
    sound_configured: bool,
    sound_only_when_unfocused: bool,
    message_highlighted: bool,
) -> (p: NotifyPlan)
    ensures
        ({
            let due = flash_for_highlights || (chat_type == ChatType::Person
                && flash_for_private_messages);
            &&& p.request_attention == (due && window_unfocused)
            &&& p.play_sound == (due && sound_configured && message_highlighted && (
            !sound_only_when_unfocused || window_unfocused))
        }),
{
    let due = flash_for_highlights || (chat_type == ChatType::Person && flash_for_private_messages);
    if !due {
        return NotifyPlan { request_attention: false, play_sound: false };
    }
    let play_sound = sound_configured && if sound_only_when_unfocused {
        window_unfocused && message_highlighted
    } else {
        message_highlighted
    };
    NotifyPlan { request_attention: window_unfocused, play_sound }
}

/// Events from the application core to the interface.
#[derive(Debug)]
pub enum UIMessageIn {
    NewSystemMessage { target: String, message: Message },
    SettingsChanged(Settings),
    ConnectionStatusChanged(ConnectionStatus),
    ConnectionActivity,
    NewChatRequested { target: String, switch: bool },
    NewChatStateReceived { target: String, state: ChatState },
    ChatSwitchRequested(String, Option<usize>),
    NewMessageReceived { target: String, message: Message },
    NewServerMessageReceived(String),
    ChatClosed(String),
    ChatCleared(String),
    WindowTitleRefreshRequested,
    UIUserMentionRequested(String),
    UsageWindowRequested,
    ChatFilterRequested,
    BackendError { error: String, is_fatal: bool },
    Shutdown,
    SettingsPatched(SettingsPatch),
    UpdateStateChanged(UpdateStatus),
    ReportDialogRequested { username: String, chat_name: String },
    OwnUsernameChanged(String),
}

/// What adding a message asks of the window.
#[derive(Clone, Copy, Debug, PartialEq, Eq, Structural)]
pub struct PushOutcome {
    /// The chat's display name changed, so the window title may need updating.
    pub chat_renamed: bool,
    /// The message highlights the user: a notification may be due.
    pub highlighted: bool,
}

/// The interface's state.
#[derive(Debug)]
pub struct UIState {
    pub connection: ConnectionStatus,
    pub settings: Settings,
    chats: Vec<Chat>,
    pub active_chat_tab_name: String,
    pub highlights: NameSet,
    /// The user's name as the server reported it, once it did.
    pub own_username: Option<String>,
    /// What the updater is doing.
    pub update_state: UpdateStatus,
    /// The report dialog, while it is open.
    pub report_dialog: Option<ReportDialogState>,
}

/// The report dialog: whom and where to report, and why.
#[derive(Debug)]
pub struct ReportDialogState {
    pub username: String,
    pub chat_name: String,
    pub reason: String,
    /// The dialog was opened in this frame.
    pub just_opened: bool,
}

/// A name as a report command takes it: each space made an underscore.
pub open spec fn report_name(name: Seq<char>) -> Seq<char> {
    name.map_values(|c: char| if c == ' ' { '_' } else { c })
}

/// The message that reports a user to the moderators:
/// `!report <lower-case name, spaces as underscores> <reason>`.
pub open spec fn spec_report_message(username: Seq<char>, reason: Seq<char>) -> Seq<char> {
    "!report "@ + report_name(lowercase_of(username)) + " "@ + reason
}

impl ReportDialogState {
    /// The message sent to the chat when the report is submitted.
    pub fn report_message(&self) -> (r: String)
        ensures
            r@ == spec_report_message(self.username@, self.reason@),
    {
        let lower = to_lowercase(self.username.as_str());
        let cs = chars_of(lower.as_str());
        let mut r = String::new();
        push_str(&mut r, "!report ");
        let ghost start = r@;
        let n = cs.len();
        for i in 0..n
            invariant
                n == cs@.len(),
                cs@ == lowercase_of(self.username@),
                r@ == start + report_name(cs@.take(i as int)),
        {
            let c = cs[i];
            push_char(&mut r, if c == ' ' { '_' } else { c });
            assert(report_name(cs@.take(i + 1)) =~= report_name(cs@.take(i as int)).push(
                if c == ' ' { '_' } else { c },
            ));
        }
        assert(cs@.take(n as int) =~= cs@);
        push_str(&mut r, " ");
        push_str(&mut r, self.reason.as_str());
        proof {
            reveal_strlit("!report ");
            reveal_strlit(" ");
        }
        r
    }
}

/// The settings `after` are `before` with the patch applied: a chat added to the auto-join
/// list (unless it is there) or taken out of it; nothing else changes.
pub open spec fn settings_patched(before: Settings, after: Settings, patch: SettingsPatch) -> bool {
    let (c0, n0, u0, j0) = before.content();
    let (c1, n1, u1, j1) = after.content();
    &&& after.path() == before.path()
    &&& c1.username == c0.username
    &&& c1.chat_position == c0.chat_position
    &&& c1.track_unread_messages == c0.track_unread_messages
    &&& n1 == n0 && u1 == u0 && j1 == j0
    &&& match patch {
        SettingsPatch::AutojoinAdded(name) => c1.autojoin@ == (if names_of(c0.autojoin@).contains(
            name@,
        ) {
            c0.autojoin@
        } else {
            c0.autojoin@.push(name)
        }),
        SettingsPatch::AutojoinRemoved(name) => c1.autojoin@ == without_names(
            c0.autojoin@,
            set![name@],
        ),
    }
}

/// A change to part of the settings, made elsewhere in the application.
#[derive(Debug)]
pub enum SettingsPatch {
    AutojoinAdded(String),
    AutojoinRemoved(String),
}

impl UIState {
    /// The open chats, in tab order.
    pub closed spec fn chat_list(self) -> Seq<Chat> {
        self.chats@
    }

    /// The name of the active tab.
    pub closed spec fn active(self) -> Seq<char> {
        self.active_chat_tab_name@
    }

    /// The highlight keywords.
    pub closed spec fn keywords(self) -> Set<Seq<char>> {
        self.highlights@
    }

    /// The settings.
    pub closed spec fn current_settings(self) -> Settings {
        self.settings
    }

    /// The user's name from the server, the updater's state and the report dialog.
    pub closed spec fn extras(self) -> (Option<String>, UpdateStatus, Option<ReportDialogState>) {
        (self.own_username, self.update_state, self.report_dialog)
    }

    /// The connection state.
    pub closed spec fn status(self) -> ConnectionStatus {
        self.connection
    }

    /// Disconnected, with the given settings, no chats, no active tab and no highlight
    /// keywords.
    pub fn new(settings: Settings) -> (s: Self)
        ensures
            s.current_settings() == settings,
            s.extras() == (None::<String>, UpdateStatus::Idle, None::<ReportDialogState>),
            s.chat_list().len() == 0,
            s.active().len() == 0,
            s.keywords() == Set::<Seq<char>>::empty(),
            s.status() == (ConnectionStatus::Disconnected { auth_failed: false }),
    {
        UIState {
            connection: ConnectionStatus::Disconnected { auth_failed: false },
            settings,
            chats: Vec::new(),
            active_chat_tab_name: String::new(),
            highlights: NameSet::new(),
            own_username: None,
            update_state: UpdateStatus::Idle,
            report_dialog: None,
        }
    }

    /// The settings.
    pub fn settings(&self) -> (r: &Settings)
        ensures
            *r == self.current_settings(),
    {
        &self.settings
    }

    /// Applies a change to the settings made elsewhere: adds a chat to the auto-join list
    /// (unless it is there) or takes one out.
    pub fn apply_settings_patch(&mut self, patch: SettingsPatch)
        ensures
            settings_patched(old(self).current_settings(), final(self).current_settings(), patch),
            final(self).chat_list() == old(self).chat_list(),
            final(self).active() == old(self).active(),
            final(self).keywords() == old(self).keywords(),
            final(self).status() == old(self).status(),
            final(self).extras() == old(self).extras(),
    {
        match patch {
            SettingsPatch::AutojoinAdded(name) => self.settings.add_autojoin(name),
            SettingsPatch::AutojoinRemoved(name) => self.settings.remove_autojoin(name),
        }
    }

    /// Records the user's name as the server reports it.
    pub fn set_own_username(&mut self, username: String)
        ensures
            final(self).extras() == (Some(username), old(self).extras().1, old(self).extras().2),
            final(self).chat_list() == old(self).chat_list(),
            final(self).active() == old(self).active(),
            final(self).keywords() == old(self).keywords(),
            final(self).status() == old(self).status(),
            final(self).current_settings() == old(self).current_settings(),
    {
        self.own_username = Some(username);
    }

    /// Records what the updater is doing.
    pub fn set_update_state(&mut self, state: UpdateStatus)
        ensures
            final(self).extras() == (old(self).extras().0, state, old(self).extras().2),
            final(self).chat_list() == old(self).chat_list(),
            final(self).active() == old(self).active(),
            final(self).keywords() == old(self).keywords(),
            final(self).status() == old(self).status(),
            final(self).current_settings() == old(self).current_settings(),
    {
        self.update_state = state;
    }

    /// Opens the report dialog for a user in a chat, with no reason written yet.
    pub fn open_report_dialog(&mut self, username: String, chat_name: String)
        ensures
            final(self).extras().0 == old(self).extras().0,
            final(self).extras().1 == old(self).extras().1,
            final(self).extras().2 matches Some(d) && d.username == username && d.chat_name
                == chat_name && d.reason@.len() == 0 && d.just_opened,
            final(self).chat_list() == old(self).chat_list(),
            final(self).active() == old(self).active(),
            final(self).keywords() == old(self).keywords(),
            final(self).status() == old(self).status(),
            final(self).current_settings() == old(self).current_settings(),
    {
        self.report_dialog = Some(
            ReportDialogState { username, chat_name, reason: String::new(), just_opened: true },
        );
    }

    /// Sends the report written in the dialog, if it is open: closes the dialog and gives the
    /// chat to send to and the message to send there.
    pub fn submit_report(&mut self) -> (r: Option<(String, String)>)
        ensures
            match old(self).extras().2 {
                Some(d) => r matches Some((chat, msg)) && chat == d.chat_name && msg@
                    == spec_report_message(d.username@, d.reason@),
                None => r is None,
            },
            final(self).extras() == (old(self).extras().0, old(self).extras().1, None::<
                ReportDialogState,
            >),
            final(self).chat_list() == old(self).chat_list(),
            final(self).active() == old(self).active(),
            final(self).keywords() == old(self).keywords(),
            final(self).status() == old(self).status(),
            final(self).current_settings() == old(self).current_settings(),
    {
        match self.report_dialog.take() {
            Some(d) => {
                let msg = d.report_message();
                Some((d.chat_name, msg))
            },
            None => None,
        }
    }

    /// Records the state of the connection.
    pub fn set_connection(&mut self, connection: ConnectionStatus)
        ensures
            final(self).extras() == old(self).extras(),
            final(self).status() == connection,
            final(self).chat_list() == old(self).chat_list(),
            final(self).active() == old(self).active(),
            final(self).keywords() == old(self).keywords(),
            final(self).current_settings() == old(self).current_settings(),
    {
        self.connection = connection;
    }

    /// Makes the chat with the given normalized name the active tab, if it is open, and marks
    /// it read; tells whether it is open.
    pub fn switch_to_chat(&mut self, name: String) -> (switched: bool)
        ensures
            final(self).extras() == old(self).extras(),
            switched == (first_chat(old(self).chat_list(), name@) is Some),
            final(self).active() == (if switched {
                name@
            } else {
                old(self).active()
            }),
            read_marked(old(self).chat_list(), final(self).chat_list(), name@),
            final(self).keywords() == old(self).keywords(),
            final(self).current_settings() == old(self).current_settings(),
            final(self).status() == old(self).status(),
    {
        match self.name_to_chat(name.as_str()) {
            Some(i) => {
                self.chats[i].mark_as_read();
                self.active_chat_tab_name = name;
                true
            },
            None => false,
        }
    }

    /// The name of the active tab.
    pub fn active_tab_name(&self) -> (r: &str)
        ensures
            r@ == self.active(),
    {
        self.active_chat_tab_name.as_str()
    }

    /// The open chats.
    pub fn chats(&self) -> (r: &Vec<Chat>)
        ensures
            r@ == self.chat_list(),
    {
        &self.chats
    }

    /// The position of the first chat with the given normalized name.
    pub fn name_to_chat(&self, name: &str) -> (r: Option<usize>)
        ensures
            match first_chat(self.chat_list(), name@) {
                Some(i) => r == Some(i as usize),
                None => r is None,
            },
            match r {
                Some(i) => is_first_chat(self.chat_list(), name@, i as int),
                None => forall|k: int|
                    0 <= k < self.chat_list().len() ==> self.chat_list()[k].normalized_name@
                        != name@,
            },
    {
        proof {
            lemma_first_chat(self.chats@, name@);
        }
        let n = self.chats.len();
        for idx in 0..n
            invariant
                n == self.chats@.len(),
                forall|j: int| 0 <= j < idx ==> self.chats@[j].normalized_name@ != name@,
                forall|i: int| #[trigger] is_first_chat(self.chats@, name@, i) ==> first_chat(self.chats@, name@) == Some(i),
        {
            if str_eq(self.chats[idx].normalized_name.as_str(), name) {
                assert(is_first_chat(self.chats@, name@, idx as int));
                return Some(idx);
            }
        }
        None
    }

    /// The first chat with the given normalized name.
    pub fn find_chat(&self, target: &str) -> (r: Option<&Chat>)
        ensures
            match first_chat(self.chat_list(), target@) {
                Some(i) => r == Some(&self.chat_list()[i]),
                None => r is None,
            },
    {
        match self.name_to_chat(target) {
            Some(i) => Some(&self.chats[i]),
            None => None,
        }
    }

    /// Whether a chat with the lowercase form of `target` is open.
    pub fn has_chat(&self, target: &str) -> (r: bool)
        ensures
            r == (first_chat(self.chat_list(), lowercase_of(target@)) is Some),
    {
        let normalized = to_lowercase(target);
        self.name_to_chat(normalized.as_str()).is_some()
    }

    /// The chat of the active tab.
    pub fn active_chat(&self) -> (r: Option<&Chat>)
        ensures
            match first_chat(self.chat_list(), self.active()) {
                Some(i) => r == Some(&self.chat_list()[i]),
                None => r is None,
            },
    {
        self.find_chat(self.active_chat_tab_name.as_str())
    }

    /// Whether the connection is up.
    pub fn is_connected(&self) -> (r: bool)
        ensures
            r == (self.status() == ConnectionStatus::Connected),
    {
        match self.connection {
            ConnectionStatus::Connected => true,
            _ => false,
        }
    }

    /// How many chats are open.
    pub fn chat_count(&self) -> (r: usize)
        ensures
            r == self.chat_list().len(),
    {
        self.chats.len()
    }

    /// Whether `target` is the active tab.
    pub fn is_active_tab(&self, target: &str) -> (r: bool)
        ensures
            r == (self.active() == target@),
    {
        str_eq(self.active_chat_tab_name.as_str(), target)
    }

    /// Opens a chat tab at the end, and makes it active if asked to.
    pub fn add_new_chat(&mut self, name: String, switch_to_chat: bool)
        ensures
            final(self).extras() == old(self).extras(),
            final(self).chat_list().len() == old(self).chat_list().len() + 1,
            final(self).chat_list().drop_last() == old(self).chat_list(),
            final(self).chat_list().last().name@ == name@,
            final(self).chat_list().last().normalized_name@ == lowercase_of(name@),
            final(self).chat_list().last().messages@.len() == 0,
            final(self).chat_list().last().state == ChatState::Left,
            final(self).active() == (if switch_to_chat {
                lowercase_of(name@)
            } else {
                old(self).active()
            }),
            final(self).keywords() == old(self).keywords(),
            final(self).status() == old(self).status(),
            final(self).current_settings() == old(self).current_settings(),
    {
        let chat = Chat::new(name.as_str());
        if switch_to_chat {
            self.active_chat_tab_name = chat.normalized_name.clone();
        }
        self.chats.push(chat);
    }

    /// Sets the membership state of the chat named by the lowercase form of `target`.
    pub fn set_chat_state(&mut self, target: &str, state: ChatState)
        ensures
            final(self).extras() == old(self).extras(),
            state_set(old(self).chat_list(), final(self).chat_list(), lowercase_of(target@), state),
            final(self).current_settings() == old(self).current_settings(),
            final(self).status() == old(self).status(),
            final(self).active() == old(self).active(),
            final(self).keywords() == old(self).keywords(),
    {
        let normalized = to_lowercase(target);
        match self.name_to_chat(normalized.as_str()) {
            Some(i) => {
                self.chats[i].set_state(state);
            },
            None => {},
        }
    }

    /// Whether `message_id` is the position of a message in the chat `chat_name`.
    pub fn validate_reference(&self, chat_name: &str, message_id: usize) -> (r: bool)
        ensures
            r == match first_chat(self.chat_list(), chat_name@) {
                Some(i) => message_id < self.chat_list()[i].messages@.len(),
                None => false,
            },
    {
        match self.find_chat(chat_name) {
            Some(c) => message_id < c.messages.len(),
            None => false,
        }
    }

    /// Makes the first tab active, or no tab when none is open.
    pub fn switch_to_first_chat(&mut self)
        ensures
            final(self).extras() == old(self).extras(),
            final(self).active() == (if old(self).chat_list().len() > 0 {
                old(self).chat_list()[0].normalized_name@
            } else {
                Seq::<char>::empty()
            }),
            final(self).chat_list() == old(self).chat_list(),
            final(self).keywords() == old(self).keywords(),
            final(self).current_settings() == old(self).current_settings(),
            final(self).status() == old(self).status(),
    {
        if self.chats.len() > 0 {
            self.active_chat_tab_name = self.chats[0].normalized_name.clone();
        } else {
            self.active_chat_tab_name = String::new();
        }
    }

    /// Closes the chat named by the lowercase form of `target`; when it was the active tab,
    /// the first remaining tab becomes active.
    pub fn remove_chat(&mut self, target: String)
        ensures
            final(self).extras() == old(self).extras(),
            removed(
                old(self).chat_list(),
                final(self).chat_list(),
                old(self).active(),
                final(self).active(),
                lowercase_of(target@),
            ),
            final(self).current_settings() == old(self).current_settings(),
            final(self).status() == old(self).status(),
            final(self).keywords() == old(self).keywords(),
    {
        let normalized = to_lowercase(target.as_str());
        let is_active_chat = self.is_active_tab(normalized.as_str());
        match self.name_to_chat(normalized.as_str()) {
            Some(pos) => {
                self.chats.remove(pos);
            },
            None => {},
        }
        if is_active_chat {
            self.switch_to_first_chat();
        }
    }

    /// Removes the messages of the chat named `target`.
    pub fn clear_chat(&mut self, target: &str)
        ensures
            final(self).extras() == old(self).extras(),
            cleared(old(self).chat_list(), final(self).chat_list(), target@),
            final(self).current_settings() == old(self).current_settings(),
            final(self).status() == old(self).status(),
            final(self).active() == old(self).active(),
            final(self).keywords() == old(self).keywords(),
    {
        match self.name_to_chat(target) {
            Some(i) => {
                self.chats[i].clear();
            },
            None => {},
        }
    }

    /// Replaces the highlight keywords by those of a settings text.
    pub fn update_highlights(&mut self, words: &str)
        ensures
            final(self).extras() == old(self).extras(),
            final(self).keywords() == keywords_of(words@),
            final(self).chat_list() == old(self).chat_list(),
            final(self).active() == old(self).active(),
            final(self).current_settings() == old(self).current_settings(),
            final(self).status() == old(self).status(),
    {
        let cs = chars_of(words);
        let trimmed = trim_chars(cs.as_slice());
        let sep = chars_of(", ");
        proof {
            reveal_strlit(", ");
        }
        let pieces = split_chars(trimmed.as_slice(), sep.as_slice());
        let ghost ps = split_seq(trim_seq(words@), ", "@);
        let mut set = NameSet::new();
        let n = pieces.len();
        for i in 0..n
            invariant
                n == pieces@.len(),
                n == ps.len(),
                forall|k: int| 0 <= k < n ==> #[trigger] pieces@[k]@ == ps[k],
                set@ == Set::new(
                    |k: Seq<char>|
                        exists|j: int|
                            0 <= j < i && ps[j].len() > 0 && #[trigger] lowercase_of(ps[j]) == k,
                ),
        {
            let ghost before = set@;
            if pieces[i].len() > 0 {
                let piece = crate::text::string_of(pieces[i].as_slice());
                let lowered = to_lowercase(piece.as_str());
                set.insert(lowered);
            }
            assert(set@ =~= Set::new(
                |k: Seq<char>|
                    exists|j: int|
                        0 <= j < i + 1 && ps[j].len() > 0 && #[trigger] lowercase_of(ps[j]) == k,
            )) by {
                assert forall|k: Seq<char>| set@.contains(k) implies exists|j: int|
                    0 <= j < i + 1 && ps[j].len() > 0 && #[trigger] lowercase_of(ps[j]) == k by {
                    if before.contains(k) {
                    } else {
                        assert(lowercase_of(ps[i as int]) == k);
                    }
                }
            }
        }
        self.highlights = set;
        assert(self.highlights@ =~= keywords_of(words@));
    }

    /// Replaces the settings, and the highlight keywords by the settings' keywords.
    pub fn update_settings(&mut self, settings: Settings)
        ensures
            final(self).extras() == old(self).extras(),
            final(self).current_settings() == settings,
            final(self).keywords() == keywords_of(join_keywords(settings.highlight_words())),
            final(self).chat_list() == old(self).chat_list(),
            final(self).active() == old(self).active(),
            final(self).status() == old(self).status(),
    {
        let mut joined = String::new();
        let ghost ws = settings.highlight_words();
        let words = settings.words();
        let n = words.len();
        for i in 0..n
            invariant
                n == words@.len(),
                ws == words@.map_values(|w: String| w@),
                joined@ == join_keywords(ws.take(i as int)),
        {
            if i > 0 {
                push_str(&mut joined, ", ");
            }
            push_str(&mut joined, words[i].as_str());
            assert(ws.take(i + 1).drop_last() == ws.take(i as int));
        }
        assert(ws.take(n as int) == ws);
        self.settings = settings;
        self.update_highlights(joined.as_str());
    }

    /// Moves the tab at `from` to stand before the tab that was at `to`, or at the end when
    /// `to` is the number of tabs.
    pub fn move_chat(&mut self, from: usize, to: usize)
        requires
            from < old(self).chat_list().len(),
            to <= old(self).chat_list().len(),
        ensures
            final(self).extras() == old(self).extras(),
            final(self).chat_list() == shifted(old(self).chat_list(), from as int, to as int),
            final(self).active() == old(self).active(),
            final(self).keywords() == old(self).keywords(),
            final(self).current_settings() == old(self).current_settings(),
            final(self).status() == old(self).status(),
    {
        shift_item(&mut self.chats, from, to);
    }

    /// Adds a message to the chat named by the lowercase form of `target`: the message gets
    /// its position in the chat as its id, and a non-system message renames the chat to
    /// `target` when the name differs. A highlighted message is also copied to the highlights
    /// tab, with the chat it came from.
    pub fn push_chat_message(&mut self, target: &str, message: Message) -> (r: PushOutcome)
        ensures
            final(self).extras() == old(self).extras(),
            final(self).chat_list().len() == old(self).chat_list().len(),
            final(self).active() == old(self).active(),
            final(self).keywords() == old(self).keywords(),
            final(self).current_settings() == old(self).current_settings(),
            final(self).status() == old(self).status(),
            r.highlighted == message.highlight,
            r.chat_renamed == renames(old(self).chat_list(), target@, message),
            after_push(
                old(self).chat_list(),
                final(self).chat_list(),
                old(self).active(),
                target@,
                message,
            ),
    {
        let normalized = to_lowercase(target);
        let is_tab_active = self.is_active_tab(normalized.as_str());
        let is_system_message = message.message_type == MessageType::System;
        let ghost m0 = message;
        let mut message = message;
        let mut chat_renamed = false;
        let ghost old_chats = self.chats@;
        let ghost tname = lowercase_of(target@);
        let ghost hname = HIGHLIGHTS_TAB_NAME@;
        proof {
            lemma_first_chat(old_chats, tname);
            lemma_first_chat(old_chats, hname);
        }
        match self.name_to_chat(normalized.as_str()) {
            Some(i) => {
                message.id = Some(self.chats[i].messages.len());
                if !str_eq(self.chats[i].name.as_str(), target) && !is_system_message {
                    self.chats[i].name = target.to_owned();
                    chat_renamed = true;
                }
                self.chats[i].push(message.duplicate(), is_tab_active);
                assert(self.chats@ == old_chats.update(i as int, self.chats@[i as int]));
            },
            None => {},
        }
        let ghost mid = self.chats@;
        assert(mid.len() == old_chats.len());
        assert(forall|j: int|
            0 <= j < mid.len() && first_chat(old_chats, tname) != Some(j) ==> mid[j] == old_chats[j]);
        assert(forall|j: int|
            0 <= j < mid.len() ==> mid[j].normalized_name == old_chats[j].normalized_name);
        let highlighted = message.highlight;
        if highlighted {
            message.set_original_chat(target);
            proof {
                lemma_first_chat(mid, hname);
                assert forall|i: int| #[trigger] is_first_chat(mid, hname, i) == is_first_chat(old_chats, hname, i) by {}
            }
            match self.name_to_chat(HIGHLIGHTS_TAB_NAME) {
                Some(h) => {
                    self.chats[h].push(message, false);
                    assert(self.chats@ == mid.update(h as int, self.chats@[h as int]));
                },
                None => {},
            }
        }
        proof {
            assert forall|j: int| 0 <= j < old_chats.len() implies delivered(
                #[trigger] old_chats[j], self.chats@[j], j, old_chats, self.active(), target@, m0, renames(old_chats, target@, m0)) by {
                let before = old_chats[j];
                let n = before.messages@.len();
                if first_chat(old_chats, tname) == Some(j) {
                    assert(mid[j].messages@.subrange(0, n as int) == before.messages@);
                }
                assert(self.chats@[j].messages@.subrange(0, n as int) == before.messages@);
            }
        }
        PushOutcome { chat_renamed, highlighted }
    }
}

/// The chats `after` are the chats `before` with the state of the first chat named `name` set
/// to `state` (and nothing else changed); unchanged when there is no such chat.
pub open spec fn state_set(before: Seq<Chat>, after: Seq<Chat>, name: Seq<char>, state: ChatState) -> bool {
    &&& after.len() == before.len()
    &&& match first_chat(before, name) {
        Some(i) => {
            &&& after[i].state == state
            &&& after[i].messages == before[i].messages
            &&& after[i].name == before[i].name
            &&& after[i].normalized_name == before[i].normalized_name
            &&& forall|j: int| 0 <= j < after.len() && j != i ==> after[j] == before[j]
        },
        None => after == before,
    }
}

/// The chats `after` are the chats `before` with the first chat named `name` marked read (its
/// unread marker past its last message, nothing else changed); unchanged when there is no such
/// chat.
pub open spec fn read_marked(before: Seq<Chat>, after: Seq<Chat>, name: Seq<char>) -> bool {
    &&& after.len() == before.len()
    &&& match first_chat(before, name) {
        Some(i) => {
            &&& after[i].prev_unread_pointer == before[i].messages@.len()
            &&& after[i].messages == before[i].messages
            &&& after[i].name == before[i].name
            &&& after[i].normalized_name == before[i].normalized_name
            &&& after[i].state == before[i].state
            &&& forall|j: int| 0 <= j < after.len() && j != i ==> after[j] == before[j]
        },
        None => after == before,
    }
}

/// The chats `after` are the chats `before` with the messages of the first chat named `name`
/// removed; unchanged when there is no such chat.
pub open spec fn cleared(before: Seq<Chat>, after: Seq<Chat>, name: Seq<char>) -> bool {
    &&& after.len() == before.len()
    &&& match first_chat(before, name) {
        Some(i) => {
            &&& after[i].messages@.len() == 0
            &&& after[i].name == before[i].name
            &&& after[i].normalized_name == before[i].normalized_name
            &&& forall|j: int| 0 <= j < after.len() && j != i ==> after[j] == before[j]
        },
        None => after == before,
    }
}

/// The chats and active tab after closing the first chat named `name`: it leaves the list, and
/// when it was the active tab, the first remaining tab (or none) becomes active.
pub open spec fn removed(
    before: Seq<Chat>,
    after: Seq<Chat>,
    active_before: Seq<char>,
    active_after: Seq<char>,
    name: Seq<char>,
) -> bool {
    let rest = match first_chat(before, name) {
        Some(i) => before.remove(i),
        None => before,
    };
    &&& after == rest
    &&& active_after == (if active_before == name {
        if rest.len() > 0 {
            rest[0].normalized_name@
        } else {
            Seq::<char>::empty()
        }
    } else {
        active_before
    })
}

/// Whether adding `message` for `target` renames the chat it is for: when the chat exists,
/// its name differs from `target`, and the message is not a system message.
pub open spec fn renames(chats: Seq<Chat>, target: Seq<char>, message: Message) -> bool {
    match first_chat(chats, lowercase_of(target)) {
        Some(i) => chats[i].name@ != target && message.message_type != MessageType::System,
        None => false,
    }
}

/// The chats `after` are the chats `before` with `message` added for `target`.
pub open spec fn after_push(
    before: Seq<Chat>,
    after: Seq<Chat>,
    active: Seq<char>,
    target: Seq<char>,
    message: Message,
) -> bool {
    &&& after.len() == before.len()
    &&& forall|j: int|
        0 <= j < before.len() ==> delivered(
            #[trigger] before[j],
            after[j],
            j,
            before,
            active,
            target,
            message,
            renames(before, target, message),
        )
}

/// Whether `m` carries the author, text, kind and highlight flag of `source`, with the given id.
pub open spec fn carries(m: Message, source: Message, id: Option<usize>) -> bool {
    &&& m.username == source.username
    &&& m.text == source.text
    &&& m.message_type == source.message_type
    &&& m.highlight == source.highlight
    &&& m.id == id
}

/// The chat at position `j` after a message for `target` was added while the tab `active` is
/// shown: the chat the message is for gains it (with its position as id, renamed when asked,
/// and its unread marker kept at its end when it was read to its end and is shown), and the
/// highlights tab
/// gains a copy of a highlighted message marked with the chat it was sent to; every other
/// chat is unchanged.
pub open spec fn delivered(
    before: Chat,
    after: Chat,
    j: int,
    chats: Seq<Chat>,
    active: Seq<char>,
    target: Seq<char>,
    message: Message,
    renamed: bool,
) -> bool {
    let for_chat = first_chat(chats, lowercase_of(target)) == Some(j);
    let to_highlights = message.highlight && first_chat(chats, HIGHLIGHTS_TAB_NAME@) == Some(j);
    let n = before.messages@.len();
    let id = match first_chat(chats, lowercase_of(target)) {
        Some(i) => Some(chats[i].messages@.len() as usize),
        None => message.id,
    };
    &&& after.normalized_name == before.normalized_name
    &&& after.state == before.state
    &&& after.prev_unread_pointer == (if for_chat {
        Chat::pointer_after_push(before.prev_unread_pointer, n, active == lowercase_of(target))
    } else {
        before.prev_unread_pointer
    })
    &&& after.name@ == (if for_chat && renamed {
        target
    } else {
        before.name@
    })
    &&& after.messages@.len() == n + (if for_chat {
        1int
    } else {
        0
    }) + (if to_highlights {
        1int
    } else {
        0
    })
    &&& after.messages@.subrange(0, n as int) == before.messages@
    &&& for_chat ==> carries(after.messages@[n as int], message, id)
        && after.messages@[n as int].original_chat == message.original_chat
    &&& to_highlights ==> carries(after.messages@.last(), message, id)
        && (after.messages@.last().original_chat matches Some(c) && c@ == target)
}

/// A chat just opened under a name that no open chat had is the one found by that name, at
/// the end of the list.
pub proof fn lemma_added_chat_found(before: Seq<Chat>, after: Seq<Chat>, name: Seq<char>)
    requires
        first_chat(before, name) is None,
        after.len() == before.len() + 1,
        after.drop_last() == before,
        after.last().normalized_name@ == name,
    ensures
        first_chat(after, name) == Some(before.len() as int),
{
    lemma_first_chat(before, name);
    lemma_first_chat(after, name);
    assert forall|j: int| 0 <= j < before.len() implies after[j].normalized_name@ != name by {
        assert(after[j] == after.drop_last()[j]);
    }
    assert(is_first_chat(after, name, before.len() as int));
}

/// The id a message gets when it is added to its chat is the position it takes there: it
/// refers back to the message.
pub proof fn lemma_pushed_id_refers_back(
    before: Seq<Chat>,
    after: Seq<Chat>,
    active: Seq<char>,
    target: Seq<char>,
    message: Message,
)
    requires
        after_push(before, after, active, target, message),
        first_chat(before, lowercase_of(target)) is Some,
    ensures
        ({
            let i = first_chat(before, lowercase_of(target))->0;
            let id = before[i].messages@.len();
            &&& first_chat(after, lowercase_of(target)) == Some(i)
            &&& id < after[i].messages@.len()
            &&& after[i].messages@[id as int].id == Some(id as usize)
            &&& after[i].messages@[id as int].text == message.text
        }),
{
    let key = lowercase_of(target);
    let i = first_chat(before, key)->0;
    lemma_first_chat(before, key);
    assert(delivered(before[i], after[i], i, before, active, target, message, renames(before, target, message)));
    assert forall|j: int| 0 <= j < after.len() implies after[j].normalized_name == before[j].normalized_name by {
        assert(delivered(before[j], after[j], j, before, active, target, message, renames(before, target, message)));
    }
    lemma_first_chat(after, key);
    assert(is_first_chat(after, key, i));
}

/// Closing the active chat makes the first remaining tab active, or none when no tab is left.
pub proof fn lemma_closing_active_chat(
    before: Seq<Chat>,
    after: Seq<Chat>,
    active_before: Seq<char>,
    active_after: Seq<char>,
)
    requires
        removed(before, after, active_before, active_after, active_before),
    ensures
        active_after == (if after.len() > 0 {
            after[0].normalized_name@
        } else {
            Seq::<char>::empty()
        }),
{
}

/// Closing a chat right after opening it under a new name gives back the chat list as it was.
pub proof fn lemma_close_undoes_open(
    before: Seq<Chat>,
    opened: Seq<Chat>,
    closed: Seq<Chat>,
    active_opened: Seq<char>,
    active_closed: Seq<char>,
    name: Seq<char>,
)
    requires
        first_chat(before, name) is None,
        opened.len() == before.len() + 1,
        opened.drop_last() == before,
        opened.last().normalized_name@ == name,
        removed(opened, closed, active_opened, active_closed, name),
    ensures
        closed == before,
{
    lemma_added_chat_found(before, opened, name);
    assert(opened.remove(before.len() as int) =~= opened.drop_last());
}

} // verus!
