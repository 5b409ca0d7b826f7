//! The main window: its parts, and how it handles events from the application core.
use vstd::prelude::*;

use crate::app_core::chat::{Chat, ConnectionStatus, Message, MessageType, normalize};
use crate::gui::chat::chat_controller::{scroll_target_spec, ChatViewController};
use crate::gui::chat::chat_view::{fresh_view, ChatView};
use crate::gui::chat_tabs::ChatTabs;
use crate::gui::error::GuiError;
use crate::gui::menu::Menu;
use crate::gui::settings::Settings as SettingsWindow;
use crate::gui::state::{
    after_push, cleared, first_chat, read_marked, settings_patched, join_keywords, keywords_of, removed, state_set, UIMessageIn,
    UIState,
};
use crate::gui::state::window_attention::WindowAttention;
use crate::gui::update_window::UpdateWindow;
use crate::gui::usage::UsageWindow;
use crate::gui::widgets::{ErrorPopup, ErrorWrapper};
use crate::gui::{HIGHLIGHTS_TAB_NAME, SERVER_TAB_NAME};
use crate::text::{decimal, lowercase_of, push_str, starts_with_char, to_lowercase};

verus! {

/// The title of the main window: `<chat> – steel v<version>` for an open chat, and
/// `steel v<version>` for the interface's own tabs or when no chat is open.
pub open spec fn spec_window_title(chats: Seq<Chat>, active: Seq<char>, version: Seq<char>) -> Seq<char> {
    if active.len() > 0 && active[0] == '$' {
        "steel v"@ + version
    } else {
        match first_chat(chats, active) {
            Some(i) => chats[i].name@ + " – steel v"@ + version,
            None => "steel v"@ + version,
        }
    }
}

/// The title of the main window.
pub fn window_title(s: &UIState, version: &str) -> (r: String)
    ensures
        r@ == spec_window_title(s.chat_list(), s.active(), version@),
{
    let mut r = String::new();
    if !starts_with_char(s.active_tab_name(), '$') {
        match s.active_chat() {
            Some(chat) => {
                push_str(&mut r, chat.name.as_str());
                push_str(&mut r, " – ");
            },
            None => {},
        }
    }
    push_str(&mut r, "steel v");
    push_str(&mut r, version);
    proof {
        reveal_strlit(" – ");
        reveal_strlit("steel v");
        reveal_strlit(" – steel v");
        assert(" – "@ + "steel v"@ =~= " – steel v"@);
    }
    r
}

/// What the window does outside its own state after an event.
#[derive(Debug)]
pub enum WindowAction {
    /// Apply the interface settings (scaling, theme).
    ApplyUiSettings,
    /// Set the window title.
    SetTitle(String),
    /// The connection indicator: the connection is up.
    IndicatorConnected,
    /// The connection indicator: the connection is down.
    IndicatorDisconnected,
    /// The connection indicator: activity was seen.
    IndicatorRefreshed,
    /// Put a mention of the user in the chat input.
    InsertUserMention(String),
    /// A highlighted message arrived in the given chat: notify if due.
    Notify(String),
    /// Redraw the window.
    Repaint,
    /// Close the window.
    Close,
}

/// The main window: its menus and dialogs, the chat views, and the interface's state.
#[derive(Debug)]
pub struct ApplicationWindow {
    pub menu: Menu,
    pub chat_view_controller: ChatViewController,
    pub chat_tabs: ChatTabs,
    pub settings: SettingsWindow,
    pub update_window: UpdateWindow,
    pub usage_window: UsageWindow,
    pub error_popup: ErrorPopup,
    pub state: UIState,
    /// The request for the user's attention, asked for when a highlight arrives.
    pub attention: WindowAttention,
}

impl ApplicationWindow {
    /// Whether the chat views are consistent.
    pub open spec fn wf(self) -> bool {
        self.chat_view_controller.wf()
    }

    /// A window for the given settings, with the server and highlights tabs open and no
    /// other chat.
    pub fn new(initial_settings: crate::app_core::settings::Settings) -> (w: Self)
        ensures
            w.wf(),
            w.state.chat_list().len() == 2,
            w.state.chat_list()[0].normalized_name@ == lowercase_of(SERVER_TAB_NAME@),
            w.state.chat_list()[1].normalized_name@ == lowercase_of(HIGHLIGHTS_TAB_NAME@),
            w.state.chat_list()[0].name@ == SERVER_TAB_NAME@,
            w.state.chat_list()[1].name@ == HIGHLIGHTS_TAB_NAME@,
            w.state.chat_list()[0].messages@.len() == 0,
            w.state.chat_list()[1].messages@.len() == 0,
            w.state.active().len() == 0,
            w.state.current_settings() == initial_settings,
            w.state.keywords() == Set::<Seq<char>>::empty(),
            w.state.status() == (ConnectionStatus::Disconnected { auth_failed: false }),
            w.chat_view_controller.views().dom() == Set::<Seq<char>>::empty().insert(
                lowercase_of(SERVER_TAB_NAME@),
            ).insert(lowercase_of(HIGHLIGHTS_TAB_NAME@)),
            w.error_popup.queue().len() == 0,
            w.attention.started() is None && !w.attention.dock_pending() && !w.attention.focused(),
            !w.menu.settings_open() && !w.menu.about_open() && !w.menu.update_open()
                && !w.menu.usage_open() && !w.menu.pinned(),
    {
        let mut w = ApplicationWindow {
            menu: Menu::new(),
            chat_view_controller: ChatViewController::new(),
            chat_tabs: ChatTabs::new(),
            settings: SettingsWindow::new(),
            update_window: UpdateWindow::new(),
            usage_window: UsageWindow::new(),
            error_popup: ErrorPopup::new(),
            state: UIState::new(initial_settings),
            attention: WindowAttention::new(),
        };
        w.add_chat_to_controller(SERVER_TAB_NAME, false);
        w.add_chat_to_controller(HIGHLIGHTS_TAB_NAME, false);
        w
    }

    /// Opens a chat tab and its view.
    fn add_chat_to_controller(&mut self, target: &str, switch: bool)
        requires
            old(self).wf(),
        ensures
            final(self).wf(),
            final(self).state.chat_list().len() == old(self).state.chat_list().len() + 1,
            final(self).state.chat_list().drop_last() == old(self).state.chat_list(),
            final(self).state.chat_list().last().name@ == target@,
            final(self).state.chat_list().last().normalized_name@ == lowercase_of(target@),
            final(self).state.chat_list().last().messages@.len() == 0,
            final(self).state.active() == (if switch {
                lowercase_of(target@)
            } else {
                old(self).state.active()
            }),
            final(self).state.keywords() == old(self).state.keywords(),
            final(self).state.status() == old(self).state.status(),
            final(self).state.current_settings() == old(self).state.current_settings(),
            final(self).state.extras() == old(self).state.extras(),
            final(self).chat_view_controller.views().dom() == old(
                self,
            ).chat_view_controller.views().dom().insert(lowercase_of(target@)),
            fresh_view(
                final(self).chat_view_controller.views()[lowercase_of(target@)],
                lowercase_of(target@),
            ),
            forall|k: Seq<char>|
                #[trigger] old(self).chat_view_controller.views().dom().contains(k) && k
                    != lowercase_of(target@) ==> final(self).chat_view_controller.views()[k]
                    == old(self).chat_view_controller.views()[k],
            final(self).error_popup == old(self).error_popup,
            final(self).menu == old(self).menu,
            final(self).attention == old(self).attention,
    {
        self.state.add_new_chat(target.to_owned(), switch);
        self.chat_view_controller.add(normalize(target));
    }
}

/// The views `after` are the views `before` with the view of `name` (if there is one) set to
/// scroll to the row `row`; every other view is unchanged.
pub open spec fn view_scrolled(
    before: Map<Seq<char>, ChatView>,
    after: Map<Seq<char>, ChatView>,
    name: Seq<char>,
    row: usize,
) -> bool {
    &&& after.dom() == before.dom()
    &&& forall|k: Seq<char>| #[trigger] before.dom().contains(k) && k != name ==> after[k] == before[k]
    &&& before.dom().contains(name) ==> {
        let v0 = before[name];
        let v1 = after[name];
        &&& v1.scroll_target() == Some(row)
        &&& v1.name() == v0.name() && v1.input() == v0.input()
        &&& v1.search() == v0.search() && v1.attempts() == v0.attempts()
    }
}

/// The views `after` are the views `before` with the search panel of the view of `name` (if
/// there is one) opened; every other view, and everything else of that view, is unchanged.
pub open spec fn view_filter_opened(
    before: Map<Seq<char>, ChatView>,
    after: Map<Seq<char>, ChatView>,
    name: Seq<char>,
) -> bool {
    &&& after.dom() == before.dom()
    &&& forall|k: Seq<char>| #[trigger] before.dom().contains(k) && k != name ==> after[k] == before[k]
    &&& before.dom().contains(name) ==> {
        let v0 = before[name];
        let v1 = after[name];
        &&& v1.search().shown()
        &&& v1.search().user_input() == v0.search().user_input()
        &&& v1.search().text_input() == v0.search().text_input()
        &&& v1.search().results() == v0.search().results()
        &&& v1.search().current() == v0.search().current()
        &&& v1.search().last_query() == v0.search().last_query()
        &&& v1.search().performed() == v0.search().performed()
        &&& v1.name() == v0.name() && v1.input() == v0.input()
        &&& v1.scroll_target() == v0.scroll_target() && v1.attempts() == v0.attempts()
    }
}

/// The actions are one: setting the window title to `title`.
pub open spec fn titled(actions: Seq<WindowAction>, title: Seq<char>) -> bool {
    actions.len() == 1 && (actions[0] matches WindowAction::SetTitle(t) && t@ == title)
}

/// The window parts other than the state are unchanged.
pub open spec fn same_parts(before: ApplicationWindow, after: ApplicationWindow) -> bool {
    &&& after.menu == before.menu
    &&& after.chat_view_controller == before.chat_view_controller
    &&& after.error_popup == before.error_popup
}

/// The actions that follow a new message for `target`: a notification when it highlights
/// the user, then a redraw.
pub open spec fn message_actions(actions: Seq<WindowAction>, target: Seq<char>, message: Message) -> bool {
    &&& actions.len() == (if message.highlight { 2int } else { 1int })
    &&& actions.last() is Repaint
    &&& message.highlight ==> (actions[0] matches WindowAction::Notify(t) && t@ == lowercase_of(
        target,
    ))
}

/// A message from the chat server with the given text, as the server tab shows it.
pub open spec fn server_message(m: Message, text: Seq<char>) -> bool {
    &&& m.text@ == text
    &&& m.username@.len() == 0
    &&& m.message_type == MessageType::System
    &&& !m.highlight
    &&& m.id is None
    &&& m.original_chat is None
}

/// The window `after`, with the actions `actions`, is what handling `event` makes of the
/// window `before`.
pub open spec fn dispatched(
    before: ApplicationWindow,
    after: ApplicationWindow,
    event: UIMessageIn,
    actions: Seq<WindowAction>,
    version: Seq<char>,
) -> bool {
    let s0 = before.state;
    let s1 = after.state;
    match event {
        UIMessageIn::NewSystemMessage { target, message } | UIMessageIn::NewMessageReceived {
            target,
            message,
        } => {
            &&& after_push(s0.chat_list(), s1.chat_list(), s0.active(), target@, message)
            &&& s1.active() == s0.active() && s1.keywords() == s0.keywords()
            &&& s1.status() == s0.status() && s1.current_settings() == s0.current_settings()
            &&& same_parts(before, after)
            &&& message_actions(actions, target@, message)
        },
        UIMessageIn::SettingsChanged(settings) => {
            &&& s1.current_settings() == settings
            &&& s1.keywords() == keywords_of(join_keywords(settings.highlight_words()))
            &&& s1.extras() == s0.extras()
            &&& s1.chat_list() == s0.chat_list() && s1.active() == s0.active()
            &&& s1.status() == s0.status()
            &&& same_parts(before, after)
            &&& actions.len() == 1 && actions[0] is ApplyUiSettings
        },
        UIMessageIn::ConnectionStatusChanged(c) => {
            &&& s1.status() == c
            &&& s1.chat_list() == s0.chat_list() && s1.active() == s0.active()
            &&& s1.extras() == s0.extras()
            &&& s1.keywords() == s0.keywords() && s1.current_settings() == s0.current_settings()
            &&& same_parts(before, after)
            &&& match c {
                ConnectionStatus::Connected => actions.len() == 1
                    && actions[0] is IndicatorConnected,
                ConnectionStatus::Disconnected { .. } => actions.len() == 1
                    && actions[0] is IndicatorDisconnected,
                _ => actions.len() == 0,
            }
        },
        UIMessageIn::ConnectionActivity => {
            &&& after == before
            &&& actions.len() == 1 && actions[0] is IndicatorRefreshed
        },
        UIMessageIn::NewChatRequested { target, switch } => {
            &&& s1.chat_list().len() == s0.chat_list().len() + 1
            &&& s1.chat_list().drop_last() == s0.chat_list()
            &&& s1.chat_list().last().name@ == target@
            &&& s1.chat_list().last().normalized_name@ == lowercase_of(target@)
            &&& s1.chat_list().last().messages@.len() == 0
            &&& s1.active() == (if switch {
                lowercase_of(target@)
            } else {
                s0.active()
            })
            &&& s1.extras() == s0.extras()
            &&& s1.keywords() == s0.keywords() && s1.status() == s0.status()
            &&& s1.current_settings() == s0.current_settings()
            &&& after.chat_view_controller.views().dom()
                == before.chat_view_controller.views().dom().insert(lowercase_of(target@))
            &&& fresh_view(after.chat_view_controller.views()[lowercase_of(target@)], lowercase_of(target@))
            &&& forall|k: Seq<char>|
                #[trigger] before.chat_view_controller.views().dom().contains(k) && k
                    != lowercase_of(target@) ==> after.chat_view_controller.views()[k]
                    == before.chat_view_controller.views()[k]
            &&& after.menu == before.menu && after.error_popup == before.error_popup
            &&& if switch {
                titled(actions, spec_window_title(s1.chat_list(), s1.active(), version))
            } else {
                actions.len() == 0
            }
        },
        UIMessageIn::NewChatStateReceived { target, state } => {
            &&& state_set(s0.chat_list(), s1.chat_list(), lowercase_of(target@), state)
            &&& s1.active() == s0.active() && s1.keywords() == s0.keywords()
            &&& s1.status() == s0.status() && s1.current_settings() == s0.current_settings()
            &&& same_parts(before, after)
            &&& actions.len() == 0
        },
        UIMessageIn::ChatSwitchRequested(name, message_id) => {
            let lname = lowercase_of(name@);
            let bad_reference = match message_id {
                Some(m) => !match first_chat(s0.chat_list(), lname) {
                    Some(i) => m < s0.chat_list()[i].messages@.len(),
                    None => false,
                },
                None => false,
            };
            &&& after.error_popup.queue() == (if bad_reference {
                before.error_popup.queue().push(
                    (
                        "Failed to find message #"@ + decimal(message_id->0 as nat)
                            + " in chat "@ + name@ + " -- it is probably already closed"@,
                        None::<Seq<char>>,
                        false,
                    ),
                )
            } else {
                before.error_popup.queue()
            })
            &&& read_marked(s0.chat_list(), s1.chat_list(), lname)
            &&& s1.active() == (if first_chat(s0.chat_list(), lname) is Some {
                lname
            } else {
                s0.active()
            })
            &&& s1.extras() == s0.extras()
            &&& s1.keywords() == s0.keywords() && s1.status() == s0.status()
            &&& s1.current_settings() == s0.current_settings()
            &&& after.menu == before.menu
            &&& match message_id {
                Some(m) => if first_chat(s0.chat_list(), lname) is Some && m < usize::MAX {
                    view_scrolled(
                        before.chat_view_controller.views(),
                        after.chat_view_controller.views(),
                        lname,
                        scroll_target_spec(s0.current_settings().content().0.chat_position, m),
                    )
                } else {
                    after.chat_view_controller.views() == before.chat_view_controller.views()
                },
                None => after.chat_view_controller.views() == before.chat_view_controller.views(),
            }
            &&& titled(actions, spec_window_title(s1.chat_list(), s1.active(), version))
        },
        UIMessageIn::NewServerMessageReceived(text) => {
            &&& exists|m: Message|
                server_message(m, text@) && #[trigger] after_push(
                    s0.chat_list(),
                    s1.chat_list(),
                    s0.active(),
                    SERVER_TAB_NAME@,
                    m,
                )
            &&& s1.active() == s0.active() && s1.keywords() == s0.keywords()
            &&& s1.status() == s0.status() && s1.current_settings() == s0.current_settings()
            &&& same_parts(before, after)
            &&& actions.len() == 1 && actions[0] is Repaint
        },
        UIMessageIn::ChatClosed(name) => {
            &&& removed(
                s0.chat_list(),
                s1.chat_list(),
                s0.active(),
                s1.active(),
                lowercase_of(name@),
            )
            &&& s1.extras() == s0.extras()
            &&& s1.keywords() == s0.keywords() && s1.status() == s0.status()
            &&& s1.current_settings() == s0.current_settings()
            &&& after.chat_view_controller.views() == before.chat_view_controller.views().remove(
                lowercase_of(name@),
            )
            &&& after.menu == before.menu && after.error_popup == before.error_popup
            &&& titled(actions, spec_window_title(s1.chat_list(), s1.active(), version))
        },
        UIMessageIn::ChatCleared(name) => {
            &&& cleared(s0.chat_list(), s1.chat_list(), name@)
            &&& s1.active() == s0.active() && s1.keywords() == s0.keywords()
            &&& s1.status() == s0.status() && s1.current_settings() == s0.current_settings()
            &&& same_parts(before, after)
            &&& actions.len() == 0
        },
        UIMessageIn::WindowTitleRefreshRequested => {
            &&& after == before
            &&& titled(actions, spec_window_title(s0.chat_list(), s0.active(), version))
        },
        UIMessageIn::UIUserMentionRequested(username) => {
            &&& after == before
            &&& actions.len() == 1 && (actions[0] matches WindowAction::InsertUserMention(u)
                && u == username)
        },
        UIMessageIn::UsageWindowRequested => {
            &&& after.menu.usage_open()
            &&& after.menu.settings_open() == before.menu.settings_open()
            &&& after.menu.about_open() == before.menu.about_open()
            &&& after.menu.update_open() == before.menu.update_open()
            &&& after.menu.pinned() == before.menu.pinned()
            &&& after.state == before.state
            &&& after.chat_view_controller == before.chat_view_controller
            &&& after.error_popup == before.error_popup
            &&& actions.len() == 0
        },
        UIMessageIn::ChatFilterRequested => {
            &&& after.state == before.state
            &&& after.menu == before.menu && after.error_popup == before.error_popup
            &&& view_filter_opened(
                before.chat_view_controller.views(),
                after.chat_view_controller.views(),
                s0.active(),
            )
            &&& actions.len() == 0
        },
        UIMessageIn::BackendError { error, is_fatal } => {
            &&& after.error_popup.queue() == before.error_popup.queue().push((error@, None::<Seq<char>>, is_fatal))
            &&& after.state == before.state
            &&& after.menu == before.menu
            &&& after.chat_view_controller == before.chat_view_controller
            &&& actions.len() == 0
        },
        UIMessageIn::Shutdown => {
            &&& after == before
            &&& actions.len() == 1 && actions[0] is Close
        },
        UIMessageIn::SettingsPatched(patch) => {
            &&& settings_patched(s0.current_settings(), s1.current_settings(), patch)
            &&& s1.chat_list() == s0.chat_list() && s1.active() == s0.active()
            &&& s1.keywords() == s0.keywords() && s1.status() == s0.status()
            &&& s1.extras() == s0.extras()
            &&& same_parts(before, after)
            &&& actions.len() == 0
        },
        UIMessageIn::UpdateStateChanged(state) => {
            &&& s1.extras() == (s0.extras().0, state, s0.extras().2)
            &&& s1.chat_list() == s0.chat_list() && s1.active() == s0.active()
            &&& s1.keywords() == s0.keywords() && s1.status() == s0.status()
            &&& s1.current_settings() == s0.current_settings()
            &&& same_parts(before, after)
            &&& actions.len() == 0
        },
        UIMessageIn::ReportDialogRequested { username, chat_name } => {
            &&& s1.extras().0 == s0.extras().0 && s1.extras().1 == s0.extras().1
            &&& s1.extras().2 matches Some(d) && d.username == username && d.chat_name == chat_name
                && d.reason@.len() == 0 && d.just_opened
            &&& s1.chat_list() == s0.chat_list() && s1.active() == s0.active()
            &&& s1.keywords() == s0.keywords() && s1.status() == s0.status()
            &&& s1.current_settings() == s0.current_settings()
            &&& same_parts(before, after)
            &&& actions.len() == 0
        },
        UIMessageIn::OwnUsernameChanged(username) => {
            &&& s1.extras() == (Some(username), s0.extras().1, s0.extras().2)
            &&& s1.chat_list() == s0.chat_list() && s1.active() == s0.active()
            &&& s1.keywords() == s0.keywords() && s1.status() == s0.status()
            &&& s1.current_settings() == s0.current_settings()
            &&& same_parts(before, after)
            &&& actions.len() == 0
        },
    }
}

impl ApplicationWindow {
    /// Handles one event from the application core, and says what the window must do outside
    /// its state (`version` is the application's version, for the title).
    pub fn dispatch_event(&mut self, event: UIMessageIn, version: &str) -> (r: Vec<WindowAction>)
        requires
            old(self).wf(),
        ensures
            final(self).wf(),
            dispatched(*old(self), *final(self), event, r@, version@),
            final(self).attention == old(self).attention,
    {
        let mut actions: Vec<WindowAction> = Vec::new();
        match event {
            UIMessageIn::NewSystemMessage { target, message } | UIMessageIn::NewMessageReceived {
                target,
                message,
            } => {
                let highlighted = message.highlight;
                self.state.push_chat_message(target.as_str(), message);
                if highlighted {
                    actions.push(WindowAction::Notify(normalize(target.as_str())));
                }
                actions.push(WindowAction::Repaint);
            },
            UIMessageIn::SettingsChanged(settings) => {
                self.state.update_settings(settings);
                actions.push(WindowAction::ApplyUiSettings);
            },
            UIMessageIn::ConnectionStatusChanged(conn) => {
                self.state.set_connection(conn);
                match conn {
                    ConnectionStatus::Connected => {
                        actions.push(WindowAction::IndicatorConnected);
                    },
                    ConnectionStatus::Disconnected { .. } => {
                        actions.push(WindowAction::IndicatorDisconnected);
                    },
                    _ => {},
                }
            },
            UIMessageIn::ConnectionActivity => {
                actions.push(WindowAction::IndicatorRefreshed);
            },
            UIMessageIn::NewChatRequested { target, switch } => {
                self.add_chat_to_controller(target.as_str(), switch);
                if switch {
                    actions.push(WindowAction::SetTitle(window_title(&self.state, version)));
                }
            },
            UIMessageIn::NewChatStateReceived { target, state } => {
                self.state.set_chat_state(target.as_str(), state);
            },
            UIMessageIn::ChatSwitchRequested(name, message_id) => {
                let lowercase_name = to_lowercase(name.as_str());
                match message_id {
                    Some(mid) => {
                        if !self.state.validate_reference(lowercase_name.as_str(), mid) {
                            let error = GuiError::message_not_found(mid, name);
                            let text = error.message();
                            self.error_popup.push_error(
                                ErrorWrapper { error: text, source: None, is_fatal: false },
                            );
                        }
                    },
                    None => {},
                }
                if self.state.switch_to_chat(lowercase_name) {
                    match message_id {
                        Some(mid) => {
                            if mid < usize::MAX {
                                let position = self.state.settings().chat_position();
                                self.chat_view_controller.scroll_chat_to(
                                    position,
                                    self.state.active_tab_name(),
                                    mid,
                                );
                            }
                        },
                        None => {},
                    }
                }
                actions.push(WindowAction::SetTitle(window_title(&self.state, version)));
            },
            UIMessageIn::NewServerMessageReceived(text) => {
                let message = Message::new_system(text.as_str());
                let ghost m = message;
                self.state.push_chat_message(SERVER_TAB_NAME, message);
                assert(server_message(m, text@));
                actions.push(WindowAction::Repaint);
            },
            UIMessageIn::ChatClosed(name) => {
                self.chat_view_controller.remove(name.as_str());
                self.state.remove_chat(name);
                actions.push(WindowAction::SetTitle(window_title(&self.state, version)));
            },
            UIMessageIn::ChatCleared(name) => {
                self.state.clear_chat(name.as_str());
            },
            UIMessageIn::WindowTitleRefreshRequested => {
                actions.push(WindowAction::SetTitle(window_title(&self.state, version)));
            },
            UIMessageIn::UIUserMentionRequested(username) => {
                actions.push(WindowAction::InsertUserMention(username));
            },
            UIMessageIn::UsageWindowRequested => {
                self.menu.open_usage();
            },
            UIMessageIn::ChatFilterRequested => {
                self.chat_view_controller.enable_filter(self.state.active_tab_name());
            },
            UIMessageIn::BackendError { error, is_fatal } => {
                self.error_popup.push_error(ErrorWrapper { error, source: None, is_fatal });
            },
            UIMessageIn::Shutdown => {
                actions.push(WindowAction::Close);
            },
            UIMessageIn::SettingsPatched(patch) => {
                self.state.apply_settings_patch(patch);
            },
            UIMessageIn::UpdateStateChanged(state) => {
                self.state.set_update_state(state);
            },
            UIMessageIn::ReportDialogRequested { username, chat_name } => {
                self.state.open_report_dialog(username, chat_name);
            },
            UIMessageIn::OwnUsernameChanged(username) => {
                self.state.set_own_username(username);
            },
        }
        actions
    }
}

/// How many events the window takes in per refresh, so that it stays responsive after a long
/// pause (such as being minimized).
pub const UI_EVENT_INTAKE_PER_REFRESH: usize = 100;

/// The windows `windows` are those the window went through while it handled `events` one
/// after the other, each as `dispatch_event` does: the first is where it started, each next one
/// follows from the one before by the event of that turn, which said the actions `outs` of that
/// turn.
pub open spec fn handled_in_turn(
    windows: Seq<ApplicationWindow>,
    events: Seq<UIMessageIn>,
    outs: Seq<Seq<WindowAction>>,
    version: Seq<char>,
) -> bool {
    &&& windows.len() == events.len() + 1
    &&& outs.len() == events.len()
    &&& forall|j: int| 0 <= j < events.len() ==> #[trigger] turn_handled(windows, events, outs, version, j)
}

/// In turn `j`, the window handled the event of that turn as `dispatch_event` does.
pub open spec fn turn_handled(
    windows: Seq<ApplicationWindow>,
    events: Seq<UIMessageIn>,
    outs: Seq<Seq<WindowAction>>,
    version: Seq<char>,
    j: int,
) -> bool {
    windows[j].wf() && dispatched(windows[j], windows[j + 1], events[j], outs[j], version)
}

/// Handling one more event after a run of events handled in turn extends the run.
proof fn lemma_handled_one_more(
    windows: Seq<ApplicationWindow>,
    events: Seq<UIMessageIn>,
    outs: Seq<Seq<WindowAction>>,
    next: ApplicationWindow,
    event: UIMessageIn,
    actions: Seq<WindowAction>,
    version: Seq<char>,
)
    requires
        handled_in_turn(windows, events, outs, version),
        windows.last().wf(),
        dispatched(windows.last(), next, event, actions, version),
    ensures
        handled_in_turn(windows.push(next), events.push(event), outs.push(actions), version),
{
    let w1 = windows.push(next);
    let e1 = events.push(event);
    let o1 = outs.push(actions);
    assert forall|j: int| 0 <= j < e1.len() implies #[trigger] turn_handled(
        w1,
        e1,
        o1,
        version,
        j,
    ) by {
        if j < events.len() {
            assert(turn_handled(windows, events, outs, version, j));
            assert(o1[j] == outs[j]);
            assert(w1[j] == windows[j]);
            assert(w1[j + 1] == windows[j + 1]);
            assert(e1[j] == events[j]);
        }
    }
}

/// How many of `pending` waiting events one refresh takes in.
pub open spec fn intake(pending: nat) -> nat {
    if pending < UI_EVENT_INTAKE_PER_REFRESH {
        pending
    } else {
        UI_EVENT_INTAKE_PER_REFRESH as nat
    }
}

impl ApplicationWindow {
    /// Takes in the waiting events, oldest first, up to the limit per refresh, handling each
    /// as `dispatch_event` does; the rest wait for the next refresh. Returns the actions of
    /// all of them, in turn.
    pub fn process_pending_events(&mut self, queue: &mut Vec<UIMessageIn>, version: &str) -> (r: Vec<
        WindowAction,
    >)
        requires
            old(self).wf(),
        ensures
            final(self).wf(),
            final(queue)@ == old(queue)@.skip(intake(old(queue)@.len()) as int),
            exists|windows: Seq<ApplicationWindow>, outs: Seq<Seq<WindowAction>>|
                {
                    &&& #[trigger] handled_in_turn(
                        windows,
                        old(queue)@.take(intake(old(queue)@.len()) as int),
                        outs,
                        version@,
                    )
                    &&& windows[0] == *old(self)
                    &&& windows.last() == *final(self)
                    &&& r@ == outs.flatten()
                },
            final(self).attention == old(self).attention,
    {
        let ghost q0 = queue@;
        let ghost w0 = *self;
        let ghost mut windows = seq![w0];
        let ghost mut outs = Seq::<Seq<WindowAction>>::empty();
        let mut actions: Vec<WindowAction> = Vec::new();
        let mut i: usize = 0;
        proof {
            assert(q0.take(0) =~= Seq::<UIMessageIn>::empty());
            assert(q0.skip(0) =~= q0);
            assert(outs.flatten() =~= Seq::<WindowAction>::empty());
        }
        while i < UI_EVENT_INTAKE_PER_REFRESH && queue.len() > 0
            invariant
                self.wf(),
                i <= UI_EVENT_INTAKE_PER_REFRESH,
                i <= q0.len(),
                queue@ == q0.skip(i as int),
                handled_in_turn(windows, q0.take(i as int), outs, version@),
                windows[0] == w0,
                windows.last() == *self,
                actions@ == outs.flatten(),
                self.attention == w0.attention,
            decreases UI_EVENT_INTAKE_PER_REFRESH - i,
        {
            let event = queue.remove(0);
            let ghost ev = event;
            let mut a = self.dispatch_event(event, version);
            let ghost last = a@;
            actions.append(&mut a);
            proof {
                let w1 = windows.push(*self);
                let o1 = outs.push(last);
                let t = q0.take(i + 1);
                assert(queue@ =~= q0.skip(i + 1));
                outs.lemma_flatten_push(last);
                assert(t =~= q0.take(i as int).push(ev));
                lemma_handled_one_more(windows, q0.take(i as int), outs, *self, ev, last, version@);
                windows = w1;
                outs = o1;
            }
            i = i + 1;
        }
        proof {
            assert(i == intake(q0.len()));
        }
        actions
    }
}

} // verus!
