use steel::app_core::chat::{Chat, Message};
use steel::app_core::settings::{
    ChatPosition, ChatSettings, Journal, Notifications, Settings, Source, UI,
};
use steel::gui::chat::chat_view::{ChatView, InputOutcome};
use steel::gui::chat::filter::ChatFilter;
use steel::gui::command::CommandAction;
use steel::gui::state::{SettingsPatch, UIMessageIn};
use steel::gui::update_window::UpdateStatus;
use steel::gui::window::ApplicationWindow;

fn settings() -> Settings {
    Settings::new(
        Source::DefaultPath,
        ChatSettings {
            username: "Alice".to_owned(),
            autojoin: vec!["#osu".to_owned()],
            chat_position: ChatPosition::Top,
            track_unread_messages: true,
        },
        Notifications::new(),
        UI::new(),
        Journal::new(),
    )
}

#[test]
fn settings_new_keeps_its_parts() {
    let s = settings();
    assert_eq!(s.chat.username, "Alice");
    assert_eq!(s.chat.autojoin, vec!["#osu".to_owned()]);
    assert_eq!(s.chat_position(), ChatPosition::Top);
}

#[test]
fn unread_pointer_follows_pushes() {
    let mut c = Chat::new("#osu");
    c.push(Message::new_text("a", "1"), true);
    assert_eq!(c.prev_unread_pointer, 1);
    c.push(Message::new_text("a", "2"), false);
    assert_eq!(c.prev_unread_pointer, 1);
    c.push(Message::new_text("a", "3"), true);
    assert_eq!(c.prev_unread_pointer, 1);
    c.mark_as_read();
    assert_eq!(c.prev_unread_pointer, 3);
}

#[test]
fn switching_to_a_chat_marks_it_read() {
    let mut w = ApplicationWindow::new(settings());
    w.dispatch_event(UIMessageIn::NewChatRequested { target: "#osu".to_owned(), switch: false }, "1");
    w.dispatch_event(UIMessageIn::NewChatRequested { target: "#other".to_owned(), switch: true }, "1");
    for t in ["a", "b"] {
        w.dispatch_event(
            UIMessageIn::NewMessageReceived { target: "#osu".to_owned(), message: Message::new_text("x", t) },
            "1",
        );
    }
    assert_eq!(w.state.find_chat("#osu").unwrap().prev_unread_pointer, 0);
    w.dispatch_event(UIMessageIn::ChatSwitchRequested("#OSU".to_owned(), None), "1");
    assert_eq!(w.state.active_tab_name(), "#osu");
    assert_eq!(w.state.find_chat("#osu").unwrap().prev_unread_pointer, 2);
    w.dispatch_event(
        UIMessageIn::NewMessageReceived { target: "#osu".to_owned(), message: Message::new_text("x", "c") },
        "1",
    );
    assert_eq!(w.state.find_chat("#osu").unwrap().prev_unread_pointer, 3);
}

#[test]
fn more_window_events() {
    let mut w = ApplicationWindow::new(settings());
    w.dispatch_event(UIMessageIn::SettingsPatched(SettingsPatch::AutojoinAdded("peppy".to_owned())), "1");
    w.dispatch_event(UIMessageIn::SettingsPatched(SettingsPatch::AutojoinAdded("peppy".to_owned())), "1");
    assert_eq!(w.state.settings().chat.autojoin, vec!["#osu".to_owned(), "peppy".to_owned()]);
    w.dispatch_event(UIMessageIn::SettingsPatched(SettingsPatch::AutojoinRemoved("#osu".to_owned())), "1");
    assert_eq!(w.state.settings().chat.autojoin, vec!["peppy".to_owned()]);
    w.dispatch_event(UIMessageIn::OwnUsernameChanged("Alice_".to_owned()), "1");
    assert_eq!(w.state.own_username.as_deref(), Some("Alice_"));
    w.dispatch_event(UIMessageIn::UpdateStateChanged(UpdateStatus::FetchingMetadata), "1");
    assert!(matches!(w.state.update_state, UpdateStatus::FetchingMetadata));
    w.dispatch_event(
        UIMessageIn::ReportDialogRequested { username: "bob".to_owned(), chat_name: "#osu".to_owned() },
        "1",
    );
    let d = w.state.report_dialog.as_ref().unwrap();
    assert_eq!(d.username, "bob");
    assert!(d.just_opened && d.reason.is_empty());
}

#[test]
fn submit_runs_the_typed_command() {
    let mut v = ChatView::new("#osu".to_owned());
    v.set_chat_input("/me waves".to_owned());
    match v.submit_input() {
        InputOutcome::Command(CommandAction::SendAction(t)) => assert_eq!(t, "waves"),
        other => panic!("unexpected {:?}", other),
    }
    v.set_chat_input("  hi  ".to_owned());
    assert!(matches!(v.submit_input(), InputOutcome::Send(t) if t == "hi"));
    v.set_chat_input("   ".to_owned());
    assert!(matches!(v.submit_input(), InputOutcome::Nothing));
}

fn chat() -> Chat {
    let mut c = Chat::new("#osu");
    c.push(Message::new_text("Alice", "hello world"), false);
    c.push(Message::new_text("bob", "say hello"), false);
    c
}

#[test]
fn search_shortcut_moves_the_current_result() {
    let c = chat();
    let mut f = ChatFilter::new();
    assert_eq!(f.handle_input(true, false, false), (true, None));
    assert!(f.is_shown());
    f.set_message_filter_input("HELLO");
    assert_eq!(f.message_filter_input, "hello");
    assert_eq!(f.submit(&c, false), Some(0));
    assert_eq!(f.handle_input(true, false, false), (false, Some(1)));
    assert_eq!(f.get_current_result_index(), Some(1));
    assert_eq!(f.handle_input(false, false, false), (false, None));
    assert_eq!(f.get_current_result_index(), Some(1));
    assert_eq!(f.handle_input(true, true, false), (false, Some(0)));
    assert_eq!(f.submit(&c, false), Some(1));
    assert_eq!(f.handle_input(false, false, true), (false, None));
    assert!(!f.has_results());
    assert!(!f.is_shown());
}

#[test]
fn view_search_sets_the_scroll_target() {
    let c = chat();
    let mut v = ChatView::new("#osu".to_owned());
    assert_eq!(v.filter_submit(&c, false), None);
    assert_eq!(v.filter_input(true, false, false), (true, None));
    v.set_user_filter("BOB");
    assert_eq!(v.filter_submit(&c, false), Some(1));
    assert_eq!(v.scroll_to, Some(1));
    v.set_user_filter("");
    v.set_message_filter("hello");
    assert_eq!(v.filter_submit(&c, false), Some(0));
    assert_eq!(v.filter_input(true, false, false), (false, Some(1)));
    assert_eq!(v.scroll_to, Some(1));
}
