use steel::app_core::chat::{Chat, ChatState, ChatType, ConnectionStatus, Message, MessageType};
use steel::app_core::settings::{
    BuiltInSound, ChatColours, ChatPosition, ChatSettings, Colour, Journal, Notifications,
    Settings, Sound, Source, UI,
};
use steel::gui::chat::chat_view::{adjusted_row_id, build_row_metadata, insert_mention, RowMetadata};
use steel::gui::chat::filter::{ChatFilter, FilterAction};
use steel::gui::chat_tabs::{pick_tab_colour, relevant_chat_positions, reorder_bounds, shift_item, ChatTabs};
use steel::gui::command::{CommandAction, CommandHelper};
use steel::gui::context_menu::{close_chat_label, label, profile_url, translate_url, MenuItem};
use steel::gui::error::GuiError;
use steel::gui::read_tracker::{ReadTracker, TrackerOp, UnreadType};
use steel::gui::settings::{
    builtin_sounds_for_digest, custom_user_key, notification_styles, offered_builtin_sounds,
    timeout_adjustable, AutojoinSection, Settings as SettingsWindow, Tab, PARTY_HORN_DIGEST,
};
use steel::gui::state::window_attention::{AttentionCommand, NotificationStyle, Platform, WindowAttention};
use steel::gui::state::{notification_plan, ReportDialogState, UIMessageIn, UIState};
use steel::gui::update_window::{ReleaseSummary, UpdateButton, UpdateStatus, UpdateWindow};
use steel::gui::widgets::{
    beatmap_hover_text, beatmap_location, chat_link_title, choose_colour, difficulty_hover_text,
    difficulty_location, modal_actions, username_copy_text, ConnectionIndicator, ErrorPopup,
    ErrorWrapper, InnerShadow, ModalAction, PopupRequest,
};
use steel::gui::window::{window_title, ApplicationWindow, WindowAction, UI_EVENT_INTAKE_PER_REFRESH};
use steel::gui::{chat_target, validate_channel_name, validate_username, HIGHLIGHTS_TAB_NAME, SERVER_TAB_NAME};
use steel::visual_tests::{build_all_targets, get_target_for_mode, MessageMode};

fn settings() -> Settings {
    Settings::new(
        Source::DefaultPath,
        ChatSettings {
            username: "Alice".to_owned(),
            autojoin: Vec::new(),
            chat_position: ChatPosition::Bottom,
            track_unread_messages: true,
        },
        Notifications::new(),
        UI::new(),
        Journal::new(),
    )
}

fn highlighted(username: &str, text: &str) -> Message {
    let mut m = Message::new_text(username, text);
    m.highlight = true;
    m
}

#[test]
fn validation_errors() {
    assert_eq!(validate_username("some_user [x]"), Ok(()));
    assert_eq!(validate_username("bad!"), Err("invalid username"));
    assert_eq!(validate_channel_name("#osu_ru"), Ok(()));
    assert_eq!(validate_channel_name("#os u"), Err("invalid channel name"));
}

#[test]
fn chat_targets_get_a_hash() {
    assert_eq!(chat_target("osu", ChatType::Channel), "#osu");
    assert_eq!(chat_target("#osu", ChatType::Channel), "#osu");
    assert_eq!(chat_target(&chat_target("osu", ChatType::Channel), ChatType::Channel), "#osu");
    assert_eq!(chat_target("peppy", ChatType::Person), "peppy");
}

#[test]
fn state_adds_and_finds_chats() {
    let mut s = UIState::new(settings());
    s.add_new_chat("#OSU".to_owned(), true);
    s.add_new_chat("peppy".to_owned(), false);
    assert_eq!(s.chat_count(), 2);
    assert_eq!(s.active_tab_name(), "#osu");
    assert!(s.has_chat("#Osu"));
    assert_eq!(s.name_to_chat("peppy"), Some(1));
    assert_eq!(s.find_chat("#osu").map(|c| c.name.as_str()), Some("#OSU"));
    assert!(s.active_chat().is_some());
    assert!(s.is_active_tab("#osu"));
    assert!(!s.is_connected());
    s.set_connection(ConnectionStatus::Connected);
    assert!(s.is_connected());
}

#[test]
fn pushed_message_gets_its_position_as_id() {
    let mut s = UIState::new(settings());
    s.add_new_chat("#osu".to_owned(), true);
    s.push_chat_message("#osu", Message::new_text("a", "one"));
    let r = s.push_chat_message("#osu", Message::new_text("b", "two"));
    assert!(!r.highlighted);
    let chat = s.find_chat("#osu").unwrap();
    assert_eq!(chat.messages[1].id, Some(1));
    assert!(s.validate_reference("#osu", 1));
    assert!(!s.validate_reference("#osu", 2));
    assert!(!s.validate_reference("#nowhere", 0));
}

#[test]
fn message_renames_chat_unless_system() {
    let mut s = UIState::new(settings());
    s.add_new_chat("peppy".to_owned(), false);
    let r = s.push_chat_message("Peppy", Message::new_system("joined"));
    assert!(!r.chat_renamed);
    assert_eq!(s.chats()[0].name, "peppy");
    let r = s.push_chat_message("Peppy", Message::new_text("Peppy", "hi"));
    assert!(r.chat_renamed);
    assert_eq!(s.chats()[0].name, "Peppy");
}

#[test]
fn highlight_is_copied_to_highlights_tab() {
    let mut s = UIState::new(settings());
    s.add_new_chat(HIGHLIGHTS_TAB_NAME.to_owned(), false);
    s.add_new_chat("#osu".to_owned(), false);
    let r = s.push_chat_message("#osu", highlighted("b", "alice!"));
    assert!(r.highlighted);
    let tab = s.find_chat(HIGHLIGHTS_TAB_NAME).unwrap();
    assert_eq!(tab.messages.len(), 1);
    assert_eq!(tab.messages[0].original_chat.as_deref(), Some("#osu"));
    assert_eq!(tab.messages[0].id, Some(0));
}

#[test]
fn removing_active_chat_switches_to_first() {
    let mut s = UIState::new(settings());
    s.add_new_chat("#a".to_owned(), false);
    s.add_new_chat("#b".to_owned(), true);
    s.remove_chat("#B".to_owned());
    assert_eq!(s.active_tab_name(), "#a");
    s.remove_chat("#a".to_owned());
    assert_eq!(s.active_tab_name(), "");
    assert_eq!(s.chat_count(), 0);
}

#[test]
fn chat_state_and_clear() {
    let mut s = UIState::new(settings());
    s.add_new_chat("#a".to_owned(), false);
    s.set_chat_state("#A", ChatState::Joined);
    assert_eq!(s.chats()[0].state, ChatState::Joined);
    s.push_chat_message("#a", Message::new_text("x", "y"));
    s.clear_chat("#a");
    assert!(s.chats()[0].messages.is_empty());
}

#[test]
fn highlight_keywords_from_text() {
    let mut s = UIState::new(settings());
    s.update_highlights("  Alice, BOB, , carol ");
    assert!(s.highlights.contains("alice"));
    assert!(s.highlights.contains("bob"));
    assert!(s.highlights.contains("carol"));
    assert_eq!(s.highlights.names().len(), 3);
    let mut fresh = settings();
    fresh.notifications.highlights.words = vec!["One".to_owned(), "two".to_owned()];
    s.update_settings(fresh);
    assert!(s.highlights.contains("one"));
    assert!(!s.highlights.contains("bob"));
}

#[test]
fn moving_tabs() {
    let mut s = UIState::new(settings());
    for n in ["#a", "#b", "#c", "#d"] {
        s.add_new_chat(n.to_owned(), false);
    }
    s.move_chat(0, 2);
    let names: Vec<&str> = s.chats().iter().map(|c| c.name.as_str()).collect();
    assert_eq!(names, vec!["#b", "#a", "#c", "#d"]);
    s.move_chat(3, 0);
    let names: Vec<&str> = s.chats().iter().map(|c| c.name.as_str()).collect();
    assert_eq!(names, vec!["#d", "#b", "#a", "#c"]);
    let mut v = vec![1, 2, 3];
    shift_item(&mut v, 0, 3);
    assert_eq!(v, vec![2, 3, 1]);
}

#[test]
fn notification_plans() {
    let p = notification_plan(true, false, ChatType::Channel, true, true, false, true);
    assert!(p.request_attention && p.play_sound);
    let p = notification_plan(false, true, ChatType::Person, false, true, true, true);
    assert!(!p.request_attention && !p.play_sound);
    let p = notification_plan(false, false, ChatType::Person, true, true, false, true);
    assert!(!p.request_attention && !p.play_sound);
}

#[test]
fn read_tracker_keeps_highlights() {
    let mut t = ReadTracker::new();
    t.mark_as_highlighted("#a");
    t.mark_as_unread("#a");
    assert_eq!(t.unread_type("#a"), Some(&UnreadType::Highlight));
    t.mark_as_unread("#b");
    t.mark_as_unread("#b");
    assert_eq!(t.unread_type("#b"), Some(&UnreadType::Regular));
    t.mark_as_read("#b");
    assert_eq!(t.unread_type("#b"), None);
    t.set_last_read_position("#a", 3);
    t.drop("#a");
    assert_eq!(t.unread_type("#a"), None);
    assert_eq!(t.get_last_read_position("#a"), None);
}

#[test]
fn switching_back_drops_the_marker() {
    let mut t = ReadTracker::new();
    t.update_chat_tracking("#a", "#b", 5);
    assert_eq!(t.get_last_read_position("#a"), Some(5));
    t.update_chat_tracking("#b", "#a", 5);
    assert_eq!(t.get_last_read_position("#a"), None);
    assert_eq!(t.get_last_read_position("#b"), Some(5));
}

fn search_chat() -> Chat {
    let mut c = Chat::new("#osu");
    c.push(Message::new_text("Alice", "hello world"), false);
    c.push(Message::new_system("server says hello"), false);
    c.push(Message::new_text("bob", "HELLO again"), false);
    c.push(Message::new_text("alice", "bye"), false);
    c
}

#[test]
fn search_and_navigation() {
    let chat = search_chat();
    let mut f = ChatFilter::new();
    f.enable();
    f.message_filter_input = "hello".to_owned();
    assert_eq!(f.perform_search(&chat), Some(0));
    assert_eq!(f.results_label().as_deref(), Some("1 of 2 results"));
    assert_eq!(f.navigate_to_next_result(), Some(2));
    assert_eq!(f.navigate_to_next_result(), Some(0));
    assert_eq!(f.navigate_to_prev_result(), Some(2));
    assert_eq!(f.navigate_to_next_result(), Some(0));
    assert_eq!(f.is_message_highlighted(0), Some(true));
    assert_eq!(f.is_message_highlighted(2), Some(false));
    assert_eq!(f.is_message_highlighted(1), None);
    assert_eq!(f.handle_search_navigation(false), Some(FilterAction::NavigateToResult(2)));
    f.user_filter_input = "ali".to_owned();
    assert_eq!(f.handle_search_navigation(false), Some(FilterAction::Search));
    assert_eq!(f.apply_action(Some(FilterAction::Search), &chat), Some(0));
    f.message_filter_input = "nothing".to_owned();
    assert_eq!(f.perform_search(&chat), None);
    assert_eq!(f.results_label().as_deref(), Some("No results"));
    f.clear_search_cache();
    assert!(!f.has_results());
}

#[test]
fn rows_and_row_ids() {
    let (rows, marker) = build_row_metadata(true, true, true, 1, 3);
    assert!(marker);
    assert_eq!(rows.len(), 5);
    assert!(matches!(rows[0], RowMetadata::Filler));
    assert!(matches!(rows[2], RowMetadata::UnreadMarker));
    assert!(matches!(rows[3], RowMetadata::Message { message_idx: 1 }));
    assert_eq!(adjusted_row_id(true, marker, 1, 1), 3);
    assert_eq!(adjusted_row_id(true, marker, 1, 0), 1);
    let (rows, marker) = build_row_metadata(false, true, false, 1, 3);
    assert!(!marker);
    assert_eq!(rows.len(), 3);
}

#[test]
fn mentions_go_at_the_cursor() {
    let (text, pos) = insert_mention("hi there", Some((3, 3)), "bob");
    assert!(text.contains("bob"));
    assert!(pos > 3);
}

#[test]
fn commands_run() {
    let helper = CommandHelper::new();
    let mut input = "/me waves hello".to_owned();
    match helper.detect_and_run(&mut input) {
        Some(CommandAction::SendAction(t)) => assert_eq!(t, "waves hello"),
        other => panic!("unexpected {:?}", other),
    }
    assert!(input.is_empty());
    let mut input = "/query peppy".to_owned();
    assert!(matches!(helper.detect_and_run(&mut input), Some(CommandAction::OpenChat(t)) if t == "peppy"));
    let mut input = "/part".to_owned();
    assert!(matches!(helper.detect_and_run(&mut input), Some(CommandAction::CloseActiveChat)));
    let mut input = "/nope x".to_owned();
    assert!(helper.detect_and_run(&mut input).is_none());
    assert_eq!(input, "/nope x");
    let mut input = "plain text".to_owned();
    assert!(helper.detect_and_run(&mut input).is_none());
}

#[test]
fn gui_error_texts() {
    assert_eq!(
        GuiError::message_not_found(7, "#osu".to_owned()).message(),
        "Failed to find message #7 in chat #osu -- it is probably already closed"
    );
    assert_eq!(GuiError::chat_not_found("#x".to_owned()).message(), "Chat '#x' not found");
}

#[test]
fn chat_tabs_submit() {
    let mut t = ChatTabs::new();
    t.new_channel_input = "osu".to_owned();
    assert_eq!(t.submit(ChatType::Channel).as_deref(), Some("#osu"));
    assert!(t.new_channel_input.is_empty());
    t.new_chat_input = "bad name!".to_owned();
    assert_eq!(t.submit(ChatType::Person), None);
    assert_eq!(t.new_chat_input, "bad name!");
    assert_eq!(t.submit(ChatType::Channel), None);
}

#[test]
fn tab_lists_and_reordering() {
    let chats = vec![Chat::new("#a"), Chat::new("bob"), Chat::new("#c"), Chat::new("$server")];
    let channels = relevant_chat_positions(&chats, ChatType::Channel);
    assert_eq!(channels, vec![0, 2]);
    let people = relevant_chat_positions(&chats, ChatType::Person);
    assert_eq!(people, vec![1, 3]);
    assert_eq!(reorder_bounds(&channels, 4, 1, 0), (2, 0));
    assert_eq!(reorder_bounds(&channels, 4, 0, 2), (0, 4));
    let read = Colour::from_rgb(1, 1, 1);
    let unread = Colour::from_rgb(2, 2, 2);
    let hl = Colour::from_rgb(3, 3, 3);
    assert_eq!(pick_tab_colour(None, read, unread, hl), read);
    assert_eq!(pick_tab_colour(Some(UnreadType::Regular), read, unread, hl), unread);
    assert_eq!(pick_tab_colour(Some(UnreadType::Highlight), read, unread, hl), hl);
}

#[test]
fn autojoin_add_and_remove() {
    let mut section = AutojoinSection::new();
    let mut list: Vec<String> = Vec::new();
    section.set_input(ChatType::Channel, "osu".to_owned());
    assert!(section.add(ChatType::Channel, &mut list));
    section.set_input(ChatType::Channel, "#osu".to_owned());
    assert!(section.add(ChatType::Channel, &mut list));
    assert_eq!(list, vec!["#osu".to_owned()]);
    section.set_input(ChatType::Person, "peppy".to_owned());
    assert!(section.add(ChatType::Person, &mut list));
    section.set_input(ChatType::Person, "no!".to_owned());
    assert!(!section.add(ChatType::Person, &mut list));
    assert_eq!(AutojoinSection::entries(&list, ChatType::Channel), vec!["#osu".to_owned()]);
    assert_eq!(AutojoinSection::entries(&list, ChatType::Person), vec!["peppy".to_owned()]);
    AutojoinSection::remove(&mut list, &["#osu".to_owned()]);
    assert_eq!(list, vec!["peppy".to_owned()]);
}

#[test]
fn settings_window_defaults_and_sounds() {
    let mut w = SettingsWindow::new();
    assert_eq!(w.active_tab, Tab::Chat);
    assert_eq!(w.notifications_builtin_sound, BuiltInSound::Bell);
    let mut n = Notifications::new();
    n.highlights.sound = Some(Sound::BuiltIn(BuiltInSound::Ping));
    w.sync_sound(&n);
    assert_eq!(w.notifications_builtin_sound, BuiltInSound::Ping);
    w.notifications_builtin_sound = BuiltInSound::TwoTone;
    w.choose_builtin_sound(&mut n);
    assert_eq!(n.highlights.sound, Some(Sound::BuiltIn(BuiltInSound::TwoTone)));
    w.fill_highlights_input(&["a".to_owned(), "b c".to_owned()]);
    assert_eq!(w.highlights_input, "a, b c");
    w.fill_highlights_input(&["z".to_owned()]);
    assert_eq!(w.highlights_input, "a, b c");
}

#[test]
fn party_horn_is_offered_by_digest() {
    assert_eq!(builtin_sounds_for_digest(PARTY_HORN_DIGEST).len(), 5);
    assert_eq!(
        builtin_sounds_for_digest("0"),
        vec![BuiltInSound::Bell, BuiltInSound::DoubleBell, BuiltInSound::Ping, BuiltInSound::TwoTone]
    );
    // The username equal to the digest itself does not hash to it.
    assert_eq!(offered_builtin_sounds(PARTY_HORN_DIGEST).len(), 4);
    assert_eq!(offered_builtin_sounds("someone").len(), 4);
}

#[test]
fn notification_style_options() {
    assert_eq!(notification_styles(true), vec![NotificationStyle::Moderate]);
    assert_eq!(notification_styles(false), vec![NotificationStyle::Moderate, NotificationStyle::Intensive]);
    assert!(timeout_adjustable(NotificationStyle::Intensive, false));
    assert!(!timeout_adjustable(NotificationStyle::Intensive, true));
    assert!(!timeout_adjustable(NotificationStyle::Moderate, false));
}

#[test]
fn custom_user_colours() {
    assert_eq!(custom_user_key("Some User"), "some_user");
    let mut w = SettingsWindow::new();
    let mut colours = ChatColours::new();
    w.username_input = "Cool Guy".to_owned();
    w.username_colour_input = Colour::from_rgb(9, 8, 7);
    assert!(w.add_user_colour(&mut colours));
    assert_eq!(colours.users.get("cool_guy"), Some(&Colour::from_rgb(9, 8, 7)));
    assert!(w.username_input.is_empty());
    w.username_input = "bad!".to_owned();
    assert!(!w.add_user_colour(&mut colours));
    assert_eq!(choose_colour("COOL_GUY", None, &colours, Colour::from_rgb(0, 0, 1)), Colour::from_rgb(9, 8, 7));
    assert_eq!(choose_colour("me", Some("me"), &colours, Colour::from_rgb(0, 0, 1)), colours.own);
    assert_eq!(choose_colour("x", Some("me"), &colours, Colour::from_rgb(0, 0, 1)), Colour::from_rgb(0, 0, 1));
}

#[test]
fn error_popup_queue() {
    let mut p = ErrorPopup::new();
    assert!(p.most_recent().is_none());
    assert_eq!(p.resolve(Some(ModalAction::Close), false), None);
    p.push_error(ErrorWrapper { error: "first".to_owned(), source: None, is_fatal: false });
    p.push_error(ErrorWrapper { error: "fatal".to_owned(), source: None, is_fatal: true });
    assert_eq!(p.most_recent().unwrap().error, "fatal");
    assert_eq!(p.resolve(None, true), None);
    assert_eq!(p.most_recent().unwrap().error, "fatal");
    assert_eq!(p.resolve(Some(ModalAction::Restart), false), Some(PopupRequest::Restart));
    assert_eq!(p.resolve(Some(ModalAction::Exit), false), Some(PopupRequest::Exit));
    assert_eq!(p.resolve(Some(ModalAction::Close), false), None);
    assert_eq!(p.most_recent().unwrap().error, "first");
    assert_eq!(p.resolve(None, true), None);
    assert!(p.most_recent().is_none());
    assert_eq!(modal_actions(true), vec![ModalAction::Restart, ModalAction::Exit]);
    assert_eq!(modal_actions(false), vec![ModalAction::Close]);
}

#[test]
fn signal_strength_thresholds() {
    let mut c = ConnectionIndicator::new(false, String::new(), 40, 0);
    assert_eq!(c.signal_strength(0), 0);
    c.connect("irc.ppy.sh".to_owned(), 40, 100);
    assert_eq!(c.last_update, 100);
    assert_eq!(c.signal_strength(10_000_000_000), 4);
    assert_eq!(c.signal_strength(10_000_000_001), 3);
    assert_eq!(c.signal_strength(25_000_000_000), 3);
    assert_eq!(c.signal_strength(40_000_000_000), 2);
    assert_eq!(c.signal_strength(40_000_000_001), 1);
    assert_eq!(c.signal_strength(-1), 1);
    c.disconnect();
    assert_eq!(c.signal_strength(0), 0);
    assert_eq!(InnerShadow::new(12).height(), 12);
}

#[test]
fn link_texts() {
    assert_eq!(beatmap_location(42), "https://osu.ppy.sh/beatmapsets/42");
    assert_eq!(beatmap_hover_text(42), "Beatmap #42 (open in browser)");
    assert_eq!(difficulty_location(7), "https://osu.ppy.sh/beatmaps/7");
    assert_eq!(difficulty_hover_text(7), "Difficulty #7 (open in browser)");
    assert_eq!(chat_link_title("#osu"), "Open #osu");
    assert_eq!(chat_link_title("peppy"), "Chat with peppy");
    assert_eq!(username_copy_text("bob"), " <bob>");
}

#[test]
fn context_menu_texts() {
    assert_eq!(label(MenuItem::OpenChat, true), "💬 Open chat");
    assert_eq!(label(MenuItem::ClearChatTab, false), "Clear chat");
    assert_eq!(close_chat_label(ChatType::Channel, false), Some("Leave"));
    assert_eq!(close_chat_label(ChatType::Person, true), Some("✖ Close"));
    assert_eq!(close_chat_label(ChatType::System, true), None);
    assert_eq!(profile_url("peppy"), "https://osu.ppy.sh/users/@peppy");
}

#[test]
fn translation_link_is_percent_encoded() {
    assert_eq!(
        translate_url("a b/é"),
        "https://translate.google.com/?sl=auto&tl=en&text=a%20b%2F%C3%A9&op=translate"
    );
    assert_eq!(
        translate_url("Abc123"),
        "https://translate.google.com/?sl=auto&tl=en&text=Abc123&op=translate"
    );
}

#[test]
fn update_window_views() {
    let w = UpdateWindow::new();
    let v = w.view(&UpdateStatus::Idle, "0.7.0", true, false);
    assert!(matches!(v.buttons[..], [UpdateButton::CheckForUpdates]));
    let v = w.view(&UpdateStatus::UpdateError("boom".to_owned()), "0.7.0", true, false);
    assert_eq!(v.text.as_deref(), Some("failed to fetch updates: boom"));
    let m = ReleaseSummary { tag_name: "v0.8.0".to_owned(), published: "2024-01-02".to_owned(), size: 5 << 20 };
    let v = w.view(&UpdateStatus::MetadataReady(m), "v0.7.0", false, true);
    assert_eq!(v.text.as_deref(), Some("next release: v0.8.0 from 2024-01-02"));
    match &v.buttons[1] {
        UpdateButton::Update(t) => assert_eq!(t, "force update v0.7.0 → v0.8.0 (5 MB)"),
        other => panic!("unexpected {:?}", other),
    }
    let m = ReleaseSummary { tag_name: "v0.7.0".to_owned(), published: String::new(), size: 0 };
    let v = w.view(&UpdateStatus::MetadataReady(m), "v0.7.0", true, false);
    assert_eq!(v.text.as_deref(), Some("no updates, v0.7.0 is the latest version"));
    let v = w.view(&UpdateStatus::FetchingRelease(1, None), "v0.7.0", true, false);
    assert!(v.spinner);
    assert_eq!(UpdateWindow::autoupdate_status(false), "- automatic updates: disabled");
}

#[test]
fn window_dispatch() {
    let mut w = ApplicationWindow::new(settings());
    assert_eq!(w.state.chat_count(), 2);
    let a = w.dispatch_event(UIMessageIn::NewChatRequested { target: "#osu".to_owned(), switch: true }, "1.0");
    assert!(matches!(&a[..], [WindowAction::SetTitle(t)] if t == "#osu – steel v1.0"));
    assert!(w.chat_view_controller.has_view("#osu"));
    let a = w.dispatch_event(
        UIMessageIn::NewMessageReceived { target: "#osu".to_owned(), message: highlighted("b", "alice") },
        "1.0",
    );
    assert!(matches!(&a[..], [WindowAction::Notify(t), WindowAction::Repaint] if t == "#osu"));
    w.dispatch_event(UIMessageIn::NewServerMessageReceived("motd".to_owned()), "1.0");
    let server = w.state.find_chat(SERVER_TAB_NAME).unwrap();
    assert_eq!(server.messages[0].text, "motd");
    assert_eq!(server.messages[0].message_type, MessageType::System);
    let a = w.dispatch_event(UIMessageIn::ChatSwitchRequested("$SERVER".to_owned(), Some(9)), "1.0");
    assert!(matches!(&a[..], [WindowAction::SetTitle(t)] if t == "steel v1.0"));
    assert_eq!(w.state.active_tab_name(), "$server");
    assert_eq!(
        w.error_popup.most_recent().unwrap().error,
        "Failed to find message #9 in chat $SERVER -- it is probably already closed"
    );
    w.dispatch_event(UIMessageIn::ChatClosed("#osu".to_owned()), "1.0");
    assert!(!w.state.has_chat("#osu"));
    assert!(!w.chat_view_controller.has_view("#osu"));
    let a = w.dispatch_event(UIMessageIn::ConnectionStatusChanged(ConnectionStatus::Connected), "1.0");
    assert!(matches!(&a[..], [WindowAction::IndicatorConnected]));
    assert!(w.state.is_connected());
    w.dispatch_event(UIMessageIn::UsageWindowRequested, "1.0");
    assert!(w.menu.dialogs_visible());
    let a = w.dispatch_event(UIMessageIn::Shutdown, "1.0");
    assert!(matches!(&a[..], [WindowAction::Close]));
    let title = window_title(&w.state, "2");
    assert_eq!(title, "steel v2");
}

#[test]
fn visual_test_targets() {
    let t = build_all_targets(2, 3);
    assert_eq!(t, vec!["#test-0", "#test-1", "African clawed frog", "Bass", "Crane"]);
    assert_eq!(build_all_targets(0, 50).len(), 10);
    assert_eq!(get_target_for_mode(Some(MessageMode::Random), None, 2, 3, 3).as_deref(), Some("Bass"));
    assert_eq!(get_target_for_mode(Some(MessageMode::Random), None, 2, 3, 5), None);
    assert_eq!(get_target_for_mode(None, None, 2, 3, 0).as_deref(), Some("#test-0"));
    assert_eq!(get_target_for_mode(Some(MessageMode::Target), Some("x"), 2, 3, 0).as_deref(), Some("x"));
}

#[test]
fn png_decoding() {
    let mut bytes: Vec<u8> = Vec::new();
    {
        let mut encoder = png::Encoder::new(&mut bytes, 2, 1);
        encoder.set_color(png::ColorType::Rgba);
        encoder.set_depth(png::BitDepth::Eight);
        let mut writer = encoder.write_header().unwrap();
        writer.write_image_data(&[1, 2, 3, 4, 5, 6, 7, 8]).unwrap();
    }
    let (pixels, size) = steel::gui::try_png_to_rgba(&bytes).unwrap().unwrap();
    assert_eq!(pixels, vec![1, 2, 3, 4, 5, 6, 7, 8]);
    assert_eq!(size, (2, 1));
    assert!(steel::gui::try_png_to_rgba(b"not a png").is_none());
}

#[test]
fn attention_on_macos_is_withdrawn_when_focus_returns() {
    let mut a = WindowAttention::new();
    assert_eq!(
        a.request(NotificationStyle::Intensive, Platform::MacOs, 10),
        vec![AttentionCommand::DockRequest, AttentionCommand::DockBadge(true)]
    );
    assert_eq!(
        a.on_focus_changed(true, Platform::MacOs),
        vec![AttentionCommand::DockCancel, AttentionCommand::DockBadge(false)]
    );
    // Still focused: nothing more to do.
    assert_eq!(a.on_focus_changed(true, Platform::MacOs), vec![]);
    // The request was forgotten, so no timeout fires later.
    assert_eq!(a.check_timeout(true, NotificationStyle::Intensive, 0, Platform::MacOs, 100), (false, vec![]));
}

#[test]
fn attention_on_macos_moderate_cancels_at_once() {
    let mut a = WindowAttention::new();
    assert_eq!(
        a.request(NotificationStyle::Moderate, Platform::MacOs, 0),
        vec![AttentionCommand::DockRequest, AttentionCommand::DockCancel]
    );
    assert_eq!(a.on_focus_changed(true, Platform::MacOs), vec![AttentionCommand::DockBadge(false)]);
}

#[test]
fn attention_on_linux_resets_the_hint_and_keeps_the_request() {
    let mut a = WindowAttention::new();
    assert_eq!(a.request(NotificationStyle::Intensive, Platform::Linux, 5), vec![AttentionCommand::Informational]);
    assert_eq!(a.on_focus_changed(true, Platform::Linux), vec![AttentionCommand::Reset]);
    assert_eq!(a.on_focus_changed(false, Platform::Linux), vec![]);
    assert_eq!(a.check_timeout(true, NotificationStyle::Intensive, 3, Platform::Linux, 7), (false, vec![]));
    assert_eq!(a.check_timeout(true, NotificationStyle::Intensive, 3, Platform::Linux, 8), (true, vec![]));
}

#[test]
fn attention_on_windows_flashes_until_timeout() {
    let mut a = WindowAttention::new();
    assert_eq!(
        a.request(NotificationStyle::Moderate, Platform::Windows, 0),
        vec![AttentionCommand::Critical, AttentionCommand::Informational]
    );
    assert_eq!(a.request(NotificationStyle::Intensive, Platform::Windows, 20), vec![AttentionCommand::Critical]);
    assert_eq!(a.on_focus_changed(true, Platform::Windows), vec![]);
    assert_eq!(a.check_timeout(false, NotificationStyle::Intensive, 5, Platform::Windows, 30), (false, vec![]));
    assert_eq!(a.check_timeout(true, NotificationStyle::Moderate, 5, Platform::Windows, 30), (false, vec![]));
    assert_eq!(a.check_timeout(true, NotificationStyle::Intensive, 5, Platform::Windows, 24), (false, vec![]));
    assert_eq!(
        a.check_timeout(true, NotificationStyle::Intensive, 5, Platform::Windows, 25),
        (true, vec![AttentionCommand::Informational])
    );
    assert_eq!(a.check_timeout(true, NotificationStyle::Intensive, 5, Platform::Windows, 99), (false, vec![]));
}

#[test]
fn report_message_lowercases_and_joins_the_name() {
    let d = ReportDialogState {
        username: "Some Player".to_owned(),
        chat_name: "#osu".to_owned(),
        reason: "spamming links".to_owned(),
        just_opened: true,
    };
    assert_eq!(d.report_message(), "!report some_player spamming links");
}

#[test]
fn submitting_a_report_closes_the_dialog() {
    let mut s = UIState::new(settings());
    assert_eq!(s.submit_report(), None);
    s.open_report_dialog("Bad Guy".to_owned(), "#osu".to_owned());
    assert_eq!(s.submit_report(), Some(("#osu".to_owned(), "!report bad_guy ".to_owned())));
    assert_eq!(s.submit_report(), None);
}

#[test]
fn update_view_shows_download_progress() {
    let w = UpdateWindow::new();
    let v = w.view(&UpdateStatus::FetchingRelease(3, Some(10)), "v0.7.0", true, false);
    assert_eq!(v.progress, Some((3, 10)));
    assert!(!v.spinner);
    let v = w.view(&UpdateStatus::FetchingRelease(3, None), "v0.7.0", true, false);
    assert_eq!(v.progress, None);
    assert!(v.spinner);
    let v = w.view(&UpdateStatus::UpdateError("x".to_owned()), "v0.7.0", true, false);
    assert!(!v.spinner);
    assert_eq!(v.progress, None);
}

#[test]
fn pending_events_are_taken_in_up_to_the_limit() {
    assert_eq!(UI_EVENT_INTAKE_PER_REFRESH, 100);
    let mut w = ApplicationWindow::new(settings());
    let mut queue: Vec<UIMessageIn> = (0..150).map(|_| UIMessageIn::WindowTitleRefreshRequested).collect();
    let actions = w.process_pending_events(&mut queue, "1.0");
    assert_eq!(actions.len(), 100);
    assert_eq!(queue.len(), 50);
    let actions = w.process_pending_events(&mut queue, "1.0");
    assert_eq!(actions.len(), 50);
    assert!(queue.is_empty());
    assert!(w.process_pending_events(&mut queue, "1.0").is_empty());
}

#[test]
fn error_popup_keeps_the_cause() {
    let mut p = ErrorPopup::new();
    p.push_error(ErrorWrapper { error: "outer".to_owned(), source: Some("inner".to_owned()), is_fatal: false });
    let e = p.most_recent().unwrap();
    assert_eq!(e.source.as_deref(), Some("inner"));
}

#[test]
fn tracker_calls_in_sequence() {
    let mut t = ReadTracker::new();
    t.apply(TrackerOp::SetHighlights(vec!["a".to_owned(), "".to_owned()]));
    t.apply(TrackerOp::MarkAsUnread("#osu".to_owned()));
    t.apply(TrackerOp::MarkAsHighlighted("#osu".to_owned()));
    t.apply(TrackerOp::MarkAsUnread("#osu".to_owned()));
    t.apply(TrackerOp::AddHighlight("#osu".to_owned(), Message::new_text("bob", "a!")));
    t.apply(TrackerOp::SetLastReadPosition("#osu".to_owned(), 4));
    t.apply(TrackerOp::AddHighlight("#test".to_owned(), Message::new_text("eve", "a?")));
    assert_eq!(t.unread_type("#osu"), Some(&UnreadType::Highlight));
    assert_eq!(t.ordered_highlights().len(), 2);
    assert_eq!(t.ordered_highlights()[0].0, "#osu");
    assert_eq!(t.ordered_highlights()[1].0, "#test");
    assert!(t.keywords().contains("a"));
    assert!(!t.keywords().contains(""));
    t.apply(TrackerOp::Drop("#osu".to_owned()));
    assert_eq!(t.unread_type("#osu"), None);
    assert_eq!(t.get_last_read_position("#osu"), None);
    assert_eq!(t.ordered_highlights().len(), 2);
    t.apply(TrackerOp::SetHighlights(vec![]));
    assert!(!t.keywords().contains("a"));
}
