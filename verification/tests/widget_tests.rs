use steel::app_core::chat::{Message, MessageType};
use steel::app_core::settings::{Colour, LevelFilter, ThemeMode};
use steel::gui::filter::{FilterCollection, TextFilter, UsernameFilter};
use steel::gui::settings::{autoupdate_hint, colours_heading, offered_log_levels, url_test_label, visible_colour_rows};
use steel::gui::widgets::{
    chat_name_label, link_action, message_styles, original_chat_reference, row_background,
    LinkAction, LinkBehaviour, LinkType, OsuAction, TextStyle,
};

#[test]
fn filtered_rows() {
    let messages = vec![
        Message::new_text("Alice", "hello"),
        Message::new_text("bob", "hello there"),
        Message::new_text("alice", "bye"),
    ];
    let mut f = FilterCollection::new();
    assert_eq!(f.filtered_positions(&messages), vec![0, 1, 2]);
    f.active = true;
    f.username = UsernameFilter::new("ALICE");
    assert_eq!(f.filtered_positions(&messages), vec![0, 2]);
    f.text = TextFilter::new("Hello");
    assert_eq!(f.filtered_positions(&messages), vec![0]);
    f.reset();
    assert_eq!(f.filtered_positions(&messages), vec![0, 1, 2]);
}

#[test]
fn styles_and_labels() {
    assert_eq!(message_styles(MessageType::Action, true), vec![TextStyle::Highlight, TextStyle::Italics]);
    assert_eq!(message_styles(MessageType::Text, false), vec![]);
    assert_eq!(chat_name_label("#osu"), "#osu");
    assert_eq!(chat_name_label("peppy"), "(PM)");
    let c = Colour::from_rgb(1, 2, 3);
    let h = Colour::from_rgb(9, 9, 9);
    assert_eq!(row_background(Some(c), true, h, 50), Some((c, 50)));
    assert_eq!(row_background(None, true, h, 50), Some((h, 50)));
    assert_eq!(row_background(None, false, h, 50), None);
}

#[test]
fn original_chat_buttons() {
    let mut m = Message::new_text("a", "b");
    assert!(original_chat_reference(&m).is_none());
    m.id = Some(4);
    m.set_original_chat("peppy");
    assert_eq!(original_chat_reference(&m), Some(("(PM)".to_owned(), "peppy".to_owned(), Some(4))));
}

#[test]
fn link_actions() {
    let on = LinkBehaviour { handle_osu_chat_links: true, handle_osu_beatmap_links: true };
    let off = LinkBehaviour { handle_osu_chat_links: false, handle_osu_beatmap_links: false };
    match link_action(&LinkType::Https, "https://x.y", on) {
        LinkAction::OpenUrl { url, hover } => {
            assert_eq!(url, "https://x.y");
            assert!(hover.is_none());
        }
        other => panic!("unexpected {:?}", other),
    }
    match link_action(&LinkType::Osu(OsuAction::Chat("peppy".to_owned())), "osu://chan/peppy", on) {
        LinkAction::OpenChat { chat, hover } => {
            assert_eq!(chat, "peppy");
            assert_eq!(hover, "Chat with osu://chan/peppy");
        }
        other => panic!("unexpected {:?}", other),
    }
    assert!(matches!(
        link_action(&LinkType::Osu(OsuAction::Chat("peppy".to_owned())), "osu://chan/peppy", off),
        LinkAction::OpenUrl { .. }
    ));
    match link_action(&LinkType::Osu(OsuAction::OpenBeatmap(12)), "osu://dl/12", on) {
        LinkAction::OpenUrl { url, hover } => {
            assert_eq!(url, "https://osu.ppy.sh/beatmapsets/12");
            assert_eq!(hover.as_deref(), Some("Beatmap #12 (open in browser)"));
        }
        other => panic!("unexpected {:?}", other),
    }
    match link_action(&LinkType::Osu(OsuAction::OpenDifficulty(5)), "osu://b/5", off) {
        LinkAction::OpenUrl { url, hover } => {
            assert_eq!(url, "https://osu.ppy.sh/beatmaps/5");
            assert!(hover.is_none());
        }
        other => panic!("unexpected {:?}", other),
    }
    match link_action(&LinkType::Channel, "#osu", off) {
        LinkAction::OpenChat { chat, hover } => {
            assert_eq!(chat, "#osu");
            assert_eq!(hover, "Open #osu");
        }
        other => panic!("unexpected {:?}", other),
    }
}

#[test]
fn settings_window_texts() {
    assert_eq!(colours_heading(ThemeMode::Light), "chat colours (light theme)");
    assert_eq!(colours_heading(ThemeMode::Dark), "chat colours (dark theme)");
    assert_eq!(visible_colour_rows(3), 3);
    assert_eq!(visible_colour_rows(30), 10);
    assert_eq!(offered_log_levels(), vec![LevelFilter::Debug, LevelFilter::Info, LevelFilter::Warn, LevelFilter::Error]);
    assert_eq!(autoupdate_hint(), "checked every 10 minutes. to apply an update, restart the application");
    assert_eq!(url_test_label(&None), None);
    assert_eq!(url_test_label(&Some(Ok(()))).as_deref(), Some("apply result: OK"));
    assert_eq!(url_test_label(&Some(Err("404".to_owned()))).as_deref(), Some("apply result: FAIL (404)"));
}
