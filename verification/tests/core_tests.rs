use steel::app_core::chat::{chat_type, is_channel, normalize, Chat, ChatState, ChatType, Message, MessageType};
use steel::app_core::settings::{
    BuiltInSound, ChatPosition, ChatSettings, Journal, Notifications, Settings, Sound, Source, UI,
};
use steel::app_core::updater::{
    backup_file_name, default_update_url, next_chunk_size, pick_release, release_status, should_force_update,
    Download, DownloadStep,
    toggle_requests, unknown_archive_message, AutoUpdate, BackendRequest, ReleaseInfo,
    UpdateCycle, UpdateSource, Updater, DOWNLOAD_CHUNK_SIZE, RECENT_RELEASES_METADATA_URL,
};
use steel::collections::{list_contains, retain_names, NameMap, NameSet};
use steel::text::{push_decimal, split_chars, str_contains, trim};

fn chat_settings() -> ChatSettings {
    ChatSettings {
        username: "Alice".to_owned(),
        autojoin: vec!["#osu".to_owned()],
        chat_position: ChatPosition::Bottom,
        track_unread_messages: true,
    }
}

fn settings_at(source: Source) -> Settings {
    Settings::new(source, chat_settings(), Notifications::new(), UI::new(), Journal::new())
}

#[test]
fn lowercase_uses_the_real_mapping() {
    assert_eq!(normalize("HeLLo #OSU"), "hello #osu");
    assert_eq!(normalize("ÄBC"), "äbc");
}

#[test]
fn trim_and_split() {
    assert_eq!(trim("  a b  "), "a b");
    let cs: Vec<char> = "a, b, , c".chars().collect();
    let sep: Vec<char> = ", ".chars().collect();
    let parts: Vec<String> = split_chars(&cs, &sep).into_iter().map(|p| p.into_iter().collect()).collect();
    assert_eq!(parts, vec!["a", "b", "", "c"]);
    assert!(str_contains("haystack", "st"));
    assert!(!str_contains("haystack", "ts"));
}

#[test]
fn decimal_rendering() {
    let mut s = String::from("#");
    push_decimal(&mut s, 0);
    push_decimal(&mut s, 1234567890);
    assert_eq!(s, "#01234567890");
}

#[test]
fn name_map_insert_get_remove() {
    let mut m: NameMap<u32> = NameMap::new();
    m.insert("a".to_owned(), 1);
    m.insert("b".to_owned(), 2);
    m.insert("a".to_owned(), 3);
    assert_eq!(m.get("a"), Some(&3));
    assert_eq!(m.get("b"), Some(&2));
    assert!(m.contains_key("b"));
    assert_eq!(m.take("b"), Some(2));
    assert!(!m.contains_key("b"));
    m.remove("a");
    assert_eq!(m.get("a"), None);
}

#[test]
fn name_set_keeps_one_copy() {
    let mut s = NameSet::new();
    s.insert("x".to_owned());
    s.insert("x".to_owned());
    s.insert("y".to_owned());
    assert_eq!(s.names().len(), 2);
    assert!(s.contains("y"));
    assert!(!s.contains("z"));
}

#[test]
fn list_helpers() {
    let names = vec!["#a".to_owned(), "b".to_owned(), "#c".to_owned()];
    assert!(list_contains(&names, "b"));
    assert!(!list_contains(&names, "B"));
    let mut list = names.clone();
    retain_names(&mut list, &["b".to_owned(), "#zz".to_owned()]);
    assert_eq!(list, vec!["#a".to_owned(), "#c".to_owned()]);
}

#[test]
fn chat_kinds() {
    assert!(is_channel("#osu"));
    assert!(!is_channel("peppy"));
    assert_eq!(chat_type("#osu"), ChatType::Channel);
    assert_eq!(chat_type("$server"), ChatType::System);
    assert_eq!(chat_type("peppy"), ChatType::Person);
}

#[test]
fn chat_basics() {
    let mut c = Chat::new("#OSU");
    assert_eq!(c.name, "#OSU");
    assert_eq!(c.normalized_name, "#osu");
    assert_eq!(c.state, ChatState::Left);
    c.push(Message::new_text("a", "hi"), false);
    c.push(Message::new_action("a", "waves"), false);
    assert_eq!(c.messages.len(), 2);
    assert_eq!(c.messages[1].message_type, MessageType::Action);
    c.set_state(ChatState::Joined);
    c.clear();
    assert!(c.messages.is_empty());
    assert_eq!(c.state, ChatState::Joined);
}

#[test]
fn system_message_has_no_author() {
    let m = Message::new_system("welcome");
    assert_eq!(m.username, "");
    assert_eq!(m.message_type, MessageType::System);
    assert!(!m.highlight);
    let mut d = m.duplicate();
    d.set_original_chat("#osu");
    assert_eq!(d.original_chat.as_deref(), Some("#osu"));
    assert_eq!(d.text, "welcome");
}

#[test]
fn sound_descriptions() {
    assert_eq!(Sound::BuiltIn(BuiltInSound::TwoTone).describe(), "built-in (two-tone)");
    assert_eq!(BuiltInSound::DoubleBell.name(), "double bell");
    assert_eq!(BuiltInSound::PartyHorn.file_name(), "party-horn.mp3");
}

#[test]
fn settings_save_goes_back_to_their_file() {
    let s = settings_at(Source::CustomPath("/tmp/steel.yaml".to_owned()));
    match s.save() {
        Source::CustomPath(p) => assert_eq!(p, "/tmp/steel.yaml"),
        Source::DefaultPath => panic!("wrong path"),
    }
    assert_eq!(s.chat_position(), ChatPosition::Bottom);
    assert_eq!(s.words().len(), 0);
}

#[test]
fn settings_reload_keeps_the_path() {
    let mut s = settings_at(Source::CustomPath("/a.yaml".to_owned()));
    let mut loaded = settings_at(Source::DefaultPath);
    loaded.chat.username = "Bob".to_owned();
    s.reload(loaded);
    assert_eq!(s.chat.username, "Bob");
    assert_eq!(s.save().custom_path(), Some("/a.yaml"));
}

#[test]
fn update_source_from_url() {
    match UpdateSource::from("https://api.github.com/repos/x/y/releases".to_owned()) {
        UpdateSource::GitHub(u) => assert_eq!(u, "https://api.github.com/repos/x/y/releases"),
        UpdateSource::Gist(_) => panic!("expected GitHub"),
    }
    match UpdateSource::from("https://gist.github.com/abc".to_owned()) {
        UpdateSource::Gist(u) => assert_eq!(u, "https://gist.github.com/abc"),
        UpdateSource::GitHub(_) => panic!("expected gist"),
    }
    assert_eq!(default_update_url(), RECENT_RELEASES_METADATA_URL);
    assert!(!should_force_update(RECENT_RELEASES_METADATA_URL));
    assert!(should_force_update("https://gist.github.com/abc"));
}

#[test]
fn toggling_autoupdate_on_also_checks() {
    let r = toggle_requests(true);
    assert!(matches!(r[..], [BackendRequest::SetAutoupdateStatus(true), BackendRequest::InitiateAutoupdate]));
    let r = toggle_requests(false);
    assert!(matches!(r[..], [BackendRequest::SetAutoupdateStatus(false)]));
}

#[test]
fn change_settings_requests() {
    let mut u = Updater::new(AutoUpdate { enabled: false, url: "u1".to_owned() });
    let same = u.change_settings(AutoUpdate { enabled: false, url: "u1".to_owned() });
    assert!(same.is_empty());
    let r = u.change_settings(AutoUpdate { enabled: true, url: "u2".to_owned() });
    assert_eq!(r.len(), 3);
    assert!(matches!(&r[0], BackendRequest::ChangeURL(u) if u == "u2"));
    assert!(matches!(r[1], BackendRequest::SetAutoupdateStatus(true)));
    assert!(matches!(r[2], BackendRequest::InitiateAutoupdate));
    assert!(u.settings.enabled);
}

#[test]
fn update_cycle_timing() {
    let settings = AutoUpdate { enabled: true, url: RECENT_RELEASES_METADATA_URL.to_owned() };
    let mut c = UpdateCycle::new(&settings);
    assert!(!c.force_update);
    assert!(c.start_cycle(1000));
    assert!(!c.start_cycle(1599));
    assert!(c.start_cycle(1600));
    assert_eq!(c.last_autoupdate_run, Some(1600));
    c.autoupdate = false;
    assert!(!c.start_cycle(100000));
}

#[test]
fn forced_cycle_and_url_test() {
    let settings = AutoUpdate { enabled: false, url: "https://gist.github.com/x".to_owned() };
    let mut c = UpdateCycle::new(&settings);
    assert!(c.force_update);
    assert!(c.start_cycle(5));
    assert!(c.finish_cycle(false, true));
    assert!(!c.force_update);
    assert!(!c.finish_cycle(false, true));
    assert!(!c.finish_cycle(true, false));
    assert!(c.finish_cycle(true, true));
    assert!(!c.apply_url_test(Err("bad".to_owned())));
    assert_eq!(c.url_test_result, Some(Err("bad".to_owned())));
    assert!(c.apply_url_test(Ok(UpdateSource::GitHub("g".to_owned()))));
    assert!(c.force_update);
    assert!(c.src.is_at("g"));
    c.confirm_url();
    assert_eq!(c.url_test_result, Some(Ok(())));
}

#[test]
fn picks_newest_release_with_a_file() {
    let r = |major, minor, patch, has| ReleaseInfo { major, minor, patch, has_platform_asset: has };
    let list = vec![r(0, 8, 1, true), r(0, 9, 0, false), r(0, 8, 3, true), r(0, 8, 3, true)];
    assert_eq!(pick_release(&list), Some(2));
    assert_eq!(pick_release(&[r(1, 0, 0, false)]), None);
    assert_eq!(pick_release(&[]), None);
}

#[test]
fn download_chunks() {
    assert_eq!(DOWNLOAD_CHUNK_SIZE, 1 << 18);
    assert_eq!(next_chunk_size(None, 12345), 1 << 18);
    assert_eq!(next_chunk_size(Some(1_000_000), 1_000_000 - 100), 100);
    assert_eq!(next_chunk_size(Some(1_000_000), 0), 1 << 18);
    assert_eq!(next_chunk_size(Some(10), 10), 0);
}

#[test]
fn release_file_names() {
    assert_eq!(backup_file_name("steel.exe"), "steel.exe.old");
    assert_eq!(
        unknown_archive_message("rar"),
        "unknown archive extension rar -- you might be able to deal with it yourself"
    );
}

#[test]
fn release_status_names_the_release_or_the_error() {
    let r = |major, minor, patch, has| ReleaseInfo { major, minor, patch, has_platform_asset: has };
    assert_eq!(release_status(&[r(0, 1, 0, true), r(0, 2, 0, true)]), Ok(1));
    assert_eq!(
        release_status(&[r(0, 9, 0, false)]),
        Err("no suitable release found for your platform".to_owned())
    );
    assert_eq!(release_status(&[]), Err("no suitable release found for your platform".to_owned()));
}

#[test]
fn download_of_known_length_finishes_with_all_bytes() {
    let mut d = Download::new(Some(5));
    assert_eq!(d.receive(vec![], false), DownloadStep::Progress { received: 0, next: 5 });
    assert_eq!(d.receive(vec![1, 2, 3, 4, 5], false), DownloadStep::Finished { received: 5 });
    assert_eq!(d.into_data(), vec![1, 2, 3, 4, 5]);
}

#[test]
fn download_reads_in_chunks_and_can_be_stopped() {
    let total = DOWNLOAD_CHUNK_SIZE + 10;
    let mut d = Download::new(Some(total));
    assert_eq!(d.receive(vec![], false), DownloadStep::Progress { received: 0, next: DOWNLOAD_CHUNK_SIZE });
    assert_eq!(
        d.receive(vec![7; DOWNLOAD_CHUNK_SIZE], false),
        DownloadStep::Progress { received: DOWNLOAD_CHUNK_SIZE, next: 10 }
    );
    assert_eq!(d.receive(vec![1; 10], true), DownloadStep::Aborted);

    let mut u = Download::new(None);
    assert_eq!(u.receive(vec![1, 2], false), DownloadStep::Progress { received: 2, next: DOWNLOAD_CHUNK_SIZE });
    assert_eq!(u.into_data(), vec![1, 2]);
}
