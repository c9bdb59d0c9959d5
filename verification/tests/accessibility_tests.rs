use yoyopod::accessibility::{focused_item, HomeMode};
use yoyopod::snapshot::{ListItemSnapshot, RuntimeSnapshot, UiScreen, VoiceNoteSummarySnapshot};
use yoyopod::ui_state::focus_count;

fn spoken(screen: UiScreen, focus: usize, snapshot: &RuntimeSnapshot, contact: Option<&ListItemSnapshot>) -> Option<String> {
    focused_item(screen, HomeMode::Idle, focus, snapshot, None, contact).map(|item| item.label)
}

fn voice_note() -> VoiceNoteSummarySnapshot {
    VoiceNoteSummarySnapshot {
        message_id: String::new(),
        direction: String::new(),
        delivery_state: String::new(),
        local_file_path: String::new(),
        duration_ms: 0,
        unread: false,
        display_name: String::new(),
    }
}

#[test]
fn dynamic_lists_speak_the_rendered_item_and_empty_state() {
    let mut snapshot = RuntimeSnapshot::default();
    assert_eq!(spoken(UiScreen::Playlists, 0, &snapshot, None).unwrap(), "No playlists");

    snapshot.music.playlists = vec![ListItemSnapshot::new("bedtime", "Bedtime songs", "3 tracks", "playlist")];
    assert_eq!(spoken(UiScreen::Playlists, 0, &snapshot, None).unwrap(), "Bedtime songs");
    assert_eq!(spoken(UiScreen::Playlists, 4, &snapshot, None).unwrap(), "Bedtime songs");
}

#[test]
fn transport_labels_follow_live_playback_state() {
    let mut snapshot = RuntimeSnapshot::default();
    assert_eq!(spoken(UiScreen::NowPlaying, 1, &snapshot, None).unwrap(), "Play");

    snapshot.music.playing = true;
    assert_eq!(spoken(UiScreen::NowPlaying, 1, &snapshot, None).unwrap(), "Pause");
    let item = focused_item(UiScreen::NowPlaying, HomeMode::Idle, 9, &snapshot, None, None).unwrap();
    assert_eq!(item.key, "item_2");
    assert_eq!(item.label, "Next");
}

#[test]
fn replay_has_a_spoken_empty_state() {
    let mut snapshot = RuntimeSnapshot::default();
    assert_eq!(spoken(UiScreen::Replay, 0, &snapshot, None).unwrap(), "No recordings");

    let contact = ListItemSnapshot::new("mama", "Mama", "", "mono:M");
    snapshot.call.voice_notes_by_contact.push((contact.id.clone(), vec![voice_note()]));
    assert_eq!(spoken(UiScreen::Replay, 0, &snapshot, Some(&contact)).unwrap(), "Delete");
}

#[test]
fn setup_root_labels_match_the_rendered_wheel_order() {
    let snapshot = RuntimeSnapshot::default();
    assert_eq!(spoken(UiScreen::Setup, 5, &snapshot, None).unwrap(), "Wi-Fi");
    assert_eq!(spoken(UiScreen::Setup, 6, &snapshot, None).unwrap(), "About");
    let count = focus_count(UiScreen::Setup, &snapshot, None, None, 0);
    assert_eq!(count, 7);
    assert!(spoken(UiScreen::Setup, count.saturating_sub(1), &snapshot, None).is_some());
    assert_eq!(spoken(UiScreen::Setup, 0, &snapshot, None).unwrap(), "Volume, level 5");
    assert_eq!(spoken(UiScreen::Setup, 2, &snapshot, None).unwrap(), "Contacts, 0");
    assert_eq!(spoken(UiScreen::Setup, 4, &snapshot, None).unwrap(), "Speak names, on");
}

#[test]
fn choices_mark_the_current_setting() {
    let mut snapshot = RuntimeSnapshot::default();
    snapshot.settings.companion = "bunny".to_string();
    assert_eq!(spoken(UiScreen::SetupCompanion, 3, &snapshot, None).unwrap(), "Bunny, current");
    assert_eq!(spoken(UiScreen::SetupCompanion, 0, &snapshot, None).unwrap(), "Blob");
    snapshot.settings.volume_level = -3;
    assert_eq!(spoken(UiScreen::SetupVolume, 0, &snapshot, None).unwrap(), "Volume, level -3");
}

#[test]
fn hub_speaks_cards_only_when_focused() {
    let snapshot = RuntimeSnapshot::default();
    assert!(spoken(UiScreen::Hub, 0, &snapshot, None).is_none());
    let focused = focused_item(UiScreen::Hub, HomeMode::Focused, 0, &snapshot, None, None);
    assert_eq!(focused.is_some(), !snapshot.hub.cards.is_empty());
    assert!(spoken(UiScreen::Ask, 0, &snapshot, None).is_none());
    assert_eq!(spoken(UiScreen::OutgoingCall, 0, &snapshot, None).unwrap(), "Hang up");
}
