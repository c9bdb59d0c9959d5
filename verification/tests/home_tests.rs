use yoyopod::accessibility::HomeMode;
use yoyopod::home::{advance_ask_state, clear_ask_failure, HomeClock};
use yoyopod::snapshot::VoiceRuntimeSnapshot;

#[test]
fn home_focus_fades_to_idle_then_ambient_and_a_press_wakes_it() {
    let mut clock = HomeClock::new();
    clock.home_mode = HomeMode::Focused;
    clock.record_input(100);
    assert!(!clock.advance_home_state(true, 8_099));
    assert_eq!(clock.home_mode, HomeMode::Focused);
    assert!(clock.advance_home_state(true, 8_100));
    assert_eq!(clock.home_mode, HomeMode::Idle);
    assert!(clock.dirty.focus);
    assert!(!clock.dirty.navigation);

    assert!(!clock.advance_home_state(true, 30_099));
    assert!(clock.advance_home_state(true, 30_100));
    assert_eq!(clock.home_mode, HomeMode::Ambient);
    assert_eq!(clock.scene_revision, 1);
    assert!(clock.dirty.navigation);

    clock.focus_index = 2;
    assert!(clock.wake_home_from_ambient(true, 30_200));
    assert_eq!(clock.home_mode, HomeMode::Focused);
    assert_eq!(clock.focus_index, 0);
    assert_eq!(clock.scene_revision, 2);
    assert_eq!(clock.last_input_ms, Some(30_200));
    assert!(!clock.wake_home_from_ambient(true, 30_300));
}

#[test]
fn home_clock_waits_off_the_home_screen() {
    let mut clock = HomeClock::new();
    assert!(!clock.advance_home_state(false, 50_000));
    assert_eq!(clock.last_input_ms, Some(50_000));
    assert!(!clock.advance_home_state(false, 90_000));
    assert_eq!(clock.home_mode, HomeMode::Idle);
    assert!(clock.advance_home_state(true, 90_000));
    assert_eq!(clock.home_mode, HomeMode::Ambient);
    clock.scene_revision = u32::MAX;
    clock.home_mode = HomeMode::Ambient;
    assert!(clock.wake_home_from_ambient(true, 1));
    assert_eq!(clock.scene_revision, 0);
    assert!(!clock.wake_home_from_ambient(false, 2));
}

#[test]
fn ask_failure_clears_after_four_seconds() {
    let mut started = None;
    assert!(!advance_ask_state(&mut started, true, true, 1_000));
    assert!(!advance_ask_state(&mut started, true, true, 4_999));
    assert_eq!(started, Some(1_000));
    assert!(advance_ask_state(&mut started, true, true, 5_000));
    assert_eq!(started, None);
    assert!(!advance_ask_state(&mut started, false, true, 6_000));
    assert_eq!(started, None);

    let mut voice = VoiceRuntimeSnapshot::default();
    voice.ask_unavailable = true;
    voice.phase = "offline".to_string();
    voice.playback_active = true;
    clear_ask_failure(&mut voice);
    assert!(!voice.ask_unavailable);
    assert_eq!(voice.phase, "idle");
    assert_eq!(voice.headline, "Ask");
    assert_eq!(voice.body, "Ask me anything...");
    assert!(!voice.playback_active);
}
