use yoyopod::snapshot::{
    ListItemSnapshot, RuntimeSnapshot, RuntimeSnapshotDomain, RuntimeSnapshotPatch, UiScreen,
    VoiceNoteSummarySnapshot,
};
use yoyopod::tracking::{LocationSettings, TrackingEngine};
use yoyopod::ui_state::{
    advance, advance_clamped, clamp, focus_count, format_stopwatch_duration, power_page_count,
    voice_note_action_count, DirtyState, StopwatchPhase, StopwatchState, SystemOverlayState,
};

fn note() -> VoiceNoteSummarySnapshot {
    VoiceNoteSummarySnapshot {
        message_id: String::new(),
        direction: String::new(),
        delivery_state: String::new(),
        local_file_path: String::new(),
        duration_ms: 0,
        unread: false,
        display_name: String::new(),
    }
}

#[test]
fn replay_removes_next_from_focus_on_the_last_recording() {
    let contact = ListItemSnapshot::new("mama", "Mama", "", "mono:M");
    let mut snapshot = RuntimeSnapshot::default();
    snapshot.call.voice_notes_by_contact.push((contact.id.clone(), vec![note(), note()]));

    assert_eq!(focus_count(UiScreen::Replay, &snapshot, None, Some(&contact), 0), 3);
    assert_eq!(focus_count(UiScreen::Replay, &snapshot, None, Some(&contact), 1), 2);
}

#[test]
fn focus_counts_per_screen() {
    let mut snapshot = RuntimeSnapshot::default();
    assert_eq!(focus_count(UiScreen::Hub, &snapshot, None, None, 0), 4);
    assert_eq!(focus_count(UiScreen::Listen, &snapshot, None, None, 0), 3);
    assert_eq!(focus_count(UiScreen::TalkContact, &snapshot, None, None, 0), 3);
    assert_eq!(focus_count(UiScreen::Power, &snapshot, None, None, 0), 4);
    assert_eq!(focus_count(UiScreen::Ask, &snapshot, None, None, 0), 0);
    snapshot.hub.cards.clear();
    assert_eq!(focus_count(UiScreen::Hub, &snapshot, None, None, 0), 1);
    snapshot.power.rows.push("Battery 80%".to_string());
    assert_eq!(power_page_count(&snapshot), 1);
    snapshot.voice.phase = "  Review ".to_string();
    assert_eq!(voice_note_action_count(&snapshot), 3);
    snapshot.voice.ptt_active = true;
    assert_eq!(voice_note_action_count(&snapshot), 0);
}

#[test]
fn focus_moves_wrap_and_clamp() {
    assert_eq!(advance(2, 3), 0);
    assert_eq!(advance(5, 0), 5);
    assert_eq!(advance_clamped(2, 3), 2);
    assert_eq!(advance_clamped(0, 3), 1);
    assert_eq!(advance_clamped(7, 0), 0);
    assert_eq!(clamp(9, 3), 2);
    assert_eq!(clamp(1, 3), 1);
    assert_eq!(clamp(1, 0), 0);
}

#[test]
fn stopwatch_runs_pauses_resumes_and_resets() {
    let mut stopwatch = StopwatchState::new();
    assert_eq!(stopwatch.action_label(0), "Start");
    stopwatch.activate(0, 1_000);
    assert_eq!(stopwatch.phase, StopwatchPhase::Running);
    assert_eq!(stopwatch.elapsed_ms(4_500), 3_500);
    assert!(stopwatch.advance_display(4_500));
    assert!(!stopwatch.advance_display(4_550));
    stopwatch.activate(0, 6_000);
    assert_eq!(stopwatch.phase, StopwatchPhase::Paused);
    assert_eq!(stopwatch.elapsed_ms(60_000), 5_000);
    assert_eq!(stopwatch.action_count(), 2);
    assert_eq!(stopwatch.action_label(1), "Reset");
    assert_eq!(stopwatch.action_icon(1), "reset_sm");
    stopwatch.activate(0, 10_000);
    assert_eq!(stopwatch.elapsed_ms(11_000), 6_000);
    assert_eq!(stopwatch.display_text(11_000), "00:06.0");
    stopwatch.activate(0, 12_000);
    stopwatch.activate(1, 13_000);
    assert_eq!(stopwatch, StopwatchState::new());
}

#[test]
fn stopwatch_text_switches_to_hours() {
    assert_eq!(format_stopwatch_duration(0), "00:00.0");
    assert_eq!(format_stopwatch_duration(61_250), "01:01.2");
    assert_eq!(format_stopwatch_duration(3_599_999), "59:59.9");
    assert_eq!(format_stopwatch_duration(3_600_000), "01:00:00");
    assert_eq!(format_stopwatch_duration(36_061_000), "10:01:01");
}

#[test]
fn dirty_state_marks_patched_domains() {
    let mut dirty = DirtyState::clean();
    assert!(!dirty.any());
    dirty.mark_patch_domain(RuntimeSnapshotDomain::AppState);
    assert!(dirty.app_state && dirty.navigation && !dirty.hub);
    let mut animation = DirtyState::clean();
    animation.animation = true;
    assert!(animation.animation_only());
    animation.power = true;
    assert!(!animation.animation_only());
    let mut full = DirtyState::clean();
    full.mark_full();
    assert!(full.full && full.stopwatch && !full.input && !full.animation);
    assert_eq!(RuntimeSnapshotPatch::AppState(UiScreen::Talk).domain(), RuntimeSnapshotDomain::AppState);
}

#[test]
fn overlay_resets_are_independent() {
    let mut overlay = SystemOverlayState::new();
    overlay.loading_visible = true;
    overlay.error_signature = "x".to_string();
    overlay.reset_loading();
    assert!(!overlay.loading_visible);
    assert_eq!(overlay.error_signature, "x");
    overlay.loading_announced = true;
    overlay.reset_error();
    assert!(overlay.error_signature.is_empty());
    assert!(overlay.loading_announced);
    overlay.reset();
    assert!(!overlay.loading_announced);
}

#[test]
fn location_settings_reject_out_of_range_intervals() {
    assert!(LocationSettings::defaults().validate().is_ok());
    let bad = LocationSettings { background_tracking_enabled: true, moving_interval_seconds: 10, stationary_interval_seconds: 300 };
    assert_eq!(bad.validate(), Err("moving_interval_out_of_range"));
    let bad = LocationSettings { background_tracking_enabled: true, moving_interval_seconds: 600, stationary_interval_seconds: 300 };
    assert_eq!(bad.validate(), Err("stationary_interval_before_moving"));
    let bad = LocationSettings { background_tracking_enabled: true, moving_interval_seconds: 60, stationary_interval_seconds: 4000 };
    assert_eq!(bad.validate(), Err("stationary_interval_out_of_range"));
}

#[test]
fn legacy_cloud_config_uses_single_interval_as_stationary_fallback() {
    let config: serde_json::Value = serde_json::from_str(
        r#"{
            "features": {"location_tracking": false},
            "connectivity": {"location_report_interval_seconds": 600}
        }"#,
    )
    .expect("valid JSON");
    let settings = LocationSettings::from_cloud_config(&config).unwrap();
    assert!(!settings.background_tracking_enabled);
    assert_eq!(settings.moving_interval_seconds, 60);
    assert_eq!(settings.stationary_interval_seconds, 600);
}

#[test]
fn stationary_mode_requires_two_low_motion_samples() {
    let mut engine = TrackingEngine::new(LocationSettings::defaults());
    assert!(engine.observe_motion(false, 0));
    assert!(!engine.stationary);
    assert!(!engine.observe_motion(false, 30_000));
    assert!(engine.stationary);
    assert!(!engine.observe_motion(false, 60_000));
    assert!(engine.observe_motion(false, 300_000));
}

#[test]
fn speed_or_displacement_selects_moving_interval() {
    let mut engine = TrackingEngine::new(LocationSettings::defaults());
    assert!(engine.observe_motion(false, 0));
    assert!(!engine.observe_motion(false, 30_000));
    assert!(engine.observe_motion(true, 60_000));
    assert!(!engine.stationary);
    assert!(engine.observe_motion(true, 120_000));
}

#[test]
fn sampling_waits_thirty_seconds_and_stops_when_disabled() {
    let mut engine = TrackingEngine::new(LocationSettings::defaults());
    assert!(engine.sample_due(0));
    engine.record_no_fix(1_000);
    assert!(!engine.sample_due(30_999));
    assert!(engine.sample_due(31_000));
    let mut off = LocationSettings::defaults();
    off.background_tracking_enabled = false;
    engine.apply_settings(off);
    assert!(!engine.sample_due(100_000));
    assert_eq!(engine.last_sample_at_ms, None);
}

#[test]
fn cloud_config_settings_object_is_taken_as_it_stands() {
    let direct: serde_json::Value = serde_json::from_str(
        r#"{"background_tracking_enabled": false, "moving_interval_seconds": 45,
            "stationary_interval_seconds": 600,
            "connectivity": {"location_moving_interval_seconds": 900}}"#,
    )
    .expect("valid JSON");
    assert_eq!(
        LocationSettings::from_cloud_config(&direct),
        Ok(LocationSettings {
            background_tracking_enabled: false,
            moving_interval_seconds: 45,
            stationary_interval_seconds: 600,
        })
    );
    let defaults: serde_json::Value = serde_json::from_str("[]").expect("valid JSON");
    assert_eq!(LocationSettings::from_cloud_config(&defaults), Ok(LocationSettings::defaults()));
    let too_fast: serde_json::Value =
        serde_json::from_str(r#"{"connectivity": {"location_moving_interval_seconds": 10}}"#)
            .expect("valid JSON");
    assert_eq!(
        LocationSettings::from_cloud_config(&too_fast),
        Err("moving_interval_out_of_range")
    );
    let from_cloud_fields = LocationSettings::from_cloud_fields(None, Some(false), None, None, Some(600));
    assert_eq!(from_cloud_fields.map(|s| s.stationary_interval_seconds), Ok(600));
}
