use yoyopod::audio::{route_accessory_ids, AudioManager, AudioOperationError, AudioSettings, BuiltinAudioDevices};
use yoyopod::bluetooth::{BluetoothAccessory, BluetoothCapabilities, BluetoothState};
use yoyopod::dispatch::{
    audio_operation_replies, command_plan, pending_change_replies, refusal_replies, shutdown_replies,
    wifi_change_start_replies, wifi_operation_replies, AccessoryAction, CommandPlan,
    WorkerReply,
};
use yoyopod::library::{is_playlist_file, parse_extinf, playlist_entry_targets, playlist_from_text, playlist_tracks};
use yoyopod::wifi::{
    sanitize_ssid, WifiChangeOperation, WifiChangeStart, WifiOperationError, WifiState, WifiStateStatus,
};
use yoyopod::worker::{state_after_rollback, PendingChangeOutcome, PendingWifiChange};
use yoyopod::worker_loop::{runtime_step, startup_actions, LoopAction, LoopEvent, LoopState, StartupAction};

fn payload(text: &str) -> serde_json::Value {
    serde_json::from_str(text).expect("json")
}

fn refused(plan: &CommandPlan) -> (String, String, String, bool, bool) {
    match plan {
        CommandPlan::Refuse { message_type, code, message, refresh_wifi, clear_setup_screen } => {
            (message_type.clone(), code.clone(), message.clone(), *refresh_wifi, *clear_setup_screen)
        }
        other => panic!("expected a refusal, got {other:?}"),
    }
}

#[test]
fn unknown_command_is_refused_as_unsupported() {
    let plan = command_plan(false, None, "fly_to_moon", Some("r1"), &payload("{}"));
    let (t, code, message, refresh, clear) = refused(&plan);
    assert_eq!(t, "network.error");
    assert_eq!(code, "unsupported_command");
    assert_eq!(message, "unsupported command fly_to_moon");
    assert!(!refresh && !clear);
}

#[test]
fn station_commands_are_refused_while_setup_runs() {
    let plan = command_plan(true, None, "wifi_scan", Some("r1"), &payload("{}"));
    let (t, code, message, _, _) = refused(&plan);
    assert_eq!(t, "wifi_error");
    assert_eq!(code, "wifi_provisioning_in_progress");
    assert_eq!(message, "Wi-Fi setup is in progress on the device");
}

#[test]
fn station_commands_are_refused_while_a_change_waits() {
    let plan = command_plan(false, Some("act-1"), "wifi_scan", Some("r2"), &payload("{}"));
    let (_, code, message, _, _) = refused(&plan);
    assert_eq!(code, "wifi_change_in_progress");
    assert_eq!(message, "Another Wi-Fi connectivity change is already in progress");
}

#[test]
fn activation_without_correlation_reference_is_refused_with_refresh() {
    let plan = command_plan(false, None, "wifi_activate_profile", None, &payload("{\"profile_id\":\"p\"}"));
    let (t, code, message, refresh, _) = refused(&plan);
    assert_eq!(t, "wifi_error");
    assert_eq!(code, "wifi_invalid_request");
    assert_eq!(message, "The Wi-Fi activation request is missing its correlation reference");
    assert!(refresh);
}

#[test]
fn blank_profile_reference_is_refused_with_refresh() {
    let plan = command_plan(false, None, "wifi_forget_profile", Some("r"), &payload("{\"profile_id\":\"  \"}"));
    let (_, code, message, refresh, _) = refused(&plan);
    assert_eq!(code, "wifi_invalid_request");
    assert_eq!(message, "The saved Wi-Fi network reference is invalid");
    assert!(refresh);
    let plan = command_plan(false, None, "wifi_forget_profile", Some("r"), &payload("{\"profile_id\":\"home\"}"));
    assert!(matches!(plan, CommandPlan::WifiForgetProfile { ref profile_id } if profile_id == "home"));
}

#[test]
fn confirmation_must_match_the_pending_change() {
    let plan = command_plan(
        false,
        Some("act-1"),
        "wifi_confirm_change",
        Some("c"),
        &payload("{\"activation_command_id\":\"act-2\"}"),
    );
    let (_, code, message, _, _) = refused(&plan);
    assert_eq!(code, "wifi_confirmation_mismatch");
    assert_eq!(message, "The Wi-Fi confirmation did not match the pending change");
    let plan = command_plan(
        false,
        Some("act-1"),
        "wifi_confirm_change",
        Some("c"),
        &payload("{\"activation_command_id\":\"act-1\"}"),
    );
    assert!(matches!(plan, CommandPlan::WifiConfirmChange));
    let plan = command_plan(false, None, "wifi_confirm_change", Some("c"), &payload("{}"));
    assert!(matches!(plan, CommandPlan::Nothing));
}

#[test]
fn provisioning_stop_while_idle_reports_idle() {
    let plan = command_plan(false, None, "wifi_provisioning_stop", None, &payload("{}"));
    assert!(matches!(plan, CommandPlan::ProvisioningIdle));
    let plan = command_plan(true, None, "wifi_provisioning_stop", None, &payload("{}"));
    assert!(matches!(plan, CommandPlan::ProvisioningStop));
    let plan = command_plan(true, None, "wifi_provisioning_start", None, &payload("{}"));
    assert!(matches!(plan, CommandPlan::Nothing));
}

#[test]
fn audio_level_commands_read_level_or_cycle() {
    let plan = command_plan(false, None, "audio_set_output_level", None, &payload("{\"level\":40}"));
    assert!(matches!(plan, CommandPlan::AudioSetLevel(40)));
    let plan = command_plan(false, None, "audio_set_output_level", None, &payload("{\"level\":140,\"cycle\":true}"));
    assert!(matches!(plan, CommandPlan::AudioCycleLevel));
    let plan = command_plan(false, None, "audio_set_output_level", None, &payload("{\"level\":140}"));
    let (t, code, message, _, _) = refused(&plan);
    assert_eq!(t, "audio_error");
    assert_eq!(code, "audio_invalid_settings");
    assert_eq!(message, "Audio output level must be a 0 to 100 value or a cycle request");
    let plan = command_plan(false, None, "audio_test_input", None, &payload("{}"));
    assert!(matches!(plan, CommandPlan::AudioTestInput { duration_seconds: 10 }));
}

#[test]
fn accessory_commands_need_an_accessory_reference() {
    let plan = command_plan(false, None, "bluetooth_connect", Some("b"), &payload("{\"accessory_id\":\"a1\"}"));
    assert!(matches!(
        plan,
        CommandPlan::BluetoothAccessory { action: AccessoryAction::Connect, ref accessory_id } if accessory_id == "a1"
    ));
    let plan = command_plan(false, None, "bluetooth_pair", Some("b"), &payload("{}"));
    let (t, code, message, _, _) = refused(&plan);
    assert_eq!(t, "bluetooth_error");
    assert_eq!(code, "bluetooth_invalid_request");
    assert_eq!(message, "Bluetooth accessory reference is invalid");
}

#[test]
fn failed_wifi_operation_answers_error_then_refreshed_state() {
    let error = WifiOperationError { code: "wifi_operation_failed".to_string(), message: "boom".to_string() };
    let replies = wifi_operation_replies(
        Some("r9".to_string()),
        Err(error),
        Some(Err(WifiOperationError::unavailable())),
    );
    assert_eq!(replies.len(), 2);
    match &replies[0] {
        WorkerReply::Error { message_type, request_id, code, message } => {
            assert_eq!(message_type, "wifi_error");
            assert_eq!(request_id.as_deref(), Some("r9"));
            assert_eq!(code, "wifi_operation_failed");
            assert_eq!(message, "boom");
        }
        other => panic!("unexpected {other:?}"),
    }
    match &replies[1] {
        WorkerReply::WifiStateEvent(s) => assert_eq!(s.status, WifiStateStatus::Unavailable),
        other => panic!("unexpected {other:?}"),
    }
}

#[test]
fn refusal_during_change_clears_the_setup_screen() {
    let replies = refusal_replies(
        "wifi_error".to_string(),
        "wifi_change_in_progress".to_string(),
        "busy".to_string(),
        None,
        None,
        true,
    );
    assert_eq!(replies.len(), 2);
    match &replies[1] {
        WorkerReply::ProvisioningState(s) => {
            assert_eq!(s.phase, "error");
            assert!(!s.active);
        }
        other => panic!("unexpected {other:?}"),
    }
}

#[test]
fn rollback_after_timeout_reports_error_then_state() {
    let state = state_after_rollback(Err(WifiOperationError::unavailable()));
    assert_eq!(state.status, WifiStateStatus::Unavailable);
    let replies = pending_change_replies(PendingChangeOutcome::RolledBack {
        request_id: "act-1".to_string(),
        code: "wifi_change_confirmation_timeout",
        message: "timed out",
        state: state.clone(),
    });
    assert_eq!(replies.len(), 2);
    match &replies[0] {
        WorkerReply::Error { message_type, request_id, code, .. } => {
            assert_eq!(message_type, "wifi_error");
            assert_eq!(request_id.as_deref(), Some("act-1"));
            assert_eq!(code, "wifi_change_confirmation_timeout");
        }
        other => panic!("unexpected {other:?}"),
    }
    assert!(matches!(&replies[1], WorkerReply::WifiStateEvent(s) if *s == state));
}

#[test]
fn rollback_state_is_the_rollback_result_when_it_succeeds() {
    let mut restored: WifiState = state_after_rollback(Err(WifiOperationError::unavailable()));
    restored.radio_enabled = true;
    restored.status = WifiStateStatus::Ready;
    let kept = state_after_rollback(Ok(restored.clone()));
    assert_eq!(kept, restored);
}

fn actions(state: LoopState, event: LoopEvent) -> (LoopState, Vec<String>) {
    let (next, v) = runtime_step(state, event);
    (next, v.iter().map(|a| format!("{a:?}")).collect())
}

#[test]
fn blank_line_flushes_pending_snapshots() {
    let (next, v) = actions(LoopState { stopped: false }, LoopEvent::Line("   ".to_string()));
    assert!(!next.stopped);
    assert_eq!(v, vec!["EmitPendingSnapshots".to_string()]);
    let (_, v) = actions(LoopState { stopped: false }, LoopEvent::Line("{}".to_string()));
    assert_eq!(v, vec![format!("{:?}", LoopAction::Decode("{}".to_string()))]);
}

#[test]
fn undecodable_line_gets_protocol_error() {
    let (_, v) = runtime_step(LoopState { stopped: false }, LoopEvent::DecodeFailed("bad json".to_string()));
    assert_eq!(v.len(), 1);
    assert!(matches!(&v[0], LoopAction::ReportError { code, message } if code == "protocol_error" && message == "bad json"));
}

#[test]
fn services_run_in_order_after_a_command_and_a_quiet_interval() {
    let (_, v) = actions(LoopState { stopped: false }, LoopEvent::CommandHandled { shutdown: false });
    assert_eq!(v, vec!["ServicePendingChange", "ServiceProvisioning", "ServiceBluetoothAndAudio"]);
    let (_, v) = actions(LoopState { stopped: false }, LoopEvent::Quiet);
    assert_eq!(
        v,
        vec!["RuntimeTick", "EmitPendingSnapshots", "ServicePendingChange", "ServiceProvisioning", "ServiceBluetoothAndAudio"]
    );
}

#[test]
fn closed_input_shuts_down_and_stays_stopped() {
    let (next, v) = actions(LoopState { stopped: false }, LoopEvent::InputClosed);
    assert!(next.stopped);
    assert_eq!(v, vec![format!("{:?}", LoopAction::ShutdownImplicit("input_closed".to_string())), "Stop".to_string()]);
    let (after, v) = actions(next, LoopEvent::Quiet);
    assert!(after.stopped);
    assert!(v.is_empty());
    let (next, v) = runtime_step(LoopState { stopped: false }, LoopEvent::InputError("eof".to_string()));
    assert!(next.stopped);
    assert_eq!(v.len(), 3);
    assert!(matches!(&v[1], LoopAction::ShutdownImplicit(r) if r == "input_error"));
    assert!(matches!(&v[2], LoopAction::Fail));
}

#[test]
fn startup_boots_the_runtime_only_when_asked() {
    let with = startup_actions(true);
    let without = startup_actions(false);
    assert_eq!(with.len(), 8);
    assert_eq!(without.len(), 7);
    assert_eq!(with[6], StartupAction::BootRuntime);
    assert_eq!(without[6], StartupAction::StartupSnapshots);
    assert_eq!(with[0], StartupAction::AnnounceReady);
}

fn headset_state(id: &str) -> BluetoothState {
    BluetoothState {
        schema_version: 1,
        status: "ready".to_string(),
        radio_enabled: true,
        scanning: false,
        accessories: vec![BluetoothAccessory {
            accessory_id: id.to_string(),
            name: "Headset".to_string(),
            kind: "headset".to_string(),
            paired: true,
            connected: false,
            trusted: true,
            auto_connect: true,
            capabilities: BluetoothCapabilities { output: true, microphone: true, stereo: true, hands_free: true },
            battery_percent: None,
            signal_percent: None,
            last_seen_at: 1,
        }],
        scanned_at: None,
        reported_at: 1,
    }
}

#[test]
fn applying_settings_resolves_to_builtin_when_the_headset_is_away() {
    let id = "9b0692e3-a07a-42f0-9fa7-a7704bbcf777";
    let mut manager = AudioManager::open_at_with_builtin(None, BuiltinAudioDevices::defaults());
    let mut settings = AudioSettings::defaults();
    settings.routes.media_output_id = id.to_string();
    let applied = manager.apply_and_resolve(2, settings, &headset_state(id), 5).expect("apply");
    assert_eq!(applied.state.applied.routes.media_output_id, "builtin-speaker");
    assert_eq!(applied.state.status, "degraded");
    assert_eq!(applied.state.applied_revision, 2);
    assert_eq!(manager.desired.routes.media_output_id, id);
    let stale = manager.apply_and_resolve(1, AudioSettings::defaults(), &headset_state(id), 6);
    assert!(stale.is_err());
    assert_eq!(manager.desired_revision, 2);
}

#[test]
fn setting_the_output_level_resolves_the_new_volume() {
    let mut manager = AudioManager::open_at_with_builtin(None, BuiltinAudioDevices::defaults());
    let applied = manager.set_output_level_and_resolve(30, &headset_state("x"), 5);
    assert_eq!(manager.desired.levels.media, 30);
    assert_eq!(applied.route.media_volume, 30);
}

#[test]
fn sanitized_ssid_drops_controls_and_fits_thirty_two_bytes() {
    assert_eq!(sanitize_ssid(b"Family\nWiFi"), "FamilyWiFi");
    let long = "123456789012345678901234567890\u{e9}\u{e9}";
    let s = sanitize_ssid(long.as_bytes());
    assert_eq!(s.len(), 32);
    assert!(s.ends_with('\u{e9}'));
}

#[test]
fn playlist_text_is_read_against_what_the_disk_holds() {
    let text = "\u{feff}#EXTM3U\n#EXTINF:65,Morning Song\nsongs/a.mp3\n#EXTINF:10,Gone\nmissing.mp3\n/elsewhere/b.mp3\nc.mp3\n";
    let targets = playlist_entry_targets("/music/lists", text);
    assert_eq!(
        targets,
        vec![
            "/music/lists/songs/a.mp3".to_string(),
            "/music/lists/missing.mp3".to_string(),
            "/elsewhere/b.mp3".to_string(),
            "/music/lists/c.mp3".to_string(),
        ]
    );
    let found = vec![
        Some(("/music/lists/songs/a.mp3".to_string(), true)),
        None,
        Some(("/elsewhere/b.mp3".to_string(), true)),
        Some(("/music/lists/c.mp3".to_string(), true)),
    ];
    let tracks = playlist_tracks(text, "/music", &found);
    assert_eq!(tracks.len(), 2);
    assert_eq!(tracks[0].uri, "/music/lists/songs/a.mp3");
    assert_eq!(tracks[0].title, "Morning Song");
    assert_eq!(tracks[0].subtitle, "1:05");
    assert_eq!(tracks[1].uri, "/music/lists/c.mp3");
    assert_eq!(tracks[1].subtitle, "--:--");
    let playlist = playlist_from_text("/music/lists/Mix.m3u", text, "/music", &found);
    assert_eq!(playlist.name, "Mix");
    assert_eq!(playlist.uri, "/music/lists/Mix.m3u");
    assert_eq!(playlist.track_count, 2);
}

#[test]
fn audio_commands_answer_with_state_or_audio_error() {
    let mut manager = AudioManager::open_at_with_builtin(None, BuiltinAudioDevices::defaults());
    let applied = manager.set_output_level_and_resolve(50, &headset_state("x"), 5);
    let replies = audio_operation_replies(Some("a1".to_string()), Ok(applied.clone()));
    assert_eq!(replies.len(), 1);
    assert!(matches!(&replies[0], WorkerReply::AudioAnswer { request_id: Some(r), applied: a }
        if r == "a1" && a.route.media_volume == 50));
    let replies = audio_operation_replies(
        None,
        Err(AudioOperationError { code: "audio_invalid_settings", message: "Audio settings payload is invalid".to_string() }),
    );
    assert!(matches!(&replies[0], WorkerReply::Error { message_type, request_id: None, code, message }
        if message_type == "audio_error" && code == "audio_invalid_settings" && message == "Audio settings payload is invalid"));
}

#[test]
fn shutdown_answers_stopped_for_shutdown() {
    let replies = shutdown_replies(Some("s1".to_string()));
    assert_eq!(replies.len(), 1);
    assert!(matches!(&replies[0], WorkerReply::Stopped { request_id: Some(r), reason } if r == "s1" && reason == "shutdown"));
    let plan = command_plan(false, None, "worker.stop", None, &payload("{}"));
    assert!(matches!(plan, CommandPlan::Shutdown));
}

#[test]
fn change_waiting_for_confirmation_becomes_the_pending_change() {
    let mut pending: Option<PendingWifiChange> = None;
    let replies = wifi_change_start_replies(
        "act-7".to_string(),
        Ok(WifiChangeStart::Pending { profile_id: "home".to_string(), operation: WifiChangeOperation::ActivateProfile }),
        None,
        &mut pending,
        1_000,
    );
    assert!(replies.is_empty());
    let p = pending.as_ref().expect("pending");
    assert_eq!(p.request_id, "act-7");
    assert_eq!(p.profile_id, "home");
    assert_eq!(p.deadline_ms, 61_000);
    assert_eq!(p.next_candidate_at_ms, 1_000);
    assert_eq!(p.candidate_attempt, 0);
    let replies = wifi_change_start_replies(
        "act-8".to_string(),
        Err(WifiOperationError { code: "wifi_invalid_request".to_string(), message: "The IPv4 settings are invalid".to_string() }),
        Some(Err(WifiOperationError::unavailable())),
        &mut pending,
        2_000,
    );
    assert_eq!(replies.len(), 2);
    assert!(matches!(&replies[0], WorkerReply::Error { code, request_id: Some(r), .. }
        if code == "wifi_invalid_request" && r == "act-8"));
    assert_eq!(pending.as_ref().map(|p| p.request_id.as_str()), Some("act-7"));
}

#[test]
fn routes_ask_only_for_connected_capable_accessories() {
    let id = "9b0692e3-a07a-42f0-9fa7-a7704bbcf777";
    let mut settings = AudioSettings::defaults();
    settings.routes.media_output_id = id.to_string();
    settings.routes.communication_output_id = id.to_string();
    let mut state = headset_state(id);
    assert_eq!(route_accessory_ids(&settings, &state), (None, None, None));
    state.accessories[0].connected = true;
    assert_eq!(route_accessory_ids(&settings, &state), (Some(id.to_string()), Some(id.to_string()), None));
    settings.routes.communication_input_id = id.to_string();
    assert_eq!(route_accessory_ids(&settings, &state).2, Some(id.to_string()));
}

#[test]
fn playlist_durations_read_like_i64_parsing() {
    assert_eq!(parse_extinf("125,Song"), Some(("Song".to_string(), "2:05".to_string())));
    assert_eq!(parse_extinf("+60,Song"), Some(("Song".to_string(), "1:00".to_string())));
    assert_eq!(parse_extinf("-5,Song"), Some(("Song".to_string(), "--:--".to_string())));
    assert_eq!(parse_extinf("99999999999999999999,Song"), Some(("Song".to_string(), "--:--".to_string())));
    assert_eq!(parse_extinf("12a,Song"), Some(("Song".to_string(), "--:--".to_string())));
}

#[test]
fn playlists_are_m3u_files_in_any_case() {
    assert!(is_playlist_file("/music/Mix.m3u"));
    assert!(is_playlist_file("/music/Mix.M3U"));
    assert!(!is_playlist_file("/music/song.mp3"));
    assert!(!is_playlist_file("/music/m3u"));
}
