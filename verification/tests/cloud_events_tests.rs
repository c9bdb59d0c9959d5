use yoyopod::cloud_events::{
    auto_send_voice_note_command, commands_for_cloud_command, commands_for_media_snapshot,
    commands_for_network_snapshot, commands_for_voice_focus_prompt_result,
    commands_for_voice_speak_result, media_snapshot_commands, network_snapshot_commands,
    screenshot_log_line, string_field, with_ask_log, worker_error_message, worker_exit_reason,
    ScreenshotCaptured, ScreenshotMethod,
};
use yoyopod::intents::{PayloadValue, RuntimeCommand, VoiceRecipientAction, WorkerDomain, WorkerMessage};

fn json(text: &str) -> serde_json::Value {
    serde_json::from_str(text).expect("valid JSON")
}

fn text(value: &str) -> PayloadValue {
    PayloadValue::Text(value.to_string())
}

fn fields(pairs: Vec<(&str, PayloadValue)>) -> Vec<(String, PayloadValue)> {
    pairs.into_iter().map(|(key, value)| (key.to_string(), value)).collect()
}

fn worker(command: &RuntimeCommand) -> (WorkerDomain, &WorkerMessage) {
    match command {
        RuntimeCommand::WorkerCommand { domain, command } => (*domain, command),
        other => panic!("expected a worker command, got {other:?}"),
    }
}

fn telemetry(entity: &str, value: PayloadValue, attrs: PayloadValue, ts: u64) -> Vec<(String, PayloadValue)> {
    fields(vec![
        ("topic_suffix", text(entity)),
        (
            "payload",
            PayloadValue::Object(fields(vec![
                ("entity", text(entity)),
                ("value", value),
                ("attrs", attrs),
                ("ts", PayloadValue::Count(ts)),
            ])),
        ),
        ("qos", PayloadValue::Int(0)),
    ])
}

#[test]
fn network_snapshot_publishes_link_signal_fix_and_connectivity() {
    let snapshot = json(
        r#"{"snapshot": {
            "app_state": {"connected": true, "connection_type": " 4g ", "signal_bars": 9, "gps_has_fix": true},
            "gps": {"lat": 1}
        }}"#,
    );
    let commands = network_snapshot_commands(&snapshot, 1_700);
    assert_eq!(commands.len(), 4);
    let (domain, ppp) = worker(&commands[0]);
    assert_eq!(domain, WorkerDomain::Cloud);
    assert_eq!(ppp.message_type, "cloud.publish_telemetry");
    assert_eq!(
        ppp.payload,
        telemetry("network.ppp_up", PayloadValue::Flag(true), type_attrs("4g"), 1_700)
    );
    let (_, bars) = worker(&commands[1]);
    assert_eq!(
        bars.payload,
        telemetry("network.signal_bars", PayloadValue::Int(4), type_attrs("4g"), 1_700)
    );
    let (_, fix) = worker(&commands[2]);
    assert_eq!(
        fix.payload,
        telemetry("location.fix", PayloadValue::Flag(true), PayloadValue::Json(json(r#"{"lat": 1}"#)), 1_700)
    );
    let (domain, connectivity) = worker(&commands[3]);
    assert_eq!(domain, WorkerDomain::Cloud);
    assert_eq!(connectivity.message_type, "cloud.publish_connectivity");
    assert_eq!(connectivity.payload, fields(vec![("connection_type", text("4g"))]));
}

fn type_attrs(connection_type: &str) -> PayloadValue {
    PayloadValue::Object(fields(vec![("connection_type", text(connection_type))]))
}

#[test]
fn offline_network_snapshot_falls_back_and_skips_connectivity() {
    let snapshot = json(r#"{"connected": "yes", "signal": {"bars": -3}}"#);
    let commands = network_snapshot_commands(&snapshot, 5);
    assert_eq!(commands.len(), 3);
    assert_eq!(
        worker(&commands[0]).1.payload,
        telemetry("network.ppp_up", PayloadValue::Flag(false), type_attrs("none"), 5)
    );
    assert_eq!(
        worker(&commands[1]).1.payload,
        telemetry("network.signal_bars", PayloadValue::Int(0), type_attrs("none"), 5)
    );
    assert_eq!(
        worker(&commands[2]).1.payload,
        telemetry("location.fix", PayloadValue::Flag(false), PayloadValue::Object(Vec::new()), 5)
    );
    let connected_without_type = json(r#"{"connected": true, "signal_strength": 2}"#);
    let commands = commands_for_network_snapshot(&connected_without_type);
    assert_eq!(commands.len(), 3);
}

#[test]
fn media_snapshot_publishes_playback_state_with_track() {
    let snapshot = json(r#"{"playback_state": "playing", "current_track": {"title": "Song"}}"#);
    let commands = media_snapshot_commands(&snapshot, 42);
    assert_eq!(commands.len(), 1);
    let attrs = PayloadValue::Object(fields(vec![
        ("playback_state", text("playing")),
        ("track", PayloadValue::Json(json(r#"{"title": "Song"}"#))),
    ]));
    assert_eq!(worker(&commands[0]).1.payload, telemetry("music.state", text("playing"), attrs, 42));
    let bare = commands_for_media_snapshot(&json("{}"));
    let payload = &worker(&bare[0]).1.payload;
    match &payload[1].1 {
        PayloadValue::Object(entity) => {
            assert_eq!(entity[1], ("value".to_string(), text("stopped")));
            assert_eq!(
                entity[2],
                (
                    "attrs".to_string(),
                    PayloadValue::Object(fields(vec![("playback_state", text("stopped"))]))
                )
            );
        }
        other => panic!("expected an entity payload, got {other:?}"),
    }
}

#[test]
fn remote_pause_is_acked_by_the_media_result() {
    let commands = commands_for_cloud_command(&json(r#"{"command": " Pause ", "commandId": "c-1"}"#));
    assert_eq!(commands.len(), 1);
    match &commands[0] {
        RuntimeCommand::WorkerCommandWithAck { domain, command, success_ack, failure_ack } => {
            assert_eq!(*domain, WorkerDomain::Media);
            assert_eq!(command.message_type, "media.pause");
            assert!(command.payload.is_empty());
            assert_eq!(success_ack.message_type, "cloud.ack");
            assert_eq!(
                success_ack.payload,
                fields(vec![
                    ("command_id", text("c-1")),
                    ("ok", PayloadValue::Flag(true)),
                    ("payload", PayloadValue::Object(fields(vec![("command", text("pause"))]))),
                ])
            );
            assert_eq!(
                failure_ack.payload,
                fields(vec![
                    ("command_id", text("c-1")),
                    ("ok", PayloadValue::Flag(false)),
                    ("reason", text("media_dispatch_failed")),
                    (
                        "payload",
                        PayloadValue::Object(fields(vec![
                            ("command", text("pause")),
                            ("media_command", text("media.pause")),
                        ]))
                    ),
                ])
            );
        }
        other => panic!("expected an acknowledged media command, got {other:?}"),
    }
}

#[test]
fn remote_commands_without_id_or_support() {
    let stop = commands_for_cloud_command(&json(r#"{"type": "stop"}"#));
    assert_eq!(stop.len(), 1);
    let (domain, message) = worker(&stop[0]);
    assert_eq!(domain, WorkerDomain::Media);
    assert_eq!(message.message_type, "media.stop_playback");

    assert!(commands_for_cloud_command(&json(r#"{"command": "fetch_config", "commandId": "c"}"#)).is_empty());
    assert!(commands_for_cloud_command(&json(r#"{"command": "  ", "commandId": "c"}"#)).is_empty());
    assert!(commands_for_cloud_command(&json(r#"{"command": "reboot"}"#)).is_empty());

    let track = commands_for_cloud_command(&json(r#"{"command": "Play_Track", "command_id": "c-2"}"#));
    let (domain, ack) = worker(&track[0]);
    assert_eq!(domain, WorkerDomain::Cloud);
    assert_eq!(
        ack.payload,
        fields(vec![
            ("command_id", text("c-2")),
            ("ok", PayloadValue::Flag(false)),
            ("reason", text("unsupported_command")),
            (
                "payload",
                PayloadValue::Object(fields(vec![
                    ("command", text("Play_Track")),
                    ("rust_runtime", PayloadValue::Flag(true)),
                ]))
            ),
        ])
    );

    let reboot = commands_for_cloud_command(&json(r#"{"command": "reboot", "commandId": "c-3"}"#));
    assert_eq!(
        worker(&reboot[0]).1.payload[3],
        ("payload".to_string(), PayloadValue::Object(fields(vec![("command", text("reboot"))])))
    );
}

#[test]
fn spoken_audio_and_focus_prompts_are_played_when_current() {
    let payload = json(r#"{"audio_path": " /tmp/answer.wav "}"#);
    let spoken = commands_for_voice_speak_result(&payload);
    let (domain, message) = worker(&spoken[0]);
    assert_eq!(domain, WorkerDomain::Voip);
    assert_eq!(message.message_type, "voip.play_voice_note");
    assert_eq!(message.payload, fields(vec![("file_path", text("/tmp/answer.wav"))]));
    assert!(commands_for_voice_speak_result(&json("{}")).is_empty());

    let prompt = commands_for_voice_focus_prompt_result(Some("r-1"), Some("r-1"), &payload);
    assert_eq!(prompt.len(), 2);
    assert_eq!(worker(&prompt[0]).1.message_type, "voip.play_focus_prompt");
    assert!(matches!(&prompt[1], RuntimeCommand::AppendAppLog { line } if line == "UI focus prompt audio ready"));
    assert!(commands_for_voice_focus_prompt_result(Some("r-2"), Some("r-1"), &payload).is_empty());
    assert!(commands_for_voice_focus_prompt_result(None, None, &payload).is_empty());

    let logged = with_ask_log(Vec::new(), "audio_ready");
    assert!(matches!(&logged[0], RuntimeCommand::AppendAppLog { line } if line == "Ask pipeline stage=audio_ready"));
}

#[test]
fn screenshot_capture_lines_name_the_readback_method() {
    let saved = ScreenshotCaptured {
        path: "/tmp/yoyopod_screenshot.png".to_string(),
        ok: true,
        detail: String::new(),
        method: Some(ScreenshotMethod::LvglReadback),
    };
    assert_eq!(
        screenshot_log_line(&saved),
        "Saved screenshot via LVGL readback -> /tmp/yoyopod_screenshot.png"
    );
    let failed = ScreenshotCaptured {
        path: "/tmp/yoyopod_screenshot.png".to_string(),
        ok: false,
        detail: "LVGL display not initialized".to_string(),
        method: None,
    };
    assert_eq!(screenshot_log_line(&failed), "Screenshot capture failed: LVGL display not initialized");
    let unknown = ScreenshotCaptured { detail: String::new(), ..failed };
    assert_eq!(screenshot_log_line(&unknown), "Screenshot capture failed: unknown error");
    let plain = ScreenshotCaptured { method: None, ..saved };
    assert_eq!(screenshot_log_line(&plain), "Saved screenshot -> /tmp/yoyopod_screenshot.png");
    assert_eq!(ScreenshotMethod::ShadowBuffer.label(), "shadow buffer");
}

#[test]
fn worker_errors_and_exits_name_their_cause() {
    assert_eq!(worker_error_message("voip.error", &json(r#"{"error": " busy "}"#)), "busy");
    assert_eq!(worker_error_message("voip.error", &json(r#"{"code": "E1", "message": ""}"#)), "E1");
    assert_eq!(worker_error_message("voip.error", &json("{}")), "voip.error");
    assert_eq!(worker_exit_reason(&json(r#"{"message": "crashed"}"#)), "crashed");
    assert_eq!(worker_exit_reason(&json(r#"{"reason": 3}"#)), "exited");
    assert_eq!(string_field(&json(r#"{"k": "  v "}"#), "k"), Some("v".to_string()));
    assert_eq!(string_field(&json(r#"{"k": "   "}"#), "k"), None);
}

#[test]
fn held_recording_snapshot_sends_to_the_captured_recipient() {
    let recipient = VoiceRecipientAction {
        id: "sip:mama@example.test".to_string(),
        recipient_address: "sip:mama@example.test".to_string(),
        file_path: String::new(),
    };
    let snapshot = json(
        r#"{"call_state": "idle", "voice_note": {
            "state": "recorded", "file_path": "/tmp/mama-note.wav",
            "duration_ms": 2340, "mime_type": "audio/wav"}}"#,
    );
    let command = auto_send_voice_note_command(true, Some(&recipient), &snapshot, "vn-1")
        .expect("the recorded note is sent");
    let (domain, message) = worker(&command);
    assert_eq!(domain, WorkerDomain::Voip);
    assert_eq!(message.message_type, "voip.send_voice_note");
    assert_eq!(
        message.payload,
        fields(vec![
            ("uri", text("sip:mama@example.test")),
            ("file_path", text("/tmp/mama-note.wav")),
            ("duration_ms", PayloadValue::Int(2340)),
            ("mime_type", text("audio/wav")),
            ("client_id", text("vn-1")),
        ])
    );
    assert!(auto_send_voice_note_command(false, Some(&recipient), &snapshot, "vn-1").is_none());
    assert!(auto_send_voice_note_command(true, None, &snapshot, "vn-1").is_none());
    let recording = json(r#"{"voice_note": {"state": "recording", "file_path": "/tmp/x.wav"}}"#);
    assert!(auto_send_voice_note_command(true, Some(&recipient), &recording, "vn-1").is_none());
    let huge = json(r#"{"voice_note": {"state": "Review", "file_path": "/tmp/x.wav", "duration_ms": 9999999999}}"#);
    let command = auto_send_voice_note_command(true, Some(&recipient), &huge, "vn-2").expect("sent");
    let payload = &worker(&command).1.payload;
    assert_eq!(payload[2], ("duration_ms".to_string(), PayloadValue::Int(0)));
    assert_eq!(payload[3], ("mime_type".to_string(), text("audio/wav")));
}
