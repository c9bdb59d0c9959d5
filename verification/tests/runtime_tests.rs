use yoyopod::intents::{
    adjusted_volume, cancel_active_ask_commands, cancel_focus_prompt_commands, commands_for_music_intent,
    commands_for_power_intent, commands_for_voice_intent, commands_for_volume_step, ListItemAction,
    MusicIntent, PayloadValue, PlaylistTrackAction, PowerIntent, RtcAlarmAction, RuntimeCommand,
    VoiceContext, VoiceIntent, WorkerDomain, WorkerMessage,
};

fn worker_message_types(commands: &[RuntimeCommand]) -> Vec<String> {
    commands
        .iter()
        .filter_map(|command| match command {
            RuntimeCommand::WorkerCommand { command, .. } => Some(command.message_type.clone()),
            _ => None,
        })
        .collect()
}

fn payload<'a>(message: &'a WorkerMessage, key: &str) -> Option<&'a PayloadValue> {
    message.payload.iter().find(|(k, _)| k == key).map(|(_, v)| v)
}

fn idle_voice() -> VoiceContext {
    VoiceContext {
        phase: "idle".to_string(),
        playback_active: false,
        playback_paused: false,
        ask_recording_file_path: "/tmp/ask.wav".to_string(),
        recording_file_path: "/tmp/note.wav".to_string(),
        file_path: String::new(),
        duration_ms: 0,
        mime_type: String::new(),
    }
}

#[test]
fn focus_clear_cancels_only_focus_prompt_work_and_playback() {
    let commands = cancel_focus_prompt_commands();
    assert_eq!(
        worker_message_types(&commands),
        vec!["voice.cancel_focus_prompt", "voip.stop_focus_prompt_playback"]
    );
    assert!(matches!(&commands[2], RuntimeCommand::AppendAppLog { line } if line == "UI focus prompt cleared"));
}

#[test]
fn typed_music_intent_routes_to_media_command() {
    let commands = commands_for_music_intent(
        "stopped",
        &MusicIntent::LoadPlaylist(ListItemAction {
            id: "favorites.m3u".to_string(),
            path: String::new(),
            track_uri: String::new(),
        }),
    );
    assert_eq!(commands.len(), 1);
    let RuntimeCommand::WorkerCommand { domain, command } = &commands[0] else {
        panic!("expected worker command");
    };
    assert_eq!(*domain, WorkerDomain::Media);
    assert_eq!(command.message_type, "media.load_playlist");
    assert_eq!(payload(command, "path"), Some(&PayloadValue::Text("favorites.m3u".to_string())));
}

#[test]
fn setup_volume_step_wraps_and_routes_to_media() {
    let commands = commands_for_volume_step(100);
    let RuntimeCommand::WorkerCommand { domain, command } = &commands[0] else {
        panic!("expected media command");
    };
    assert_eq!(*domain, WorkerDomain::Media);
    assert_eq!(command.message_type, "media.set_volume");
    assert_eq!(payload(command, "volume"), Some(&PayloadValue::Int(10)));
}

#[test]
fn volume_step_moves_one_level_up() {
    let volume_after = |volume: i32| {
        let commands = commands_for_volume_step(volume);
        let RuntimeCommand::WorkerCommand { command, .. } = &commands[0] else {
            panic!("expected media command");
        };
        match payload(command, "volume") {
            Some(PayloadValue::Int(volume)) => Some(*volume),
            _ => None,
        }
    };
    assert_eq!(volume_after(0), Some(20));
    assert_eq!(volume_after(44), Some(50));
    assert_eq!(volume_after(45), Some(60));
    assert_eq!(volume_after(94), Some(100));
    assert_eq!(volume_after(95), Some(10));
    assert_eq!(volume_after(-20), Some(20));
    assert_eq!(volume_after(250), Some(10));
}

#[test]
fn adjusted_volume_stays_in_range() {
    assert_eq!(adjusted_volume(50, 10), 60);
    assert_eq!(adjusted_volume(95, 10), 100);
    assert_eq!(adjusted_volume(5, -10), 0);
}

#[test]
fn ask_cancel_stops_recording_speech_work_and_playback() {
    let commands = commands_for_voice_intent(&idle_voice(), "client-1", &VoiceIntent::AskCancel);
    assert_eq!(
        worker_message_types(&commands),
        vec!["voice.cancel", "voip.cancel_voice_note_recording", "voip.stop_voice_note_playback"]
    );
    assert_eq!(worker_message_types(&cancel_active_ask_commands()), worker_message_types(&commands));
}

#[test]
fn ask_barge_in_cancels_the_old_answer_before_recording() {
    let mut voice = idle_voice();
    voice.phase = "reply".to_string();
    voice.playback_active = true;
    let commands = commands_for_voice_intent(&voice, "client-1", &VoiceIntent::AskStart);
    let message_types = worker_message_types(&commands);
    assert_eq!(message_types.last().map(String::as_str), Some("voip.start_voice_note_recording"));
    assert!(message_types.iter().any(|t| t == "voice.cancel"));
    assert!(message_types.iter().any(|t| t == "voip.stop_voice_note_playback"));
}

#[test]
fn playlist_track_intent_preserves_playlist_and_focus_index() {
    let commands = commands_for_music_intent(
        "stopped",
        &MusicIntent::PlayPlaylistTrack(PlaylistTrackAction {
            playlist_path: "/music/Open Classics.m3u".to_string(),
            track_uri: "/music/02 - March.mp3".to_string(),
            track_index: 1,
        }),
    );
    assert_eq!(commands.len(), 1);
    let RuntimeCommand::WorkerCommand { domain, command } = &commands[0] else {
        panic!("expected worker command");
    };
    assert_eq!(*domain, WorkerDomain::Media);
    assert_eq!(command.message_type, "media.play_playlist_track");
    assert_eq!(payload(command, "path"), Some(&PayloadValue::Text("/music/Open Classics.m3u".to_string())));
    assert_eq!(payload(command, "track_uri"), Some(&PayloadValue::Text("/music/02 - March.mp3".to_string())));
    assert_eq!(payload(command, "track_index"), Some(&PayloadValue::Int(1)));
}

#[test]
fn power_intents_route_to_the_power_worker() {
    let commands = commands_for_power_intent(&PowerIntent::SyncTimeToRtc);
    assert_eq!(worker_message_types(&commands), vec!["power.sync_time_to_rtc"]);
    assert!(matches!(&commands[0], RuntimeCommand::WorkerCommand { domain: WorkerDomain::Power, .. }));

    let alarm = commands_for_power_intent(&PowerIntent::SetRtcAlarm(RtcAlarmAction {
        when: "07:30".to_string(),
        repeat_mask: 31,
    }));
    let RuntimeCommand::WorkerCommand { command, .. } = &alarm[0] else {
        panic!("expected worker command");
    };
    assert_eq!(command.message_type, "power.set_rtc_alarm");
    assert_eq!(payload(command, "when"), Some(&PayloadValue::Text("07:30".to_string())));
    assert_eq!(payload(command, "repeat_mask"), Some(&PayloadValue::Int(31)));
}

#[test]
fn alarm_without_a_time_asks_nothing() {
    let commands = commands_for_power_intent(&PowerIntent::SetRtcAlarm(RtcAlarmAction {
        when: "   ".to_string(),
        repeat_mask: 1,
    }));
    assert!(commands.is_empty());
}
