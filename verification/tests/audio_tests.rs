use yoyopod::audio::{
    pick_route_addresses,
    AudioDeviceSources, asound_config, input_level_percent, input_test_seconds, local_alsa_device, mpv_alsa_device,
    output_test_args, same_audio_application, AudioManager, AudioSettings, BuiltinAudioDevices,
};
use yoyopod::bluetooth::{
    BluetoothAccessory, BluetoothCapabilities, BluetoothState, UnavailableBluetoothController,
};

fn manager() -> AudioManager {
    AudioManager::open_at_with_builtin(None, BuiltinAudioDevices::defaults())
}

fn accessory(id: &str, name: &str, kind: &str, connected: bool, caps: BluetoothCapabilities) -> BluetoothAccessory {
    BluetoothAccessory {
        accessory_id: id.to_string(),
        name: name.to_string(),
        kind: kind.to_string(),
        paired: true,
        connected,
        trusted: true,
        auto_connect: true,
        capabilities: caps,
        battery_percent: None,
        signal_percent: None,
        last_seen_at: 1,
    }
}

fn state_with(accessories: Vec<BluetoothAccessory>) -> BluetoothState {
    BluetoothState {
        schema_version: 1,
        status: "ready".to_string(),
        radio_enabled: true,
        scanning: false,
        accessories,
        scanned_at: None,
        reported_at: 1,
    }
}

#[test]
fn disconnected_selected_accessory_falls_back_without_losing_desired_setting() {
    let mut manager = manager();
    let caps = BluetoothCapabilities { output: true, microphone: true, stereo: true, hands_free: true };
    let state = state_with(vec![accessory(
        "9b0692e3-a07a-42f0-9fa7-a7704bbcf777",
        "Headset",
        "headset",
        false,
        caps,
    )]);
    let id = state.accessories[0].accessory_id.clone();
    let mut settings = AudioSettings::defaults();
    settings.routes.media_output_id = id.clone();
    manager.apply(2, settings).expect("apply");
    let applied = manager.current(&state);
    assert_eq!(applied.state.applied.routes.media_output_id, "builtin-speaker");
    assert_eq!(applied.state.status, "degraded");
    assert_eq!(applied.state.applied_revision, 2);
    assert_eq!(manager.desired.routes.media_output_id, id);
}

#[test]
fn a2dp_only_communication_output_falls_back_to_builtin() {
    let mut manager = manager();
    let accessory_id = "9b0692e3-a07a-42f0-9fa7-a7704bbcf778".to_string();
    let caps = BluetoothCapabilities { output: true, microphone: false, stereo: true, hands_free: false };
    let state = state_with(vec![accessory(&accessory_id, "Speaker", "speaker", true, caps)]);
    let mut settings = AudioSettings::defaults();
    settings.routes.communication_output_id = accessory_id;
    manager.apply(2, settings).expect("apply");
    let applied = manager.current(&state);
    assert_eq!(applied.route.voip_playback_device, "ALSA: wm8960-soundcard");
    assert_eq!(applied.state.applied.routes.communication_output_id, "builtin-speaker");
    assert_eq!(applied.state.status, "degraded");
}

#[test]
fn hands_free_only_media_output_uses_the_sco_profile() {
    let mut manager = manager();
    let accessory_id = "9b0692e3-a07a-42f0-9fa7-a7704bbcf777".to_string();
    let caps = BluetoothCapabilities { output: true, microphone: true, stereo: false, hands_free: true };
    let state = state_with(vec![accessory(&accessory_id, "Hands-free headset", "headset", true, caps)]);
    let mut settings = AudioSettings::defaults();
    settings.routes.media_output_id = accessory_id.clone();
    manager.apply(2, settings).expect("apply");
    let applied = manager.current(&state);
    assert_eq!(applied.route.media_device, "alsa/yoyopod_bt_sco");
    assert_eq!(applied.state.applied.routes.media_output_id, accessory_id);
    assert_eq!(applied.state.status, "ready");
}

#[test]
fn unchanged_periodic_audio_state_is_not_reapplied() {
    let mut manager = manager();
    let state = BluetoothState::unavailable();
    manager.current(&state);
    let unchanged = manager.current_if_changed(&state);
    assert!(unchanged.is_none());
}

#[test]
fn configured_builtin_devices_are_preserved_in_local_routes() {
    let builtin = BuiltinAudioDevices {
        media: "alsa/custom-speaker".to_string(),
        voip_playback: "ALSA: custom-playback".to_string(),
        voip_ringer: "ALSA: custom-ringer".to_string(),
        voip_capture: "ALSA: custom-capture".to_string(),
        voip_media: "ALSA: custom-media".to_string(),
    };
    let mut manager = AudioManager::open_at_with_builtin(None, builtin);
    let applied = manager.current(&BluetoothState::unavailable());
    assert_eq!(applied.route.media_device, "alsa/custom-speaker");
    assert_eq!(applied.route.voip_playback_device, "ALSA: custom-playback");
    assert_eq!(applied.route.voip_ringer_device, "ALSA: custom-ringer");
    assert_eq!(applied.route.voip_capture_device, "ALSA: custom-capture");
    assert_eq!(applied.route.voip_media_device, "ALSA: custom-media");
}

#[test]
fn output_test_uses_the_selected_device_and_bounded_level() {
    let args = output_test_args("alsa/yoyopod_bt_a2dp", 86, "/tmp/test.wav");

    assert!(args.contains(&"--audio-device=alsa/yoyopod_bt_a2dp".to_string()));
    assert!(args.contains(&"--volume=86".to_string()));
    assert!(args.contains(&"--volume-max=100".to_string()));
    assert_eq!(args.last().map(String::as_str), Some("/tmp/test.wav"));
}

#[test]
fn local_output_level_updates_all_output_domains_and_persists() {
    let mut manager = manager();
    let state = BluetoothState::unavailable();
    manager.set_output_level(100);
    let applied = manager.current(&state);
    assert_eq!(applied.route.media_volume, 100);
    assert_eq!(applied.route.communication_volume, 100);
    assert_eq!(applied.state.applied.levels.media, 100);
    assert_eq!(applied.state.applied.levels.communication, 100);
    assert_eq!(applied.state.applied.levels.alerts, 100);
    assert_eq!(applied.state.applied.levels.max_output, 100);
    assert_eq!(manager.desired.levels.media, 100);
    assert_eq!(manager.desired.levels.max_output, 100);
}

#[test]
fn local_output_level_preserves_the_configured_safety_cap() {
    let mut manager = manager();
    let state = BluetoothState::unavailable();
    let mut settings = AudioSettings::defaults();
    settings.levels.max_output = 70;
    settings.levels.media = 65;
    settings.levels.communication = 70;
    settings.levels.alerts = 70;
    manager.apply(2, settings).expect("apply capped settings");
    manager.set_output_level(90);
    let applied = manager.current(&state);
    assert_eq!(applied.state.applied.levels.media, 70);
    assert_eq!(applied.state.applied.levels.communication, 70);
    assert_eq!(applied.state.applied.levels.alerts, 70);
    assert_eq!(applied.state.applied.levels.max_output, 70);
    assert_eq!(manager.desired.levels.max_output, 70);
}

#[test]
fn same_revision_replay_cannot_overwrite_a_local_volume_change() {
    let mut manager = manager();
    let state = BluetoothState::unavailable();
    let cloud_settings = AudioSettings::defaults();
    manager.apply(2, cloud_settings.clone()).expect("initial cloud settings");
    manager.set_output_level(55);
    let error = manager
        .apply(2, cloud_settings)
        .expect_err("same revision must not overwrite local volume");
    assert_eq!(error.code, "audio_invalid_settings");
    let current = manager.current(&state);
    assert_eq!(current.state.applied.levels.media, 55);
    assert_eq!(manager.desired.levels.media, 55);
    assert_eq!(manager.desired_revision, 2);
}

#[test]
fn managed_asound_config_includes_the_system_alsa_configuration() {
    let config = asound_config(Some("00:11:22:33:44:55"), None);
    assert!(config.contains("</usr/share/alsa/alsa.conf>"));
    assert!(config.contains("pcm.yoyopod_bt_a2dp"));
    assert!(config.contains("pcm.yoyopod_bt_sco"));
    assert!(config.contains("device \"00:11:22:33:44:55\"\n  profile \"sco\""));
}

#[test]
fn asound_config_uses_a_null_address_without_accessories() {
    let config = asound_config(None, None);
    assert!(config.contains("device \"00:00:00:00:00:00\"\n  profile \"a2dp\""));
    assert!(config.contains("device \"00:00:00:00:00:00\"\n  profile \"sco\""));
}

#[test]
fn output_test_volume_is_capped_at_one_hundred() {
    let args = output_test_args("alsa/default", 250, "/tmp/x.wav");
    assert!(args.contains(&"--volume=100".to_string()));
    assert_eq!(args.len(), 9);
}

#[test]
fn alsa_device_names_drop_and_add_prefixes() {
    assert_eq!(local_alsa_device("alsa/yoyopod_bt_sco"), "yoyopod_bt_sco");
    assert_eq!(local_alsa_device("ALSA: wm8960-soundcard"), "wm8960-soundcard");
    assert_eq!(local_alsa_device("hw:0"), "hw:0");
    assert_eq!(mpv_alsa_device("ALSA: wm8960-soundcard"), "alsa/wm8960-soundcard");
    assert_eq!(mpv_alsa_device("alsa/default"), "alsa/default");
}

#[test]
fn invalid_settings_are_refused_and_change_nothing() {
    let mut manager = manager();
    let mut settings = AudioSettings::defaults();
    settings.levels.max_output = 10;
    let error = manager.apply(1, settings).expect_err("cap below 20");
    assert_eq!(error.code, "audio_invalid_settings");
    assert_eq!(manager.desired_revision, 0);
    let mut older = AudioSettings::defaults();
    older.levels.media = 10;
    manager.apply(5, AudioSettings::defaults()).expect("newer revision");
    assert!(manager.apply(4, older).is_err());
}

#[test]
fn identical_replay_is_accepted() {
    let mut manager = manager();
    manager.apply(3, AudioSettings::defaults()).expect("first");
    manager.apply(3, AudioSettings::defaults()).expect("identical replay");
    assert_eq!(manager.desired_revision, 3);
}

#[test]
fn low_output_level_keeps_alerts_audible() {
    let mut manager = manager();
    manager.set_output_level(5);
    assert_eq!(manager.desired.levels.media, 5);
    assert_eq!(manager.desired.levels.communication, 5);
    assert_eq!(manager.desired.levels.alerts, 20);
}

#[test]
fn output_test_targets_pick_route_devices() {
    let mut manager = manager();
    let applied = manager.current(&BluetoothState::unavailable());
    let (device, volume) = manager.output_test_target("media", &applied.route).expect("media");
    assert_eq!(device, "alsa/default");
    assert_eq!(volume, 65);
    let (device, volume) = manager.output_test_target("alerts", &applied.route).expect("alerts");
    assert_eq!(device, "alsa/wm8960-soundcard");
    assert_eq!(volume, 70);
    let error = manager.output_test_target("other", &applied.route).expect_err("unknown");
    assert_eq!(error.message, "Unknown audio test target");
}

#[test]
fn input_level_is_the_loudest_sample_in_percent() {
    assert_eq!(input_level_percent(&vec![]), 0);
    assert_eq!(input_level_percent(&vec![0xff, 0x7f]), 100);
    assert_eq!(input_level_percent(&vec![0x00, 0x40, 0x00, 0x00]), 50);
    assert_eq!(input_level_percent(&vec![0x00, 0x80]), 100);
    assert_eq!(input_test_seconds(0), 1);
    assert_eq!(input_test_seconds(30), 10);
    assert_eq!(input_test_seconds(4), 4);
}

#[test]
fn periodic_state_changes_are_reported() {
    let mut manager = manager();
    let first = manager.current(&BluetoothState::unavailable());
    let caps = BluetoothCapabilities { output: true, microphone: true, stereo: true, hands_free: true };
    let state = state_with(vec![accessory("acc", "Headset", "headset", true, caps)]);
    let changed = manager.current_if_changed(&state).expect("new endpoints are reported");
    assert!(!same_audio_application(&first, &changed));
    assert_eq!(changed.state.endpoints.outputs.len(), 2);
    assert_eq!(changed.state.endpoints.inputs.len(), 2);
    let _ = UnavailableBluetoothController;
}

#[test]
fn builtin_devices_come_from_environment_then_hardware_file() {
    let none = AudioDeviceSources {
        media: None,
        voip_playback: None,
        voip_ringer: None,
        voip_capture: None,
        voip_media: None,
    };
    let defaults = BuiltinAudioDevices::load(&none, None);
    assert_eq!(defaults, BuiltinAudioDevices::defaults());

    let hardware = "media_audio:\n  alsa_device: \" hw:1,0 \"\ncommunication_audio:\n  playback_device_id: \"ALSA: usb\"\n  ringer_device_id: \"  \"\n";
    let env = AudioDeviceSources { voip_playback: Some("ALSA: env".to_string()), voip_capture: Some("   ".to_string()), ..none };
    let devices = BuiltinAudioDevices::load(&env, Some(hardware));
    assert_eq!(devices.media, "alsa/hw:1,0");
    assert_eq!(devices.voip_playback, "ALSA: env");
    assert_eq!(devices.voip_ringer, "ALSA: wm8960-soundcard");
    assert_eq!(devices.voip_capture, "ALSA: wm8960-soundcard");
    assert_eq!(devices.voip_media, "ALSA: wm8960-soundcard");

    let unreadable = BuiltinAudioDevices::load(&AudioDeviceSources { media: None, voip_playback: None, voip_ringer: None, voip_capture: None, voip_media: None }, Some(": : not yaml ["));
    assert_eq!(unreadable.media, "alsa/default");
}

#[test]
fn route_addresses_prefer_media_output_and_call_input() {
    let s = |t: &str| Some(t.to_string());
    assert_eq!(
        pick_route_addresses(s("AA"), s("BB"), s("CC")),
        (s("AA"), s("CC"))
    );
    assert_eq!(pick_route_addresses(None, s("BB"), None), (s("BB"), s("BB")));
    assert_eq!(pick_route_addresses(None, None, s("CC")), (None, s("CC")));
}
