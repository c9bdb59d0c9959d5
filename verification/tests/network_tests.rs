use yoyopod::bluetooth::{
    capabilities_for, rssi_percent, AccessoryRegistry, BluetoothAccessory, BluetoothCapabilities,
    BluetoothState, ScanTick, ScanWindow, UnavailableBluetoothController, AUDIO_SINK_UUID,
    HANDSFREE_UUID, SCAN_DURATION_SECS, SCAN_REFRESH_INTERVAL_SECS,
};
use yoyopod::wifi::{
    access_point_security, ensure_profile_inactive, lower_autoconnect_priority, sanitize_ssid,
    validate_ipv4_config, validate_password, validate_ssid, WifiActiveNetwork, WifiAddProfileRequest,
    WifiActivateProfileRequest, WifiChangeOperation, WifiChangeStart, WifiController, WifiIpv4Config,
    WifiIpv4Mode, WifiOperationError, WifiSecurity, WifiState, WifiStateStatus,
    WifiUpdateIpv4Request, WifiUpdateProfileRequest, NM_AP_FLAGS_PRIVACY,
    NM_AP_SEC_KEY_MGMT_802_1X, NM_AP_SEC_KEY_MGMT_SAE,
};
use yoyopod::worker::{
    auto_connect_saved_accessory, confirmation_matches, output_level_request, route_command,
    service_pending_wifi_change, should_boot_runtime, unsupported_command_message,
    BluetoothAutoConnectBackoff, CommandRoute, OutputLevelRequest, PendingChangeOutcome,
    PendingWifiChange, WorkerCommand, BLUETOOTH_AUTO_CONNECT_MIN_BACKOFF_MS,
    BLUETOOTH_AUTO_CONNECT_MAX_BACKOFF_MS,
};

#[test]
fn capabilities_only_allow_audio_profiles() {
    assert!(!capabilities_for(&vec!["0000180f-0000-1000-8000-00805f9b34fb".to_string()]).output);
    let capabilities = capabilities_for(&vec![AUDIO_SINK_UUID.to_string(), HANDSFREE_UUID.to_string()]);
    assert!(capabilities.output);
    assert!(capabilities.stereo);
    assert!(capabilities.microphone);
}

#[test]
fn scan_window_is_short_and_refreshes_incrementally() {
    assert_eq!(SCAN_DURATION_SECS, 12);
    assert_eq!(SCAN_REFRESH_INTERVAL_SECS, 1);
    assert!(SCAN_REFRESH_INTERVAL_SECS < SCAN_DURATION_SECS);
}

#[test]
fn scan_window_refreshes_then_stops() {
    let mut window = ScanWindow::idle();
    window.start(1_000);
    assert_eq!(window.tick(1_500), ScanTick::Idle);
    assert_eq!(window.tick(2_000), ScanTick::Refresh);
    assert_eq!(window.tick(13_000), ScanTick::Stop);
    window.stop();
    assert_eq!(window.tick(14_000), ScanTick::Idle);
}

#[test]
fn rssi_maps_to_a_percentage() {
    assert_eq!(rssi_percent(-120), 0);
    assert_eq!(rssi_percent(-70), 50);
    assert_eq!(rssi_percent(-30), 100);
}

#[test]
fn registry_keeps_one_opaque_id_per_address() {
    let mut registry = AccessoryRegistry::default();
    let (first, changed) = registry.observe("AA:BB:CC:DD:EE:FF", 10);
    assert!(changed);
    let id = registry.accessories[first].accessory_id.clone();
    assert_eq!(id.len(), 36);
    let (again, changed) = registry.observe("aa:bb:cc:dd:ee:ff", 10);
    assert_eq!(again, first);
    assert!(!changed);
    assert_eq!(registry.address_for_id(&id).as_deref(), Some("AA:BB:CC:DD:EE:FF"));
    registry.update(&id, Some("Kitchen headset"), Some(true)).expect("known");
    assert_eq!(registry.accessories[0].alias, "Kitchen headset");
    registry.forget(&id);
    assert!(registry.accessories.is_empty());
    assert!(registry.update(&id, None, None).is_err());
}

#[test]
fn access_point_security_is_sanitized_to_supported_labels() {
    assert_eq!(access_point_security(0, 0, 0), WifiSecurity::Open);
    assert_eq!(access_point_security(NM_AP_FLAGS_PRIVACY, 0, 0), WifiSecurity::Wpa2Personal);
    assert_eq!(
        access_point_security(NM_AP_FLAGS_PRIVACY, 0, NM_AP_SEC_KEY_MGMT_SAE),
        WifiSecurity::Wpa3Personal
    );
    assert_eq!(
        access_point_security(NM_AP_FLAGS_PRIVACY, 0, NM_AP_SEC_KEY_MGMT_802_1X),
        WifiSecurity::Enterprise
    );
}

#[test]
fn wifi_password_validation_accepts_passphrases_and_hex_keys() {
    assert!(validate_password(WifiSecurity::Wpa2Personal, Some("eight888"), true).is_ok());
    assert!(validate_password(WifiSecurity::Wpa3Personal, Some(&"a".repeat(64)), true).is_ok());
    assert!(validate_password(WifiSecurity::Wpa2Personal, Some("short"), true).is_err());
    assert!(validate_password(WifiSecurity::Open, Some("unexpected"), true).is_err());
}

#[test]
fn wifi_ssids_reject_controls_and_sanitize_to_thirty_two_bytes() {
    assert!(validate_ssid("Family\nWiFi").is_err());
    assert_eq!(sanitize_ssid("123456789012345678901234567890é".as_bytes()).len(), 32);
    assert_eq!(sanitize_ssid(b"Family\nWiFi"), "FamilyWiFi");
}

#[test]
fn active_profile_is_immutable_even_if_a_caller_requests_a_change() {
    let active = WifiActiveNetwork {
        profile_id: "active-profile".to_string(),
        ssid: "Family WiFi".to_string(),
        security: WifiSecurity::Wpa2Personal,
        signal_percent: 80,
        ipv4: None,
    };

    let error = ensure_profile_inactive(Some(&active), "active-profile")
        .expect_err("active profile must be protected locally");

    assert_eq!(error.code, "wifi_active_profile_immutable");
    assert!(ensure_profile_inactive(Some(&active), "another-profile").is_ok());
}

#[test]
fn new_profile_priority_is_strictly_lower_than_the_active_profile() {
    assert_eq!(lower_autoconnect_priority(0).unwrap(), -1);
    assert_eq!(lower_autoconnect_priority(-998).unwrap(), -999);
    assert!(lower_autoconnect_priority(-999).is_err());
    assert!(lower_autoconnect_priority(1_000).is_err());
}

#[test]
fn static_ipv4_requires_a_gateway_in_the_same_subnet_and_dns() {
    let valid = WifiIpv4Config {
        mode: WifiIpv4Mode::Static,
        address: Some("192.168.50.40".to_string()),
        prefix_length: Some(24),
        gateway: Some("192.168.50.1".to_string()),
        dns_servers: vec!["1.1.1.1".to_string()],
    };
    assert!(validate_ipv4_config(&valid).is_ok());
    assert!(validate_ipv4_config(&WifiIpv4Config {
        gateway: Some("192.168.60.1".to_string()),
        ..valid.clone()
    })
    .is_err());
    assert!(validate_ipv4_config(&WifiIpv4Config { dns_servers: Vec::new(), ..valid }).is_err());
}

fn auto_connect_state(accessory_id: &str) -> BluetoothState {
    BluetoothState {
        schema_version: 1,
        status: "ready".to_string(),
        radio_enabled: true,
        scanning: false,
        accessories: vec![BluetoothAccessory {
            accessory_id: accessory_id.to_string(),
            name: "Family headset".to_string(),
            kind: "headset".to_string(),
            paired: true,
            connected: false,
            trusted: true,
            auto_connect: true,
            capabilities: BluetoothCapabilities {
                output: true,
                microphone: true,
                stereo: true,
                hands_free: true,
            },
            battery_percent: None,
            signal_percent: None,
            last_seen_at: 1,
        }],
        scanned_at: None,
        reported_at: 1,
    }
}

#[test]
fn failed_bluetooth_auto_connects_back_off_per_accessory() {
    let mut bluetooth = UnavailableBluetoothController;
    let mut backoff = BluetoothAutoConnectBackoff::new();
    let first_attempt_at: u64 = 1_000_000;
    let state = auto_connect_state("accessory-a");

    let retained =
        auto_connect_saved_accessory(&mut bluetooth, state.clone(), &mut backoff, first_attempt_at);
    assert_eq!(retained, state);
    let retry = backoff.retry("accessory-a").expect("retry state");
    assert_eq!(retry.0, 1);
    let first_retry_at = retry.1.expect("retry deadline");
    assert_eq!(first_retry_at - first_attempt_at, BLUETOOTH_AUTO_CONNECT_MIN_BACKOFF_MS);

    auto_connect_saved_accessory(&mut bluetooth, state.clone(), &mut backoff, first_retry_at - 1);
    assert_eq!(backoff.retry("accessory-a").unwrap().0, 1);

    auto_connect_saved_accessory(&mut bluetooth, state, &mut backoff, first_retry_at);
    assert_eq!(backoff.retry("accessory-a").unwrap().0, 2);
    assert_eq!(
        backoff.retry("accessory-a").unwrap().1.expect("second retry deadline") - first_retry_at,
        BLUETOOTH_AUTO_CONNECT_MIN_BACKOFF_MS * 2
    );

    let mut multiple = auto_connect_state("accessory-a");
    let mut second = multiple.accessories[0].clone();
    second.accessory_id = "accessory-b".to_string();
    second.name = "Second headset".to_string();
    multiple.accessories.push(second);
    auto_connect_saved_accessory(&mut bluetooth, multiple, &mut backoff, first_retry_at);
    assert_eq!(backoff.retry("accessory-a").unwrap().0, 2);
    assert_eq!(backoff.retry("accessory-b").unwrap().0, 1);
}

#[test]
fn connected_auto_connect_accessories_do_not_block_remaining_routes() {
    let now: u64 = 5_000;
    let mut state = auto_connect_state("accessory-a");
    state.accessories[0].connected = true;
    let mut second = state.accessories[0].clone();
    second.accessory_id = "accessory-b".to_string();
    second.name = "Second headset".to_string();
    second.connected = false;
    state.accessories.push(second);

    let mut backoff = BluetoothAutoConnectBackoff::new();
    backoff.record_failure("accessory-a".to_string(), now);

    assert_eq!(backoff.candidate(&state, now), Some("accessory-b".to_string()));
    assert!(backoff.retry("accessory-a").is_none());
}

#[test]
fn backoff_doubles_up_to_five_minutes() {
    let mut backoff = BluetoothAutoConnectBackoff::new();
    let mut delays = Vec::new();
    for _ in 0..8 {
        backoff.record_failure("a".to_string(), 0);
        delays.push(backoff.retry("a").unwrap().1.unwrap());
    }
    assert_eq!(delays, vec![15_000, 30_000, 60_000, 120_000, 240_000, 300_000, 300_000, 300_000]);
    assert_eq!(BLUETOOTH_AUTO_CONNECT_MAX_BACKOFF_MS, 300_000);
    backoff.record_success("a");
    assert!(backoff.retry("a").is_none());
}

#[test]
fn radio_off_clears_every_retry() {
    let mut backoff = BluetoothAutoConnectBackoff::new();
    backoff.record_failure("accessory-a".to_string(), 0);
    let mut state = auto_connect_state("accessory-a");
    state.radio_enabled = false;
    assert_eq!(backoff.candidate(&state, 0), None);
    assert!(backoff.retry("accessory-a").is_none());
}

struct FakeWifiController {
    state: WifiState,
    pending_change: bool,
}

impl WifiController for FakeWifiController {
    fn refresh(&mut self) -> Result<WifiState, WifiOperationError> {
        Ok(self.state.clone())
    }
    fn scan(&mut self) -> Result<WifiState, WifiOperationError> {
        Ok(self.state.clone())
    }
    fn add_profile(&mut self, _request: WifiAddProfileRequest) -> Result<WifiState, WifiOperationError> {
        Ok(self.state.clone())
    }
    fn update_profile(&mut self, _request: WifiUpdateProfileRequest) -> Result<WifiState, WifiOperationError> {
        Ok(self.state.clone())
    }
    fn forget_profile(&mut self, _profile_id: &str) -> Result<WifiState, WifiOperationError> {
        Ok(self.state.clone())
    }
    fn begin_activate_profile(
        &mut self,
        request: WifiActivateProfileRequest,
    ) -> Result<WifiChangeStart, WifiOperationError> {
        self.pending_change = true;
        Ok(WifiChangeStart::Pending {
            profile_id: request.profile_id,
            operation: WifiChangeOperation::ActivateProfile,
        })
    }
    fn begin_update_ipv4(&mut self, _request: WifiUpdateIpv4Request) -> Result<WifiChangeStart, WifiOperationError> {
        Ok(WifiChangeStart::Immediate(self.state.clone()))
    }
    fn confirm_pending_change(&mut self) -> Result<WifiState, WifiOperationError> {
        self.pending_change = false;
        Ok(self.state.clone())
    }
    fn rollback_pending_change(&mut self) -> Result<WifiState, WifiOperationError> {
        self.pending_change = false;
        Ok(self.state.clone())
    }
}

fn fake_state() -> WifiState {
    WifiState {
        schema_version: 2,
        status: WifiStateStatus::Ready,
        radio_enabled: true,
        active_network: None,
        saved_profiles: Vec::new(),
        nearby_networks: Vec::new(),
        scanned_at: Some(1_700_000_000),
        reported_at: 1_700_000_001,
    }
}

#[test]
fn connectivity_confirmation_timeout_rolls_back_and_nacks_the_original_request() {
    let activation_id = "77777777-7777-4777-8777-777777777777";
    let now: u64 = 1_000_000;
    let mut pending = Some(PendingWifiChange {
        request_id: activation_id.to_string(),
        profile_id: "22222222-2222-4222-8222-222222222222".to_string(),
        operation: WifiChangeOperation::ActivateProfile,
        deadline_ms: now - 1,
        next_candidate_at_ms: now,
        candidate_attempt: 1,
    });
    let mut wifi = FakeWifiController { state: fake_state(), pending_change: true };

    let outcome = service_pending_wifi_change(&mut wifi, &mut pending, now);

    assert!(pending.is_none());
    assert!(!wifi.pending_change);
    match outcome {
        PendingChangeOutcome::RolledBack { request_id, code, state, .. } => {
            assert_eq!(request_id, activation_id);
            assert_eq!(code, "wifi_change_confirmation_timeout");
            assert_eq!(state, fake_state());
        }
        other => panic!("expected a rollback, got {other:?}"),
    }
}

#[test]
fn pending_change_is_offered_every_five_seconds() {
    let mut pending = Some(PendingWifiChange::begin(
        "req".to_string(),
        "profile".to_string(),
        WifiChangeOperation::UpdateIpv4,
        1_000,
    ));
    let mut wifi = FakeWifiController { state: fake_state(), pending_change: true };
    match service_pending_wifi_change(&mut wifi, &mut pending, 1_000) {
        PendingChangeOutcome::Offer { request_id, attempt, .. } => {
            assert_eq!(request_id, "req");
            assert_eq!(attempt, 1);
        }
        other => panic!("expected an offer, got {other:?}"),
    }
    assert!(matches!(service_pending_wifi_change(&mut wifi, &mut pending, 5_999), PendingChangeOutcome::Quiet));
    assert!(matches!(
        service_pending_wifi_change(&mut wifi, &mut pending, 6_000),
        PendingChangeOutcome::Offer { attempt: 2, .. }
    ));
    assert!(confirmation_matches(Some("req"), &pending));
    assert!(!confirmation_matches(Some("other"), &pending));
    assert!(!confirmation_matches(None, &pending));
    assert!(matches!(
        service_pending_wifi_change(&mut wifi, &mut pending, 61_000),
        PendingChangeOutcome::RolledBack { .. }
    ));
}

#[test]
fn wifi_commands_wait_while_setup_or_a_change_owns_the_radio() {
    assert_eq!(route_command("wifi_scan", true, false), CommandRoute::RefusedDuringSetup);
    assert_eq!(
        route_command("wifi_provisioning_stop", true, false),
        CommandRoute::Run(WorkerCommand::WifiProvisioningStop)
    );
    assert_eq!(
        route_command("wifi_scan", false, true),
        CommandRoute::RefusedDuringChange { clear_setup_screen: false }
    );
    assert_eq!(
        route_command("wifi_provisioning_start", false, true),
        CommandRoute::RefusedDuringChange { clear_setup_screen: true }
    );
    assert_eq!(
        route_command("wifi_confirm_change", false, true),
        CommandRoute::Run(WorkerCommand::WifiConfirmChange)
    );
    assert_eq!(
        route_command("bluetooth_refresh", true, true),
        CommandRoute::Run(WorkerCommand::BluetoothRefresh)
    );
    assert_eq!(route_command("worker.stop", false, false), CommandRoute::Run(WorkerCommand::Shutdown));
    assert_eq!(route_command("reboot", false, false), CommandRoute::Unsupported);
    assert_eq!(unsupported_command_message("reboot"), "unsupported command reboot");
}

#[test]
fn output_level_requests_and_boot_decision() {
    assert_eq!(output_level_request(None, Some(40)), OutputLevelRequest::Level(40));
    assert_eq!(output_level_request(Some(true), Some(400)), OutputLevelRequest::Cycle);
    assert_eq!(output_level_request(None, None), OutputLevelRequest::Invalid);
    assert!(!should_boot_runtime(true, "config_load_failed"));
    assert!(should_boot_runtime(true, "modem_missing"));
}
