use yoyopod::wifi::WifiNearbyNetwork;
use yoyopod::provisioning::{portal_networks, portal_step, PortalStep, AP_TIMEOUT_MS, 
    ap_settings, connect_request_from, escape_qr, parse_connect, portal_route, security_slug,
    state_after_connect, state_after_portal, station_settings, ApCredentials, ConnectRequest,
    PortalOutcome, PortalRoute, SettingValue, WifiProvisioningState,
};
use yoyopod::wifi::WifiSecurity;

#[test]
fn qr_payload_is_a_wifi_join_uri_with_escaping() {
    let credentials = ApCredentials {
        ssid: "YoYoPod-1A2B".to_string(),
        password: "ABCD2345".to_string(),
    };
    assert_eq!(credentials.qr_payload(), "WIFI:S:YoYoPod-1A2B;T:WPA;P:ABCD2345;;");
    assert_eq!(escape_qr("a;b:c"), "a\\;b\\:c");
}

#[test]
fn generated_credentials_are_typeable_and_unique_enough() {
    let credentials = ApCredentials::from_entropy(&vec![0x1a, 0x2b, 0, 1, 2, 30, 31, 255]);
    assert!(credentials.ssid.starts_with("YoYoPod-"));
    assert_eq!(credentials.ssid, "YoYoPod-1A2B");
    assert_eq!(credentials.password.len(), 8);
    assert!((8..=63).contains(&credentials.password.len()));
    assert_eq!(credentials.password, "5PABC9AH");
}

#[test]
fn parse_connect_requires_a_usable_password_for_secured_networks() {
    let ok = parse_connect(r#"{"ssid":"Home","security":"wpa2_personal","password":"longenough"}"#)
        .expect("valid request");
    assert_eq!(ok.ssid, "Home");
    assert_eq!(ok.security, WifiSecurity::Wpa2Personal);

    assert!(parse_connect(r#"{"ssid":"Home","password":"short"}"#).is_err());
    assert!(parse_connect(r#"{"ssid":"","password":"longenough"}"#).is_err());
    assert!(
        parse_connect(r#"{"ssid":"Open","security":"open","password":""}"#).is_ok(),
        "open networks need no password"
    );
}

#[test]
fn security_slugs_match_the_ui_contract() {
    assert_eq!(security_slug(WifiSecurity::Open), "open");
    assert_eq!(security_slug(WifiSecurity::Wpa2Personal), "wpa2_personal");
    assert_eq!(security_slug(WifiSecurity::Wpa3Personal), "wpa3_personal");
}

#[test]
fn connect_errors_explain_what_to_fix() {
    assert_eq!(parse_connect("not json").err().as_deref(), Some("invalid request"));
    assert_eq!(
        connect_request_from(Some((Some("   ".to_string()), None, None))).err().as_deref(),
        Some("enter a network name")
    );
    assert_eq!(
        connect_request_from(Some((Some("Home".to_string()), Some("short".to_string()), None))).err().as_deref(),
        Some("password must be 8–63 characters")
    );
    let trimmed = connect_request_from(Some((
        Some("  Home  ".to_string()),
        Some("longenough".to_string()),
        Some("wpa3_personal".to_string()),
    )))
    .expect("valid");
    assert_eq!(trimmed.ssid, "Home");
    assert_eq!(trimmed.security, WifiSecurity::Wpa3Personal);
}

#[test]
fn portal_routes_probes_to_the_setup_page() {
    assert_eq!(portal_route(true, "/connect"), PortalRoute::Connect);
    assert_eq!(portal_route(false, "/connect"), PortalRoute::Page);
    assert_eq!(portal_route(false, "/networks?refresh=1"), PortalRoute::Networks);
    assert_eq!(portal_route(false, "/generate_204"), PortalRoute::Redirect);
    assert_eq!(portal_route(false, "/hotspot-detect.html?x"), PortalRoute::Redirect);
    assert_eq!(portal_route(false, "/"), PortalRoute::Page);
}

#[test]
fn flow_states_follow_the_portal_outcome() {
    let idle = WifiProvisioningState::idle();
    assert!(!idle.active);
    assert_eq!(idle.phase, "idle");
    let error = WifiProvisioningState::error("boom");
    assert_eq!(error.phase, "error");
    assert_eq!(error.error, "boom");
    assert_eq!(error.status_text, "boom");
    let timed_out = state_after_portal(&PortalOutcome::TimedOut);
    assert_eq!(timed_out.status_text, "Wi-Fi setup timed out - reconnected to Wi-Fi.");
    let connecting = state_after_portal(&PortalOutcome::Connect(ConnectRequest {
        ssid: "Home".to_string(),
        security: WifiSecurity::Open,
        password: String::new(),
    }));
    assert!(connecting.active);
    assert_eq!(connecting.status_text, "Connecting to Home...");
    let connected = state_after_connect("Home", Ok(()));
    assert_eq!(connected.phase, "connected");
    assert_eq!(connected.status_text, "Connected to Home");
    let ready = WifiProvisioningState::portal_ready(&ApCredentials {
        ssid: "YoYoPod-00FF".to_string(),
        password: "ABCDEFGH".to_string(),
    });
    assert_eq!(ready.portal_url, "http://10.42.0.1/");
    assert_eq!(ready.qr_payload, "WIFI:S:YoYoPod-00FF;T:WPA;P:ABCDEFGH;;");
}

#[test]
fn station_settings_pick_the_key_management_of_the_security() {
    let wpa3 = station_settings(&ConnectRequest {
        ssid: "Home".to_string(),
        security: WifiSecurity::Wpa3Personal,
        password: "longenough".to_string(),
    });
    assert!(wpa3.iter().any(|s| s.key == "key-mgmt" && matches!(&s.value, SettingValue::Text(t) if t == "sae")));
    let open = station_settings(&ConnectRequest {
        ssid: "Cafe".to_string(),
        security: WifiSecurity::Open,
        password: String::new(),
    });
    assert!(!open.iter().any(|s| s.section == "802-11-wireless-security"));
    assert!(open.iter().any(|s| s.key == "id" && matches!(&s.value, SettingValue::Text(t) if t == "YoYoPod Cafe")));
    let ap = ap_settings(&ApCredentials { ssid: "YoYoPod-0000".to_string(), password: "ABCDEFGH".to_string() });
    assert!(ap.iter().any(|s| s.key == "mode" && matches!(&s.value, SettingValue::Text(t) if t == "ap")));
    assert!(ap.iter().any(|s| s.key == "channel" && matches!(&s.value, SettingValue::Number(6))));
}

#[test]
fn portal_offers_nearby_networks_with_security_slugs() {
    let nearby = vec![
        WifiNearbyNetwork { ssid: "Home".to_string(), security: WifiSecurity::Wpa3Personal, signal_percent: 80, saved: true, active: false },
        WifiNearbyNetwork { ssid: "Cafe".to_string(), security: WifiSecurity::Open, signal_percent: 20, saved: false, active: false },
    ];
    let offered = portal_networks(&nearby);
    assert_eq!(offered.len(), 2);
    assert_eq!(offered[0].ssid, "Home");
    assert_eq!(offered[0].security, "wpa3_personal");
    assert!(offered[0].saved);
    assert_eq!(offered[1].security, "open");
    assert_eq!(offered[1].signal_percent, 20);
}

#[test]
fn portal_stops_before_it_times_out() {
    assert_eq!(portal_step(true, 500, 100), PortalStep::Stop);
    assert_eq!(portal_step(false, 100, 100), PortalStep::TimeOut);
    assert_eq!(portal_step(false, 99, 100), PortalStep::Serve);
    assert_eq!(AP_TIMEOUT_MS, 120_000);
}
