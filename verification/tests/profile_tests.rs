use yoyopod::profile::{
    ipv4_settings, preferred_profile_settings, profile_ipv4_config, profile_settings, replaced_ipv4_keys,
    security_settings, SecurityChange,
};
use yoyopod::provisioning::{NmSetting, SettingValue};
use yoyopod::wifi::{WifiAddProfileRequest, WifiIpv4Config, WifiIpv4Mode, WifiSecurity};

fn find<'a>(settings: &'a [NmSetting], section: &str, key: &str) -> Option<&'a SettingValue> {
    settings.iter().find(|s| s.section == section && s.key == key).map(|s| &s.value)
}

#[test]
fn new_profile_holds_name_mode_and_security() {
    let request = WifiAddProfileRequest {
        ssid: "Family WiFi".to_string(),
        security: WifiSecurity::Wpa3Personal,
        password: Some("correct horse".to_string()),
        hidden: true,
    };
    let settings = profile_settings(&request, false, 7).unwrap();
    assert!(matches!(find(&settings, "connection", "id"), Some(SettingValue::Text(t)) if t == "YoYoPod Family WiFi"));
    assert!(matches!(find(&settings, "connection", "autoconnect"), Some(SettingValue::Flag(false))));
    assert!(matches!(find(&settings, "connection", "autoconnect-priority"), Some(SettingValue::Int(7))));
    assert!(matches!(find(&settings, "802-11-wireless", "ssid"), Some(SettingValue::Bytes(b)) if b == b"Family WiFi"));
    assert!(matches!(find(&settings, "802-11-wireless", "hidden"), Some(SettingValue::Flag(true))));
    assert!(matches!(find(&settings, "802-11-wireless-security", "key-mgmt"), Some(SettingValue::Text(t)) if t == "sae"));
    assert!(matches!(find(&settings, "802-11-wireless-security", "psk"), Some(SettingValue::Text(t)) if t == "correct horse"));
}

#[test]
fn open_and_enterprise_profiles() {
    let open = WifiAddProfileRequest {
        ssid: "Cafe".to_string(),
        security: WifiSecurity::Open,
        password: None,
        hidden: false,
    };
    let settings = profile_settings(&open, true, 0).unwrap();
    assert!(find(&settings, "802-11-wireless-security", "key-mgmt").is_none());
    assert_eq!(settings.len(), 9);

    let enterprise = WifiAddProfileRequest { security: WifiSecurity::Enterprise, ..open };
    let error = profile_settings(&enterprise, true, 0).unwrap_err();
    assert_eq!(error.code, "wifi_enterprise_unsupported");
}

#[test]
fn security_change_without_password_keeps_only_key_management() {
    match security_settings(WifiSecurity::Wpa2Personal, Some("")).unwrap() {
        SecurityChange::Write(settings) => {
            assert_eq!(settings.len(), 1);
            assert!(matches!(&settings[0].value, SettingValue::Text(t) if t == "wpa-psk"));
        }
        SecurityChange::RemoveSection => panic!("a secured network keeps its section"),
    }
    assert!(matches!(security_settings(WifiSecurity::Open, Some("x")).unwrap(), SecurityChange::RemoveSection));
}

#[test]
fn ipv4_settings_for_dhcp_and_static() {
    let dhcp = ipv4_settings(&WifiIpv4Config::dhcp()).unwrap();
    assert!(matches!(find(&dhcp, "ipv4", "method"), Some(SettingValue::Text(t)) if t == "auto"));
    assert!(matches!(find(&dhcp, "ipv4", "ignore-auto-dns"), Some(SettingValue::Flag(false))));

    let config = WifiIpv4Config {
        mode: WifiIpv4Mode::Static,
        address: Some("192.168.1.20".to_string()),
        prefix_length: Some(24),
        gateway: Some("192.168.1.1".to_string()),
        dns_servers: vec!["1.1.1.1".to_string()],
    };
    let manual = ipv4_settings(&config).unwrap();
    assert!(matches!(find(&manual, "ipv4", "method"), Some(SettingValue::Text(t)) if t == "manual"));
    assert!(matches!(find(&manual, "ipv4", "address-data"), Some(SettingValue::AddressData(a, 24)) if a == "192.168.1.20"));
    assert!(matches!(find(&manual, "ipv4", "dns-data"), Some(SettingValue::TextList(l)) if l == &vec!["1.1.1.1".to_string()]));
    assert!(matches!(find(&manual, "ipv4", "ignore-auto-dns"), Some(SettingValue::Flag(true))));

    let bad = WifiIpv4Config { address: Some("192.168.1.20".to_string()), ..WifiIpv4Config::dhcp() };
    assert_eq!(ipv4_settings(&bad).unwrap_err().code, "wifi_invalid_ipv4_config");
    assert_eq!(replaced_ipv4_keys(), vec!["address-data", "addresses", "gateway", "dns", "dns-data"]);
}

#[test]
fn preferred_profile_gets_autoconnect() {
    assert_eq!(preferred_profile_settings(true, 5).len(), 2);
    let others = preferred_profile_settings(false, 4);
    assert_eq!(others.len(), 1);
    assert!(matches!(&others[0].value, SettingValue::Int(4)));
}

#[test]
fn profile_ipv4_is_read_back() {
    let dhcp = profile_ipv4_config(Some("auto".to_string()), None, None, vec![]);
    assert_eq!(dhcp, WifiIpv4Config::dhcp());
    let manual = profile_ipv4_config(
        Some("manual".to_string()),
        Some((Some("10.0.0.5".to_string()), Some(8))),
        Some("  ".to_string()),
        vec!["a".to_string(), "b".to_string(), "c".to_string(), "d".to_string()],
    );
    assert_eq!(manual.mode, WifiIpv4Mode::Static);
    assert_eq!(manual.address.as_deref(), Some("10.0.0.5"));
    assert_eq!(manual.prefix_length, Some(8));
    assert_eq!(manual.gateway, None);
    assert_eq!(manual.dns_servers.len(), 3);
    let wide = profile_ipv4_config(Some("manual".to_string()), Some((None, Some(300))), None, vec![]);
    assert_eq!(wide.prefix_length, None);
}
