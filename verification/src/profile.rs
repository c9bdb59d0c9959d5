//! The NetworkManager settings of the device's own Wi-Fi profiles: what a new
//! profile holds, how its security and IPv4 addressing are written, how a
//! profile is made the preferred one, and how its IPv4 addressing is read
//! back.
use vstd::prelude::*;
use vstd::utf8::encode_utf8;
use crate::provisioning::{settings_view, text, NmSetting, SettingValue, SettingView};
use crate::text::{push_str, str_eq, string_of, trim, trimmed};
use crate::wifi::{
    ipv4_config_error, is_error, validate_ipv4_config, WifiAddProfileRequest, WifiIpv4Config, WifiIpv4Mode,
    WifiOperationError, WifiSecurity,
};

verus! {

pub type SettingsView = Seq<(Seq<char>, Seq<char>, SettingView)>;

/// The security part of a profile: nothing for an open network, else the key
/// management (`sae` for WPA3, `wpa-psk` otherwise) and the password when
/// one is given.
pub open spec fn security_settings_spec(security: WifiSecurity, password: Option<Seq<char>>) -> SettingsView {
    if security == WifiSecurity::Open {
        Seq::empty()
    } else {
        seq![
            (
                "802-11-wireless-security"@,
                "key-mgmt"@,
                SettingView::Text(
                    if security == WifiSecurity::Wpa3Personal {
                        "sae"@
                    } else {
                        "wpa-psk"@
                    },
                ),
            ),
        ] + match password {
            Some(p) => if p.len() > 0 {
                seq![("802-11-wireless-security"@, "psk"@, SettingView::Text(p))]
            } else {
                Seq::empty()
            },
            None => Seq::empty(),
        }
    }
}

pub open spec fn opt_text(s: Option<&str>) -> Option<Seq<char>> {
    match s {
        Some(t) => Some(t@),
        None => None,
    }
}

/// How a profile's security is written.
#[derive(Debug)]
pub enum SecurityChange {
    /// Drop the security section: the network is open.
    RemoveSection,
    /// Write these settings into the security section; drop its password when
    /// none is among them.
    Write(Vec<NmSetting>),
}

/// The security settings for `security`, refused for enterprise networks.
pub fn security_settings(security: WifiSecurity, password: Option<&str>) -> (r: Result<SecurityChange, WifiOperationError>)
    ensures
        security == WifiSecurity::Enterprise <==> r is Err,
        r matches Err(e) ==> is_error(e, "wifi_enterprise_unsupported", "Enterprise Wi-Fi profiles cannot be added or changed here"),
        r matches Ok(c) ==> (security == WifiSecurity::Open <==> c is RemoveSection),
        r matches Ok(SecurityChange::Write(v)) ==> settings_view(v@) == security_settings_spec(security, opt_text(password)),
{
    if security == WifiSecurity::Open {
        return Ok(SecurityChange::RemoveSection);
    }
    if security == WifiSecurity::Enterprise {
        return Err(WifiOperationError::new(
            "wifi_enterprise_unsupported",
            "Enterprise Wi-Fi profiles cannot be added or changed here",
        ));
    }
    let key_mgmt = if security == WifiSecurity::Wpa3Personal {
        "sae"
    } else {
        "wpa-psk"
    };
    let mut v = vec![text("802-11-wireless-security", "key-mgmt", key_mgmt)];
    match password {
        Some(p) => {
            if p.unicode_len() > 0 {
                v.push(text("802-11-wireless-security", "psk", p));
            }
        },
        None => {},
    }
    assert(settings_view(v@) =~= security_settings_spec(security, opt_text(password)));
    Ok(SecurityChange::Write(v))
}

/// A new profile for `request`: named "YoYoPod" and the network's name, a
/// Wi-Fi profile with the given autoconnect flag and priority, the network's
/// name as bytes, infrastructure mode, the hidden flag, automatic IPv4 and
/// IPv6, then its security.
pub open spec fn profile_settings_spec(
    ssid: Seq<char>,
    hidden: bool,
    autoconnect: bool,
    priority: i32,
    security: WifiSecurity,
    password: Option<Seq<char>>,
) -> SettingsView {
    seq![
        ("connection"@, "id"@, SettingView::Text("YoYoPod "@ + ssid)),
        ("connection"@, "type"@, SettingView::Text("802-11-wireless"@)),
        ("connection"@, "autoconnect"@, SettingView::Flag(autoconnect)),
        ("connection"@, "autoconnect-priority"@, SettingView::Int(priority)),
        ("802-11-wireless"@, "ssid"@, SettingView::Bytes(encode_utf8(ssid))),
        ("802-11-wireless"@, "mode"@, SettingView::Text("infrastructure"@)),
        ("802-11-wireless"@, "hidden"@, SettingView::Flag(hidden)),
        ("ipv4"@, "method"@, SettingView::Text("auto"@)),
        ("ipv6"@, "method"@, SettingView::Text("auto"@)),
    ] + security_settings_spec(security, password)
}

pub open spec fn opt_string(s: Option<String>) -> Option<Seq<char>> {
    match s {
        Some(t) => Some(t@),
        None => None,
    }
}

/// The settings of a new profile; refused for enterprise networks.
pub fn profile_settings(request: &WifiAddProfileRequest, autoconnect: bool, priority: i32) -> (r: Result<
    Vec<NmSetting>,
    WifiOperationError,
>)
    ensures
        request.security == WifiSecurity::Enterprise <==> r is Err,
        r matches Err(e) ==> is_error(e, "wifi_enterprise_unsupported", "Enterprise Wi-Fi profiles cannot be added or changed here"),
        r matches Ok(v) ==> settings_view(v@) == profile_settings_spec(
            request.ssid@,
            request.hidden,
            autoconnect,
            priority,
            request.security,
            opt_string(request.password),
        ),
{
    let mut id: Vec<char> = Vec::new();
    push_str(&mut id, "YoYoPod ");
    push_str(&mut id, request.ssid.as_str());
    let id_text = string_of(&id);
    let mut v = vec![
        text("connection", "id", id_text.as_str()),
        text("connection", "type", "802-11-wireless"),
        NmSetting { section: "connection", key: "autoconnect", value: SettingValue::Flag(autoconnect) },
        NmSetting { section: "connection", key: "autoconnect-priority", value: SettingValue::Int(priority) },
        NmSetting { section: "802-11-wireless", key: "ssid", value: SettingValue::Bytes(request.ssid.as_str().as_bytes_vec()) },
        text("802-11-wireless", "mode", "infrastructure"),
        NmSetting { section: "802-11-wireless", key: "hidden", value: SettingValue::Flag(request.hidden) },
        text("ipv4", "method", "auto"),
        text("ipv6", "method", "auto"),
    ];
    let ghost head = settings_view(v@);
    let password: Option<&str> = match &request.password {
        Some(p) => Some(p.as_str()),
        None => None,
    };
    assert(opt_text(password) == opt_string(request.password));
    match security_settings(request.security, password) {
        Err(e) => Err(e),
        Ok(SecurityChange::RemoveSection) => {
            assert(settings_view(v@) =~= head + Seq::<(Seq<char>, Seq<char>, SettingView)>::empty());
            Ok(v)
        },
        Ok(SecurityChange::Write(mut extra)) => {
            let ghost tail = settings_view(extra@);
            v.append(&mut extra);
            assert(settings_view(v@) =~= head + tail);
            Ok(v)
        },
    }
}

/// The IPv4 keys that are cleared before the addressing is written.
pub fn replaced_ipv4_keys() -> (r: Vec<&'static str>)
    ensures
        r@.map_values(|k: &'static str| k@) == seq!["address-data"@, "addresses"@, "gateway"@, "dns"@, "dns-data"@],
{
    let r = vec!["address-data", "addresses", "gateway", "dns", "dns-data"];
    assert(r@.map_values(|k: &'static str| k@) =~= seq!["address-data"@, "addresses"@, "gateway"@, "dns"@, "dns-data"@]);
    r
}

/// The IPv4 addressing of a profile: automatic, with the DHCP servers'
/// DNS; or manual, with its one address and prefix, its gateway and its DNS
/// servers only.
pub open spec fn ipv4_settings_spec(config: WifiIpv4Config) -> SettingsView {
    if config.mode == WifiIpv4Mode::Dhcp {
        seq![("ipv4"@, "method"@, SettingView::Text("auto"@)), ("ipv4"@, "ignore-auto-dns"@, SettingView::Flag(false))]
    } else {
        seq![
            ("ipv4"@, "method"@, SettingView::Text("manual"@)),
            (
                "ipv4"@,
                "address-data"@,
                SettingView::AddressData(
                    match config.address {
                        Some(a) => a@,
                        None => Seq::empty(),
                    },
                    match config.prefix_length {
                        Some(p) => p as u32,
                        None => 0u32,
                    },
                ),
            ),
            (
                "ipv4"@,
                "gateway"@,
                SettingView::Text(
                    match config.gateway {
                        Some(g) => g@,
                        None => Seq::empty(),
                    },
                ),
            ),
            ("ipv4"@, "dns-data"@, SettingView::TextList(config.dns_servers@.map_values(|t: String| t@))),
            ("ipv4"@, "ignore-auto-dns"@, SettingView::Flag(true)),
        ]
    }
}

/// The IPv4 settings for `config`, refused when the configuration is
/// invalid.
pub fn ipv4_settings(config: &WifiIpv4Config) -> (r: Result<Vec<NmSetting>, WifiOperationError>)
    ensures
        r is Ok <==> ipv4_config_error(*config) is None,
        r matches Err(e) ==> (e.code@, e.message@) == ipv4_config_error(*config).unwrap(),
        r matches Ok(v) ==> settings_view(v@) == ipv4_settings_spec(*config),
{
    validate_ipv4_config(config)?;
    if config.mode == WifiIpv4Mode::Dhcp {
        let v = vec![
            text("ipv4", "method", "auto"),
            NmSetting { section: "ipv4", key: "ignore-auto-dns", value: SettingValue::Flag(false) },
        ];
        assert(settings_view(v@) =~= ipv4_settings_spec(*config));
        return Ok(v);
    }
    let address = match &config.address {
        Some(a) => a.clone(),
        None => String::new(),
    };
    let prefix: u32 = match config.prefix_length {
        Some(p) => p as u32,
        None => 0,
    };
    let gateway = match &config.gateway {
        Some(g) => g.clone(),
        None => String::new(),
    };
    let v = vec![
        text("ipv4", "method", "manual"),
        NmSetting { section: "ipv4", key: "address-data", value: SettingValue::AddressData(address, prefix) },
        NmSetting { section: "ipv4", key: "gateway", value: SettingValue::Text(gateway) },
        NmSetting { section: "ipv4", key: "dns-data", value: SettingValue::TextList(clone_strings(&config.dns_servers)) },
        NmSetting { section: "ipv4", key: "ignore-auto-dns", value: SettingValue::Flag(true) },
    ];
    assert(settings_view(v@) =~= ipv4_settings_spec(*config));
    Ok(v)
}

fn clone_strings(v: &Vec<String>) -> (r: Vec<String>)
    ensures
        r@.map_values(|t: String| t@) == v@.map_values(|t: String| t@),
{
    let mut r: Vec<String> = Vec::new();
    let mut i: usize = 0;
    while i < v.len()
        invariant
            i <= v@.len(),
            r@.map_values(|t: String| t@) == v@.subrange(0, i as int).map_values(|t: String| t@),
        decreases v.len() - i,
    {
        let ghost before = r@;
        r.push(v[i].clone());
        assert(r@.map_values(|t: String| t@) =~= before.map_values(|t: String| t@).push(v@[i as int]@));
        assert(v@.subrange(0, i + 1).map_values(|t: String| t@) =~= v@.subrange(0, i as int).map_values(
            |t: String| t@,
        ).push(v@[i as int]@));
        i = i + 1;
    }
    assert(v@.subrange(0, v@.len() as int) =~= v@);
    r
}

/// What makes a profile preferred: the target connects by itself, and every
/// profile gets its place in the priority order.
pub fn preferred_profile_settings(is_target: bool, priority: i32) -> (r: Vec<NmSetting>)
    ensures
        settings_view(r@) == (if is_target {
            seq![("connection"@, "autoconnect"@, SettingView::Flag(true))]
        } else {
            Seq::empty()
        }) + seq![("connection"@, "autoconnect-priority"@, SettingView::Int(priority))],
{
    let mut r: Vec<NmSetting> = Vec::new();
    if is_target {
        r.push(NmSetting { section: "connection", key: "autoconnect", value: SettingValue::Flag(true) });
    }
    r.push(NmSetting { section: "connection", key: "autoconnect-priority", value: SettingValue::Int(priority) });
    assert(settings_view(r@) =~= (if is_target {
        seq![("connection"@, "autoconnect"@, SettingView::Flag(true))]
    } else {
        Seq::empty()
    }) + seq![("connection"@, "autoconnect-priority"@, SettingView::Int(priority))]);
    r
}

/// The IPv4 addressing read back from a profile's settings: DHCP unless the
/// method is manual; then the first address and its prefix (when it fits a
/// byte), the gateway unless blank, and at most three DNS servers.
pub open spec fn profile_ipv4_spec(
    method: Option<Seq<char>>,
    first_address: Option<(Option<Seq<char>>, Option<u32>)>,
    gateway: Option<Seq<char>>,
    dns: Seq<Seq<char>>,
) -> (WifiIpv4Mode, Option<Seq<char>>, Option<u8>, Option<Seq<char>>, Seq<Seq<char>>) {
    if method != Some("manual"@) {
        (WifiIpv4Mode::Dhcp, None, None, None, Seq::empty())
    } else {
        (
            WifiIpv4Mode::Static,
            match first_address {
                Some(a) => a.0,
                None => None,
            },
            match first_address {
                Some(a) => match a.1 {
                    Some(p) => if p <= 255 {
                        Some(p as u8)
                    } else {
                        None
                    },
                    None => None,
                },
                None => None,
            },
            match gateway {
                Some(g) => if trim(g).len() == 0 {
                    None
                } else {
                    Some(g)
                },
                None => None,
            },
            if dns.len() > 3 {
                dns.subrange(0, 3)
            } else {
                dns
            },
        )
    }
}

pub open spec fn config_view(c: WifiIpv4Config) -> (WifiIpv4Mode, Option<Seq<char>>, Option<u8>, Option<Seq<char>>, Seq<Seq<char>>) {
    (c.mode, opt_string(c.address), c.prefix_length, opt_string(c.gateway), c.dns_servers@.map_values(|t: String| t@))
}

/// Reads a profile's IPv4 addressing from the values found in its
/// settings: the method, the first `address-data` entry's address and
/// prefix, the gateway and the DNS servers.
pub fn profile_ipv4_config(
    method: Option<String>,
    first_address: Option<(Option<String>, Option<u32>)>,
    gateway: Option<String>,
    dns: Vec<String>,
) -> (r: WifiIpv4Config)
    ensures
        config_view(r) == profile_ipv4_spec(
            opt_string(method),
            match first_address {
                Some(a) => Some((opt_string(a.0), a.1)),
                None => None,
            },
            opt_string(gateway),
            dns@.map_values(|t: String| t@),
        ),
{
    let manual = match &method {
        Some(m) => str_eq(m.as_str(), "manual"),
        None => false,
    };
    if !manual {
        let c = WifiIpv4Config::dhcp();
        assert(c.dns_servers@.map_values(|t: String| t@) =~= Seq::<Seq<char>>::empty());
        proof {
            reveal_strlit("manual");
        }
        return c;
    }
    let (address, prefix) = match first_address {
        Some((a, p)) => (a, match p {
            Some(n) => if n <= 255 {
                Some(n as u8)
            } else {
                None
            },
            None => None,
        }),
        None => (None, None),
    };
    let gateway = match gateway {
        Some(g) => if trimmed(g.as_str()).len() == 0 {
            None
        } else {
            Some(g)
        },
        None => None,
    };
    let mut servers: Vec<String> = Vec::new();
    let mut i: usize = 0;
    let limit: usize = if dns.len() > 3 {
        3
    } else {
        dns.len()
    };
    while i < limit
        invariant
            limit <= dns@.len(),
            i <= limit,
            servers@.map_values(|t: String| t@) == dns@.subrange(0, i as int).map_values(|t: String| t@),
        decreases limit - i,
    {
        let ghost before = servers@;
        servers.push(dns[i].clone());
        assert(servers@.map_values(|t: String| t@) =~= before.map_values(|t: String| t@).push(dns@[i as int]@));
        assert(dns@.subrange(0, i + 1).map_values(|t: String| t@) =~= dns@.subrange(0, i as int).map_values(
            |t: String| t@,
        ).push(dns@[i as int]@));
        i = i + 1;
    }
    proof {
        reveal_strlit("manual");
        if dns@.len() <= 3 {
            assert(dns@.subrange(0, dns@.len() as int) =~= dns@);
        }
        assert(dns@.map_values(|t: String| t@).subrange(0, limit as int) =~= dns@.subrange(0, limit as int).map_values(|t: String| t@));
    }
    WifiIpv4Config { mode: WifiIpv4Mode::Static, address, prefix_length: prefix, gateway, dns_servers: servers }
}

} // verus!
