//! Wi-Fi station management: the state reported to the cloud, the requests it
//! sends, and the rules a request must meet before NetworkManager sees it.
use vstd::prelude::*;
use vstd::utf8::encode_utf8;
use crate::clock::epoch_seconds;
use crate::ipv4::{ipv4_bits, ipv4_parse, parse_usable, bits, usable};
use crate::text::{chars_of, is_control, is_control_char, owned, trim, trimmed};

verus! {

pub const NM_AP_FLAGS_PRIVACY: u32 = 0x1;
pub const NM_AP_SEC_KEY_MGMT_802_1X: u32 = 0x200;
pub const NM_AP_SEC_KEY_MGMT_SAE: u32 = 0x400;
pub const NM_AP_SEC_KEY_MGMT_OWE: u32 = 0x800;
pub const NM_AUTOCONNECT_PRIORITY_MIN: i32 = -999;
pub const NM_AUTOCONNECT_PRIORITY_MAX: i32 = 999;
pub const MAX_SAVED_PROFILES: usize = 32;
pub const MAX_NEARBY_NETWORKS: usize = 64;

#[derive(Debug, Clone, Copy, PartialEq, Eq, Hash, Structural)]
pub enum WifiSecurity {
    Open,
    Wpa2Personal,
    Wpa3Personal,
    Enterprise,
}

impl WifiSecurity {
    pub fn supports_profile_changes(self) -> (r: bool)
        ensures
            r == (self != WifiSecurity::Enterprise),
    {
        !matches!(self, WifiSecurity::Enterprise)
    }
}

#[derive(Debug, Clone, Copy, PartialEq, Eq, Structural)]
pub enum WifiStateStatus {
    Ready,
    Unavailable,
}

#[derive(Debug, Clone, Copy, PartialEq, Eq, Structural)]
pub enum WifiIpv4Mode {
    Dhcp,
    Static,
}

#[derive(Debug, Clone, PartialEq, Eq)]
pub struct WifiIpv4Config {
    pub mode: WifiIpv4Mode,
    pub address: Option<String>,
    pub prefix_length: Option<u8>,
    pub gateway: Option<String>,
    pub dns_servers: Vec<String>,
}

impl WifiIpv4Config {
    pub fn dhcp() -> (c: Self)
        ensures
            c.mode == WifiIpv4Mode::Dhcp,
            c.address is None,
            c.prefix_length is None,
            c.gateway is None,
            c.dns_servers@.len() == 0,
    {
        WifiIpv4Config {
            mode: WifiIpv4Mode::Dhcp,
            address: None,
            prefix_length: None,
            gateway: None,
            dns_servers: Vec::new(),
        }
    }
}

#[derive(Debug, Clone, Copy, PartialEq, Eq, Structural)]
pub enum WifiActivationPreference {
    Preferred,
    SessionOnly,
}

#[derive(Debug, Clone, Copy, PartialEq, Eq, Structural)]
pub enum WifiChangeOperation {
    ActivateProfile,
    UpdateIpv4,
}

#[derive(Debug, Clone, PartialEq, Eq)]
pub struct WifiActiveNetwork {
    pub profile_id: String,
    pub ssid: String,
    pub security: WifiSecurity,
    pub signal_percent: u8,
    pub ipv4: Option<WifiIpv4Config>,
}

#[derive(Debug, Clone, PartialEq, Eq)]
pub struct WifiSavedProfile {
    pub profile_id: String,
    pub ssid: String,
    pub security: WifiSecurity,
    pub hidden: bool,
    pub active: bool,
    pub autoconnect: bool,
    pub ipv4_config: WifiIpv4Config,
}

#[derive(Debug, Clone, PartialEq, Eq)]
pub struct WifiNearbyNetwork {
    pub ssid: String,
    pub security: WifiSecurity,
    pub signal_percent: u8,
    pub saved: bool,
    pub active: bool,
}

#[derive(Debug, Clone, PartialEq, Eq)]
pub struct WifiState {
    pub schema_version: u16,
    pub status: WifiStateStatus,
    pub radio_enabled: bool,
    pub active_network: Option<WifiActiveNetwork>,
    pub saved_profiles: Vec<WifiSavedProfile>,
    pub nearby_networks: Vec<WifiNearbyNetwork>,
    pub scanned_at: Option<u64>,
    pub reported_at: u64,
}

impl WifiState {
    /// The state reported when no Wi-Fi management is available; it is
    /// stamped with the current time.
    pub fn unavailable() -> (s: Self)
        ensures
            s.schema_version == 2,
            s.status == WifiStateStatus::Unavailable,
            !s.radio_enabled,
            s.active_network is None,
            s.saved_profiles@.len() == 0,
            s.nearby_networks@.len() == 0,
            s.scanned_at is None,
    {
        WifiState {
            schema_version: 2,
            status: WifiStateStatus::Unavailable,
            radio_enabled: false,
            active_network: None,
            saved_profiles: Vec::new(),
            nearby_networks: Vec::new(),
            scanned_at: None,
            reported_at: epoch_seconds(),
        }
    }
}

#[derive(Debug, Clone, PartialEq, Eq)]
pub struct WifiAddProfileRequest {
    pub ssid: String,
    pub security: WifiSecurity,
    pub password: Option<String>,
    pub hidden: bool,
}

#[derive(Debug, Clone, PartialEq, Eq)]
pub struct WifiUpdateProfileRequest {
    pub profile_id: String,
    pub ssid: Option<String>,
    pub security: Option<WifiSecurity>,
    pub password: Option<String>,
    pub hidden: Option<bool>,
}

#[derive(Debug, Clone, PartialEq, Eq)]
pub struct WifiActivateProfileRequest {
    pub profile_id: String,
    pub preference: WifiActivationPreference,
}

#[derive(Debug, Clone, PartialEq, Eq)]
pub struct WifiUpdateIpv4Request {
    pub profile_id: String,
    pub ipv4: WifiIpv4Config,
}

#[derive(Debug, Clone, PartialEq, Eq)]
pub enum WifiChangeStart {
    Immediate(WifiState),
    Pending { profile_id: String, operation: WifiChangeOperation },
}

#[derive(Debug, Clone, PartialEq, Eq)]
pub struct WifiOperationError {
    pub code: String,
    pub message: String,
}

/// Whether `e` carries exactly this code and message.
pub open spec fn is_error(e: WifiOperationError, code: &str, message: &str) -> bool {
    e.code@ == code@ && e.message@ == message@
}

impl WifiOperationError {
    pub fn new(code: &str, message: &str) -> (e: Self)
        ensures
            is_error(e, code, message),
    {
        WifiOperationError { code: owned(code), message: owned(message) }
    }

    pub fn unavailable() -> (e: Self)
        ensures
            is_error(e, "wifi_unavailable", "Wi-Fi management is not available on this YoYoPod"),
    {
        Self::new("wifi_unavailable", "Wi-Fi management is not available on this YoYoPod")
    }

    pub fn operation_failed() -> (e: Self)
        ensures
            is_error(e, "wifi_operation_failed", "The Wi-Fi operation could not be completed"),
    {
        Self::new("wifi_operation_failed", "The Wi-Fi operation could not be completed")
    }
}

/// A Wi-Fi backend: NetworkManager on the device, or none.
pub trait WifiController {
    fn refresh(&mut self) -> Result<WifiState, WifiOperationError>;

    fn scan(&mut self) -> Result<WifiState, WifiOperationError>;

    fn add_profile(&mut self, request: WifiAddProfileRequest) -> Result<
        WifiState,
        WifiOperationError,
    >;

    fn update_profile(&mut self, request: WifiUpdateProfileRequest) -> Result<
        WifiState,
        WifiOperationError,
    >;

    fn forget_profile(&mut self, profile_id: &str) -> Result<WifiState, WifiOperationError>;

    fn begin_activate_profile(&mut self, request: WifiActivateProfileRequest) -> Result<
        WifiChangeStart,
        WifiOperationError,
    >;

    fn begin_update_ipv4(&mut self, request: WifiUpdateIpv4Request) -> Result<
        WifiChangeStart,
        WifiOperationError,
    >;

    fn confirm_pending_change(&mut self) -> Result<WifiState, WifiOperationError>;

    fn rollback_pending_change(&mut self) -> Result<WifiState, WifiOperationError>;
}

/// The backend used when NetworkManager cannot be reached: refreshes report
/// an unavailable state and every change fails with `wifi_unavailable`.
#[derive(Debug, Default)]
pub struct UnavailableWifiController;

impl WifiController for UnavailableWifiController {
    fn refresh(&mut self) -> (r: Result<WifiState, WifiOperationError>) {
        Ok(WifiState::unavailable())
    }

    fn scan(&mut self) -> (r: Result<WifiState, WifiOperationError>) {
        Err(WifiOperationError::unavailable())
    }

    fn add_profile(&mut self, request: WifiAddProfileRequest) -> (r: Result<
        WifiState,
        WifiOperationError,
    >) {
        Err(WifiOperationError::unavailable())
    }

    fn update_profile(&mut self, request: WifiUpdateProfileRequest) -> (r: Result<
        WifiState,
        WifiOperationError,
    >) {
        Err(WifiOperationError::unavailable())
    }

    fn forget_profile(&mut self, profile_id: &str) -> (r: Result<WifiState, WifiOperationError>) {
        Err(WifiOperationError::unavailable())
    }

    fn begin_activate_profile(&mut self, request: WifiActivateProfileRequest) -> (r: Result<
        WifiChangeStart,
        WifiOperationError,
    >) {
        Err(WifiOperationError::unavailable())
    }

    fn begin_update_ipv4(&mut self, request: WifiUpdateIpv4Request) -> (r: Result<
        WifiChangeStart,
        WifiOperationError,
    >) {
        Err(WifiOperationError::unavailable())
    }

    fn confirm_pending_change(&mut self) -> (r: Result<WifiState, WifiOperationError>) {
        Err(WifiOperationError::unavailable())
    }

    fn rollback_pending_change(&mut self) -> (r: Result<WifiState, WifiOperationError>) {
        Err(WifiOperationError::unavailable())
    }
}

// ---------------------------------------------------------------------------
// Request validation
// ---------------------------------------------------------------------------

/// A profile reference is usable when it is not blank and at most 80 bytes.
pub open spec fn profile_id_valid(profile_id: Seq<char>) -> bool {
    trim(profile_id).len() != 0 && encode_utf8(profile_id).len() <= 80
}

pub fn validate_profile_id(profile_id: &str) -> (r: Result<(), WifiOperationError>)
    ensures
        r is Ok <==> profile_id_valid(profile_id@),
        r matches Err(e) ==> is_error(
            e,
            "wifi_invalid_profile_id",
            "The saved Wi-Fi network reference is invalid",
        ),
{
    let t = trimmed(profile_id);
    if t.len() == 0 || profile_id.as_bytes().len() > 80 {
        return Err(
            WifiOperationError::new(
                "wifi_invalid_profile_id",
                "The saved Wi-Fi network reference is invalid",
            ),
        );
    }
    Ok(())
}

pub open spec fn has_control(s: Seq<char>) -> bool {
    exists|i: int| 0 <= i < s.len() && #[trigger] is_control(s[i])
}

/// A Wi-Fi name is usable when it is not blank, at most 32 bytes, and free of
/// control characters.
pub open spec fn ssid_valid(ssid: Seq<char>) -> bool {
    trim(ssid).len() != 0 && encode_utf8(ssid).len() <= 32 && !has_control(ssid)
}

pub fn contains_control(s: &str) -> (r: bool)
    ensures
        r == has_control(s@),
{
    let v = chars_of(s);
    let mut i: usize = 0;
    while i < v.len()
        invariant
            v@ == s@,
            i <= v.len(),
            forall|k: int| 0 <= k < i ==> !is_control(#[trigger] v@[k]),
        decreases v.len() - i,
    {
        if is_control_char(v[i]) {
            return true;
        }
        i = i + 1;
    }
    false
}

pub fn validate_ssid(ssid: &str) -> (r: Result<(), WifiOperationError>)
    ensures
        r is Ok <==> ssid_valid(ssid@),
        r matches Err(e) ==> is_error(
            e,
            "wifi_invalid_ssid",
            "Enter a Wi-Fi name between 1 and 32 bytes",
        ),
{
    let t = trimmed(ssid);
    if t.len() == 0 || ssid.as_bytes().len() > 32 || contains_control(ssid) {
        return Err(
            WifiOperationError::new("wifi_invalid_ssid", "Enter a Wi-Fi name between 1 and 32 bytes"),
        );
    }
    Ok(())
}

/// The active profile cannot be changed or forgotten.
pub fn ensure_profile_inactive(active: Option<&WifiActiveNetwork>, profile_id: &str) -> (r: Result<
    (),
    WifiOperationError,
>)
    ensures
        r is Ok <==> !(active matches Some(a) && a.profile_id@ == profile_id@),
        r matches Err(e) ==> is_error(
            e,
            "wifi_active_profile_immutable",
            "The active Wi-Fi network cannot be changed or forgotten",
        ),
{
    match active {
        Some(a) => {
            if crate::text::str_eq(a.profile_id.as_str(), profile_id) {
                return Err(
                    WifiOperationError::new(
                        "wifi_active_profile_immutable",
                        "The active Wi-Fi network cannot be changed or forgotten",
                    ),
                );
            }
            Ok(())
        },
        None => Ok(()),
    }
}

/// The autoconnect priority for a newly saved profile: one below the active
/// one, which must lie in NetworkManager's range and above its minimum.
pub fn lower_autoconnect_priority(active_priority: i32) -> (r: Result<i32, WifiOperationError>)
    ensures
        r is Ok <==> NM_AUTOCONNECT_PRIORITY_MIN < active_priority <= NM_AUTOCONNECT_PRIORITY_MAX,
        r matches Ok(p) ==> p == active_priority - 1,
        r matches Err(e) ==> is_error(
            e,
            "wifi_profile_priority_unavailable",
            "Another Wi-Fi network cannot be saved safely while this profile is active",
        ),
{
    if !(NM_AUTOCONNECT_PRIORITY_MIN <= active_priority && active_priority
        <= NM_AUTOCONNECT_PRIORITY_MAX) || active_priority == NM_AUTOCONNECT_PRIORITY_MIN {
        return Err(
            WifiOperationError::new(
                "wifi_profile_priority_unavailable",
                "Another Wi-Fi network cannot be saved safely while this profile is active",
            ),
        );
    }
    Ok(active_priority - 1)
}

pub open spec fn is_hex_byte(b: u8) -> bool {
    (0x30 <= b <= 0x39) || (0x41 <= b <= 0x46) || (0x61 <= b <= 0x66)
}

/// A WPA passphrase of 8 to 63 bytes, or a 64-digit hexadecimal key.
pub open spec fn passphrase_valid(bytes: Seq<u8>) -> bool {
    (8 <= bytes.len() <= 63) || (bytes.len() == 64 && forall|i: int|
        0 <= i < 64 ==> #[trigger] is_hex_byte(bytes[i]))
}

pub open spec fn opt_view(s: Option<&str>) -> Option<Seq<char>> {
    match s {
        Some(t) => Some(t@),
        None => None,
    }
}

pub open spec fn opt_string_view(s: Option<String>) -> Option<Seq<char>> {
    match s {
        Some(t) => Some(t@),
        None => None,
    }
}

/// The error (code, message) that `validate_password` answers, or `None`
/// when it accepts.
pub open spec fn password_error(security: WifiSecurity, password: Option<Seq<char>>, required: bool) -> Option<
    (Seq<char>, Seq<char>),
> {
    if security == WifiSecurity::Enterprise {
        Some(
            (
                "wifi_enterprise_unsupported"@,
                "Enterprise Wi-Fi profiles cannot be added or changed here"@,
            ),
        )
    } else if security == WifiSecurity::Open {
        if password matches Some(p) && p.len() != 0 {
            Some(("wifi_open_password_not_allowed"@, "Open Wi-Fi networks do not use a password"@))
        } else {
            None
        }
    } else if password is None || password.unwrap().len() == 0 {
        if required {
            Some(("wifi_password_required"@, "Enter the Wi-Fi password"@))
        } else {
            None
        }
    } else if !passphrase_valid(encode_utf8(password.unwrap())) {
        Some(
            (
                "wifi_invalid_password"@,
                "Use 8 to 63 characters, or a 64-character hexadecimal key"@,
            ),
        )
    } else {
        None
    }
}

pub fn all_hex(bytes: &[u8]) -> (r: bool)
    ensures
        r == forall|i: int| 0 <= i < bytes@.len() ==> #[trigger] is_hex_byte(bytes@[i]),
{
    let mut i: usize = 0;
    while i < bytes.len()
        invariant
            i <= bytes@.len(),
            forall|k: int| 0 <= k < i ==> #[trigger] is_hex_byte(bytes@[k]),
        decreases bytes.len() - i,
    {
        let b = bytes[i];
        if !((0x30 <= b && b <= 0x39) || (0x41 <= b && b <= 0x46) || (0x61 <= b && b <= 0x66)) {
            assert(!is_hex_byte(bytes@[i as int]));
            return false;
        }
        i = i + 1;
    }
    true
}

pub fn validate_password(security: WifiSecurity, password: Option<&str>, required: bool) -> (r:
    Result<(), WifiOperationError>)
    ensures
        r is Ok <==> password_error(security, opt_view(password), required) is None,
        r matches Err(e) ==> (e.code@, e.message@) == password_error(
            security,
            opt_view(password),
            required,
        ).unwrap(),
{
    if security == WifiSecurity::Enterprise {
        return Err(
            WifiOperationError::new(
                "wifi_enterprise_unsupported",
                "Enterprise Wi-Fi profiles cannot be added or changed here",
            ),
        );
    }
    if security == WifiSecurity::Open {
        if let Some(p) = password {
            if !p.is_empty() {
                return Err(
                    WifiOperationError::new(
                        "wifi_open_password_not_allowed",
                        "Open Wi-Fi networks do not use a password",
                    ),
                );
            }
        }
        return Ok(());
    }
    let p = match password {
        Some(p) => {
            if p.is_empty() {
                None
            } else {
                Some(p)
            }
        },
        None => None,
    };
    let p = match p {
        Some(p) => p,
        None => {
            if required {
                return Err(WifiOperationError::new("wifi_password_required", "Enter the Wi-Fi password"));
            } else {
                return Ok(());
            }
        },
    };
    let len = p.as_bytes().len();
    let valid = (8 <= len && len <= 63) || (len == 64 && all_hex(p.as_bytes()));
    if !valid {
        return Err(
            WifiOperationError::new(
                "wifi_invalid_password",
                "Use 8 to 63 characters, or a 64-character hexadecimal key",
            ),
        );
    }
    Ok(())
}

/// Whether `text` holds a usable dotted-decimal IPv4 address.
pub open spec fn usable_text(text: Seq<char>) -> bool {
    ipv4_parse(text) is Some && usable(ipv4_parse(text).unwrap())
}

pub open spec fn usable_opt(text: Option<String>) -> bool {
    text matches Some(t) && usable_text(t@)
}

/// The address bits of a text already known to be usable.
pub open spec fn text_bits(text: Option<String>) -> u32 {
    ipv4_bits(ipv4_parse(text.unwrap()@).unwrap())
}

pub open spec fn prefix_mask(prefix: u8) -> u32 {
    (0xFFFF_FFFFu32 << ((32 - prefix) as u32)) as u32
}

/// The error (code, message) that `validate_ipv4_config` answers, or `None`
/// when the configuration is acceptable.
pub open spec fn ipv4_config_error(c: WifiIpv4Config) -> Option<(Seq<char>, Seq<char>)> {
    if c.mode == WifiIpv4Mode::Dhcp {
        if c.address is Some || c.prefix_length is Some || c.gateway is Some
            || c.dns_servers@.len() != 0 {
            Some(("wifi_invalid_ipv4_config"@, "DHCP does not accept static IPv4 fields"@))
        } else {
            None
        }
    } else if !usable_opt(c.address) {
        Some(("wifi_invalid_ipv4_address"@, "Enter a usable static IPv4 address"@))
    } else if !(c.prefix_length matches Some(p) && 1 <= p <= 30) {
        Some(("wifi_invalid_ipv4_prefix"@, "Use an IPv4 prefix length between 1 and 30"@))
    } else if !usable_opt(c.gateway) {
        Some(("wifi_invalid_ipv4_gateway"@, "Enter a usable IPv4 gateway"@))
    } else {
        let address = text_bits(c.address);
        let gateway = text_bits(c.gateway);
        let mask = prefix_mask(c.prefix_length.unwrap());
        let network = address & mask;
        let broadcast = network | !mask;
        if address == network || address == broadcast || gateway == network || gateway
            == broadcast || (gateway & mask) != network {
            Some(
                (
                    "wifi_invalid_ipv4_subnet"@,
                    "The static address and gateway must be usable addresses in the same subnet"@,
                ),
            )
        } else if !(1 <= c.dns_servers@.len() <= 3) || exists|i: int|
            0 <= i < c.dns_servers@.len() && !usable_text(#[trigger] c.dns_servers@[i]@) {
            Some(("wifi_invalid_ipv4_dns"@, "Enter one to three usable IPv4 DNS servers"@))
        } else {
            None
        }
    }
}

fn error_of(code: &str, message: &str) -> (r: Result<(), WifiOperationError>)
    ensures
        r matches Err(e) && e.code@ == code@ && e.message@ == message@,
{
    Err(WifiOperationError::new(code, message))
}

/// Checks a requested IPv4 setup: DHCP takes no static fields; a static setup
/// needs a usable address, a prefix of 1 to 30, a usable gateway inside the
/// address's subnet (neither being the network or broadcast address), and
/// one to three usable DNS servers.
#[verifier::loop_isolation(false)]
pub fn validate_ipv4_config(config: &WifiIpv4Config) -> (r: Result<(), WifiOperationError>)
    ensures
        r is Ok <==> ipv4_config_error(*config) is None,
        r matches Err(e) ==> (e.code@, e.message@) == ipv4_config_error(*config).unwrap(),
{
    if config.mode == WifiIpv4Mode::Dhcp {
        if config.address.is_some() || config.prefix_length.is_some() || config.gateway.is_some()
            || config.dns_servers.len() != 0 {
            return error_of("wifi_invalid_ipv4_config", "DHCP does not accept static IPv4 fields");
        }
        return Ok(());
    }
    let address = match &config.address {
        Some(text) => parse_usable(text.as_str()),
        None => None,
    };
    let address = match address {
        Some(o) => o,
        None => {
            return error_of("wifi_invalid_ipv4_address", "Enter a usable static IPv4 address");
        },
    };
    let prefix = match config.prefix_length {
        Some(p) => if 1 <= p && p <= 30 {
            p
        } else {
            return error_of(
                "wifi_invalid_ipv4_prefix",
                "Use an IPv4 prefix length between 1 and 30",
            );
        },
        None => {
            return error_of("wifi_invalid_ipv4_prefix", "Use an IPv4 prefix length between 1 and 30");
        },
    };
    let gateway = match &config.gateway {
        Some(text) => parse_usable(text.as_str()),
        None => None,
    };
    let gateway = match gateway {
        Some(o) => o,
        None => {
            return error_of("wifi_invalid_ipv4_gateway", "Enter a usable IPv4 gateway");
        },
    };
    let mask: u32 = 0xFFFF_FFFFu32 << (32 - (prefix as u32));
    let address_bits = bits(address);
    let gateway_bits = bits(gateway);
    let network = address_bits & mask;
    let broadcast = network | !mask;
    if address_bits == network || address_bits == broadcast || gateway_bits == network
        || gateway_bits == broadcast || (gateway_bits & mask) != network {
        return error_of(
            "wifi_invalid_ipv4_subnet",
            "The static address and gateway must be usable addresses in the same subnet",
        );
    }
    let count = config.dns_servers.len();
    if count < 1 || count > 3 {
        return error_of("wifi_invalid_ipv4_dns", "Enter one to three usable IPv4 DNS servers");
    }
    let mut i: usize = 0;
    while i < count
        invariant
            count == config.dns_servers@.len(),
            i <= count,
            forall|k: int| 0 <= k < i ==> usable_text(#[trigger] config.dns_servers@[k]@),
        decreases count - i,
    {
        if parse_usable(config.dns_servers[i].as_str()).is_none() {
            assert(!usable_text(config.dns_servers@[i as int]@));
            return error_of("wifi_invalid_ipv4_dns", "Enter one to three usable IPv4 DNS servers");
        }
        i = i + 1;
    }
    Ok(())
}

/// The error that `validate_add_request` answers, or `None`.
pub open spec fn add_request_error(r: WifiAddProfileRequest) -> Option<(Seq<char>, Seq<char>)> {
    if !ssid_valid(r.ssid@) {
        Some(("wifi_invalid_ssid"@, "Enter a Wi-Fi name between 1 and 32 bytes"@))
    } else {
        password_error(r.security, opt_string_view(r.password), true)
    }
}

pub fn validate_add_request(request: &WifiAddProfileRequest) -> (r: Result<(), WifiOperationError>)
    ensures
        r is Ok <==> add_request_error(*request) is None,
        r matches Err(e) ==> (e.code@, e.message@) == add_request_error(*request).unwrap(),
{
    validate_ssid(request.ssid.as_str())?;
    let password = match &request.password {
        Some(p) => Some(p.as_str()),
        None => None,
    };
    validate_password(request.security, password, true)
}

/// The error that `validate_update_request` answers, or `None`.
pub open spec fn update_request_error(r: WifiUpdateProfileRequest) -> Option<
    (Seq<char>, Seq<char>),
> {
    if !profile_id_valid(r.profile_id@) {
        Some(("wifi_invalid_profile_id"@, "The saved Wi-Fi network reference is invalid"@))
    } else if r.ssid matches Some(ssid) && !ssid_valid(ssid@) {
        Some(("wifi_invalid_ssid"@, "Enter a Wi-Fi name between 1 and 32 bytes"@))
    } else {
        match r.security {
            Some(security) => password_error(security, opt_string_view(r.password), false),
            None => None,
        }
    }
}

pub fn validate_update_request(request: &WifiUpdateProfileRequest) -> (r: Result<
    (),
    WifiOperationError,
>)
    ensures
        r is Ok <==> update_request_error(*request) is None,
        r matches Err(e) ==> (e.code@, e.message@) == update_request_error(*request).unwrap(),
{
    validate_profile_id(request.profile_id.as_str())?;
    if let Some(ssid) = &request.ssid {
        validate_ssid(ssid.as_str())?;
    }
    if let Some(security) = request.security {
        let password = match &request.password {
            Some(p) => Some(p.as_str()),
            None => None,
        };
        validate_password(security, password, false)?;
    }
    Ok(())
}

/// The security label of an access point from its NetworkManager flags.
pub open spec fn ap_security(flags: u32, wpa_flags: u32, rsn_flags: u32) -> WifiSecurity {
    let combined = wpa_flags | rsn_flags;
    if combined & NM_AP_SEC_KEY_MGMT_802_1X != 0 {
        WifiSecurity::Enterprise
    } else if combined & (NM_AP_SEC_KEY_MGMT_SAE | NM_AP_SEC_KEY_MGMT_OWE) != 0 {
        WifiSecurity::Wpa3Personal
    } else if flags & NM_AP_FLAGS_PRIVACY != 0 || combined != 0 {
        WifiSecurity::Wpa2Personal
    } else {
        WifiSecurity::Open
    }
}

pub fn access_point_security(flags: u32, wpa_flags: u32, rsn_flags: u32) -> (s: WifiSecurity)
    ensures
        s == ap_security(flags, wpa_flags, rsn_flags),
{
    let combined = wpa_flags | rsn_flags;
    if combined & NM_AP_SEC_KEY_MGMT_802_1X != 0 {
        WifiSecurity::Enterprise
    } else if combined & (NM_AP_SEC_KEY_MGMT_SAE | NM_AP_SEC_KEY_MGMT_OWE) != 0 {
        WifiSecurity::Wpa3Personal
    } else if flags & NM_AP_FLAGS_PRIVACY != 0 || combined != 0 {
        WifiSecurity::Wpa2Personal
    } else {
        WifiSecurity::Open
    }
}

/// The security of a saved profile from its `key-mgmt` setting.
pub open spec fn key_mgmt_security(key_mgmt: Seq<char>) -> WifiSecurity {
    let k = crate::text::to_ascii_lower(key_mgmt);
    if k == "sae"@ || k == "owe"@ {
        WifiSecurity::Wpa3Personal
    } else if k == "wpa-eap"@ || k == "ieee8021x"@ {
        WifiSecurity::Enterprise
    } else if k == "wpa-psk"@ || k == "wpa-none"@ {
        WifiSecurity::Wpa2Personal
    } else {
        WifiSecurity::Open
    }
}

fn lower_is(k: &Vec<char>, literal: &str) -> (r: bool)
    ensures
        r == (k@ == literal@),
{
    let l = chars_of(literal);
    crate::text::chars_eq(k, &l)
}

/// The security of a saved profile whose `802-11-wireless-security.key-mgmt`
/// setting is `key_mgmt` (absent meaning an open network).
pub fn profile_security(key_mgmt: Option<&str>) -> (s: WifiSecurity)
    ensures
        s == key_mgmt_security(
            match key_mgmt {
                Some(k) => k@,
                None => Seq::empty(),
            },
        ),
{
    let raw = match key_mgmt {
        Some(k) => chars_of(k),
        None => Vec::new(),
    };
    let k = crate::text::lower_chars(&raw);
    if lower_is(&k, "sae") || lower_is(&k, "owe") {
        WifiSecurity::Wpa3Personal
    } else if lower_is(&k, "wpa-eap") || lower_is(&k, "ieee8021x") {
        WifiSecurity::Enterprise
    } else if lower_is(&k, "wpa-psk") || lower_is(&k, "wpa-none") {
        WifiSecurity::Wpa2Personal
    } else {
        WifiSecurity::Open
    }
}

// ---------------------------------------------------------------------------
// Wi-Fi names read from the air
// ---------------------------------------------------------------------------

/// Names the characters `String::from_utf8_lossy` decodes from `bytes`.
pub uninterp spec fn utf8_lossy(bytes: Seq<u8>) -> Seq<char>;

/// `String::from_utf8_lossy`: decodes the bytes, putting U+FFFD in place of
/// each invalid sequence. Stated: the result is the named decoding, and for
/// valid UTF-8 it is the plain decoding. How invalid bytes are replaced is
/// left to the name.
#[verifier::external_body]
fn decode_lossy(bytes: &[u8]) -> (s: String)
    ensures
        s@ == utf8_lossy(bytes@),
        vstd::utf8::valid_utf8(bytes@) ==> s@ == vstd::utf8::decode_utf8(bytes@),
{
    String::from_utf8_lossy(bytes).into_owned()
}

/// Bytes `c` takes in UTF-8.
pub open spec fn utf8_len(c: char) -> nat {
    let u = c as u32;
    if u < 0x80 {
        1
    } else if u < 0x800 {
        2
    } else if u < 0x1_0000 {
        3
    } else {
        4
    }
}

/// The characters kept from `cs` when control characters are dropped and the
/// rest is cut before the first character that would pass 32 bytes, given
/// that `used` bytes are already taken.
pub open spec fn sanitized(cs: Seq<char>, used: nat) -> Seq<char>
    decreases cs.len(),
{
    if cs.len() == 0 {
        Seq::empty()
    } else if is_control(cs[0]) {
        sanitized(cs.drop_first(), used)
    } else if used + utf8_len(cs[0]) > 32 {
        Seq::empty()
    } else {
        seq![cs[0]] + sanitized(cs.drop_first(), used + utf8_len(cs[0]))
    }
}

/// The characters of `cs` that are not control characters, in order.
pub open spec fn drop_controls(cs: Seq<char>) -> Seq<char>
    decreases cs.len(),
{
    if cs.len() == 0 {
        Seq::empty()
    } else if is_control(cs[0]) {
        drop_controls(cs.drop_first())
    } else {
        seq![cs[0]] + drop_controls(cs.drop_first())
    }
}

/// The bytes `s` takes in UTF-8.
pub open spec fn utf8_total(s: Seq<char>) -> nat
    decreases s.len(),
{
    if s.len() == 0 {
        0
    } else {
        utf8_len(s[0]) + utf8_total(s.drop_first())
    }
}

/// How many leading characters of `ds` fit in `budget` bytes.
pub open spec fn fit_count(ds: Seq<char>, budget: int) -> nat
    decreases ds.len(),
{
    if ds.len() == 0 {
        0
    } else if utf8_len(ds[0]) > budget {
        0
    } else {
        1 + fit_count(ds.drop_first(), budget - utf8_len(ds[0]))
    }
}

proof fn lemma_drop_controls_clean(cs: Seq<char>)
    ensures
        forall|i: int| 0 <= i < drop_controls(cs).len() ==> !is_control(#[trigger] drop_controls(cs)[i]),
    decreases cs.len(),
{
    if cs.len() > 0 {
        lemma_drop_controls_clean(cs.drop_first());
        let rest = drop_controls(cs.drop_first());
        if !is_control(cs[0]) {
            assert forall|i: int| 0 <= i < drop_controls(cs).len() implies !is_control(#[trigger] drop_controls(cs)[i]) by {
                if i > 0 {
                    assert(drop_controls(cs)[i] == rest[i - 1]);
                } else {
                    assert(drop_controls(cs)[0] == cs[0]);
                }
            }
        } else {
            assert(drop_controls(cs) == rest);
        }
    }
}

proof fn lemma_fit(ds: Seq<char>, budget: int)
    requires
        budget >= 0,
    ensures
        fit_count(ds, budget) <= ds.len(),
        utf8_total(ds.take(fit_count(ds, budget) as int)) <= budget,
        fit_count(ds, budget) < ds.len() ==> utf8_total(ds.take(fit_count(ds, budget) as int + 1)) > budget,
    decreases ds.len(),
{
    if ds.len() == 0 {
        assert(ds.take(0) =~= Seq::<char>::empty());
    } else if utf8_len(ds[0]) > budget {
        assert(ds.take(0) =~= Seq::<char>::empty());
        let one = ds.take(1);
        assert(one.drop_first() =~= Seq::<char>::empty());
        assert(utf8_total(one) == utf8_len(ds[0]) + utf8_total(one.drop_first()));
    } else {
        let rest = ds.drop_first();
        let b2 = budget - utf8_len(ds[0]);
        lemma_fit(rest, b2);
        let k = fit_count(rest, b2) as int;
        assert(ds.take(k + 1).drop_first() =~= rest.take(k));
        assert(utf8_total(ds.take(k + 1)) == utf8_len(ds[0]) + utf8_total(rest.take(k)));
        if k < rest.len() {
            assert(ds.take(k + 2).drop_first() =~= rest.take(k + 1));
            assert(utf8_total(ds.take(k + 2)) == utf8_len(ds[0]) + utf8_total(rest.take(k + 1)));
        }
    }
}

proof fn lemma_sanitized_is_fitting_prefix(cs: Seq<char>, used: nat)
    requires
        used <= 32,
    ensures
        sanitized(cs, used) == drop_controls(cs).take(fit_count(drop_controls(cs), 32 - used) as int),
    decreases cs.len(),
{
    let dc = drop_controls(cs);
    if cs.len() == 0 {
        assert(dc.take(0) =~= Seq::<char>::empty());
    } else if is_control(cs[0]) {
        lemma_sanitized_is_fitting_prefix(cs.drop_first(), used);
    } else {
        let rest = drop_controls(cs.drop_first());
        assert(dc[0] == cs[0]);
        assert(dc.drop_first() =~= rest);
        if used + utf8_len(cs[0]) > 32 {
            assert(dc.take(0) =~= Seq::<char>::empty());
        } else {
            let u2 = (used + utf8_len(cs[0])) as nat;
            lemma_sanitized_is_fitting_prefix(cs.drop_first(), u2);
            let k = fit_count(rest, 32 - u2) as int;
            lemma_fit(rest, 32 - u2);
            assert(32 - used - utf8_len(cs[0]) == 32 - u2);
            assert(dc.take(k + 1) =~= seq![cs[0]] + rest.take(k));
        }
    }
}

/// A sanitized Wi-Fi name has no control characters, takes at most 32
/// bytes, and is the longest run of the name's other characters, from its
/// start, that fits in 32 bytes.
pub proof fn sanitized_ssids_are_clean_short_and_longest(cs: Seq<char>)
    ensures
        ({
            let r = sanitized(cs, 0);
            let dc = drop_controls(cs);
            &&& forall|i: int| 0 <= i < r.len() ==> !is_control(#[trigger] r[i])
            &&& utf8_total(r) <= 32
            &&& exists|k: int|
                0 <= k <= dc.len() && r == #[trigger] dc.take(k) && (k == dc.len() || utf8_total(dc.take(k + 1)) > 32)
        }),
{
    let dc = drop_controls(cs);
    lemma_sanitized_is_fitting_prefix(cs, 0);
    lemma_fit(dc, 32);
    lemma_drop_controls_clean(cs);
    let k = fit_count(dc, 32) as int;
    let r = sanitized(cs, 0);
    assert forall|i: int| 0 <= i < r.len() implies !is_control(#[trigger] r[i]) by {
        assert(r[i] == dc[i]);
    }
    assert(0 <= k <= dc.len() && r == #[trigger] dc.take(k) && (k == dc.len() || utf8_total(dc.take(k + 1)) > 32));
}

fn char_utf8_len(c: char) -> (n: usize)
    ensures
        n == utf8_len(c),
{
    let u = c as u32;
    if u < 0x80 {
        1
    } else if u < 0x800 {
        2
    } else if u < 0x1_0000 {
        3
    } else {
        4
    }
}

/// A displayable Wi-Fi name from raw SSID bytes: decoded leniently, control
/// characters dropped, at most 32 bytes.
pub fn sanitize_ssid(bytes: &[u8]) -> (s: String)
    ensures
        s@ == sanitized(utf8_lossy(bytes@), 0),
{
    let decoded = decode_lossy(bytes);
    let cs = chars_of(decoded.as_str());
    let mut out: Vec<char> = Vec::new();
    let mut used: usize = 0;
    let mut i: usize = 0;
    assert(cs@.subrange(0, cs@.len() as int) =~= cs@);
    assert(out@ + sanitized(cs@, 0) =~= sanitized(cs@, 0));
    while i < cs.len()
        invariant
            cs@ == utf8_lossy(bytes@),
            i <= cs.len(),
            used <= 32,
            out@ + sanitized(cs@.subrange(i as int, cs@.len() as int), used as nat) == sanitized(
                cs@,
                0,
            ),
        decreases cs.len() - i,
    {
        let ghost rest = cs@.subrange(i as int, cs@.len() as int);
        assert(rest.drop_first() =~= cs@.subrange(i + 1, cs@.len() as int));
        let c = cs[i];
        assert(rest[0] == c);
        if is_control_char(c) {
            i = i + 1;
        } else {
            let n = char_utf8_len(c);
            if used + n > 32 {
                assert(sanitized(rest, used as nat) == Seq::<char>::empty());
                assert(out@ + Seq::<char>::empty() =~= out@);
                return crate::text::string_of(&out);
            }
            out.push(c);
            assert(out@ + sanitized(cs@.subrange(i + 1, cs@.len() as int), (used + n) as nat)
                =~= out@.drop_last() + (seq![c] + sanitized(rest.drop_first(), (used + n) as nat)));
            used = used + n;
            i = i + 1;
        }
    }
    assert(cs@.subrange(cs@.len() as int, cs@.len() as int) =~= Seq::<char>::empty());
    assert(out@ + Seq::<char>::empty() =~= out@);
    crate::text::string_of(&out)
}

// ---------------------------------------------------------------------------
// Preferring a profile
// ---------------------------------------------------------------------------

/// One autoconnect change that preferring a profile makes.
#[derive(Debug, Clone, Copy, PartialEq, Eq)]
pub struct PriorityUpdate {
    /// Position of the profile in the list given.
    pub index: usize,
    pub priority: i32,
    /// Whether this is the preferred profile, whose autoconnect is switched on.
    pub target: bool,
}

pub open spec fn max_priority(ps: Seq<(String, i32)>) -> int
    decreases ps.len(),
{
    if ps.len() == 0 {
        0
    } else if ps.len() == 1 {
        ps[0].1 as int
    } else {
        let m = max_priority(ps.drop_last());
        if ps.last().1 > m {
            ps.last().1 as int
        } else {
            m
        }
    }
}

pub open spec fn clamp_priority(p: int) -> int {
    if p < NM_AUTOCONNECT_PRIORITY_MIN {
        NM_AUTOCONNECT_PRIORITY_MIN as int
    } else if p > NM_AUTOCONNECT_PRIORITY_MAX {
        NM_AUTOCONNECT_PRIORITY_MAX as int
    } else {
        p
    }
}

/// The priority the preferred profile gets: one above every other profile,
/// within NetworkManager's range.
pub open spec fn target_priority(ps: Seq<(String, i32)>) -> int {
    let m = clamp_priority(max_priority(ps));
    if m < NM_AUTOCONNECT_PRIORITY_MAX {
        m + 1
    } else {
        NM_AUTOCONNECT_PRIORITY_MAX as int
    }
}

/// The changes, in list order: the target gets `tp`; when `tp` is the
/// maximum, every other profile at the maximum steps down by one.
pub open spec fn planned_updates(ps: Seq<(String, i32)>, target: Seq<char>, tp: int) -> Seq<
    PriorityUpdate,
>
    decreases ps.len(),
{
    if ps.len() == 0 {
        Seq::empty()
    } else {
        let init = planned_updates(ps.drop_last(), target, tp);
        let i = ps.len() - 1;
        if ps.last().0@ == target {
            init.push(PriorityUpdate { index: i as usize, priority: tp as i32, target: true })
        } else if tp == NM_AUTOCONNECT_PRIORITY_MAX && ps.last().1 == NM_AUTOCONNECT_PRIORITY_MAX {
            init.push(
                PriorityUpdate {
                    index: i as usize,
                    priority: (NM_AUTOCONNECT_PRIORITY_MAX - 1) as i32,
                    target: false,
                },
            )
        } else {
            init
        }
    }
}

/// The autoconnect changes that make `target` the preferred saved profile,
/// given each saved Wi-Fi profile's id and current priority.
pub fn plan_preferred_profile(profiles: &Vec<(String, i32)>, target: &str) -> (r: Result<
    Vec<PriorityUpdate>,
    WifiOperationError,
>)
    ensures
        r is Ok <==> exists|i: int| 0 <= i < profiles@.len() && #[trigger] profiles@[i].0@ == target@,
        r matches Ok(u) ==> u@ == planned_updates(profiles@, target@, target_priority(profiles@)),
        r matches Err(e) ==> is_error(
            e,
            "wifi_profile_not_found",
            "The saved Wi-Fi network was not found",
        ),
{
    let n = profiles.len();
    let mut found = false;
    let mut maximum: i32 = 0;
    let mut i: usize = 0;
    while i < n
        invariant
            n == profiles@.len(),
            i <= n,
            found <==> exists|k: int| 0 <= k < i && #[trigger] profiles@[k].0@ == target@,
            maximum == max_priority(profiles@.subrange(0, i as int)),
        decreases n - i,
    {
        let ghost next = profiles@.subrange(0, i + 1);
        assert(next.drop_last() =~= profiles@.subrange(0, i as int));
        if crate::text::str_eq(profiles[i].0.as_str(), target) {
            found = true;
        }
        let p = profiles[i].1;
        if i == 0 || p > maximum {
            maximum = p;
        }
        i = i + 1;
    }
    assert(profiles@.subrange(0, n as int) =~= profiles@);
    if !found {
        return Err(WifiOperationError::new("wifi_profile_not_found", "The saved Wi-Fi network was not found"));
    }
    let clamped = if maximum < NM_AUTOCONNECT_PRIORITY_MIN {
        NM_AUTOCONNECT_PRIORITY_MIN
    } else if maximum > NM_AUTOCONNECT_PRIORITY_MAX {
        NM_AUTOCONNECT_PRIORITY_MAX
    } else {
        maximum
    };
    let tp = if clamped < NM_AUTOCONNECT_PRIORITY_MAX {
        clamped + 1
    } else {
        NM_AUTOCONNECT_PRIORITY_MAX
    };
    let mut updates: Vec<PriorityUpdate> = Vec::new();
    let mut j: usize = 0;
    while j < n
        invariant
            n == profiles@.len(),
            j <= n,
            tp == target_priority(profiles@),
            updates@ == planned_updates(profiles@.subrange(0, j as int), target@, tp as int),
        decreases n - j,
    {
        let ghost next = profiles@.subrange(0, j + 1);
        assert(next.drop_last() =~= profiles@.subrange(0, j as int));
        if crate::text::str_eq(profiles[j].0.as_str(), target) {
            updates.push(PriorityUpdate { index: j, priority: tp, target: true });
        } else if tp == NM_AUTOCONNECT_PRIORITY_MAX && profiles[j].1 == NM_AUTOCONNECT_PRIORITY_MAX {
            updates.push(PriorityUpdate { index: j, priority: NM_AUTOCONNECT_PRIORITY_MAX - 1, target: false });
        }
        j = j + 1;
    }
    assert(profiles@.subrange(0, n as int) =~= profiles@);
    Ok(updates)
}

} // verus!
