//! On-device Wi-Fi onboarding: the states shown on the setup screen, the
//! hotspot's identity and its QR code, what the captive portal answers, the
//! network the user picks there, and the NetworkManager settings of the
//! hotspot and of the joined network.
use vstd::prelude::*;
use crate::json::{as_text, json_member, json_parse, json_text, member, parse};
use vstd::utf8::encode_utf8;
use crate::clock::epoch_seconds;
use crate::text::{chars_of, owned, push_char, push_str, str_eq, string_of, trim, trimmed};
use crate::wifi::{WifiNearbyNetwork, WifiSecurity};

verus! {

/// The address NetworkManager gives the hotspot host in shared mode.
pub const PORTAL_GATEWAY: &'static str = "10.42.0.1";
/// The name of the hotspot connection profile.
pub const AP_CONNECTION_ID: &'static str = "YoYoPod Setup";
/// How long the portal waits for a network before giving up, in seconds.
pub const AP_TIMEOUT_SECS: u64 = 120;

/// The setup screen's view of onboarding. It never holds the home network's
/// password.
#[derive(Debug)]
pub struct WifiProvisioningState {
    pub schema_version: u16,
    pub active: bool,
    pub phase: String,
    pub ap_ssid: String,
    pub ap_password: String,
    pub portal_url: String,
    pub qr_payload: String,
    pub status_text: String,
    pub error: String,
    pub reported_at: u64,
}

/// Everything but the time a state was reported.
pub open spec fn state_view(s: WifiProvisioningState) -> (
    u16,
    bool,
    Seq<char>,
    Seq<char>,
    Seq<char>,
    Seq<char>,
    Seq<char>,
    Seq<char>,
    Seq<char>,
) {
    (
        s.schema_version,
        s.active,
        s.phase@,
        s.ap_ssid@,
        s.ap_password@,
        s.portal_url@,
        s.qr_payload@,
        s.status_text@,
        s.error@,
    )
}

/// A state with the hotspot fields empty.
pub open spec fn plain_state(active: bool, phase: Seq<char>, status: Seq<char>, error: Seq<char>) -> (
    u16,
    bool,
    Seq<char>,
    Seq<char>,
    Seq<char>,
    Seq<char>,
    Seq<char>,
    Seq<char>,
    Seq<char>,
) {
    (1, active, phase, Seq::empty(), Seq::empty(), Seq::empty(), Seq::empty(), status, error)
}

impl WifiProvisioningState {
    fn make(active: bool, phase: &str, status: &str, error: &str) -> (s: Self)
        ensures
            state_view(s) == plain_state(active, phase@, status@, error@),
    {
        proof {
            reveal_strlit("");
        }
        WifiProvisioningState {
            schema_version: 1,
            active,
            phase: owned(phase),
            ap_ssid: String::new(),
            ap_password: String::new(),
            portal_url: String::new(),
            qr_payload: String::new(),
            status_text: owned(status),
            error: owned(error),
            reported_at: epoch_seconds(),
        }
    }

    /// An active step of the flow.
    pub fn phase(phase: &str, status: &str) -> (s: Self)
        ensures
            state_view(s) == plain_state(true, phase@, status@, Seq::empty()),
    {
        proof {
            reveal_strlit("");
        }
        Self::make(true, phase, status, "")
    }

    /// The state once onboarding is over, which takes the UI off the active
    /// setup screen.
    pub fn idle() -> (s: Self)
        ensures
            state_view(s) == plain_state(false, "idle"@, Seq::empty(), Seq::empty()),
    {
        proof {
            reveal_strlit("");
        }
        Self::make(false, "idle", "", "")
    }

    /// Onboarding ended with this error.
    pub fn error(message: &str) -> (s: Self)
        ensures
            state_view(s) == plain_state(false, "error"@, message@, message@),
    {
        Self::make(false, "error", message, message)
    }

    /// The hotspot is up and the portal answers: the screen shows how to
    /// join it.
    pub fn portal_ready(credentials: &ApCredentials) -> (s: Self)
        ensures
            state_view(s) == (
                1u16,
                true,
                "portal_ready"@,
                credentials.ssid@,
                credentials.password@,
                "http://10.42.0.1/"@,
                qr_payload_spec(credentials.ssid@, credentials.password@),
                "Scan with your phone, then pick your network"@,
                Seq::<char>::empty(),
            ),
    {
        WifiProvisioningState {
            schema_version: 1,
            active: true,
            phase: owned("portal_ready"),
            ap_ssid: credentials.ssid.clone(),
            ap_password: credentials.password.clone(),
            portal_url: owned("http://10.42.0.1/"),
            qr_payload: credentials.qr_payload(),
            status_text: owned("Scan with your phone, then pick your network"),
            error: String::new(),
            reported_at: epoch_seconds(),
        }
    }
}

// ---------------------------------------------------------------------------
// The hotspot's identity
// ---------------------------------------------------------------------------

/// A hotspot identity for one onboarding session.
#[derive(Debug)]
pub struct ApCredentials {
    pub ssid: String,
    pub password: String,
}

/// The password alphabet: no 0/O or 1/I, so the key is easy to type.
pub open spec fn alphabet() -> Seq<char> {
    "ABCDEFGHJKMNPQRSTUVWXYZ23456789"@
}

pub open spec fn hex_digit(d: nat) -> char {
    if d < 10 {
        ((d + 48) as u8) as char
    } else {
        ((d + 55) as u8) as char
    }
}

/// Two upper-case hex digits.
pub open spec fn hex2(b: u8) -> Seq<char> {
    seq![hex_digit((b / 16) as nat), hex_digit((b % 16) as nat)]
}

pub open spec fn password_from(entropy: Seq<u8>) -> Seq<char> {
    Seq::new(entropy.len(), |i: int| alphabet()[entropy[i] as int % 31])
}

fn hex_char(d: u8) -> (c: char)
    requires
        d < 16,
    ensures
        c == hex_digit(d as nat),
{
    if d < 10 {
        (d + 48) as char
    } else {
        (d + 55) as char
    }
}

impl ApCredentials {
    /// The identity drawn from eight random bytes: `YoYoPod-` and the first
    /// two bytes in hex, and an eight-letter password, one letter per byte.
    pub fn from_entropy(entropy: &Vec<u8>) -> (c: Self)
        requires
            entropy@.len() == 8,
        ensures
            c.ssid@ == "YoYoPod-"@ + hex2(entropy@[0]) + hex2(entropy@[1]),
            c.password@ == password_from(entropy@),
    {
        proof {
            reveal_strlit("ABCDEFGHJKMNPQRSTUVWXYZ23456789");
        }
        let mut ssid: Vec<char> = Vec::new();
        push_str(&mut ssid, "YoYoPod-");
        let ghost base = ssid@;
        ssid.push(hex_char(entropy[0] / 16));
        ssid.push(hex_char(entropy[0] % 16));
        ssid.push(hex_char(entropy[1] / 16));
        ssid.push(hex_char(entropy[1] % 16));
        assert(ssid@ =~= base + hex2(entropy@[0]) + hex2(entropy@[1]));
        let letters = chars_of("ABCDEFGHJKMNPQRSTUVWXYZ23456789");
        let mut password: Vec<char> = Vec::new();
        let mut i: usize = 0;
        while i < 8
            invariant
                i <= 8,
                entropy@.len() == 8,
                letters@ == alphabet(),
                letters@.len() == 31,
                password@ == password_from(entropy@).subrange(0, i as int),
            decreases 8 - i,
        {
            let k = (entropy[i] % 31) as usize;
            password.push(letters[k]);
            assert(password_from(entropy@).subrange(0, i + 1) =~= password_from(entropy@).subrange(
                0,
                i as int,
            ).push(alphabet()[entropy@[i as int] as int % 31]));
            i = i + 1;
        }
        assert(password_from(entropy@).subrange(0, 8) =~= password_from(entropy@));
        ApCredentials { ssid: string_of(&ssid), password: string_of(&password) }
    }

    /// The `WIFI:` join URI a phone camera offers to join.
    pub fn qr_payload(&self) -> (p: String)
        ensures
            p@ == qr_payload_spec(self.ssid@, self.password@),
    {
        let mut out: Vec<char> = Vec::new();
        push_str(&mut out, "WIFI:S:");
        let s = escape_qr(self.ssid.as_str());
        push_str(&mut out, s.as_str());
        push_str(&mut out, ";T:WPA;P:");
        let p = escape_qr(self.password.as_str());
        push_str(&mut out, p.as_str());
        push_str(&mut out, ";;");
        string_of(&out)
    }
}

/// The characters the `WIFI:` scheme reserves.
pub open spec fn qr_reserved(c: char) -> bool {
    c == '\\' || c == ';' || c == ',' || c == ':' || c == '"'
}

/// `value` with a backslash before each reserved character.
pub open spec fn escape_qr_spec(value: Seq<char>) -> Seq<char>
    decreases value.len(),
{
    if value.len() == 0 {
        Seq::empty()
    } else {
        let c = value.last();
        escape_qr_spec(value.drop_last()) + if qr_reserved(c) {
            seq!['\\', c]
        } else {
            seq![c]
        }
    }
}

pub open spec fn qr_payload_spec(ssid: Seq<char>, password: Seq<char>) -> Seq<char> {
    "WIFI:S:"@ + escape_qr_spec(ssid) + ";T:WPA;P:"@ + escape_qr_spec(password) + ";;"@
}

pub fn escape_qr(value: &str) -> (e: String)
    ensures
        e@ == escape_qr_spec(value@),
{
    let cs = chars_of(value);
    let mut out = String::new();
    let mut i: usize = 0;
    while i < cs.len()
        invariant
            i <= cs@.len(),
            cs@ == value@,
            out@ == escape_qr_spec(cs@.subrange(0, i as int)),
        decreases cs.len() - i,
    {
        let c = cs[i];
        assert(cs@.subrange(0, i + 1).drop_last() =~= cs@.subrange(0, i as int));
        if c == '\\' || c == ';' || c == ',' || c == ':' || c == '"' {
            push_char(&mut out, '\\');
        }
        push_char(&mut out, c);
        i = i + 1;
    }
    assert(cs@.subrange(0, cs@.len() as int) =~= cs@);
    out
}

/// The security name the portal page and the UI use.
pub fn security_slug(security: WifiSecurity) -> (s: &'static str)
    ensures
        s@ == (match security {
            WifiSecurity::Open => "open"@,
            WifiSecurity::Wpa2Personal => "wpa2_personal"@,
            WifiSecurity::Wpa3Personal => "wpa3_personal"@,
            WifiSecurity::Enterprise => "enterprise"@,
        }),
{
    match security {
        WifiSecurity::Open => "open",
        WifiSecurity::Wpa2Personal => "wpa2_personal",
        WifiSecurity::Wpa3Personal => "wpa3_personal",
        WifiSecurity::Enterprise => "enterprise",
    }
}

// ---------------------------------------------------------------------------
// The portal
// ---------------------------------------------------------------------------

/// The addresses phones fetch to detect a captive portal.
pub open spec fn probe_paths() -> Seq<Seq<char>> {
    seq![
        "/generate_204"@,
        "/gen_204"@,
        "/hotspot-detect.html"@,
        "/library/test/success.html"@,
        "/ncsi.txt"@,
        "/connecttest.txt"@,
        "/canonical.html"@,
        "/success.txt"@,
    ]
}

/// How the portal answers a request.
#[derive(Debug, Clone, Copy, PartialEq, Eq, Structural)]
pub enum PortalRoute {
    /// Read the chosen network from the body and answer with the outcome.
    Connect,
    /// Answer with the scanned networks as JSON.
    Networks,
    /// Send the phone to the setup page, so it pops up by itself.
    Redirect,
    /// Answer with the setup page.
    Page,
}

/// The path of a URL: everything before the first `?`.
pub open spec fn url_path(url: Seq<char>) -> Seq<char>
    decreases url.len(),
{
    if url.len() == 0 {
        Seq::empty()
    } else if url[0] == '?' {
        Seq::empty()
    } else {
        seq![url[0]] + url_path(url.drop_first())
    }
}

pub open spec fn portal_route_spec(is_post: bool, url: Seq<char>) -> PortalRoute {
    let path = url_path(url);
    if is_post && path == "/connect"@ {
        PortalRoute::Connect
    } else if path == "/networks"@ {
        PortalRoute::Networks
    } else if probe_paths().contains(path) {
        PortalRoute::Redirect
    } else {
        PortalRoute::Page
    }
}

fn path_of(url: &str) -> (p: String)
    ensures
        p@ == url_path(url@),
{
    let cs = chars_of(url);
    let mut n: usize = 0;
    while n < cs.len() && cs[n] != '?'
        invariant
            n <= cs@.len(),
            cs@ == url@,
            forall|k: int| 0 <= k < n ==> cs@[k] != '?',
        decreases cs.len() - n,
    {
        n = n + 1;
    }
    let mut out: Vec<char> = Vec::new();
    let mut i: usize = 0;
    while i < n
        invariant
            i <= n <= cs@.len(),
            out@ == cs@.subrange(0, i as int),
        decreases n - i,
    {
        out.push(cs[i]);
        assert(cs@.subrange(0, i + 1) =~= cs@.subrange(0, i as int).push(cs@[i as int]));
        i = i + 1;
    }
    proof {
        lemma_url_path(cs@, n as int);
    }
    string_of(&out)
}

proof fn lemma_url_path(url: Seq<char>, n: int)
    requires
        0 <= n <= url.len(),
        forall|k: int| 0 <= k < n ==> url[k] != '?',
        n == url.len() || url[n] == '?',
    ensures
        url_path(url) == url.subrange(0, n),
    decreases n,
{
    if n == 0 {
        assert(url.subrange(0, 0) =~= Seq::<char>::empty());
    } else {
        lemma_url_path(url.drop_first(), n - 1);
        assert(url.subrange(0, n) =~= seq![url[0]] + url.drop_first().subrange(0, n - 1));
    }
}

/// How the portal answers a request for `url`.
#[verifier::loop_isolation(false)]
pub fn portal_route(is_post: bool, url: &str) -> (r: PortalRoute)
    ensures
        r == portal_route_spec(is_post, url@),
{
    let path = path_of(url);
    let p = path.as_str();
    if is_post && str_eq(p, "/connect") {
        return PortalRoute::Connect;
    }
    if str_eq(p, "/networks") {
        return PortalRoute::Networks;
    }
    let probes = vec![
        "/generate_204",
        "/gen_204",
        "/hotspot-detect.html",
        "/library/test/success.html",
        "/ncsi.txt",
        "/connecttest.txt",
        "/canonical.html",
        "/success.txt",
    ];
    assert(probes@.map_values(|s: &'static str| s@) =~= probe_paths());
    let mut i: usize = 0;
    while i < probes.len()
        invariant
            i <= probes@.len(),
            probes@.map_values(|s: &'static str| s@) == probe_paths(),
            forall|k: int| 0 <= k < i ==> probe_paths()[k] != p@,
        decreases probes.len() - i,
    {
        assert(probe_paths()[i as int] == probes@[i as int]@);
        if str_eq(probes[i], p) {
            assert(probe_paths().contains(p@));
            return PortalRoute::Redirect;
        }
        i = i + 1;
    }
    PortalRoute::Page
}

/// The network the user picked on the portal. The password goes only to
/// NetworkManager.
#[derive(Debug)]
pub struct ConnectRequest {
    pub ssid: String,
    pub security: WifiSecurity,
    pub password: String,
}

/// The string fields of a portal submission, as read from its JSON:
/// `ssid`, `password` and `security`, each absent unless a string.
pub type ConnectFields = (Option<Seq<char>>, Option<Seq<char>>, Option<Seq<char>>);

pub open spec fn text_in(v: Option<serde_json::Value>) -> Option<Seq<char>> {
    match v {
        Some(x) => json_text(x),
        None => None,
    }
}

/// What is read from a portal submission's body: its string fields, or
/// nothing when it is not JSON.
pub open spec fn connect_body(body: Seq<char>) -> Option<ConnectFields> {
    match json_parse(body) {
        Ok(v) => Some(
            (
                text_in(json_member(v, "ssid"@)),
                text_in(json_member(v, "password"@)),
                text_in(json_member(v, "security"@)),
            ),
        ),
        Err(_) => None,
    }
}

pub open spec fn opt_seq(s: Option<String>) -> Option<Seq<char>> {
    match s {
        Some(t) => Some(t@),
        None => None,
    }
}

fn text_member(value: &serde_json::Value, key: &str) -> (r: Option<String>)
    ensures
        opt_seq(r) == text_in(json_member(*value, key@)),
{
    match member(value, key) {
        Some(x) => as_text(&x),
        None => None,
    }
}

/// Reads the `ssid`, `password` and `security` strings of a portal
/// submission.
fn connect_fields(body: &str) -> (r: Option<(Option<String>, Option<String>, Option<String>)>)
    ensures
        match r {
            Some(f) => connect_body(body@) == Some((opt_seq(f.0), opt_seq(f.1), opt_seq(f.2))),
            None => connect_body(body@) is None,
        },
{
    match parse(body) {
        Ok(v) => Some((text_member(&v, "ssid"), text_member(&v, "password"), text_member(&v, "security"))),
        Err(_) => None,
    }
}

/// The security a submission asks for: open or WPA3 by name, WPA2 otherwise.
pub open spec fn requested_security(s: Option<Seq<char>>) -> WifiSecurity {
    match s {
        Some(v) => if v == "open"@ {
            WifiSecurity::Open
        } else if v == "wpa3_personal"@ {
            WifiSecurity::Wpa3Personal
        } else {
            WifiSecurity::Wpa2Personal
        },
        None => WifiSecurity::Wpa2Personal,
    }
}

/// A submission is taken when its network name, trimmed, is 1 to 32 bytes,
/// and a secured network comes with an 8 to 63 byte password.
pub open spec fn connect_outcome(fields: Option<ConnectFields>) -> Result<
    (Seq<char>, WifiSecurity, Seq<char>),
    Seq<char>,
> {
    match fields {
        None => Err("invalid request"@),
        Some(f) => {
            let ssid = match f.0 {
                Some(s) => trim(s),
                None => Seq::empty(),
            };
            let password = match f.1 {
                Some(p) => p,
                None => Seq::empty(),
            };
            let security = requested_security(f.2);
            if ssid.len() == 0 || encode_utf8(ssid).len() > 32 {
                Err("enter a network name"@)
            } else if security != WifiSecurity::Open && (encode_utf8(password).len() < 8
                || encode_utf8(password).len() > 63) {
                Err("password must be 8–63 characters"@)
            } else {
                Ok((ssid, security, password))
            }
        },
    }
}

pub open spec fn request_view(r: ConnectRequest) -> (Seq<char>, WifiSecurity, Seq<char>) {
    (r.ssid@, r.security, r.password@)
}

/// The request a submission's fields make, or why it is refused.
pub fn connect_request_from(fields: Option<(Option<String>, Option<String>, Option<String>)>) -> (r: Result<
    ConnectRequest,
    String,
>)
    ensures
        match r {
            Ok(c) => connect_outcome(
                match fields {
                    Some(f) => Some((opt_seq(f.0), opt_seq(f.1), opt_seq(f.2))),
                    None => None,
                },
            ) == Ok::<(Seq<char>, WifiSecurity, Seq<char>), Seq<char>>(request_view(c)),
            Err(e) => connect_outcome(
                match fields {
                    Some(f) => Some((opt_seq(f.0), opt_seq(f.1), opt_seq(f.2))),
                    None => None,
                },
            ) == Err::<(Seq<char>, WifiSecurity, Seq<char>), Seq<char>>(e@),
        },
{
    let (ssid_field, password_field, security_field) = match fields {
        None => {
            return Err(owned("invalid request"));
        },
        Some(f) => f,
    };
    let trimmed_ssid = match &ssid_field {
        Some(s) => trimmed(s.as_str()),
        None => Vec::new(),
    };
    let ssid = string_of(&trimmed_ssid);
    let password = match password_field {
        Some(p) => p,
        None => String::new(),
    };
    let security = match &security_field {
        Some(v) => if str_eq(v.as_str(), "open") {
            WifiSecurity::Open
        } else if str_eq(v.as_str(), "wpa3_personal") {
            WifiSecurity::Wpa3Personal
        } else {
            WifiSecurity::Wpa2Personal
        },
        None => WifiSecurity::Wpa2Personal,
    };
    if trimmed_ssid.len() == 0 || ssid.as_str().as_bytes().len() > 32 {
        return Err(owned("enter a network name"));
    }
    let password_bytes = password.as_str().as_bytes().len();
    if security != WifiSecurity::Open && (password_bytes < 8 || password_bytes > 63) {
        return Err(owned("password must be 8–63 characters"));
    }
    Ok(ConnectRequest { ssid, security, password })
}

/// Reads the network a portal submission picks, or why it is refused.
pub fn parse_connect(body: &str) -> (r: Result<ConnectRequest, String>)
    ensures
        match r {
            Ok(c) => connect_outcome(connect_body(body@)) == Ok::<
                (Seq<char>, WifiSecurity, Seq<char>),
                Seq<char>,
            >(request_view(c)),
            Err(e) => connect_outcome(connect_body(body@)) == Err::<
                (Seq<char>, WifiSecurity, Seq<char>),
                Seq<char>,
            >(e@),
        },
{
    let fields = connect_fields(body);
    connect_request_from(fields)
}

// ---------------------------------------------------------------------------
// How the flow ends
// ---------------------------------------------------------------------------

/// How the portal ended.
#[derive(Debug)]
pub enum PortalOutcome {
    /// The worker stopped onboarding.
    Stopped,
    /// Nobody picked a network in time.
    TimedOut,
    /// The user picked a network.
    Connect(ConnectRequest),
}

/// The state after the portal ends and the hotspot is down: idle when
/// stopped, idle with a note when it timed out (NetworkManager reconnects the
/// previous network), connecting when a network was picked.
pub fn state_after_portal(outcome: &PortalOutcome) -> (s: WifiProvisioningState)
    ensures
        state_view(s) == (match *outcome {
            PortalOutcome::Stopped => plain_state(false, "idle"@, Seq::empty(), Seq::empty()),
            PortalOutcome::TimedOut => plain_state(
                false,
                "idle"@,
                "Wi-Fi setup timed out - reconnected to Wi-Fi."@,
                Seq::empty(),
            ),
            PortalOutcome::Connect(r) => plain_state(
                true,
                "connecting"@,
                "Connecting to "@ + r.ssid@ + "..."@,
                Seq::empty(),
            ),
        }),
{
    proof {
        reveal_strlit("");
    }
    match outcome {
        PortalOutcome::Stopped => WifiProvisioningState::idle(),
        PortalOutcome::TimedOut => WifiProvisioningState::make(
            false,
            "idle",
            "Wi-Fi setup timed out - reconnected to Wi-Fi.",
            "",
        ),
        PortalOutcome::Connect(r) => {
            let mut status: Vec<char> = Vec::new();
            push_str(&mut status, "Connecting to ");
            push_str(&mut status, r.ssid.as_str());
            push_str(&mut status, "...");
            let text = string_of(&status);
            WifiProvisioningState::phase("connecting", text.as_str())
        },
    }
}

/// The state after joining the picked network: connected, or the error.
pub fn state_after_connect(ssid: &str, result: Result<(), String>) -> (s: WifiProvisioningState)
    ensures
        state_view(s) == (match result {
            Ok(()) => plain_state(false, "connected"@, "Connected to "@ + ssid@, Seq::empty()),
            Err(e) => plain_state(false, "error"@, e@, e@),
        }),
{
    proof {
        reveal_strlit("");
    }
    match result {
        Ok(()) => {
            let mut status: Vec<char> = Vec::new();
            push_str(&mut status, "Connected to ");
            push_str(&mut status, ssid);
            let text = string_of(&status);
            WifiProvisioningState::make(false, "connected", text.as_str(), "")
        },
        Err(e) => WifiProvisioningState::error(e.as_str()),
    }
}

// ---------------------------------------------------------------------------
// Networks offered on the setup page
// ---------------------------------------------------------------------------

/// A network the setup page offers.
#[derive(Debug, Clone)]
pub struct PortalNetwork {
    pub ssid: String,
    pub security: &'static str,
    pub signal_percent: u8,
    pub saved: bool,
}

pub open spec fn security_slug_spec(security: WifiSecurity) -> Seq<char> {
    match security {
        WifiSecurity::Open => "open"@,
        WifiSecurity::Wpa2Personal => "wpa2_personal"@,
        WifiSecurity::Wpa3Personal => "wpa3_personal"@,
        WifiSecurity::Enterprise => "enterprise"@,
    }
}

pub open spec fn portal_network_view(n: PortalNetwork) -> (Seq<char>, Seq<char>, u8, bool) {
    (n.ssid@, n.security@, n.signal_percent, n.saved)
}

/// The page's networks: each nearby network, in scan order, with its
/// security as a slug.
pub fn portal_networks(nearby: &Vec<WifiNearbyNetwork>) -> (r: Vec<PortalNetwork>)
    ensures
        r@.map_values(|n: PortalNetwork| portal_network_view(n)) == nearby@.map_values(
            |n: WifiNearbyNetwork| (n.ssid@, security_slug_spec(n.security), n.signal_percent, n.saved),
        ),
{
    let mut r: Vec<PortalNetwork> = Vec::new();
    let mut i: usize = 0;
    while i < nearby.len()
        invariant
            i <= nearby@.len(),
            r@.map_values(|n: PortalNetwork| portal_network_view(n)) == nearby@.subrange(0, i as int).map_values(
                |n: WifiNearbyNetwork| (n.ssid@, security_slug_spec(n.security), n.signal_percent, n.saved),
            ),
        decreases nearby.len() - i,
    {
        let n = &nearby[i];
        let ghost before = r@;
        r.push(
            PortalNetwork {
                ssid: n.ssid.clone(),
                security: security_slug(n.security),
                signal_percent: n.signal_percent,
                saved: n.saved,
            },
        );
        assert(r@.map_values(|n: PortalNetwork| portal_network_view(n)) =~= before.map_values(
            |n: PortalNetwork| portal_network_view(n),
        ).push((n.ssid@, security_slug_spec(n.security), n.signal_percent, n.saved)));
        assert(nearby@.subrange(0, i + 1).map_values(
            |n: WifiNearbyNetwork| (n.ssid@, security_slug_spec(n.security), n.signal_percent, n.saved),
        ) =~= nearby@.subrange(0, i as int).map_values(
            |n: WifiNearbyNetwork| (n.ssid@, security_slug_spec(n.security), n.signal_percent, n.saved),
        ).push((n.ssid@, security_slug_spec(n.security), n.signal_percent, n.saved)));
        i = i + 1;
    }
    assert(nearby@.subrange(0, nearby@.len() as int) =~= nearby@);
    r
}

/// What the portal does next: stop when asked to or when its time is up,
/// else wait for the next request.
#[derive(Debug, Clone, Copy, PartialEq, Eq, Structural)]
pub enum PortalStep {
    Stop,
    TimeOut,
    Serve,
}

/// How long the setup hotspot waits for the phone, in ms.
pub const AP_TIMEOUT_MS: u64 = 120000;

pub fn portal_step(stop_requested: bool, now_ms: u64, deadline_ms: u64) -> (s: PortalStep)
    ensures
        s == (if stop_requested {
            PortalStep::Stop
        } else if now_ms >= deadline_ms {
            PortalStep::TimeOut
        } else {
            PortalStep::Serve
        }),
{
    if stop_requested {
        PortalStep::Stop
    } else if now_ms >= deadline_ms {
        PortalStep::TimeOut
    } else {
        PortalStep::Serve
    }
}

// ---------------------------------------------------------------------------
// NetworkManager settings
// ---------------------------------------------------------------------------

/// A NetworkManager setting's value.
#[derive(Debug)]
pub enum SettingValue {
    Text(String),
    Flag(bool),
    Bytes(Vec<u8>),
    Number(u32),
    Int(i32),
    TextList(Vec<String>),
    /// One static address with its prefix length, as NetworkManager's
    /// `address-data` list of one dictionary.
    AddressData(String, u32),
}

/// One setting: its section, key and value.
#[derive(Debug)]
pub struct NmSetting {
    pub section: &'static str,
    pub key: &'static str,
    pub value: SettingValue,
}

pub open spec fn setting_view(s: NmSetting) -> (Seq<char>, Seq<char>, SettingView) {
    (s.section@, s.key@, value_view(s.value))
}

/// A setting's value as the contracts see it.
pub ghost enum SettingView {
    Text(Seq<char>),
    Flag(bool),
    Bytes(Seq<u8>),
    Number(u32),
    Int(i32),
    TextList(Seq<Seq<char>>),
    AddressData(Seq<char>, u32),
}

pub open spec fn value_view(v: SettingValue) -> SettingView {
    match v {
        SettingValue::Text(t) => SettingView::Text(t@),
        SettingValue::Flag(b) => SettingView::Flag(b),
        SettingValue::Bytes(b) => SettingView::Bytes(b@),
        SettingValue::Number(n) => SettingView::Number(n),
        SettingValue::Int(n) => SettingView::Int(n),
        SettingValue::TextList(l) => SettingView::TextList(l@.map_values(|t: String| t@)),
        SettingValue::AddressData(a, p) => SettingView::AddressData(a@, p),
    }
}

pub open spec fn settings_view(v: Seq<NmSetting>) -> Seq<(Seq<char>, Seq<char>, SettingView)> {
    v.map_values(|s: NmSetting| setting_view(s))
}

pub fn text(section: &'static str, key: &'static str, value: &str) -> (s: NmSetting)
    ensures
        setting_view(s) == (section@, key@, SettingView::Text(value@)),
{
    NmSetting { section, key, value: SettingValue::Text(owned(value)) }
}

/// The hotspot: a WPA2 access point on channel 6 that shares the device's
/// connection, not started on its own.
pub open spec fn ap_settings_spec(ssid: Seq<char>, ssid_bytes: Seq<u8>, password: Seq<char>) -> Seq<
    (Seq<char>, Seq<char>, SettingView),
> {
    seq![
        ("connection"@, "id"@, SettingView::Text("YoYoPod Setup"@)),
        ("connection"@, "type"@, SettingView::Text("802-11-wireless"@)),
        ("connection"@, "autoconnect"@, SettingView::Flag(false)),
        ("802-11-wireless"@, "ssid"@, SettingView::Bytes(ssid_bytes)),
        ("802-11-wireless"@, "mode"@, SettingView::Text("ap"@)),
        ("802-11-wireless"@, "band"@, SettingView::Text("bg"@)),
        ("802-11-wireless"@, "channel"@, SettingView::Number(6)),
        ("802-11-wireless-security"@, "key-mgmt"@, SettingView::Text("wpa-psk"@)),
        ("802-11-wireless-security"@, "psk"@, SettingView::Text(password)),
        ("ipv4"@, "method"@, SettingView::Text("shared"@)),
        ("ipv6"@, "method"@, SettingView::Text("ignore"@)),
    ]
}

pub fn ap_settings(credentials: &ApCredentials) -> (v: Vec<NmSetting>)
    ensures
        settings_view(v@) == ap_settings_spec(
            credentials.ssid@,
            encode_utf8(credentials.ssid@),
            credentials.password@,
        ),
{
    let ssid_bytes = credentials.ssid.as_str().as_bytes_vec();
    let v = vec![
        text("connection", "id", "YoYoPod Setup"),
        text("connection", "type", "802-11-wireless"),
        NmSetting { section: "connection", key: "autoconnect", value: SettingValue::Flag(false) },
        NmSetting { section: "802-11-wireless", key: "ssid", value: SettingValue::Bytes(ssid_bytes) },
        text("802-11-wireless", "mode", "ap"),
        text("802-11-wireless", "band", "bg"),
        NmSetting { section: "802-11-wireless", key: "channel", value: SettingValue::Number(6) },
        text("802-11-wireless-security", "key-mgmt", "wpa-psk"),
        text("802-11-wireless-security", "psk", credentials.password.as_str()),
        text("ipv4", "method", "shared"),
        text("ipv6", "method", "ignore"),
    ];
    assert(settings_view(v@) =~= ap_settings_spec(
        credentials.ssid@,
        encode_utf8(credentials.ssid@),
        credentials.password@,
    ));
    v
}

/// The joined network: a profile that connects by itself, secured by WPA2
/// (`wpa-psk`) or WPA3 (`sae`) unless open, with automatic addressing.
pub open spec fn station_settings_spec(
    ssid: Seq<char>,
    ssid_bytes: Seq<u8>,
    security: WifiSecurity,
    password: Seq<char>,
) -> Seq<(Seq<char>, Seq<char>, SettingView)> {
    let head = seq![
        ("connection"@, "id"@, SettingView::Text("YoYoPod "@ + ssid)),
        ("connection"@, "type"@, SettingView::Text("802-11-wireless"@)),
        ("connection"@, "autoconnect"@, SettingView::Flag(true)),
        ("802-11-wireless"@, "ssid"@, SettingView::Bytes(ssid_bytes)),
        ("802-11-wireless"@, "mode"@, SettingView::Text("infrastructure"@)),
    ];
    let security_part = if security == WifiSecurity::Open {
        Seq::empty()
    } else {
        seq![
            (
                "802-11-wireless-security"@,
                "key-mgmt"@,
                SettingView::Text(
                    if security == WifiSecurity::Wpa3Personal {
                        "sae"@
                    } else {
                        "wpa-psk"@
                    },
                ),
            ),
            ("802-11-wireless-security"@, "psk"@, SettingView::Text(password)),
        ]
    };
    head + security_part + seq![
        ("ipv4"@, "method"@, SettingView::Text("auto"@)),
        ("ipv6"@, "method"@, SettingView::Text("auto"@)),
    ]
}

pub fn station_settings(request: &ConnectRequest) -> (v: Vec<NmSetting>)
    ensures
        settings_view(v@) == station_settings_spec(
            request.ssid@,
            encode_utf8(request.ssid@),
            request.security,
            request.password@,
        ),
{
    let mut id: Vec<char> = Vec::new();
    push_str(&mut id, "YoYoPod ");
    push_str(&mut id, request.ssid.as_str());
    let id_text = string_of(&id);
    let ssid_bytes = request.ssid.as_str().as_bytes_vec();
    let mut v = vec![
        text("connection", "id", id_text.as_str()),
        text("connection", "type", "802-11-wireless"),
        NmSetting { section: "connection", key: "autoconnect", value: SettingValue::Flag(true) },
        NmSetting { section: "802-11-wireless", key: "ssid", value: SettingValue::Bytes(ssid_bytes) },
        text("802-11-wireless", "mode", "infrastructure"),
    ];
    let ghost head = settings_view(v@);
    if request.security != WifiSecurity::Open {
        let key_mgmt = if request.security == WifiSecurity::Wpa3Personal {
            "sae"
        } else {
            "wpa-psk"
        };
        v.push(text("802-11-wireless-security", "key-mgmt", key_mgmt));
        v.push(text("802-11-wireless-security", "psk", request.password.as_str()));
    }
    v.push(text("ipv4", "method", "auto"));
    v.push(text("ipv6", "method", "auto"));
    assert(settings_view(v@) =~= station_settings_spec(
        request.ssid@,
        encode_utf8(request.ssid@),
        request.security,
        request.password@,
    ));
    v
}

} // verus!
