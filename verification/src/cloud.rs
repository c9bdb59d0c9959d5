//! The cloud link's rules: where the MQTT broker is reached and how, at
//! which delivery level a message goes, and when a lost connection is
//! reported.
use vstd::prelude::*;
use crate::json::{as_count, as_flag, is_object, json_count, json_flag, json_is_object, json_member, member};
use crate::text::{chars_eq, chars_start_with, chars_of, lower_chars, push_decimal, push_str, string_of, trim, trim_chars,
    to_ascii_lower, decimal};

verus! {

/// At most this many broker events are handed over per drain.
pub const MAX_MQTT_EVENTS_PER_DRAIN: usize = 64;

/// What a loss of the link does to the "loss reported" flag: whether it is
/// reported, and the flag after it.
pub open spec fn on_disconnect(reported: bool) -> (bool, bool) {
    (!reported, true)
}

/// The "loss reported" flag after a connection.
pub open spec fn on_connect(reported: bool) -> bool {
    false
}

/// Records that the broker accepted the connection: the link is up, and the
/// next loss is reported again.
pub fn mark_connected(connected: &mut bool, disconnect_reported: &mut bool)
    ensures
        *final(connected),
        *final(disconnect_reported) == on_connect(*old(disconnect_reported)),
{
    *connected = true;
    *disconnect_reported = false;
}

/// Records that the link is down. Returns whether the loss is to be
/// reported: only the first loss since the last connection is.
pub fn mark_disconnected(connected: &mut bool, disconnect_reported: &mut bool) -> (report: bool)
    ensures
        !*final(connected),
        (report, *final(disconnect_reported)) == on_disconnect(*old(disconnect_reported)),
{
    *connected = false;
    if *disconnect_reported {
        return false;
    }
    *disconnect_reported = true;
    true
}

/// A loss of the link is reported once until the next connection: a second
/// loss right after a first is not reported, and the first loss after a
/// connection is.
pub proof fn disconnect_is_reported_once_per_connection(reported: bool)
    ensures
        !on_disconnect(on_disconnect(reported).1).0,
        on_disconnect(on_connect(reported)).0,
{
}

/// The delivery level of an MQTT message.
#[derive(Debug, Clone, Copy, PartialEq, Eq, Structural)]
pub enum MqttQos {
    AtMostOnce,
    AtLeastOnce,
    ExactlyOnce,
}

/// The delivery level a number asks for: 0 at most once, 2 exactly once,
/// anything else at least once.
pub fn qos_from_u8(qos: u8) -> (r: MqttQos)
    ensures
        r == (if qos == 0 {
            MqttQos::AtMostOnce
        } else if qos == 2 {
            MqttQos::ExactlyOnce
        } else {
            MqttQos::AtLeastOnce
        }),
{
    match qos {
        0 => MqttQos::AtMostOnce,
        2 => MqttQos::ExactlyOnce,
        _ => MqttQos::AtLeastOnce,
    }
}

/// How the broker is reached.
#[derive(Debug, Clone, Copy, PartialEq, Eq, Structural)]
pub enum BrokerTransport {
    Tcp,
    Tls,
    WebSocket,
    SecureWebSocket,
}

pub open spec fn is_websocket_name(t: Seq<char>) -> bool {
    t == "websocket"@ || t == "websockets"@ || t == "ws"@ || t == "wss"@
}

/// The transport a configured name and TLS flag give: a web-socket name
/// (trimmed, any case) gives web sockets, secure with TLS or for "wss";
/// any other name gives TCP, with TLS when asked.
pub open spec fn broker_transport_spec(transport: Seq<char>, use_tls: bool) -> BrokerTransport {
    let t = to_ascii_lower(trim(transport));
    if is_websocket_name(t) {
        if use_tls || t == "wss"@ {
            BrokerTransport::SecureWebSocket
        } else {
            BrokerTransport::WebSocket
        }
    } else if use_tls {
        BrokerTransport::Tls
    } else {
        BrokerTransport::Tcp
    }
}

fn chars_equal_str(a: &Vec<char>, b: &str) -> (r: bool)
    ensures
        r == (a@ == b@),
{
    let v = chars_of(b);
    chars_eq(a, &v)
}

/// The transport to reach the broker with.
pub fn broker_transport(transport: &str, use_tls: bool) -> (r: BrokerTransport)
    ensures
        r == broker_transport_spec(transport@, use_tls),
{
    let t = lower_chars(&trim_chars(&chars_of(transport)));
    let wss = chars_equal_str(&t, "wss");
    let websocket = chars_equal_str(&t, "websocket") || chars_equal_str(&t, "websockets") || chars_equal_str(&t, "ws")
        || wss;
    if websocket {
        if use_tls || wss {
            BrokerTransport::SecureWebSocket
        } else {
            BrokerTransport::WebSocket
        }
    } else if use_tls {
        BrokerTransport::Tls
    } else {
        BrokerTransport::Tcp
    }
}

/// The client id the device connects with.
pub fn mqtt_client_id(device_id: &str) -> (r: String)
    ensures
        r@ == "yoyopod-"@ + trim(device_id@),
{
    let mut out: Vec<char> = Vec::new();
    push_str(&mut out, "yoyopod-");
    let id = trim_chars(&chars_of(device_id));
    let ghost before = out@;
    let mut i: usize = 0;
    while i < id.len()
        invariant
            i <= id@.len(),
            out@ == before + id@.subrange(0, i as int),
        decreases id.len() - i,
    {
        out.push(id[i]);
        assert(id@.subrange(0, i + 1) =~= id@.subrange(0, i as int).push(id@[i as int]));
        i = i + 1;
    }
    assert(id@.subrange(0, id@.len() as int) =~= id@);
    string_of(&out)
}

/// The web-socket address of the broker: a host already written as a
/// "ws://" or "wss://" address is used as it is (trimmed); otherwise the
/// address is built from the scheme the TLS flag picks, the host, the port
/// and the path "/mqtt".
pub open spec fn websocket_url_spec(host: Seq<char>, use_tls: bool, port: u16) -> Seq<char> {
    let h = trim(host);
    if (h.len() >= 5 && h.subrange(0, 5) == "ws://"@) || (h.len() >= 6 && h.subrange(0, 6) == "wss://"@) {
        h
    } else {
        (if use_tls {
            "wss"@
        } else {
            "ws"@
        }) + "://"@ + h + ":"@ + decimal(port as nat) + "/mqtt"@
    }
}

pub fn websocket_broker_url(host: &str, use_tls: bool, port: u16) -> (r: String)
    ensures
        r@ == websocket_url_spec(host@, use_tls, port),
{
    let h = trim_chars(&chars_of(host));
    let ws = chars_of("ws://");
    let wss = chars_of("wss://");
    proof {
        reveal_strlit("ws://");
        reveal_strlit("wss://");
    }
    if chars_start_with(&h, &ws) || chars_start_with(&h, &wss) {
        return string_of(&h);
    }
    let mut out: Vec<char> = Vec::new();
    if use_tls {
        push_str(&mut out, "wss");
    } else {
        push_str(&mut out, "ws");
    }
    push_str(&mut out, "://");
    let ghost before = out@;
    let mut i: usize = 0;
    while i < h.len()
        invariant
            i <= h@.len(),
            out@ == before + h@.subrange(0, i as int),
        decreases h.len() - i,
    {
        out.push(h[i]);
        assert(h@.subrange(0, i + 1) =~= h@.subrange(0, i as int).push(h@[i as int]));
        i = i + 1;
    }
    assert(h@.subrange(0, h@.len() as int) =~= h@);
    push_str(&mut out, ":");
    push_decimal(&mut out, port as u64);
    push_str(&mut out, "/mqtt");
    proof {
        let scheme = if use_tls {
            "wss"@
        } else {
            "ws"@
        };
        assert(out@ =~= scheme + "://"@ + h@ + ":"@ + decimal(port as nat) + "/mqtt"@);
    }
    string_of(&out)
}

#[verifier::external_type_specification]
#[verifier::external_body]
pub struct ExAnyhowError(anyhow::Error);

/// What the broker connection reports.
#[derive(Debug)]
pub enum MqttRuntimeEvent {
    Connected,
    Disconnected(String),
    Command(serde_json::Value),
    Error(String),
}

/// The backend used when the cloud link is turned off: never connected,
/// publishes nothing, reports nothing.
pub struct DisabledMqttBackend;

impl Default for DisabledMqttBackend {
    fn default() -> Self {
        DisabledMqttBackend
    }
}

impl DisabledMqttBackend {
    pub fn stop(&mut self) {
    }

    pub fn is_connected(&self) -> (r: bool)
        ensures
            !r,
    {
        false
    }

    /// Publishes nothing, and says so.
    pub fn publish(&mut self, topic: &str, payload: &str, qos: u8) -> (r: Result<bool, anyhow::Error>)
        ensures
            r matches Ok(sent) && !sent,
    {
        Ok(false)
    }

    pub fn drain_events(&mut self) -> (r: Vec<MqttRuntimeEvent>)
        ensures
            r@.len() == 0,
    {
        Vec::new()
    }
}

/// The base address joined to a path with exactly one slash between them:
/// the base's trailing slashes and the path's leading slashes are dropped.
pub open spec fn without_trailing_slashes(s: Seq<char>) -> Seq<char>
    decreases s.len(),
{
    if s.len() > 0 && s.last() == '/' {
        without_trailing_slashes(s.drop_last())
    } else {
        s
    }
}

pub open spec fn without_leading_slashes(s: Seq<char>) -> Seq<char>
    decreases s.len(),
{
    if s.len() > 0 && s[0] == '/' {
        without_leading_slashes(s.drop_first())
    } else {
        s
    }
}

pub fn join_url(base: &str, path: &str) -> (r: String)
    ensures
        r@ == without_trailing_slashes(base@) + "/"@ + without_leading_slashes(path@),
{
    let b = chars_of(base);
    let p = chars_of(path);
    let mut end: usize = b.len();
    assert(b@.subrange(0, b@.len() as int) =~= b@);
    while end > 0 && b[end - 1] == '/'
        invariant
            end <= b@.len(),
            without_trailing_slashes(b@) == without_trailing_slashes(b@.subrange(0, end as int)),
        decreases end,
    {
        assert(b@.subrange(0, end as int).drop_last() =~= b@.subrange(0, end - 1));
        end = end - 1;
    }
    let mut start: usize = 0;
    assert(p@.subrange(0, p@.len() as int) =~= p@);
    while start < p.len() && p[start] == '/'
        invariant
            start <= p@.len(),
            without_leading_slashes(p@) == without_leading_slashes(p@.subrange(start as int, p@.len() as int)),
        decreases p.len() - start,
    {
        assert(p@.subrange(start as int, p@.len() as int).drop_first() =~= p@.subrange(start + 1, p@.len() as int));
        start = start + 1;
    }
    let mut out: Vec<char> = Vec::new();
    let mut i: usize = 0;
    while i < end
        invariant
            end <= b@.len(),
            i <= end,
            out@ == b@.subrange(0, i as int),
        decreases end - i,
    {
        out.push(b[i]);
        assert(b@.subrange(0, i + 1) =~= b@.subrange(0, i as int).push(b@[i as int]));
        i = i + 1;
    }
    out.push('/');
    let ghost head = out@;
    let mut j: usize = start;
    while j < p.len()
        invariant
            start <= j <= p@.len(),
            out@ == head + p@.subrange(start as int, j as int),
        decreases p.len() - j,
    {
        out.push(p[j]);
        assert(p@.subrange(start as int, j + 1) =~= p@.subrange(start as int, j as int).push(p@[j as int]));
        j = j + 1;
    }
    proof {
        let tb = b@.subrange(0, end as int);
        let tp = p@.subrange(start as int, p@.len() as int);
        assert(without_trailing_slashes(tb) == tb);
        assert(without_leading_slashes(tp) == tp);
        assert(out@ =~= tb + "/"@ + tp) by {
            reveal_strlit("/");
        }
    }
    string_of(&out)
}

/// The next time the cloud configuration is fetched: the poll interval
/// (at least one second) after `now`, saturating.
pub fn next_config_poll_at(now: u64, interval_seconds: u64) -> (r: u64)
    ensures
        r == (if now + (if interval_seconds < 1 { 1 } else { interval_seconds }) > u64::MAX {
            u64::MAX as int
        } else {
            now + (if interval_seconds < 1 { 1 } else { interval_seconds })
        }),
{
    let interval: u64 = if interval_seconds < 1 {
        1
    } else {
        interval_seconds
    };
    now.saturating_add(interval)
}

/// Whether the cloud configuration is fetched now: a provisioned device
/// fetches when forced or once the next poll time has come.
pub fn config_poll_due(provisioned: bool, force: bool, now: u64, next_poll_at: u64) -> (r: bool)
    ensures
        r == (provisioned && (force || now >= next_poll_at)),
{
    provisioned && (force || now >= next_poll_at)
}

/// What the device reads from a cloud configuration document.
#[derive(Debug, Clone, Copy, PartialEq, Eq, Structural)]
pub struct DeviceConfigFields {
    pub config_version: Option<u64>,
    /// Whether `features.location_tracking`, where present, is a boolean.
    pub location_tracking_is_flag: Option<bool>,
    pub moving_interval: Option<u64>,
    pub stationary_interval: Option<u64>,
    pub report_interval: Option<u64>,
}

/// A member of a member, when both are there.
pub open spec fn nested_member(value: serde_json::Value, section: Seq<char>, key: Seq<char>) -> Option<serde_json::Value> {
    match json_member(value, section) {
        Some(s) => json_member(s, key),
        None => None,
    }
}

pub open spec fn count_in(v: Option<serde_json::Value>) -> Option<u64> {
    match v {
        Some(x) => json_count(x),
        None => None,
    }
}

/// What the device reads from a configuration document: nothing when it is
/// not an object; else its version, whether `features.location_tracking`
/// (where present) is a boolean, and the `connectivity` intervals, each a
/// whole number or absent.
pub open spec fn device_config_fields(value: serde_json::Value) -> Option<DeviceConfigFields> {
    if !json_is_object(value) {
        None
    } else {
        Some(
            DeviceConfigFields {
                config_version: count_in(json_member(value, "config_version"@)),
                location_tracking_is_flag: match nested_member(value, "features"@, "location_tracking"@) {
                    Some(v) => Some(json_flag(v) is Some),
                    None => None,
                },
                moving_interval: count_in(nested_member(value, "connectivity"@, "location_moving_interval_seconds"@)),
                stationary_interval: count_in(
                    nested_member(value, "connectivity"@, "location_stationary_interval_seconds"@),
                ),
                report_interval: count_in(nested_member(value, "connectivity"@, "location_report_interval_seconds"@)),
            },
        )
    }
}

pub(crate) fn nested(value: &serde_json::Value, section: &str, key: &str) -> (r: Option<serde_json::Value>)
    ensures
        r == nested_member(*value, section@, key@),
{
    match member(value, section) {
        Some(s) => member(&s, key),
        None => None,
    }
}

pub(crate) fn count_member(v: Option<serde_json::Value>) -> (r: Option<u64>)
    ensures
        r == count_in(v),
{
    match v {
        Some(x) => as_count(&x),
        None => None,
    }
}

/// Reads a configuration document's fields.
pub fn read_device_config(value: &serde_json::Value) -> (r: Option<DeviceConfigFields>)
    ensures
        r == device_config_fields(*value),
{
    if !is_object(value) {
        return None;
    }
    let location_tracking_is_flag = match nested(value, "features", "location_tracking") {
        Some(v) => Some(as_flag(&v).is_some()),
        None => None,
    };
    Some(DeviceConfigFields {
        config_version: count_member(member(value, "config_version")),
        location_tracking_is_flag,
        moving_interval: count_member(nested(value, "connectivity", "location_moving_interval_seconds")),
        stationary_interval: count_member(nested(value, "connectivity", "location_stationary_interval_seconds")),
        report_interval: count_member(nested(value, "connectivity", "location_report_interval_seconds")),
    })
}

/// Why a cloud configuration is refused.
#[derive(Debug, Clone, Copy, PartialEq, Eq, Structural)]
pub enum DeviceConfigProblem {
    NotAnObject,
    MissingVersion,
    InvalidLocationTracking,
    InvalidIntervals,
}

impl DeviceConfigProblem {
    pub open spec fn text(self) -> Seq<char> {
        match self {
            DeviceConfigProblem::NotAnObject => "cloud config must be an object"@,
            DeviceConfigProblem::MissingVersion => "cloud config version is missing"@,
            DeviceConfigProblem::InvalidLocationTracking => "cloud location tracking flag is invalid"@,
            DeviceConfigProblem::InvalidIntervals => "cloud location intervals are invalid"@,
        }
    }

    pub fn message(&self) -> (r: String)
        ensures
            r@ == self.text(),
    {
        match self {
            DeviceConfigProblem::NotAnObject => "cloud config must be an object".to_string(),
            DeviceConfigProblem::MissingVersion => "cloud config version is missing".to_string(),
            DeviceConfigProblem::InvalidLocationTracking => "cloud location tracking flag is invalid".to_string(),
            DeviceConfigProblem::InvalidIntervals => "cloud location intervals are invalid".to_string(),
        }
    }
}

/// The moving interval a configuration asks for (60 s by default).
pub open spec fn moving_interval_of(f: DeviceConfigFields) -> u64 {
    match f.moving_interval {
        Some(v) => v,
        None => 60,
    }
}

/// The stationary interval a configuration asks for, under its current or
/// its former name (300 s by default).
pub open spec fn stationary_interval_of(f: DeviceConfigFields) -> u64 {
    match f.stationary_interval {
        Some(v) => v,
        None => match f.report_interval {
            Some(v) => v,
            None => 300,
        },
    }
}

/// The first thing wrong with a configuration, if any: it must be an object
/// with a version; a location tracking flag, where given, must be a
/// boolean; the moving interval must be 30 to 900 s, the stationary one 120
/// to 3600 s and no shorter than the moving one.
pub open spec fn config_problem(fields: Option<DeviceConfigFields>) -> Option<DeviceConfigProblem> {
    match fields {
        None => Some(DeviceConfigProblem::NotAnObject),
        Some(f) => if f.config_version is None {
            Some(DeviceConfigProblem::MissingVersion)
        } else if f.location_tracking_is_flag == Some(false) {
            Some(DeviceConfigProblem::InvalidLocationTracking)
        } else {
            let moving = moving_interval_of(f);
            let stationary = stationary_interval_of(f);
            if !(30 <= moving <= 900) || !(120 <= stationary <= 3600) || stationary < moving {
                Some(DeviceConfigProblem::InvalidIntervals)
            } else {
                None
            }
        },
    }
}

/// Checks the fields read from a configuration document.
pub fn check_device_config(fields: Option<DeviceConfigFields>) -> (r: Option<DeviceConfigProblem>)
    ensures
        r == config_problem(fields),
{
    match fields {
        None => Some(DeviceConfigProblem::NotAnObject),
        Some(f) => {
            if f.config_version.is_none() {
                return Some(DeviceConfigProblem::MissingVersion);
            }
            if f.location_tracking_is_flag == Some(false) {
                return Some(DeviceConfigProblem::InvalidLocationTracking);
            }
            let moving: u64 = match f.moving_interval {
                Some(v) => v,
                None => 60,
            };
            let stationary: u64 = match f.stationary_interval {
                Some(v) => v,
                None => match f.report_interval {
                    Some(v) => v,
                    None => 300,
                },
            };
            if !(30 <= moving && moving <= 900) || !(120 <= stationary && stationary <= 3600) || stationary < moving {
                Some(DeviceConfigProblem::InvalidIntervals)
            } else {
                None
            }
        },
    }
}

/// Makes an `anyhow::Error` with `message` through `anyhow::Error::msg`.
/// Nothing is stated of it.
#[verifier::external_body]
pub(crate) fn error_with_message(message: String) -> anyhow::Error {
    anyhow::Error::msg(message)
}

/// A cloud configuration document, checked: returned as it is when sound,
/// else an error that says what is wrong with it.
pub fn validate_device_config(value: serde_json::Value) -> (r: Result<serde_json::Value, anyhow::Error>)
    ensures
        config_problem(device_config_fields(value)) is None <==> r is Ok,
        r matches Ok(v) ==> v == value,
{
    let fields = read_device_config(&value);
    match check_device_config(fields) {
        None => Ok(value),
        Some(problem) => Err(error_with_message(problem.message())),
    }
}

} // verus!
