//! What the runtime sends the cloud worker: telemetry drawn from the other
//! workers' snapshots, and the answer to each remote command.
use vstd::prelude::*;
use crate::clock::epoch_seconds;
use crate::json::{as_flag, as_int, as_text, json_flag, json_int, json_member, json_text, member};
use crate::intents::{
    lemma_fields_view, non_empty, non_empty_string, or_else, value_view, PayloadValue,
    RuntimeCommand, ValueView, VoiceRecipientAction, WorkerDomain, WorkerMessage,
};
use crate::text::{lower_chars, owned, push_str, str_eq, string_of, to_ascii_lower, trim, trimmed};

verus! {

pub open spec fn either<T>(a: Option<T>, b: Option<T>) -> Option<T> {
    match a {
        Some(x) => Some(x),
        None => b,
    }
}

pub open spec fn text_view(t: Option<String>) -> Option<Seq<char>> {
    match t {
        Some(s) => Some(s@),
        None => None,
    }
}

/// A text member, trimmed, when it is a JSON string with something in it.
pub open spec fn text_field(value: serde_json::Value, key: Seq<char>) -> Option<Seq<char>> {
    match json_member(value, key) {
        Some(m) => match json_text(m) {
            Some(t) => non_empty(t),
            None => None,
        },
        None => None,
    }
}

pub fn string_field(value: &serde_json::Value, key: &str) -> (r: Option<String>)
    ensures
        text_view(r) == text_field(*value, key@),
{
    match member(value, key) {
        Some(m) => match as_text(&m) {
            Some(t) => non_empty_string(t.as_str()),
            None => None,
        },
        None => None,
    }
}

pub open spec fn flag_of(v: Option<serde_json::Value>) -> Option<bool> {
    match v {
        Some(x) => json_flag(x),
        None => None,
    }
}

pub open spec fn int_of(v: Option<serde_json::Value>) -> Option<i64> {
    match v {
        Some(x) => json_int(x),
        None => None,
    }
}

fn flag_in(v: Option<serde_json::Value>) -> (r: Option<bool>)
    ensures
        r == flag_of(v),
{
    match v {
        Some(x) => as_flag(&x),
        None => None,
    }
}

fn int_in(v: Option<serde_json::Value>) -> (r: Option<i64>)
    ensures
        r == int_of(v),
{
    match v {
        Some(x) => as_int(&x),
        None => None,
    }
}

fn either_value(a: Option<serde_json::Value>, b: Option<serde_json::Value>) -> (r: Option<serde_json::Value>)
    ensures
        r == either(a, b),
{
    match a {
        Some(x) => Some(x),
        None => b,
    }
}

fn either_text(a: Option<String>, b: Option<String>) -> (r: Option<String>)
    ensures
        text_view(r) == either(text_view(a), text_view(b)),
{
    match a {
        Some(x) => Some(x),
        None => b,
    }
}

/// A message as the contracts see it: its type and its payload's fields.
pub type MessageView = (Seq<char>, Seq<(Seq<char>, ValueView)>);

pub open spec fn payload_view(p: Seq<(String, PayloadValue)>) -> Seq<(Seq<char>, ValueView)> {
    p.map_values(|f: (String, PayloadValue)| (f.0@, value_view(f.1)))
}

pub open spec fn message_view(m: WorkerMessage) -> MessageView {
    (m.message_type@, payload_view(m.payload@))
}

/// Any runtime command as the contracts see it.
pub ghost enum CommandView {
    Worker(WorkerDomain, MessageView),
    WithAck(WorkerDomain, MessageView, MessageView, MessageView),
    Log(Seq<char>),
    Shutdown,
}

pub open spec fn full_view(c: RuntimeCommand) -> CommandView {
    match c {
        RuntimeCommand::WorkerCommand { domain, command } => CommandView::Worker(domain, message_view(command)),
        RuntimeCommand::WorkerCommandWithAck { domain, command, success_ack, failure_ack } => CommandView::WithAck(
            domain,
            message_view(command),
            message_view(success_ack),
            message_view(failure_ack),
        ),
        RuntimeCommand::AppendAppLog { line } => CommandView::Log(line@),
        RuntimeCommand::Shutdown => CommandView::Shutdown,
    }
}

pub open spec fn full_views(cs: Seq<RuntimeCommand>) -> Seq<CommandView> {
    cs.map_values(|c: RuntimeCommand| full_view(c))
}

fn message(message_type: &str, payload: Vec<(String, PayloadValue)>) -> (m: WorkerMessage)
    ensures
        message_view(m) == (message_type@, payload_view(payload@)),
{
    WorkerMessage { message_type: owned(message_type), payload }
}

/// An object payload value made of the fields given.
fn object(fields: Vec<(String, PayloadValue)>) -> (v: PayloadValue)
    ensures
        value_view(v) == ValueView::Object(payload_view(fields@)),
{
    proof {
        lemma_fields_view(fields@);
    }
    PayloadValue::Object(fields)
}

fn field(key: &str, value: PayloadValue) -> (f: (String, PayloadValue))
    ensures
        f.0@ == key@,
        f.1 == value,
{
    (owned(key), value)
}

fn worker(domain: WorkerDomain, message_type: &str, payload: Vec<(String, PayloadValue)>) -> (c: RuntimeCommand)
    ensures
        full_view(c) == CommandView::Worker(domain, (message_type@, payload_view(payload@))),
{
    RuntimeCommand::WorkerCommand { domain, command: message(message_type, payload) }
}

/// The telemetry payload of one entity: its value, attributes and time.
pub open spec fn entity_view(entity: Seq<char>, value: ValueView, attrs: ValueView, now: u64) -> ValueView {
    ValueView::Object(
        seq![
            ("entity"@, ValueView::Text(entity)),
            ("value"@, value),
            ("attrs"@, attrs),
            ("ts"@, ValueView::Int(now as int)),
        ],
    )
}

fn entity_payload(entity: &str, value: PayloadValue, attrs: PayloadValue, now: u64) -> (p: PayloadValue)
    ensures
        value_view(p) == entity_view(entity@, value_view(value), value_view(attrs), now),
{
    let fields = vec![
        field("entity", PayloadValue::Text(owned(entity))),
        field("value", value),
        field("attrs", attrs),
        field("ts", PayloadValue::Count(now)),
    ];
    let ghost f = fields@;
    let p = object(fields);
    assert(payload_view(f) =~= seq![
        ("entity"@, ValueView::Text(entity@)),
        ("value"@, value_view(value)),
        ("attrs"@, value_view(attrs)),
        ("ts"@, ValueView::Int(now as int)),
    ]);
    p
}

/// A telemetry record for the cloud worker to publish under the topic
/// suffix, at quality of service 0.
pub open spec fn telemetry_view(topic_suffix: Seq<char>, payload: ValueView) -> CommandView {
    CommandView::Worker(
        WorkerDomain::Cloud,
        (
            "cloud.publish_telemetry"@,
            seq![
                ("topic_suffix"@, ValueView::Text(topic_suffix)),
                ("payload"@, payload),
                ("qos"@, ValueView::Int(0)),
            ],
        ),
    )
}

pub fn cloud_telemetry_command(topic_suffix: &str, payload: PayloadValue) -> (c: RuntimeCommand)
    ensures
        full_view(c) == telemetry_view(topic_suffix@, value_view(payload)),
{
    let fields = vec![
        field("topic_suffix", PayloadValue::Text(owned(topic_suffix))),
        field("payload", payload),
        field("qos", PayloadValue::Int(0)),
    ];
    assert(payload_view(fields@) =~= seq![
        ("topic_suffix"@, ValueView::Text(topic_suffix@)),
        ("payload"@, value_view(payload)),
        ("qos"@, ValueView::Int(0)),
    ]);
    worker(WorkerDomain::Cloud, "cloud.publish_telemetry", fields)
}

/// A member when there is one, else the value itself.
pub open spec fn member_or_self(value: serde_json::Value, key: Seq<char>) -> serde_json::Value {
    match json_member(value, key) {
        Some(m) => m,
        None => value,
    }
}

fn member_or_clone(value: &serde_json::Value, key: &str) -> (r: serde_json::Value)
    ensures
        r == member_or_self(*value, key@),
{
    match member(value, key) {
        Some(m) => m,
        None => value.clone(),
    }
}

/// The parts of a network snapshot read for telemetry: the snapshot (under
/// `snapshot` when wrapped) and its application state (under `app_state`,
/// else the snapshot itself).
pub open spec fn network_parts(snapshot: serde_json::Value) -> (serde_json::Value, serde_json::Value) {
    let snap = member_or_self(snapshot, "snapshot"@);
    (snap, member_or_self(snap, "app_state"@))
}

/// Whether the network is up: `connected` in the application state, else
/// in the snapshot; false unless it is a boolean.
pub open spec fn network_connected(snap: serde_json::Value, app: serde_json::Value) -> bool {
    match flag_of(either(json_member(app, "connected"@), json_member(snap, "connected"@))) {
        Some(b) => b,
        None => false,
    }
}

/// The connection type, from the application state or the snapshot;
/// `none` when neither names one.
pub open spec fn network_connection_type(snap: serde_json::Value, app: serde_json::Value) -> Seq<char> {
    match either(text_field(app, "connection_type"@), text_field(snap, "connection_type"@)) {
        Some(t) => t,
        None => "none"@,
    }
}

/// The signal in bars, 0 to 4: `signal_bars` (or `signal_strength`) in the
/// application state, else `signal.bars` in the snapshot, else 0.
pub open spec fn network_signal_bars(snap: serde_json::Value, app: serde_json::Value) -> int {
    let primary = int_of(either(json_member(app, "signal_bars"@), json_member(app, "signal_strength"@)));
    let fallback = match json_member(snap, "signal"@) {
        Some(signal) => int_of(json_member(signal, "bars"@)),
        None => None,
    };
    let raw: int = match either(primary, fallback) {
        Some(n) => n as int,
        None => 0,
    };
    if raw < 0 {
        0
    } else if raw > 4 {
        4
    } else {
        raw
    }
}

/// `n` held to 0 to 4 bars.
pub open spec fn bars_in_range(n: int) -> int {
    if n < 0 {
        0
    } else if n > 4 {
        4
    } else {
        n
    }
}

/// The published signal is always 0 to 4 bars. It is the application
/// state's `signal_bars` when that is an integer; with no `signal_bars` there,
/// it is the application state's integer `signal_strength`; with neither,
/// the snapshot's integer `signal.bars`; each held to 0 to 4.
pub proof fn signal_bars_come_from_the_first_reading_given(
    snap: serde_json::Value,
    app: serde_json::Value,
    v: serde_json::Value,
    n: i64,
)
    ensures
        0 <= network_signal_bars(snap, app) <= 4,
        json_member(app, "signal_bars"@) == Some(v) && json_int(v) == Some(n) ==> network_signal_bars(snap, app)
            == bars_in_range(n as int),
        json_member(app, "signal_bars"@) is None && json_member(app, "signal_strength"@) == Some(v) && json_int(v)
            == Some(n) ==> network_signal_bars(snap, app) == bars_in_range(n as int),
        json_member(app, "signal_bars"@) is None && json_member(app, "signal_strength"@) is None && (json_member(
            snap,
            "signal"@,
        ) matches Some(sig) && json_member(sig, "bars"@) == Some(v)) && json_int(v) == Some(n)
            ==> network_signal_bars(snap, app) == bars_in_range(n as int),
{
}

/// The link is up when the application state says so, else when the
/// snapshot says so, and down when neither says; a network snapshot always
/// publishes the link, the signal and the fix, and adds the connectivity
/// report exactly when the link is up on a named connection type.
pub proof fn link_state_comes_from_the_first_flag_given(
    snapshot: serde_json::Value,
    snap: serde_json::Value,
    app: serde_json::Value,
    v: serde_json::Value,
    b: bool,
    now: u64,
)
    ensures
        json_member(app, "connected"@) == Some(v) && json_flag(v) == Some(b) ==> network_connected(snap, app) == b,
        json_member(app, "connected"@) is None && json_member(snap, "connected"@) == Some(v) && json_flag(v) == Some(b)
            ==> network_connected(snap, app) == b,
        json_member(app, "connected"@) is None && json_member(snap, "connected"@) is None ==> !network_connected(
            snap,
            app,
        ),
        ({
            let (s, a) = network_parts(snapshot);
            network_snapshot_view(snapshot, now).len() == (if network_connected(s, a) && network_connection_type(s, a)
                != "none"@ {
                4int
            } else {
                3int
            })
        }),
{
}

/// Whether the GNSS receiver has a fix, from the application state or the
/// snapshot; false unless it is a boolean.
pub open spec fn network_gps_fix(snap: serde_json::Value, app: serde_json::Value) -> bool {
    match flag_of(either(json_member(app, "gps_has_fix"@), json_member(snap, "gps_has_fix"@))) {
        Some(b) => b,
        None => false,
    }
}

/// The commands for a network snapshot taken at `now`: the link, signal and
/// fix published as telemetry, and the connection type published as
/// connectivity when the link is up with a named type.
pub open spec fn network_snapshot_view(snapshot: serde_json::Value, now: u64) -> Seq<CommandView> {
    let (snap, app) = network_parts(snapshot);
    let connected = network_connected(snap, app);
    let connection_type = network_connection_type(snap, app);
    let type_attrs = ValueView::Object(seq![("connection_type"@, ValueView::Text(connection_type))]);
    let gps = match json_member(snap, "gps"@) {
        Some(g) => ValueView::Json(g),
        None => ValueView::Object(Seq::empty()),
    };
    let published = seq![
        telemetry_view(
            "network.ppp_up"@,
            entity_view("network.ppp_up"@, ValueView::Flag(connected), type_attrs, now),
        ),
        telemetry_view(
            "network.signal_bars"@,
            entity_view(
                "network.signal_bars"@,
                ValueView::Int(network_signal_bars(snap, app)),
                type_attrs,
                now,
            ),
        ),
        telemetry_view(
            "location.fix"@,
            entity_view("location.fix"@, ValueView::Flag(network_gps_fix(snap, app)), gps, now),
        ),
    ];
    if connected && connection_type != "none"@ {
        published.push(
            CommandView::Worker(
                WorkerDomain::Cloud,
                (
                    "cloud.publish_connectivity"@,
                    seq![("connection_type"@, ValueView::Text(connection_type))],
                ),
            ),
        )
    } else {
        published
    }
}

fn type_attrs(connection_type: &str) -> (v: PayloadValue)
    ensures
        value_view(v) == ValueView::Object(seq![("connection_type"@, ValueView::Text(connection_type@))]),
{
    let fields = vec![field("connection_type", PayloadValue::Text(owned(connection_type)))];
    assert(payload_view(fields@) =~= seq![("connection_type"@, ValueView::Text(connection_type@))]);
    object(fields)
}

/// The commands for a network snapshot, stamped with the time given.
pub fn network_snapshot_commands(snapshot: &serde_json::Value, now: u64) -> (r: Vec<RuntimeCommand>)
    ensures
        full_views(r@) == network_snapshot_view(*snapshot, now),
{
    let snap = member_or_clone(snapshot, "snapshot");
    let app = member_or_clone(&snap, "app_state");
    let connected = match flag_in(either_value(member(&app, "connected"), member(&snap, "connected"))) {
        Some(b) => b,
        None => false,
    };
    let connection_type = match either_text(
        string_field(&app, "connection_type"),
        string_field(&snap, "connection_type"),
    ) {
        Some(t) => t,
        None => owned("none"),
    };
    let primary = int_in(either_value(member(&app, "signal_bars"), member(&app, "signal_strength")));
    let fallback = match member(&snap, "signal") {
        Some(signal) => int_in(member(&signal, "bars")),
        None => None,
    };
    let raw: i64 = match primary {
        Some(n) => n,
        None => match fallback {
            Some(n) => n,
            None => 0,
        },
    };
    let bars: i64 = if raw < 0 {
        0
    } else if raw > 4 {
        4
    } else {
        raw
    };
    let gps_fix = match flag_in(either_value(member(&app, "gps_has_fix"), member(&snap, "gps_has_fix"))) {
        Some(b) => b,
        None => false,
    };
    let gps = match member(&snap, "gps") {
        Some(g) => PayloadValue::Json(g),
        None => object(Vec::new()),
    };
    proof {
        assert(payload_view(Seq::<(String, PayloadValue)>::empty()) =~= Seq::empty());
    }
    let mut commands = vec![
        cloud_telemetry_command(
            "network.ppp_up",
            entity_payload(
                "network.ppp_up",
                PayloadValue::Flag(connected),
                type_attrs(connection_type.as_str()),
                now,
            ),
        ),
        cloud_telemetry_command(
            "network.signal_bars",
            entity_payload(
                "network.signal_bars",
                PayloadValue::Int(bars),
                type_attrs(connection_type.as_str()),
                now,
            ),
        ),
        cloud_telemetry_command(
            "location.fix",
            entity_payload("location.fix", PayloadValue::Flag(gps_fix), gps, now),
        ),
    ];
    let ghost published = full_views(commands@);
    if connected && !str_eq(connection_type.as_str(), "none") {
        let fields = vec![field("connection_type", PayloadValue::Text(connection_type))];
        let ghost f = fields@;
        commands.push(worker(WorkerDomain::Cloud, "cloud.publish_connectivity", fields));
        assert(payload_view(f) =~= seq![("connection_type"@, ValueView::Text(f[0].1->Text_0@))]);
        assert(full_views(commands@) =~= published.push(full_view(commands@[3])));
    }
    assert(full_views(commands@) =~= network_snapshot_view(*snapshot, now));
    commands
}

/// The commands for a network snapshot taken now (`epoch_seconds`).
pub fn commands_for_network_snapshot(snapshot: &serde_json::Value) -> (r: Vec<RuntimeCommand>)
    ensures
        exists|now: u64| full_views(r@) == network_snapshot_view(*snapshot, now),
{
    let now = epoch_seconds();
    network_snapshot_commands(snapshot, now)
}

/// The playback state a media snapshot reports; `stopped` when it names
/// none.
pub open spec fn playback_state_of(snapshot: serde_json::Value) -> Seq<char> {
    match text_field(snapshot, "playback_state"@) {
        Some(p) => p,
        None => "stopped"@,
    }
}

/// The commands for a media snapshot taken at `now`: the playback state
/// published as telemetry, with the current track among its attributes
/// when the snapshot has one.
pub open spec fn media_snapshot_view(snapshot: serde_json::Value, now: u64) -> Seq<CommandView> {
    let state = playback_state_of(snapshot);
    let attrs = match json_member(snapshot, "current_track"@) {
        Some(track) => ValueView::Object(
            seq![("playback_state"@, ValueView::Text(state)), ("track"@, ValueView::Json(track))],
        ),
        None => ValueView::Object(seq![("playback_state"@, ValueView::Text(state))]),
    };
    seq![telemetry_view("music.state"@, entity_view("music.state"@, ValueView::Text(state), attrs, now))]
}

/// The commands for a media snapshot, stamped with the time given.
pub fn media_snapshot_commands(snapshot: &serde_json::Value, now: u64) -> (r: Vec<RuntimeCommand>)
    ensures
        full_views(r@) == media_snapshot_view(*snapshot, now),
{
    let state = match string_field(snapshot, "playback_state") {
        Some(p) => p,
        None => owned("stopped"),
    };
    let mut attrs = vec![field("playback_state", PayloadValue::Text(state.clone()))];
    if let Some(track) = member(snapshot, "current_track") {
        attrs.push(field("track", PayloadValue::Json(track)));
    }
    let ghost a = attrs@;
    assert(payload_view(a) =~= match json_member(*snapshot, "current_track"@) {
        Some(track) => seq![("playback_state"@, ValueView::Text(state@)), ("track"@, ValueView::Json(track))],
        None => seq![("playback_state"@, ValueView::Text(state@))],
    });
    let payload = entity_payload("music.state", PayloadValue::Text(state), object(attrs), now);
    let commands = vec![cloud_telemetry_command("music.state", payload)];
    assert(full_views(commands@) =~= media_snapshot_view(*snapshot, now));
    commands
}

/// The commands for a media snapshot taken now (`epoch_seconds`).
pub fn commands_for_media_snapshot(snapshot: &serde_json::Value) -> (r: Vec<RuntimeCommand>)
    ensures
        exists|now: u64| full_views(r@) == media_snapshot_view(*snapshot, now),
{
    let now = epoch_seconds();
    media_snapshot_commands(snapshot, now)
}

/// A `cloud.ack` for a remote command: its id, whether it succeeded, the
/// reason when it did not, and a payload naming the command.
pub open spec fn ack_view(
    command_id: Seq<char>,
    ok: bool,
    reason: Option<Seq<char>>,
    payload: Seq<(Seq<char>, ValueView)>,
) -> MessageView {
    let head = seq![("command_id"@, ValueView::Text(command_id)), ("ok"@, ValueView::Flag(ok))];
    let with_reason = match reason {
        Some(r) => head.push(("reason"@, ValueView::Text(r))),
        None => head,
    };
    ("cloud.ack"@, with_reason.push(("payload"@, ValueView::Object(payload))))
}

fn ack(command_id: &str, ok: bool, reason: Option<&str>, payload: Vec<(String, PayloadValue)>) -> (m: WorkerMessage)
    ensures
        message_view(m) == ack_view(
            command_id@,
            ok,
            match reason {
                Some(r) => Some(r@),
                None => None,
            },
            payload_view(payload@),
        ),
{
    let ghost p = payload@;
    let mut fields = vec![field("command_id", PayloadValue::Text(owned(command_id))), field("ok", PayloadValue::Flag(ok))];
    if let Some(r) = reason {
        fields.push(field("reason", PayloadValue::Text(owned(r))));
    }
    fields.push(field("payload", object(payload)));
    let m = message("cloud.ack", fields);
    assert(message_view(m).1 =~= ack_view(
        command_id@,
        ok,
        match reason {
            Some(r) => Some(r@),
            None => None,
        },
        payload_view(p),
    ).1);
    m
}

/// A media command from the cloud: sent to the media worker, and, when the
/// command has an id, acknowledged by the worker's result (`ok` true, or
/// false with `media_dispatch_failed`).
pub open spec fn remote_media_view(media_type: Seq<char>, command_id: Option<Seq<char>>, command_type: Seq<char>) -> Seq<CommandView> {
    match command_id {
        None => seq![CommandView::Worker(WorkerDomain::Media, (media_type, Seq::empty()))],
        Some(id) => seq![
            CommandView::WithAck(
                WorkerDomain::Media,
                (media_type, Seq::empty()),
                ack_view(id, true, None, seq![("command"@, ValueView::Text(command_type))]),
                ack_view(
                    id,
                    false,
                    Some("media_dispatch_failed"@),
                    seq![("command"@, ValueView::Text(command_type)), ("media_command"@, ValueView::Text(media_type))],
                ),
            ),
        ],
    }
}

pub fn remote_media_control(media_type: &str, command_id: Option<String>, command_type: &str) -> (r: Vec<RuntimeCommand>)
    ensures
        full_views(r@) == remote_media_view(media_type@, text_view(command_id), command_type@),
{
    proof {
        assert(payload_view(Seq::<(String, PayloadValue)>::empty()) =~= Seq::empty());
    }
    let media_command = message(media_type, Vec::new());
    let r = match command_id {
        None => vec![RuntimeCommand::WorkerCommand { domain: WorkerDomain::Media, command: media_command }],
        Some(id) => {
            let success = vec![field("command", PayloadValue::Text(owned(command_type)))];
            assert(payload_view(success@) =~= seq![("command"@, ValueView::Text(command_type@))]);
            let failure = vec![
                field("command", PayloadValue::Text(owned(command_type))),
                field("media_command", PayloadValue::Text(owned(media_type))),
            ];
            assert(payload_view(failure@) =~= seq![
                ("command"@, ValueView::Text(command_type@)),
                ("media_command"@, ValueView::Text(media_type@)),
            ]);
            vec![RuntimeCommand::WorkerCommandWithAck {
                domain: WorkerDomain::Media,
                command: media_command,
                success_ack: ack(id.as_str(), true, None, success),
                failure_ack: ack(id.as_str(), false, Some("media_dispatch_failed"), failure),
            }]
        },
    };
    assert(full_views(r@) =~= remote_media_view(media_type@, text_view(command_id), command_type@));
    r
}

/// The type of a remote command (`command`, else `type`; empty when
/// neither is given).
pub open spec fn cloud_command_type(command: serde_json::Value) -> Seq<char> {
    match either(text_field(command, "command"@), text_field(command, "type"@)) {
        Some(t) => t,
        None => Seq::empty(),
    }
}

/// The id of a remote command (`commandId`, else `command_id`).
pub open spec fn cloud_command_id(command: serde_json::Value) -> Option<Seq<char>> {
    either(text_field(command, "commandId"@), text_field(command, "command_id"@))
}

/// The refusal of a command the runtime does not carry out, when the
/// command has an id to answer.
pub open spec fn refusal_view(command_id: Option<Seq<char>>, payload: Seq<(Seq<char>, ValueView)>) -> Seq<CommandView> {
    match command_id {
        Some(id) => seq![
            CommandView::Worker(WorkerDomain::Cloud, ack_view(id, false, Some("unsupported_command"@), payload)),
        ],
        None => Seq::empty(),
    }
}

/// What a remote command becomes: pause, resume and stop go to the media
/// worker; a configuration fetch needs nothing here; track playback and
/// media storage are refused as unsupported by this runtime; any other
/// named command is refused as unsupported; a command without a type is
/// dropped. The type is matched trimmed and in lowercase.
pub open spec fn cloud_command_view(command: serde_json::Value) -> Seq<CommandView> {
    let command_type = cloud_command_type(command);
    let command_id = cloud_command_id(command);
    let name = to_ascii_lower(trim(command_type));
    if name == "pause"@ {
        remote_media_view("media.pause"@, command_id, "pause"@)
    } else if name == "resume"@ {
        remote_media_view("media.resume"@, command_id, "resume"@)
    } else if name == "stop"@ {
        remote_media_view("media.stop_playback"@, command_id, "stop"@)
    } else if name == "fetch_config"@ {
        Seq::empty()
    } else if name == "play_track"@ || name == "store_media"@ {
        refusal_view(
            command_id,
            seq![("command"@, ValueView::Text(command_type)), ("rust_runtime"@, ValueView::Flag(true))],
        )
    } else if trim(command_type).len() > 0 {
        refusal_view(command_id, seq![("command"@, ValueView::Text(command_type))])
    } else {
        Seq::empty()
    }
}

fn refusal(command_id: Option<String>, payload: Vec<(String, PayloadValue)>) -> (r: Vec<RuntimeCommand>)
    ensures
        full_views(r@) == refusal_view(text_view(command_id), payload_view(payload@)),
{
    match command_id {
        Some(id) => {
            let r = vec![RuntimeCommand::WorkerCommand {
                domain: WorkerDomain::Cloud,
                command: ack(id.as_str(), false, Some("unsupported_command"), payload),
            }];
            assert(full_views(r@) =~= refusal_view(text_view(Some(id)), payload_view(payload@)));
            r
        },
        None => {
            let r: Vec<RuntimeCommand> = Vec::new();
            assert(full_views(r@) =~= Seq::<CommandView>::empty());
            r
        },
    }
}

/// The commands for a remote command from the cloud.
pub fn commands_for_cloud_command(command: &serde_json::Value) -> (r: Vec<RuntimeCommand>)
    ensures
        full_views(r@) == cloud_command_view(*command),
{
    let command_type = match either_text(string_field(command, "command"), string_field(command, "type")) {
        Some(t) => t,
        None => String::new(),
    };
    let command_id = either_text(string_field(command, "commandId"), string_field(command, "command_id"));
    let trimmed_type = trimmed(command_type.as_str());
    let name = string_of(&lower_chars(&trimmed_type));
    if str_eq(name.as_str(), "pause") {
        remote_media_control("media.pause", command_id, "pause")
    } else if str_eq(name.as_str(), "resume") {
        remote_media_control("media.resume", command_id, "resume")
    } else if str_eq(name.as_str(), "stop") {
        remote_media_control("media.stop_playback", command_id, "stop")
    } else if str_eq(name.as_str(), "fetch_config") {
        let r: Vec<RuntimeCommand> = Vec::new();
        assert(full_views(r@) =~= Seq::<CommandView>::empty());
        r
    } else if str_eq(name.as_str(), "play_track") || str_eq(name.as_str(), "store_media") {
        let payload = vec![
            field("command", PayloadValue::Text(command_type.clone())),
            field("rust_runtime", PayloadValue::Flag(true)),
        ];
        assert(payload_view(payload@) =~= seq![
            ("command"@, ValueView::Text(command_type@)),
            ("rust_runtime"@, ValueView::Flag(true)),
        ]);
        refusal(command_id, payload)
    } else if trimmed_type.len() > 0 {
        let payload = vec![field("command", PayloadValue::Text(command_type.clone()))];
        assert(payload_view(payload@) =~= seq![("command"@, ValueView::Text(command_type@))]);
        refusal(command_id, payload)
    } else {
        let r: Vec<RuntimeCommand> = Vec::new();
        assert(full_views(r@) =~= Seq::<CommandView>::empty());
        r
    }
}

/// A file to play on the voice channel, when the payload names its audio.
pub open spec fn play_audio_view(payload: serde_json::Value, message_type: Seq<char>) -> Seq<CommandView> {
    match text_field(payload, "audio_path"@) {
        Some(path) => seq![
            CommandView::Worker(WorkerDomain::Voip, (message_type, seq![("file_path"@, ValueView::Text(path))])),
        ],
        None => Seq::empty(),
    }
}

fn play_audio(payload: &serde_json::Value, message_type: &str) -> (r: Vec<RuntimeCommand>)
    ensures
        full_views(r@) == play_audio_view(*payload, message_type@),
{
    match string_field(payload, "audio_path") {
        Some(path) => {
            let fields = vec![field("file_path", PayloadValue::Text(path))];
            assert(payload_view(fields@) =~= seq![("file_path"@, ValueView::Text(fields@[0].1->Text_0@))]);
            let r = vec![worker(WorkerDomain::Voip, message_type, fields)];
            assert(full_views(r@) =~= play_audio_view(*payload, message_type@));
            r
        },
        None => {
            let r: Vec<RuntimeCommand> = Vec::new();
            assert(full_views(r@) =~= Seq::<CommandView>::empty());
            r
        },
    }
}

/// A spoken answer is ready: its audio is played as a voice note.
pub fn commands_for_voice_speak_result(payload: &serde_json::Value) -> (r: Vec<RuntimeCommand>)
    ensures
        full_views(r@) == play_audio_view(*payload, "voip.play_voice_note"@),
{
    play_audio(payload, "voip.play_voice_note")
}

/// The spoken label of a focused item is ready: played on the focus prompt
/// channel, and logged, but only when it answers the request still
/// pending (a prompt overtaken by a newer focus is dropped).
pub fn commands_for_voice_focus_prompt_result(
    pending_request_id: Option<&str>,
    request_id: Option<&str>,
    payload: &serde_json::Value,
) -> (r: Vec<RuntimeCommand>)
    ensures
        ({
            let answers = match (pending_request_id, request_id) {
                (Some(p), Some(q)) => p@ == q@,
                _ => false,
            };
            full_views(r@) == if answers && text_field(*payload, "audio_path"@) is Some {
                play_audio_view(*payload, "voip.play_focus_prompt"@).push(
                    CommandView::Log("UI focus prompt audio ready"@),
                )
            } else {
                Seq::empty()
            }
        }),
{
    let answers = match (pending_request_id, request_id) {
        (Some(p), Some(q)) => str_eq(p, q),
        _ => false,
    };
    let mut r: Vec<RuntimeCommand> = Vec::new();
    assert(full_views(r@) =~= Seq::<CommandView>::empty());
    if !answers {
        return r;
    }
    r = play_audio(payload, "voip.play_focus_prompt");
    if r.len() > 0 {
        let ghost before = full_views(r@);
        r.push(RuntimeCommand::AppendAppLog { line: owned("UI focus prompt audio ready") });
        assert(full_views(r@) =~= before.push(CommandView::Log("UI focus prompt audio ready"@)));
    }
    r
}

/// The commands, then a line logging the Ask pipeline's stage.
pub fn with_ask_log(commands: Vec<RuntimeCommand>, stage: &str) -> (r: Vec<RuntimeCommand>)
    ensures
        full_views(r@) == full_views(commands@).push(CommandView::Log("Ask pipeline stage="@ + stage@)),
{
    let mut commands = commands;
    let ghost before = full_views(commands@);
    let mut line: Vec<char> = Vec::new();
    push_str(&mut line, "Ask pipeline stage=");
    push_str(&mut line, stage);
    commands.push(RuntimeCommand::AppendAppLog { line: string_of(&line) });
    assert(full_views(commands@) =~= before.push(CommandView::Log("Ask pipeline stage="@ + stage@)));
    commands
}

/// How the UI host read a screenshot back.
#[derive(Debug, Clone, Copy, PartialEq, Eq, Structural)]
pub enum ScreenshotMethod {
    LvglReadback,
    ShadowBuffer,
}

impl ScreenshotMethod {
    pub open spec fn label_spec(self) -> Seq<char> {
        match self {
            ScreenshotMethod::LvglReadback => "LVGL readback"@,
            ScreenshotMethod::ShadowBuffer => "shadow buffer"@,
        }
    }

    pub fn label(&self) -> (r: &'static str)
        ensures
            r@ == self.label_spec(),
    {
        match self {
            ScreenshotMethod::LvglReadback => "LVGL readback",
            ScreenshotMethod::ShadowBuffer => "shadow buffer",
        }
    }
}

/// The UI host's report of a screenshot capture.
#[derive(Debug, Clone)]
pub struct ScreenshotCaptured {
    pub path: String,
    pub ok: bool,
    pub detail: String,
    pub method: Option<ScreenshotMethod>,
}

/// The app log line for a screenshot capture: its failure with the detail
/// given (`unknown error` when none), or where it was saved and how.
pub open spec fn screenshot_line(c: ScreenshotCaptured) -> Seq<char> {
    if !c.ok {
        "Screenshot capture failed: "@ + if c.detail@.len() == 0 {
            "unknown error"@
        } else {
            c.detail@
        }
    } else {
        match c.method {
            Some(m) => "Saved screenshot via "@ + m.label_spec() + " -> "@ + c.path@,
            None => "Saved screenshot -> "@ + c.path@,
        }
    }
}

pub fn screenshot_log_line(captured: &ScreenshotCaptured) -> (r: String)
    ensures
        r@ == screenshot_line(*captured),
{
    let mut line: Vec<char> = Vec::new();
    if !captured.ok {
        push_str(&mut line, "Screenshot capture failed: ");
        if captured.detail.unicode_len() == 0 {
            push_str(&mut line, "unknown error");
        } else {
            push_str(&mut line, captured.detail.as_str());
        }
    } else {
        match captured.method {
            Some(m) => {
                push_str(&mut line, "Saved screenshot via ");
                push_str(&mut line, m.label());
                push_str(&mut line, " -> ");
            },
            None => push_str(&mut line, "Saved screenshot -> "),
        }
        push_str(&mut line, captured.path.as_str());
    }
    string_of(&line)
}

/// What a worker's error says: its `message`, else `error`, else `code`,
/// else the message type.
pub open spec fn worker_error_text(message_type: Seq<char>, payload: serde_json::Value) -> Seq<char> {
    match either(text_field(payload, "message"@), either(text_field(payload, "error"@), text_field(payload, "code"@))) {
        Some(t) => t,
        None => message_type,
    }
}

pub fn worker_error_message(message_type: &str, payload: &serde_json::Value) -> (r: String)
    ensures
        r@ == worker_error_text(message_type@, *payload),
{
    match either_text(
        string_field(payload, "message"),
        either_text(string_field(payload, "error"), string_field(payload, "code")),
    ) {
        Some(t) => t,
        None => owned(message_type),
    }
}

/// Why a worker exited: its `reason`, else `message`, else `exited`.
pub open spec fn worker_exit_text(payload: serde_json::Value) -> Seq<char> {
    match either(text_field(payload, "reason"@), text_field(payload, "message"@)) {
        Some(t) => t,
        None => "exited"@,
    }
}

pub fn worker_exit_reason(payload: &serde_json::Value) -> (r: String)
    ensures
        r@ == worker_exit_text(*payload),
{
    match either_text(string_field(payload, "reason"), string_field(payload, "message")) {
        Some(t) => t,
        None => owned("exited"),
    }
}

/// Whether a voice note in a VoIP snapshot is recorded and waiting.
pub open spec fn note_recorded(voice_note: serde_json::Value) -> bool {
    let state = match text_field(voice_note, "state"@) {
        Some(s) => s,
        None => Seq::empty(),
    };
    let name = to_ascii_lower(trim(state));
    name == "recorded"@ || name == "review"@
}

/// The recorded length, in ms: the snapshot's `duration_ms` when it is an
/// integer from 0 to `i32::MAX`, else 0.
pub open spec fn note_duration(voice_note: serde_json::Value) -> int {
    match int_of(json_member(voice_note, "duration_ms"@)) {
        Some(n) => if 0 <= n <= 2147483647 { n as int } else { 0 },
        None => 0,
    }
}

/// The command that sends a recorded note to the address given, when the
/// VoIP snapshot reports a recorded note with its file. The MIME type
/// defaults to `audio/wav`.
pub open spec fn send_note_view(uri: Seq<char>, snapshot: serde_json::Value, client_id: Seq<char>) -> Option<CommandView> {
    match json_member(snapshot, "voice_note"@) {
        None => None,
        Some(note) => if !note_recorded(note) {
            None
        } else {
            match text_field(note, "file_path"@) {
                None => None,
                Some(path) => Some(
                    CommandView::Worker(
                        WorkerDomain::Voip,
                        (
                            "voip.send_voice_note"@,
                            seq![
                                ("uri"@, ValueView::Text(uri)),
                                ("file_path"@, ValueView::Text(path)),
                                ("duration_ms"@, ValueView::Int(note_duration(note))),
                                ("mime_type"@, ValueView::Text(match text_field(note, "mime_type"@) {
                                    Some(m) => m,
                                    None => "audio/wav"@,
                                })),
                                ("client_id"@, ValueView::Text(client_id)),
                            ],
                        ),
                    ),
                ),
            }
        },
    }
}

/// The command that sends a note recorded to be sent at once: only when
/// sending after capture is on and the recipient has an address (or id).
pub open spec fn auto_send_view(
    auto_send: bool,
    recipient: Option<VoiceRecipientAction>,
    snapshot: serde_json::Value,
    client_id: Seq<char>,
) -> Option<CommandView> {
    if !auto_send {
        None
    } else {
        match recipient {
            None => None,
            Some(a) => match or_else(non_empty(a.recipient_address@), non_empty(a.id@)) {
                None => None,
                Some(uri) => send_note_view(uri, snapshot, client_id),
            },
        }
    }
}

pub fn auto_send_voice_note_command(
    auto_send: bool,
    recipient: Option<&VoiceRecipientAction>,
    snapshot: &serde_json::Value,
    client_id: &str,
) -> (r: Option<RuntimeCommand>)
    ensures
        match r {
            Some(c) => auto_send_view(
                auto_send,
                match recipient {
                    Some(a) => Some(*a),
                    None => None,
                },
                *snapshot,
                client_id@,
            ) == Some(full_view(c)),
            None => auto_send_view(
                auto_send,
                match recipient {
                    Some(a) => Some(*a),
                    None => None,
                },
                *snapshot,
                client_id@,
            ) is None,
        },
{
    if !auto_send {
        return None;
    }
    let a = match recipient {
        Some(a) => a,
        None => return None,
    };
    let uri = match non_empty_string(a.recipient_address.as_str()) {
        Some(u) => u,
        None => match non_empty_string(a.id.as_str()) {
            Some(u) => u,
            None => return None,
        },
    };
    assert(or_else(non_empty(a.recipient_address@), non_empty(a.id@)) == Some(uri@));
    let note = match member(snapshot, "voice_note") {
        Some(n) => n,
        None => return None,
    };
    let state = match string_field(&note, "state") {
        Some(s) => s,
        None => String::new(),
    };
    let name = string_of(&lower_chars(&trimmed(state.as_str())));
    if !(str_eq(name.as_str(), "recorded") || str_eq(name.as_str(), "review")) {
        return None;
    }
    assert(note_recorded(note));
    let path = match string_field(&note, "file_path") {
        Some(p) => p,
        None => return None,
    };
    let duration: i64 = match as_int_member(&note, "duration_ms") {
        Some(n) => if 0 <= n && n <= 2147483647 { n } else { 0 },
        None => 0,
    };
    let mime = match string_field(&note, "mime_type") {
        Some(m) => m,
        None => owned("audio/wav"),
    };
    let ghost (uv, pv, mv) = (uri@, path@, mime@);
    assert(mv == match text_field(note, "mime_type"@) {
        Some(m) => m,
        None => "audio/wav"@,
    });
    let fields = vec![
        field("uri", PayloadValue::Text(uri)),
        field("file_path", PayloadValue::Text(path)),
        field("duration_ms", PayloadValue::Int(duration)),
        field("mime_type", PayloadValue::Text(mime)),
        field("client_id", PayloadValue::Text(owned(client_id))),
    ];
    let ghost f = fields@;
    assert(payload_view(f) =~= seq![
        ("uri"@, ValueView::Text(uv)),
        ("file_path"@, ValueView::Text(pv)),
        ("duration_ms"@, ValueView::Int(duration as int)),
        ("mime_type"@, ValueView::Text(mv)),
        ("client_id"@, ValueView::Text(client_id@)),
    ]);
    let c = worker(WorkerDomain::Voip, "voip.send_voice_note", fields);
    assert(duration == note_duration(note));
    let ghost expected = CommandView::Worker(
        WorkerDomain::Voip,
        (
            "voip.send_voice_note"@,
            seq![
                ("uri"@, ValueView::Text(uv)),
                ("file_path"@, ValueView::Text(pv)),
                ("duration_ms"@, ValueView::Int(note_duration(note))),
                ("mime_type"@, ValueView::Text(mv)),
                ("client_id"@, ValueView::Text(client_id@)),
            ],
        ),
    );
    let ghost got = send_note_view(uv, *snapshot, client_id@)->0;
    assert(got->Worker_1.1.len() == 5);
    assert(got->Worker_1.1[0] == ("uri"@, ValueView::Text(uv)));
    assert(got->Worker_1.1[1] == ("file_path"@, ValueView::Text(pv)));
    assert(got->Worker_1.1[2] == ("duration_ms"@, ValueView::Int(note_duration(note))));
    assert(got->Worker_1.1[3] == ("mime_type"@, ValueView::Text(mv)));
    assert(got->Worker_1.1[4] == ("client_id"@, ValueView::Text(client_id@)));
    assert(got->Worker_1.1 =~= expected->Worker_1.1);
    assert(got == expected);
    assert(auto_send_view(auto_send, Some(*a), *snapshot, client_id@) == Some(full_view(c)));
    Some(c)
}

fn as_int_member(value: &serde_json::Value, key: &str) -> (r: Option<i64>)
    ensures
        r == int_of(json_member(*value, key@)),
{
    int_in(member(value, key))
}

} // verus!
