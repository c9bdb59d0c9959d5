//! What the runtime asks its workers to do when the user acts: music
//! transport, calls, and voice notes and Ask.
use vstd::prelude::*;
use crate::text::{lower_chars, owned, str_eq, string_of, to_ascii_lower, trim, trimmed};

verus! {

/// The workers the runtime drives.
#[derive(Debug, Clone, Copy, PartialEq, Eq, Structural)]
pub enum WorkerDomain {
    Ui,
    Media,
    Voip,
    Voice,
    Cloud,
    Network,
    Power,
}

/// A value in a command's payload: text, a number, a flag, an object of
/// named values, or a JSON value passed on as it came.
#[derive(Debug, PartialEq, Eq)]
pub enum PayloadValue {
    Text(String),
    Int(i64),
    Count(u64),
    Flag(bool),
    Object(Vec<(String, PayloadValue)>),
    Json(serde_json::Value),
}

/// A message to a worker: its type and payload fields.
#[derive(Debug)]
pub struct WorkerMessage {
    pub message_type: String,
    pub payload: Vec<(String, PayloadValue)>,
}

/// What the runtime does next.
#[derive(Debug)]
pub enum RuntimeCommand {
    /// Send a command to a worker.
    WorkerCommand { domain: WorkerDomain, command: WorkerMessage },
    /// Send a command and answer the cloud with one of two acknowledgements,
    /// by the worker's result.
    WorkerCommandWithAck {
        domain: WorkerDomain,
        command: WorkerMessage,
        success_ack: WorkerMessage,
        failure_ack: WorkerMessage,
    },
    AppendAppLog { line: String },
    Shutdown,
}

/// A payload value as the contracts see it.
pub ghost enum ValueView {
    Text(Seq<char>),
    Int(int),
    Flag(bool),
    Object(Seq<(Seq<char>, ValueView)>),
    Json(serde_json::Value),
}

pub open spec fn value_view(v: PayloadValue) -> ValueView
    decreases v, 0nat,
{
    match v {
        PayloadValue::Text(t) => ValueView::Text(t@),
        PayloadValue::Int(i) => ValueView::Int(i as int),
        PayloadValue::Count(n) => ValueView::Int(n as int),
        PayloadValue::Flag(b) => ValueView::Flag(b),
        PayloadValue::Object(fields) => ValueView::Object(fields_view(fields@)),
        PayloadValue::Json(j) => ValueView::Json(j),
    }
}

/// The named values of an object, each by its view.
pub open spec fn fields_view(fields: Seq<(String, PayloadValue)>) -> Seq<(Seq<char>, ValueView)>
    decreases fields, fields.len(),
{
    if fields.len() == 0 {
        Seq::empty()
    } else {
        let last = fields[fields.len() - 1];
        fields_view(fields.subrange(0, fields.len() - 1)).push((last.0@, value_view(last.1)))
    }
}

/// An object's fields are viewed one by one.
pub proof fn lemma_fields_view(fields: Seq<(String, PayloadValue)>)
    ensures
        fields_view(fields) == fields.map_values(|f: (String, PayloadValue)| (f.0@, value_view(f.1))),
    decreases fields.len(),
{
    if fields.len() > 0 {
        lemma_fields_view(fields.subrange(0, fields.len() - 1));
    }
    assert(fields_view(fields) =~= fields.map_values(|f: (String, PayloadValue)| (f.0@, value_view(f.1))));
}

pub type CallView = (WorkerDomain, Seq<char>, Seq<(Seq<char>, ValueView)>);

/// A command as the contracts see it: a worker command's domain, type and
/// payload. (Other commands are not made here.)
pub open spec fn command_view(c: RuntimeCommand) -> CallView {
    match c {
        RuntimeCommand::WorkerCommand { domain, command } => (
            domain,
            command.message_type@,
            command.payload@.map_values(|f: (String, PayloadValue)| (f.0@, value_view(f.1))),
        ),
        _ => (WorkerDomain::Ui, Seq::empty(), Seq::empty()),
    }
}

pub open spec fn is_worker_command(c: RuntimeCommand) -> bool {
    c is WorkerCommand
}

pub open spec fn commands_view(cs: Seq<RuntimeCommand>) -> Seq<CallView> {
    cs.map_values(|c: RuntimeCommand| command_view(c))
}

pub open spec fn all_worker_commands(cs: Seq<RuntimeCommand>) -> bool {
    forall|i: int| 0 <= i < cs.len() ==> is_worker_command(#[trigger] cs[i])
}

fn command(domain: WorkerDomain, message_type: &str, payload: Vec<(String, PayloadValue)>) -> (c: RuntimeCommand)
    ensures
        is_worker_command(c),
        command_view(c) == (
            domain,
            message_type@,
            payload@.map_values(|f: (String, PayloadValue)| (f.0@, value_view(f.1))),
        ),
{
    RuntimeCommand::WorkerCommand {
        domain,
        command: WorkerMessage { message_type: owned(message_type), payload },
    }
}

fn text_field(key: &str, value: String) -> (f: (String, PayloadValue))
    ensures
        f.0@ == key@,
        value_view(f.1) == ValueView::Text(value@),
{
    (owned(key), PayloadValue::Text(value))
}

/// A command with no payload.
fn bare(domain: WorkerDomain, message_type: &str) -> (c: RuntimeCommand)
    ensures
        is_worker_command(c),
        command_view(c) == (domain, message_type@, Seq::<(Seq<char>, ValueView)>::empty()),
{
    let payload: Vec<(String, PayloadValue)> = Vec::new();
    assert(payload@.map_values(|f: (String, PayloadValue)| (f.0@, value_view(f.1))) =~= Seq::<
        (Seq<char>, ValueView),
    >::empty());
    command(domain, message_type, payload)
}

fn one_field(domain: WorkerDomain, message_type: &str, key: &str, value: PayloadValue) -> (c: RuntimeCommand)
    ensures
        is_worker_command(c),
        command_view(c) == (domain, message_type@, seq![(key@, value_view(value))]),
{
    let payload = vec![(owned(key), value)];
    assert(payload@.map_values(|f: (String, PayloadValue)| (f.0@, value_view(f.1))) =~= seq![
        (key@, value_view(value)),
    ]);
    command(domain, message_type, payload)
}

fn single(c: RuntimeCommand) -> (v: Vec<RuntimeCommand>)
    ensures
        commands_view(v@) == seq![command_view(c)],
        v@.len() == 1,
        v@[0] == c,
{
    let v = vec![c];
    assert(commands_view(v@) =~= seq![command_view(c)]);
    v
}

fn none() -> (v: Vec<RuntimeCommand>)
    ensures
        commands_view(v@) == Seq::<CallView>::empty(),
        v@.len() == 0,
{
    let v: Vec<RuntimeCommand> = Vec::new();
    assert(commands_view(v@) =~= Seq::<CallView>::empty());
    v
}

/// The text trimmed, when anything is left.
pub open spec fn non_empty(s: Seq<char>) -> Option<Seq<char>> {
    if trim(s).len() == 0 {
        None
    } else {
        Some(trim(s))
    }
}

pub open spec fn or_else(a: Option<Seq<char>>, b: Option<Seq<char>>) -> Option<Seq<char>> {
    match a {
        Some(x) => Some(x),
        None => b,
    }
}

pub fn non_empty_string(value: &str) -> (r: Option<String>)
    ensures
        match r {
            Some(s) => non_empty(value@) == Some(s@),
            None => non_empty(value@) is None,
        },
{
    let t = trimmed(value);
    if t.len() == 0 {
        None
    } else {
        Some(string_of(&t))
    }
}

fn first_non_empty(a: &str, b: &str) -> (r: Option<String>)
    ensures
        match r {
            Some(s) => or_else(non_empty(a@), non_empty(b@)) == Some(s@),
            None => or_else(non_empty(a@), non_empty(b@)) is None,
        },
{
    match non_empty_string(a) {
        Some(s) => Some(s),
        None => non_empty_string(b),
    }
}

// ---------------------------------------------------------------------------
// Music
// ---------------------------------------------------------------------------

/// A list item the user picked.
#[derive(Debug, Clone)]
pub struct ListItemAction {
    pub id: String,
    pub path: String,
    pub track_uri: String,
}

/// A track picked inside a playlist.
#[derive(Debug, Clone)]
pub struct PlaylistTrackAction {
    pub playlist_path: String,
    pub track_uri: String,
    pub track_index: i64,
}

#[derive(Debug, Clone)]
pub enum MusicIntent {
    PlayPause,
    NextTrack,
    PreviousTrack,
    ShuffleAll,
    LoadPlaylist(ListItemAction),
    PlayPlaylistTrack(PlaylistTrackAction),
    PlayRecentTrack(ListItemAction),
}

pub open spec fn media(message_type: Seq<char>, payload: Seq<(Seq<char>, ValueView)>) -> CallView {
    (WorkerDomain::Media, message_type, payload)
}

/// The media commands of a music action: play/pause toggles by the playback
/// state (trimmed, any case); a playlist loads by its id, else its path; a
/// playlist track plays when the playlist has a path; a recent track plays
/// by its id, else its URI.
pub open spec fn music_commands(playback_state: Seq<char>, intent: MusicIntent) -> Seq<CallView> {
    match intent {
        MusicIntent::PlayPause => {
            let state = to_ascii_lower(trim(playback_state));
            seq![
                media(
                    if state == "playing"@ {
                        "media.pause"@
                    } else if state == "paused"@ {
                        "media.resume"@
                    } else {
                        "media.play"@
                    },
                    Seq::empty(),
                ),
            ]
        },
        MusicIntent::NextTrack => seq![media("media.next_track"@, Seq::empty())],
        MusicIntent::PreviousTrack => seq![media("media.previous_track"@, Seq::empty())],
        MusicIntent::ShuffleAll => seq![media("media.shuffle_all"@, Seq::empty())],
        MusicIntent::LoadPlaylist(a) => match or_else(non_empty(a.id@), non_empty(a.path@)) {
            Some(path) => seq![media("media.load_playlist"@, seq![("path"@, ValueView::Text(path))])],
            None => Seq::empty(),
        },
        MusicIntent::PlayPlaylistTrack(a) => if trim(a.playlist_path@).len() == 0 {
            Seq::empty()
        } else {
            seq![
                media(
                    "media.play_playlist_track"@,
                    seq![
                        ("path"@, ValueView::Text(a.playlist_path@)),
                        ("track_uri"@, ValueView::Text(a.track_uri@)),
                        ("track_index"@, ValueView::Int(a.track_index as int)),
                    ],
                ),
            ]
        },
        MusicIntent::PlayRecentTrack(a) => match or_else(non_empty(a.id@), non_empty(a.track_uri@)) {
            Some(uri) => seq![media("media.play_recent_track"@, seq![("track_uri"@, ValueView::Text(uri))])],
            None => Seq::empty(),
        },
    }
}

/// Play/pause sends the media worker exactly one command without a
/// payload: pause when the playback state reads `playing`, resume when it
/// reads `paused` (ignoring surrounding whitespace and ASCII case), and play
/// for any other state.
pub proof fn play_pause_follows_the_playback_state(playback_state: Seq<char>)
    ensures
        ({
            let cmds = music_commands(playback_state, MusicIntent::PlayPause);
            let state = to_ascii_lower(trim(playback_state));
            &&& cmds.len() == 1
            &&& cmds[0].0 == WorkerDomain::Media
            &&& cmds[0].2.len() == 0
            &&& (cmds[0].1 == "media.pause"@ <==> state == "playing"@)
            &&& (cmds[0].1 == "media.resume"@ <==> state == "paused"@)
            &&& (cmds[0].1 == "media.play"@ <==> (state != "playing"@ && state != "paused"@))
        }),
{
    reveal_strlit("media.pause");
    reveal_strlit("media.resume");
    reveal_strlit("media.play");
    reveal_strlit("playing");
    reveal_strlit("paused");
    assert("media.pause"@.len() == 11 && "media.resume"@.len() == 12 && "media.play"@.len() == 10);
    assert("playing"@.len() == 7 && "paused"@.len() == 6);
    let state = to_ascii_lower(trim(playback_state));
    let name = if state == "playing"@ {
        "media.pause"@
    } else if state == "paused"@ {
        "media.resume"@
    } else {
        "media.play"@
    };
    assert(music_commands(playback_state, MusicIntent::PlayPause) == seq![media(name, Seq::empty())]);
}

/// A playlist loads by its id when it has one, else by its path, each
/// trimmed; with neither nothing is sent. A recent track plays by its id,
/// else its URI, the same way. Next, previous and shuffle each send their
/// one command.
pub proof fn music_items_play_by_id_then_by_path(a: ListItemAction)
    ensures
        trim(a.id@).len() > 0 ==> music_commands(Seq::empty(), MusicIntent::LoadPlaylist(a)) == seq![
            (WorkerDomain::Media, "media.load_playlist"@, seq![("path"@, ValueView::Text(trim(a.id@)))]),
        ],
        trim(a.id@).len() == 0 && trim(a.path@).len() > 0 ==> music_commands(
            Seq::empty(),
            MusicIntent::LoadPlaylist(a),
        ) == seq![(WorkerDomain::Media, "media.load_playlist"@, seq![("path"@, ValueView::Text(trim(a.path@)))])],
        trim(a.id@).len() == 0 && trim(a.path@).len() == 0 ==> music_commands(
            Seq::empty(),
            MusicIntent::LoadPlaylist(a),
        ).len() == 0,
        trim(a.id@).len() > 0 ==> music_commands(Seq::empty(), MusicIntent::PlayRecentTrack(a)) == seq![
            (WorkerDomain::Media, "media.play_recent_track"@, seq![("track_uri"@, ValueView::Text(trim(a.id@)))]),
        ],
        trim(a.id@).len() == 0 && trim(a.track_uri@).len() > 0 ==> music_commands(
            Seq::empty(),
            MusicIntent::PlayRecentTrack(a),
        ) == seq![
            (WorkerDomain::Media, "media.play_recent_track"@, seq![("track_uri"@, ValueView::Text(trim(a.track_uri@)))]),
        ],
        music_commands(Seq::empty(), MusicIntent::NextTrack) == seq![
            (WorkerDomain::Media, "media.next_track"@, Seq::<(Seq<char>, ValueView)>::empty()),
        ],
        music_commands(Seq::empty(), MusicIntent::PreviousTrack) == seq![
            (WorkerDomain::Media, "media.previous_track"@, Seq::<(Seq<char>, ValueView)>::empty()),
        ],
        music_commands(Seq::empty(), MusicIntent::ShuffleAll) == seq![
            (WorkerDomain::Media, "media.shuffle_all"@, Seq::<(Seq<char>, ValueView)>::empty()),
        ],
{
}

pub fn commands_for_music_intent(playback_state: &str, intent: &MusicIntent) -> (r: Vec<RuntimeCommand>)
    ensures
        commands_view(r@) == music_commands(playback_state@, *intent),
        all_worker_commands(r@),
{
    match intent {
        MusicIntent::PlayPause => {
            let state = string_of(&lower_chars(&trimmed(playback_state)));
            let message_type = if str_eq(state.as_str(), "playing") {
                "media.pause"
            } else if str_eq(state.as_str(), "paused") {
                "media.resume"
            } else {
                "media.play"
            };
            single(bare(WorkerDomain::Media, message_type))
        },
        MusicIntent::NextTrack => single(bare(WorkerDomain::Media, "media.next_track")),
        MusicIntent::PreviousTrack => single(bare(WorkerDomain::Media, "media.previous_track")),
        MusicIntent::ShuffleAll => single(bare(WorkerDomain::Media, "media.shuffle_all")),
        MusicIntent::LoadPlaylist(a) => match first_non_empty(a.id.as_str(), a.path.as_str()) {
            Some(path) => single(one_field(WorkerDomain::Media, "media.load_playlist", "path", PayloadValue::Text(path))),
            None => none(),
        },
        MusicIntent::PlayPlaylistTrack(a) => {
            if trimmed(a.playlist_path.as_str()).len() == 0 {
                return none();
            }
            let payload = vec![
                text_field("path", a.playlist_path.clone()),
                text_field("track_uri", a.track_uri.clone()),
                (owned("track_index"), PayloadValue::Int(a.track_index)),
            ];
            assert(payload@.map_values(|f: (String, PayloadValue)| (f.0@, value_view(f.1))) =~= seq![
                ("path"@, ValueView::Text(a.playlist_path@)),
                ("track_uri"@, ValueView::Text(a.track_uri@)),
                ("track_index"@, ValueView::Int(a.track_index as int)),
            ]);
            single(command(WorkerDomain::Media, "media.play_playlist_track", payload))
        },
        MusicIntent::PlayRecentTrack(a) => match first_non_empty(a.id.as_str(), a.track_uri.as_str()) {
            Some(uri) => single(
                one_field(WorkerDomain::Media, "media.play_recent_track", "track_uri", PayloadValue::Text(uri)),
            ),
            None => none(),
        },
    }
}

// ---------------------------------------------------------------------------
// Calls
// ---------------------------------------------------------------------------

/// A contact the user picked.
#[derive(Debug, Clone)]
pub struct ContactAction {
    pub id: String,
    pub sip_address: String,
    pub uri: String,
}

#[derive(Debug, Clone)]
pub enum CallIntent {
    Answer,
    Hangup,
    Reject,
    ToggleMute,
    Start(ContactAction),
}

pub open spec fn voip(message_type: Seq<char>, payload: Seq<(Seq<char>, ValueView)>) -> CallView {
    (WorkerDomain::Voip, message_type, payload)
}

/// A contact's address: its id, else its SIP address, else its URI.
pub open spec fn contact_uri(a: ContactAction) -> Option<Seq<char>> {
    or_else(non_empty(a.id@), or_else(non_empty(a.sip_address@), non_empty(a.uri@)))
}

fn contact_uri_exec(a: &ContactAction) -> (r: Option<String>)
    ensures
        match r {
            Some(s) => contact_uri(*a) == Some(s@),
            None => contact_uri(*a) is None,
        },
{
    match non_empty_string(a.id.as_str()) {
        Some(s) => Some(s),
        None => first_non_empty(a.sip_address.as_str(), a.uri.as_str()),
    }
}

pub open spec fn call_commands(muted: bool, intent: CallIntent) -> Seq<CallView> {
    match intent {
        CallIntent::Answer => seq![voip("voip.answer"@, Seq::empty())],
        CallIntent::Hangup => seq![voip("voip.hangup"@, Seq::empty())],
        CallIntent::Reject => seq![voip("voip.reject"@, Seq::empty())],
        CallIntent::ToggleMute => seq![voip("voip.set_mute"@, seq![("muted"@, ValueView::Flag(!muted))])],
        CallIntent::Start(c) => match contact_uri(c) {
            Some(uri) => seq![voip("voip.dial"@, seq![("uri"@, ValueView::Text(uri))])],
            None => Seq::empty(),
        },
    }
}

pub fn commands_for_call_intent(muted: bool, intent: &CallIntent) -> (r: Vec<RuntimeCommand>)
    ensures
        commands_view(r@) == call_commands(muted, *intent),
        all_worker_commands(r@),
{
    match intent {
        CallIntent::Answer => single(bare(WorkerDomain::Voip, "voip.answer")),
        CallIntent::Hangup => single(bare(WorkerDomain::Voip, "voip.hangup")),
        CallIntent::Reject => single(bare(WorkerDomain::Voip, "voip.reject")),
        CallIntent::ToggleMute => single(one_field(WorkerDomain::Voip, "voip.set_mute", "muted", PayloadValue::Flag(!muted))),
        CallIntent::Start(c) => match contact_uri_exec(c) {
            Some(uri) => single(one_field(WorkerDomain::Voip, "voip.dial", "uri", PayloadValue::Text(uri))),
            None => none(),
        },
    }
}

// ---------------------------------------------------------------------------
// Power and settings
// ---------------------------------------------------------------------------

/// When an RTC alarm should fire, and on which days it repeats.
#[derive(Debug, Clone)]
pub struct RtcAlarmAction {
    pub when: String,
    pub repeat_mask: u32,
}

/// What the user asked of the power board.
#[derive(Debug, Clone)]
pub enum PowerIntent {
    Refresh,
    SyncTimeToRtc,
    SyncTimeFromRtc,
    SetRtcAlarm(RtcAlarmAction),
    DisableRtcAlarm,
}

pub open spec fn power(message_type: Seq<char>, payload: Seq<(Seq<char>, ValueView)>) -> CallView {
    (WorkerDomain::Power, message_type, payload)
}

pub open spec fn power_commands(intent: PowerIntent) -> Seq<CallView> {
    match intent {
        PowerIntent::Refresh => seq![power("power.refresh"@, Seq::empty())],
        PowerIntent::SyncTimeToRtc => seq![power("power.sync_time_to_rtc"@, Seq::empty())],
        PowerIntent::SyncTimeFromRtc => seq![power("power.sync_time_from_rtc"@, Seq::empty())],
        PowerIntent::SetRtcAlarm(a) => if trim(a.when@).len() == 0 {
            Seq::empty()
        } else {
            seq![
                power(
                    "power.set_rtc_alarm"@,
                    seq![("when"@, ValueView::Text(a.when@)), ("repeat_mask"@, ValueView::Int(a.repeat_mask as int))],
                ),
            ]
        },
        PowerIntent::DisableRtcAlarm => seq![power("power.disable_rtc_alarm"@, Seq::empty())],
    }
}

/// The commands for a power intent. An alarm without a time asks nothing.
pub fn commands_for_power_intent(intent: &PowerIntent) -> (r: Vec<RuntimeCommand>)
    ensures
        commands_view(r@) == power_commands(*intent),
        all_worker_commands(r@),
{
    match intent {
        PowerIntent::Refresh => single(bare(WorkerDomain::Power, "power.refresh")),
        PowerIntent::SyncTimeToRtc => single(bare(WorkerDomain::Power, "power.sync_time_to_rtc")),
        PowerIntent::SyncTimeFromRtc => single(bare(WorkerDomain::Power, "power.sync_time_from_rtc")),
        PowerIntent::SetRtcAlarm(a) => {
            if trimmed(a.when.as_str()).len() == 0 {
                none()
            } else {
                let payload = vec![
                    text_field("when", a.when.clone()),
                    (owned("repeat_mask"), PayloadValue::Int(a.repeat_mask as i64)),
                ];
                assert(payload@.map_values(|f: (String, PayloadValue)| (f.0@, value_view(f.1))) =~= seq![
                    ("when"@, ValueView::Text(a.when@)),
                    ("repeat_mask"@, ValueView::Int(a.repeat_mask as int)),
                ]);
                single(command(WorkerDomain::Power, "power.set_rtc_alarm", payload))
            }
        },
        PowerIntent::DisableRtcAlarm => single(bare(WorkerDomain::Power, "power.disable_rtc_alarm")),
    }
}

pub open spec fn clamp_int(v: int, lo: int, hi: int) -> int {
    if v < lo {
        lo
    } else if v > hi {
        hi
    } else {
        v
    }
}

/// The volume one press of the volume setting moves to: the current volume
/// as a level of ten (at least one), one level up, wrapping from the top
/// back to the first level.
pub open spec fn stepped_volume(volume: int) -> int {
    let level = clamp_int((clamp_int(volume, 0, 100) + 5) / 10, 1, 10);
    if level >= 10 {
        10
    } else {
        (level + 1) * 10
    }
}

/// The command for one press of the volume setting.
pub fn commands_for_volume_step(volume: i32) -> (r: Vec<RuntimeCommand>)
    ensures
        commands_view(r@) == seq![media("media.set_volume"@, seq![("volume"@, ValueView::Int(stepped_volume(volume as int)))])],
        all_worker_commands(r@),
{
    let clamped: i32 = if volume < 0 {
        0
    } else if volume > 100 {
        100
    } else {
        volume
    };
    let raw: i32 = (clamped + 5) / 10;
    let level: i32 = if raw < 1 {
        1
    } else if raw > 10 {
        10
    } else {
        raw
    };
    let next: i32 = if level >= 10 {
        1
    } else {
        level + 1
    };
    single(one_field(WorkerDomain::Media, "media.set_volume", "volume", PayloadValue::Int((next * 10) as i64)))
}

/// The volume after a change of `delta`, kept between 0 and 100.
pub fn adjusted_volume(volume: i32, delta: i32) -> (r: i32)
    requires
        i32::MIN <= volume + delta <= i32::MAX,
    ensures
        r == clamp_int(volume + delta, 0, 100),
{
    let v = volume + delta;
    if v < 0 {
        0
    } else if v > 100 {
        100
    } else {
        v
    }
}

/// What stops a spoken focus prompt: the prompt's work, its playback, and a
/// line in the app log.
pub fn cancel_focus_prompt_commands() -> (r: Vec<RuntimeCommand>)
    ensures
        r@.len() == 3,
        command_view(r@[0]) == (WorkerDomain::Voice, "voice.cancel_focus_prompt"@, Seq::<(Seq<char>, ValueView)>::empty()),
        command_view(r@[1]) == voip("voip.stop_focus_prompt_playback"@, Seq::empty()),
        is_worker_command(r@[0]) && is_worker_command(r@[1]),
        r@[2] matches RuntimeCommand::AppendAppLog { line } && line@ == "UI focus prompt cleared"@,
{
    vec![
        bare(WorkerDomain::Voice, "voice.cancel_focus_prompt"),
        bare(WorkerDomain::Voip, "voip.stop_focus_prompt_playback"),
        RuntimeCommand::AppendAppLog { line: owned("UI focus prompt cleared") },
    ]
}

/// What stops an Ask in progress: the voice work, the recording, and the
/// playback.
pub fn cancel_active_ask_commands() -> (r: Vec<RuntimeCommand>)
    ensures
        commands_view(r@) == seq![
            (WorkerDomain::Voice, "voice.cancel"@, Seq::<(Seq<char>, ValueView)>::empty()),
            voip("voip.cancel_voice_note_recording"@, Seq::empty()),
            voip("voip.stop_voice_note_playback"@, Seq::empty()),
        ],
        all_worker_commands(r@),
{
    let r = vec![
        bare(WorkerDomain::Voice, "voice.cancel"),
        bare(WorkerDomain::Voip, "voip.cancel_voice_note_recording"),
        bare(WorkerDomain::Voip, "voip.stop_voice_note_playback"),
    ];
    assert(commands_view(r@) =~= seq![
        (WorkerDomain::Voice, "voice.cancel"@, Seq::<(Seq<char>, ValueView)>::empty()),
        voip("voip.cancel_voice_note_recording"@, Seq::empty()),
        voip("voip.stop_voice_note_playback"@, Seq::empty()),
    ]);
    r
}

// ---------------------------------------------------------------------------
// Voice notes and Ask
// ---------------------------------------------------------------------------

/// Who a voice note goes to, and the recording to send.
#[derive(Debug, Clone)]
pub struct VoiceRecipientAction {
    pub id: String,
    pub recipient_address: String,
    pub file_path: String,
}

/// A stored voice note.
#[derive(Debug, Clone)]
pub struct VoiceFileAction {
    pub id: String,
    pub uri: String,
    pub sip_address: String,
    pub message_id: String,
    pub file_path: String,
    pub duration_ms: i32,
}

#[derive(Debug, Clone)]
pub enum VoiceIntent {
    AskStart,
    AskStop,
    AskCancel,
    CaptureStart(VoiceRecipientAction),
    CaptureStartAndSend(VoiceRecipientAction),
    CaptureStop,
    CaptureCancel,
    CaptureToggle(VoiceRecipientAction),
    Send(VoiceRecipientAction),
    Play(Option<VoiceFileAction>),
    PlayLatest(VoiceFileAction),
    PausePlayback,
    ResumePlayback,
    StopPlayback,
    Delete(VoiceFileAction),
    MarkSeen(ContactAction),
    Discard,
}

/// What the runtime knows of the voice pipeline when the user acts.
#[derive(Debug, Clone)]
pub struct VoiceContext {
    pub phase: String,
    pub playback_active: bool,
    pub playback_paused: bool,
    /// Where an Ask recording is written.
    pub ask_recording_file_path: String,
    /// Where a voice note recording is written.
    pub recording_file_path: String,
    /// The last recorded or played note.
    pub file_path: String,
    pub duration_ms: i32,
    pub mime_type: String,
}

/// Stop everything Ask is doing: the request, any recording, any playback.
pub open spec fn cancel_ask() -> Seq<CallView> {
    seq![
        (WorkerDomain::Voice, "voice.cancel"@, Seq::empty()),
        voip("voip.cancel_voice_note_recording"@, Seq::empty()),
        voip("voip.stop_voice_note_playback"@, Seq::empty()),
    ]
}

pub open spec fn start_recording(file_path: Seq<char>) -> CallView {
    voip("voip.start_voice_note_recording"@, seq![("file_path"@, ValueView::Text(file_path))])
}

pub open spec fn ask_busy(v: VoiceContext) -> bool {
    v.playback_active || v.playback_paused || v.phase@ == "thinking"@ || v.phase@ == "reply"@ || v.phase@
        == "answering"@
}

pub open spec fn max0(x: i32) -> int {
    if x < 0 {
        0
    } else {
        x as int
    }
}

/// A voice note file's address: its id, else its URI, else its SIP address.
pub open spec fn voice_file_uri(a: VoiceFileAction) -> Option<Seq<char>> {
    or_else(non_empty(a.id@), or_else(non_empty(a.uri@), non_empty(a.sip_address@)))
}

/// The commands of a voice action. Ask interrupts a running answer before
/// it records; a toggle stops a running recording, else starts one; a note is
/// sent only with a recipient and a recording; playing falls back to the
/// last note; playing the latest note also marks it seen.
pub open spec fn voice_commands(v: VoiceContext, client_id: Seq<char>, intent: VoiceIntent) -> Seq<CallView> {
    match intent {
        VoiceIntent::AskStart => (if ask_busy(v) {
            cancel_ask()
        } else {
            Seq::empty()
        }).push(start_recording(v.ask_recording_file_path@)),
        VoiceIntent::AskStop => seq![voip("voip.stop_voice_note_recording"@, Seq::empty())],
        VoiceIntent::AskCancel => cancel_ask(),
        VoiceIntent::CaptureStart(_) => seq![start_recording(v.recording_file_path@)],
        VoiceIntent::CaptureStartAndSend(_) => seq![start_recording(v.recording_file_path@)],
        VoiceIntent::CaptureStop => seq![voip("voip.stop_voice_note_recording"@, Seq::empty())],
        VoiceIntent::CaptureCancel => seq![voip("voip.cancel_voice_note_recording"@, Seq::empty())],
        VoiceIntent::CaptureToggle(_) => if v.phase@ == "recording"@ {
            seq![voip("voip.stop_voice_note_recording"@, Seq::empty())]
        } else {
            seq![start_recording(v.recording_file_path@)]
        },
        VoiceIntent::Send(a) => {
            match or_else(non_empty(a.recipient_address@), non_empty(a.id@)) {
                None => Seq::empty(),
                Some(u) => match or_else(non_empty(a.file_path@), non_empty(v.file_path@)) {
                    None => Seq::empty(),
                    Some(f) => seq![
                        voip(
                            "voip.send_voice_note"@,
                            seq![
                                ("uri"@, ValueView::Text(u)),
                                ("file_path"@, ValueView::Text(f)),
                                ("duration_ms"@, ValueView::Int(max0(v.duration_ms))),
                                (
                                    "mime_type"@,
                                    ValueView::Text(
                                        match non_empty(v.mime_type@) {
                                            Some(m) => m,
                                            None => "audio/wav"@,
                                        },
                                    ),
                                ),
                                ("client_id"@, ValueView::Text(client_id)),
                            ],
                        ),
                    ],
                },
            }
        },
        VoiceIntent::Play(a) => {
            let file = or_else(
                match a {
                    Some(x) => non_empty(x.file_path@),
                    None => None,
                },
                non_empty(v.file_path@),
            );
            match file {
                Some(f) => seq![
                    voip(
                        "voip.play_voice_note"@,
                        seq![
                            ("file_path"@, ValueView::Text(f)),
                            ("duration_ms"@, ValueView::Int(match a {
                                Some(x) => x.duration_ms as int,
                                None => 0,
                            })),
                        ],
                    ),
                ],
                None => Seq::empty(),
            }
        },
        VoiceIntent::PlayLatest(a) => match non_empty(a.file_path@) {
            Some(f) => {
                let play = seq![
                    voip(
                        "voip.play_voice_note"@,
                        seq![("file_path"@, ValueView::Text(f)), ("duration_ms"@, ValueView::Int(max0(a.duration_ms)))],
                    ),
                ];
                match voice_file_uri(a) {
                    Some(u) => play.push(voip("voip.mark_voice_notes_seen"@, seq![("uri"@, ValueView::Text(u))])),
                    None => play,
                }
            },
            None => Seq::empty(),
        },
        VoiceIntent::PausePlayback => seq![voip("voip.pause_voice_note_playback"@, Seq::empty())],
        VoiceIntent::ResumePlayback => seq![voip("voip.resume_voice_note_playback"@, Seq::empty())],
        VoiceIntent::StopPlayback => seq![voip("voip.stop_voice_note_playback"@, Seq::empty())],
        VoiceIntent::Delete(a) => match non_empty(a.message_id@) {
            Some(m) => seq![voip("voip.delete_voice_note"@, seq![("message_id"@, ValueView::Text(m))])],
            None => Seq::empty(),
        },
        VoiceIntent::MarkSeen(c) => match contact_uri(c) {
            Some(u) => seq![voip("voip.mark_voice_notes_seen"@, seq![("uri"@, ValueView::Text(u))])],
            None => Seq::empty(),
        },
        VoiceIntent::Discard => Seq::empty(),
    }
}

fn cancel_ask_exec() -> (v: Vec<RuntimeCommand>)
    ensures
        commands_view(v@) == cancel_ask(),
        all_worker_commands(v@),
{
    let v = vec![
        bare(WorkerDomain::Voice, "voice.cancel"),
        bare(WorkerDomain::Voip, "voip.cancel_voice_note_recording"),
        bare(WorkerDomain::Voip, "voip.stop_voice_note_playback"),
    ];
    assert(commands_view(v@) =~= cancel_ask());
    v
}

fn start_recording_exec(file_path: &String) -> (c: RuntimeCommand)
    ensures
        is_worker_command(c),
        command_view(c) == start_recording(file_path@),
{
    one_field(WorkerDomain::Voip, "voip.start_voice_note_recording", "file_path", PayloadValue::Text(file_path.clone()))
}

pub fn commands_for_voice_intent(v: &VoiceContext, client_id: &str, intent: &VoiceIntent) -> (r: Vec<
    RuntimeCommand,
>)
    ensures
        commands_view(r@) == voice_commands(*v, client_id@, *intent),
        all_worker_commands(r@),
{
    match intent {
        VoiceIntent::AskStart => {
            let busy = v.playback_active || v.playback_paused || str_eq(v.phase.as_str(), "thinking")
                || str_eq(v.phase.as_str(), "reply") || str_eq(v.phase.as_str(), "answering");
            let mut commands = if busy {
                cancel_ask_exec()
            } else {
                none()
            };
            let ghost before = commands@;
            let c = start_recording_exec(&v.ask_recording_file_path);
            commands.push(c);
            assert(commands_view(commands@) =~= commands_view(before).push(command_view(c)));
            assert(all_worker_commands(commands@)) by {
                assert forall|i: int| 0 <= i < commands@.len() implies is_worker_command(#[trigger] commands@[i]) by {
                    if i < before.len() {
                        assert(commands@[i] == before[i]);
                    }
                }
            }
            assert(commands_view(commands@) == voice_commands(*v, client_id@, *intent));
            commands
        },
        VoiceIntent::AskStop => single(bare(WorkerDomain::Voip, "voip.stop_voice_note_recording")),
        VoiceIntent::AskCancel => cancel_ask_exec(),
        VoiceIntent::CaptureStart(_) | VoiceIntent::CaptureStartAndSend(_) => single(
            start_recording_exec(&v.recording_file_path),
        ),
        VoiceIntent::CaptureStop => single(bare(WorkerDomain::Voip, "voip.stop_voice_note_recording")),
        VoiceIntent::CaptureCancel => single(bare(WorkerDomain::Voip, "voip.cancel_voice_note_recording")),
        VoiceIntent::CaptureToggle(_) => if str_eq(v.phase.as_str(), "recording") {
            single(bare(WorkerDomain::Voip, "voip.stop_voice_note_recording"))
        } else {
            single(start_recording_exec(&v.recording_file_path))
        },
        VoiceIntent::Send(a) => {
            let uri = match first_non_empty(a.recipient_address.as_str(), a.id.as_str()) {
                Some(u) => u,
                None => {
                    return none();
                },
            };
            let file = match first_non_empty(a.file_path.as_str(), v.file_path.as_str()) {
                Some(f) => f,
                None => {
                    return none();
                },
            };
            let mime = match non_empty_string(v.mime_type.as_str()) {
                Some(m) => m,
                None => owned("audio/wav"),
            };
            let duration: i64 = if v.duration_ms < 0 {
                0
            } else {
                v.duration_ms as i64
            };
            let ghost uv = uri@;
            let ghost fv = file@;
            let ghost mime_v = mime@;
            assert(or_else(non_empty(a.recipient_address@), non_empty(a.id@)) == Some(uv));
            assert(or_else(non_empty(a.file_path@), non_empty(v.file_path@)) == Some(fv));
            let payload = vec![
                text_field("uri", uri),
                text_field("file_path", file),
                (owned("duration_ms"), PayloadValue::Int(duration)),
                text_field("mime_type", mime),
                text_field("client_id", owned(client_id)),
            ];
            assert(payload@.map_values(|f: (String, PayloadValue)| (f.0@, value_view(f.1))) =~= seq![
                ("uri"@, ValueView::Text(uri@)),
                ("file_path"@, ValueView::Text(file@)),
                ("duration_ms"@, ValueView::Int(max0(v.duration_ms))),
                ("mime_type"@, ValueView::Text(mime@)),
                ("client_id"@, ValueView::Text(client_id@)),
            ]);
            let c = command(WorkerDomain::Voip, "voip.send_voice_note", payload);
            let r = single(c);
            let ghost expected = seq![
                voip(
                    "voip.send_voice_note"@,
                    seq![
                        ("uri"@, ValueView::Text(uv)),
                        ("file_path"@, ValueView::Text(fv)),
                        ("duration_ms"@, ValueView::Int(max0(v.duration_ms))),
                        ("mime_type"@, ValueView::Text(mime_v)),
                        ("client_id"@, ValueView::Text(client_id@)),
                    ],
                ),
            ];
            assert(commands_view(r@) == expected);
            assert(voice_commands(*v, client_id@, *intent) =~~= expected);
            r
        },
        VoiceIntent::Play(a) => {
            let chosen = match a {
                Some(x) => non_empty_string(x.file_path.as_str()),
                None => None,
            };
            let file = match chosen {
                Some(f) => Some(f),
                None => non_empty_string(v.file_path.as_str()),
            };
            match file {
                Some(f) => {
                    let duration: i64 = match a {
                        Some(x) => x.duration_ms as i64,
                        None => 0,
                    };
                    let ghost fv = f@;
                    let payload = vec![text_field("file_path", f), (owned("duration_ms"), PayloadValue::Int(duration))];
                    assert(payload@.map_values(|f: (String, PayloadValue)| (f.0@, value_view(f.1))) =~= seq![
                        ("file_path"@, ValueView::Text(fv)),
                        ("duration_ms"@, ValueView::Int(duration as int)),
                    ]);
                    let r = single(command(WorkerDomain::Voip, "voip.play_voice_note", payload));
                    assert(commands_view(r@) =~~= voice_commands(*v, client_id@, *intent));
                    r
                },
                None => none(),
            }
        },
        VoiceIntent::PlayLatest(a) => {
            let f = match non_empty_string(a.file_path.as_str()) {
                Some(f) => f,
                None => {
                    return none();
                },
            };
            let duration: i64 = if a.duration_ms < 0 {
                0
            } else {
                a.duration_ms as i64
            };
            let ghost fv = f@;
            let payload = vec![text_field("file_path", f), (owned("duration_ms"), PayloadValue::Int(duration))];
            assert(payload@.map_values(|f: (String, PayloadValue)| (f.0@, value_view(f.1))) =~= seq![
                ("file_path"@, ValueView::Text(fv)),
                ("duration_ms"@, ValueView::Int(max0(a.duration_ms))),
            ]);
            let mut commands = single(command(WorkerDomain::Voip, "voip.play_voice_note", payload));
            let uri = match non_empty_string(a.id.as_str()) {
                Some(u) => Some(u),
                None => first_non_empty(a.uri.as_str(), a.sip_address.as_str()),
            };
            if let Some(u) = uri {
                let ghost before = commands@;
                let c = one_field(WorkerDomain::Voip, "voip.mark_voice_notes_seen", "uri", PayloadValue::Text(u));
                commands.push(c);
                assert(commands_view(commands@) =~= commands_view(before).push(command_view(c)));
                assert(all_worker_commands(commands@)) by {
                    assert forall|i: int| 0 <= i < commands@.len() implies is_worker_command(#[trigger] commands@[i]) by {
                        if i < before.len() {
                            assert(commands@[i] == before[i]);
                        }
                    }
                }
            }
            assert(commands_view(commands@) =~~= voice_commands(*v, client_id@, *intent));
            commands
        },
        VoiceIntent::PausePlayback => single(bare(WorkerDomain::Voip, "voip.pause_voice_note_playback")),
        VoiceIntent::ResumePlayback => single(bare(WorkerDomain::Voip, "voip.resume_voice_note_playback")),
        VoiceIntent::StopPlayback => single(bare(WorkerDomain::Voip, "voip.stop_voice_note_playback")),
        VoiceIntent::Delete(a) => match non_empty_string(a.message_id.as_str()) {
            Some(m) => single(one_field(WorkerDomain::Voip, "voip.delete_voice_note", "message_id", PayloadValue::Text(m))),
            None => none(),
        },
        VoiceIntent::MarkSeen(c) => match contact_uri_exec(c) {
            Some(u) => single(one_field(WorkerDomain::Voip, "voip.mark_voice_notes_seen", "uri", PayloadValue::Text(u))),
            None => none(),
        },
        VoiceIntent::Discard => none(),
    }
}

/// Starting Ask always ends with a recording to the Ask file, after
/// cancelling whatever answer was still running.
pub proof fn ask_always_records_last(v: VoiceContext, client_id: Seq<char>)
    ensures
        voice_commands(v, client_id, VoiceIntent::AskStart).last() == start_recording(v.ask_recording_file_path@),
        ask_busy(v) ==> voice_commands(v, client_id, VoiceIntent::AskStart).subrange(0, 3) == cancel_ask(),
{
    let cs = voice_commands(v, client_id, VoiceIntent::AskStart);
    if ask_busy(v) {
        assert(cs.subrange(0, 3) =~= cancel_ask());
    }
}

/// A note is never sent without a recipient.
pub proof fn send_needs_a_recipient(v: VoiceContext, client_id: Seq<char>, a: VoiceRecipientAction)
    requires
        non_empty(a.recipient_address@) is None,
        non_empty(a.id@) is None,
    ensures
        voice_commands(v, client_id, VoiceIntent::Send(a)).len() == 0,
{
}

} // verus!
