//! Audio routing: the settings the cloud asks for, the levels the device may
//! change locally, and how they resolve onto built-in or Bluetooth devices.
use vstd::prelude::*;
use crate::yaml::{parse_yaml, yaml_as_text, yaml_get, yaml_member, yaml_parse, yaml_text};
use crate::bluetooth::{BluetoothAccessory, BluetoothController, BluetoothState};
use crate::clock::epoch_seconds;
use crate::text::{
    has_prefix, skip_chars,
    chars_of, chars_start_with, decimal, owned, push_decimal, push_str, str_eq, str_starts_with,
    string_of,
};

verus! {

/// The devices the built-in audio hardware offers.
#[derive(Debug, PartialEq, Eq)]
pub struct BuiltinAudioDevices {
    pub media: String,
    pub voip_playback: String,
    pub voip_ringer: String,
    pub voip_capture: String,
    pub voip_media: String,
}

impl Clone for BuiltinAudioDevices {
    fn clone(&self) -> (r: Self)
        ensures
            r == *self,
    {
        BuiltinAudioDevices {
            media: self.media.clone(),
            voip_playback: self.voip_playback.clone(),
            voip_ringer: self.voip_ringer.clone(),
            voip_capture: self.voip_capture.clone(),
            voip_media: self.voip_media.clone(),
        }
    }
}

impl BuiltinAudioDevices {
    /// The WM8960 sound card behind the default ALSA device.
    pub fn defaults() -> (d: Self)
        ensures
            d.media@ == "alsa/default"@,
            d.voip_playback@ == "ALSA: wm8960-soundcard"@,
            d.voip_ringer@ == "ALSA: wm8960-soundcard"@,
            d.voip_capture@ == "ALSA: wm8960-soundcard"@,
            d.voip_media@ == "ALSA: wm8960-soundcard"@,
    {
        BuiltinAudioDevices {
            media: owned("alsa/default"),
            voip_playback: owned("ALSA: wm8960-soundcard"),
            voip_ringer: owned("ALSA: wm8960-soundcard"),
            voip_capture: owned("ALSA: wm8960-soundcard"),
            voip_media: owned("ALSA: wm8960-soundcard"),
        }
    }
}

#[derive(Debug, PartialEq, Eq)]
pub struct AudioRoutes {
    pub media_output_id: String,
    pub communication_output_id: String,
    pub communication_input_id: String,
}

impl Clone for AudioRoutes {
    fn clone(&self) -> (r: Self)
        ensures
            r == *self,
    {
        AudioRoutes {
            media_output_id: self.media_output_id.clone(),
            communication_output_id: self.communication_output_id.clone(),
            communication_input_id: self.communication_input_id.clone(),
        }
    }
}

#[derive(Debug, Clone, Copy, PartialEq, Eq)]
pub struct AudioLevels {
    pub media: u8,
    pub communication: u8,
    pub alerts: u8,
    pub microphone_gain: u8,
    pub max_output: u8,
}

#[derive(Debug, PartialEq, Eq)]
pub struct AudioSettings {
    pub routes: AudioRoutes,
    pub levels: AudioLevels,
    pub alert_policy: String,
    pub fallback_policy: String,
}

impl Clone for AudioSettings {
    fn clone(&self) -> (r: Self)
        ensures
            r == *self,
    {
        AudioSettings {
            routes: self.routes.clone(),
            levels: self.levels,
            alert_policy: self.alert_policy.clone(),
            fallback_policy: self.fallback_policy.clone(),
        }
    }
}

/// Built-in speaker and microphone, media at 65, calls and alerts at 70,
/// microphone gain 60, no output cap below 100.
pub open spec fn default_settings_view() -> (
    (Seq<char>, Seq<char>, Seq<char>),
    AudioLevels,
    Seq<char>,
    Seq<char>,
) {
    (
        ("builtin-speaker"@, "builtin-speaker"@, "builtin-microphone"@),
        AudioLevels { media: 65, communication: 70, alerts: 70, microphone_gain: 60, max_output: 100 },
        "mirror_builtin_and_selected"@,
        "builtin"@,
    )
}

impl AudioSettings {
    /// The settings a device starts with.
    pub fn defaults() -> (s: Self)
        ensures
            settings_view(s) == default_settings_view(),
    {
        AudioSettings {
            routes: AudioRoutes {
                media_output_id: owned("builtin-speaker"),
                communication_output_id: owned("builtin-speaker"),
                communication_input_id: owned("builtin-microphone"),
            },
            levels: AudioLevels {
                media: 65,
                communication: 70,
                alerts: 70,
                microphone_gain: 60,
                max_output: 100,
            },
            alert_policy: owned("mirror_builtin_and_selected"),
            fallback_policy: owned("builtin"),
        }
    }
}

#[derive(Debug, PartialEq, Eq)]
pub struct AudioEndpoint {
    pub endpoint_id: String,
    pub name: String,
    pub kind: String,
    pub accessory_id: Option<String>,
    pub available: bool,
}

impl Clone for AudioEndpoint {
    fn clone(&self) -> (r: Self)
        ensures
            r == *self,
    {
        AudioEndpoint {
            endpoint_id: self.endpoint_id.clone(),
            name: self.name.clone(),
            kind: self.kind.clone(),
            accessory_id: match &self.accessory_id {
                Some(id) => Some(id.clone()),
                None => None,
            },
            available: self.available,
        }
    }
}

#[derive(Debug, PartialEq, Eq)]
pub struct AudioEndpoints {
    pub outputs: Vec<AudioEndpoint>,
    pub inputs: Vec<AudioEndpoint>,
}

fn clone_endpoints(v: &Vec<AudioEndpoint>) -> (r: Vec<AudioEndpoint>)
    ensures
        r@ == v@,
{
    let mut r: Vec<AudioEndpoint> = Vec::new();
    let mut i: usize = 0;
    while i < v.len()
        invariant
            i <= v@.len(),
            r@ == v@.subrange(0, i as int),
        decreases v.len() - i,
    {
        r.push(v[i].clone());
        assert(v@.subrange(0, i + 1) =~= v@.subrange(0, i as int).push(v@[i as int]));
        i = i + 1;
    }
    assert(v@.subrange(0, v@.len() as int) =~= v@);
    r
}

impl Clone for AudioEndpoints {
    fn clone(&self) -> (r: Self)
        ensures
            r.outputs@ == self.outputs@,
            r.inputs@ == self.inputs@,
    {
        let outputs = clone_endpoints(&self.outputs);
        let inputs = clone_endpoints(&self.inputs);
        assert(outputs@ =~= self.outputs@);
        AudioEndpoints { outputs, inputs }
    }
}

#[derive(Debug, Clone, Copy, PartialEq, Eq)]
pub struct AudioInputMeter {
    pub level_percent: u8,
    pub expires_at: u64,
}

#[derive(Debug, PartialEq, Eq)]
pub struct AudioState {
    pub schema_version: u8,
    pub status: String,
    pub applied_revision: u64,
    pub applied: AudioSettings,
    pub endpoints: AudioEndpoints,
    pub fallback_reason: Option<String>,
    pub input_meter: Option<AudioInputMeter>,
    pub reported_at: u64,
}

impl Clone for AudioState {
    fn clone(&self) -> (r: Self)
        ensures
            state_view(r) == state_view(*self),
            r.reported_at == self.reported_at,
    {
        AudioState {
            schema_version: self.schema_version,
            status: self.status.clone(),
            applied_revision: self.applied_revision,
            applied: self.applied.clone(),
            endpoints: self.endpoints.clone(),
            fallback_reason: match &self.fallback_reason {
                Some(reason) => Some(reason.clone()),
                None => None,
            },
            input_meter: self.input_meter,
            reported_at: self.reported_at,
        }
    }
}

#[derive(Debug, PartialEq, Eq)]
pub struct AudioRouteLocal {
    pub media_device: String,
    pub media_volume: u8,
    pub voip_playback_device: String,
    pub voip_ringer_device: String,
    pub voip_capture_device: String,
    pub voip_media_device: String,
    pub communication_volume: u8,
    pub microphone_gain: u8,
}

impl Clone for AudioRouteLocal {
    fn clone(&self) -> (r: Self)
        ensures
            r == *self,
    {
        AudioRouteLocal {
            media_device: self.media_device.clone(),
            media_volume: self.media_volume,
            voip_playback_device: self.voip_playback_device.clone(),
            voip_ringer_device: self.voip_ringer_device.clone(),
            voip_capture_device: self.voip_capture_device.clone(),
            voip_media_device: self.voip_media_device.clone(),
            communication_volume: self.communication_volume,
            microphone_gain: self.microphone_gain,
        }
    }
}

#[derive(Debug, Clone, PartialEq, Eq)]
pub struct AudioOperationError {
    pub code: &'static str,
    pub message: String,
}

impl AudioOperationError {
    pub fn invalid(message: &str) -> (e: Self)
        ensures
            e.code@ == "audio_invalid_settings"@,
            e.message@ == message@,
    {
        AudioOperationError { code: "audio_invalid_settings", message: owned(message) }
    }

    pub fn failed(message: &str) -> (e: Self)
        ensures
            e.code@ == "audio_operation_failed"@,
            e.message@ == message@,
    {
        AudioOperationError { code: "audio_operation_failed", message: owned(message) }
    }
}

#[derive(Debug, PartialEq, Eq)]
pub struct AppliedAudio {
    pub state: AudioState,
    pub route: AudioRouteLocal,
}

impl Clone for AppliedAudio {
    fn clone(&self) -> (r: Self)
        ensures
            same_application(r, *self),
            r.state.reported_at == self.state.reported_at,
    {
        AppliedAudio { state: self.state.clone(), route: self.route.clone() }
    }
}

// ---------------------------------------------------------------------------
// Views used by the contracts
// ---------------------------------------------------------------------------

pub open spec fn settings_view(s: AudioSettings) -> (
    (Seq<char>, Seq<char>, Seq<char>),
    AudioLevels,
    Seq<char>,
    Seq<char>,
) {
    (
        (
            s.routes.media_output_id@,
            s.routes.communication_output_id@,
            s.routes.communication_input_id@,
        ),
        s.levels,
        s.alert_policy@,
        s.fallback_policy@,
    )
}

pub open spec fn opt_view(s: Option<String>) -> Option<Seq<char>> {
    match s {
        Some(t) => Some(t@),
        None => None,
    }
}

pub open spec fn endpoint_view(e: AudioEndpoint) -> (
    Seq<char>,
    Seq<char>,
    Seq<char>,
    Option<Seq<char>>,
    bool,
) {
    (e.endpoint_id@, e.name@, e.kind@, opt_view(e.accessory_id), e.available)
}

pub open spec fn endpoints_view(v: Seq<AudioEndpoint>) -> Seq<
    (Seq<char>, Seq<char>, Seq<char>, Option<Seq<char>>, bool),
> {
    v.map_values(|e: AudioEndpoint| endpoint_view(e))
}

pub open spec fn route_view(r: AudioRouteLocal) -> (
    Seq<char>,
    u8,
    Seq<char>,
    Seq<char>,
    Seq<char>,
    Seq<char>,
    u8,
    u8,
) {
    (
        r.media_device@,
        r.media_volume,
        r.voip_playback_device@,
        r.voip_ringer_device@,
        r.voip_capture_device@,
        r.voip_media_device@,
        r.communication_volume,
        r.microphone_gain,
    )
}

/// Everything in a resolved audio state but the time it was reported.
pub open spec fn state_view(s: AudioState) -> (
    u8,
    Seq<char>,
    u64,
    ((Seq<char>, Seq<char>, Seq<char>), AudioLevels, Seq<char>, Seq<char>),
    Seq<(Seq<char>, Seq<char>, Seq<char>, Option<Seq<char>>, bool)>,
    Seq<(Seq<char>, Seq<char>, Seq<char>, Option<Seq<char>>, bool)>,
    Option<Seq<char>>,
    Option<AudioInputMeter>,
) {
    (
        s.schema_version,
        s.status@,
        s.applied_revision,
        settings_view(s.applied),
        endpoints_view(s.endpoints.outputs@),
        endpoints_view(s.endpoints.inputs@),
        opt_view(s.fallback_reason),
        s.input_meter,
    )
}

// ---------------------------------------------------------------------------
// Settings validation
// ---------------------------------------------------------------------------

/// Settings the device accepts: the only alert and fallback policies it
/// implements, an output cap of 20 to 100, microphone gain up to 100, alerts
/// at least 20, and no level above the cap.
pub open spec fn settings_valid(s: AudioSettings) -> bool {
    let l = s.levels;
    &&& s.alert_policy@ == "mirror_builtin_and_selected"@
    &&& s.fallback_policy@ == "builtin"@
    &&& 20 <= l.max_output <= 100
    &&& l.microphone_gain <= 100
    &&& l.alerts >= 20
    &&& l.media <= l.max_output
    &&& l.communication <= l.max_output
    &&& l.alerts <= l.max_output
}

pub fn validate_settings(settings: &AudioSettings) -> (r: Result<(), AudioOperationError>)
    ensures
        r is Ok <==> settings_valid(*settings),
        r matches Err(e) ==> e.code@ == "audio_invalid_settings"@ && e.message@
            == "Audio settings are outside the supported safe range"@,
{
    let l = settings.levels;
    if !str_eq(settings.alert_policy.as_str(), "mirror_builtin_and_selected") || !str_eq(
        settings.fallback_policy.as_str(),
        "builtin",
    ) || l.max_output < 20 || l.max_output > 100 || l.microphone_gain > 100 || l.alerts < 20
        || l.media > l.max_output || l.communication > l.max_output || l.alerts > l.max_output {
        return Err(AudioOperationError::invalid("Audio settings are outside the supported safe range"));
    }
    Ok(())
}

/// Whether two settings hold the same routes, levels and policies.
pub fn settings_eq(a: &AudioSettings, b: &AudioSettings) -> (r: bool)
    ensures
        r == (settings_view(*a) == settings_view(*b)),
{
    str_eq(a.routes.media_output_id.as_str(), b.routes.media_output_id.as_str()) && str_eq(
        a.routes.communication_output_id.as_str(),
        b.routes.communication_output_id.as_str(),
    ) && str_eq(a.routes.communication_input_id.as_str(), b.routes.communication_input_id.as_str())
        && a.levels.media == b.levels.media && a.levels.communication == b.levels.communication
        && a.levels.alerts == b.levels.alerts && a.levels.microphone_gain
        == b.levels.microphone_gain && a.levels.max_output == b.levels.max_output && str_eq(
        a.alert_policy.as_str(),
        b.alert_policy.as_str(),
    ) && str_eq(a.fallback_policy.as_str(), b.fallback_policy.as_str())
}

/// The applied settings: the desired ones, with each route whose selected
/// accessory is unavailable put back on the built-in device.
pub open spec fn applied_view(desired: AudioSettings, media_fb: bool, out_fb: bool, in_fb: bool) -> (
    (Seq<char>, Seq<char>, Seq<char>),
    AudioLevels,
    Seq<char>,
    Seq<char>,
) {
    (
        (
            if media_fb {
                "builtin-speaker"@
            } else {
                desired.routes.media_output_id@
            },
            if out_fb {
                "builtin-speaker"@
            } else {
                desired.routes.communication_output_id@
            },
            if in_fb {
                "builtin-microphone"@
            } else {
                desired.routes.communication_input_id@
            },
        ),
        desired.levels,
        desired.alert_policy@,
        desired.fallback_policy@,
    )
}

pub fn applied_settings(
    desired: &AudioSettings,
    media_fallback: bool,
    communication_output_fallback: bool,
    communication_input_fallback: bool,
) -> (a: AudioSettings)
    ensures
        settings_view(a) == applied_view(
            *desired,
            media_fallback,
            communication_output_fallback,
            communication_input_fallback,
        ),
{
    let mut applied = desired.clone();
    if media_fallback {
        applied.routes.media_output_id = owned("builtin-speaker");
    }
    if communication_output_fallback {
        applied.routes.communication_output_id = owned("builtin-speaker");
    }
    if communication_input_fallback {
        applied.routes.communication_input_id = owned("builtin-microphone");
    }
    applied
}

// ---------------------------------------------------------------------------
// Endpoints offered to the user
// ---------------------------------------------------------------------------

pub open spec fn bt_endpoints(accs: Seq<BluetoothAccessory>, outputs: bool) -> Seq<
    (Seq<char>, Seq<char>, Seq<char>, Option<Seq<char>>, bool),
>
    decreases accs.len(),
{
    if accs.len() == 0 {
        Seq::empty()
    } else {
        let init = bt_endpoints(accs.drop_last(), outputs);
        let a = accs.last();
        let offered = if outputs {
            a.capabilities.output
        } else {
            a.capabilities.microphone
        };
        if a.paired && offered {
            init.push((a.accessory_id@, a.name@, "bluetooth"@, Some(a.accessory_id@), a.connected))
        } else {
            init
        }
    }
}

fn builtin_endpoint(id: &str, name: &str) -> (e: AudioEndpoint)
    ensures
        endpoint_view(e) == (id@, name@, "builtin"@, None::<Seq<char>>, true),
{
    AudioEndpoint {
        endpoint_id: owned(id),
        name: owned(name),
        kind: owned("builtin"),
        accessory_id: None,
        available: true,
    }
}

fn bluetooth_endpoint(a: &BluetoothAccessory) -> (e: AudioEndpoint)
    ensures
        endpoint_view(e) == (
            a.accessory_id@,
            a.name@,
            "bluetooth"@,
            Some(a.accessory_id@),
            a.connected,
        ),
{
    AudioEndpoint {
        endpoint_id: a.accessory_id.clone(),
        name: a.name.clone(),
        kind: owned("bluetooth"),
        accessory_id: Some(a.accessory_id.clone()),
        available: a.connected,
    }
}

/// The outputs and inputs the user can pick: the built-in speaker and
/// microphone first, then each paired accessory that offers them.
pub fn endpoints(bluetooth: &BluetoothState) -> (e: AudioEndpoints)
    ensures
        endpoints_view(e.outputs@) == seq![
            ("builtin-speaker"@, "YoYoPod speaker"@, "builtin"@, None::<Seq<char>>, true),
        ] + bt_endpoints(bluetooth.accessories@, true),
        endpoints_view(e.inputs@) == seq![
            ("builtin-microphone"@, "YoYoPod microphone"@, "builtin"@, None::<Seq<char>>, true),
        ] + bt_endpoints(bluetooth.accessories@, false),
{
    let mut outputs: Vec<AudioEndpoint> = Vec::new();
    outputs.push(builtin_endpoint("builtin-speaker", "YoYoPod speaker"));
    let mut inputs: Vec<AudioEndpoint> = Vec::new();
    inputs.push(builtin_endpoint("builtin-microphone", "YoYoPod microphone"));
    let accs = &bluetooth.accessories;
    let mut i: usize = 0;
    while i < accs.len()
        invariant
            i <= accs@.len(),
            endpoints_view(outputs@) == seq![
                ("builtin-speaker"@, "YoYoPod speaker"@, "builtin"@, None::<Seq<char>>, true),
            ] + bt_endpoints(accs@.subrange(0, i as int), true),
            endpoints_view(inputs@) == seq![
                ("builtin-microphone"@, "YoYoPod microphone"@, "builtin"@, None::<Seq<char>>, true),
            ] + bt_endpoints(accs@.subrange(0, i as int), false),
        decreases accs.len() - i,
    {
        let a = &accs[i];
        assert(accs@.subrange(0, i + 1).drop_last() =~= accs@.subrange(0, i as int));
        if a.paired {
            if a.capabilities.output {
                let ghost before = outputs@;
                outputs.push(bluetooth_endpoint(a));
                assert(endpoints_view(outputs@) =~= endpoints_view(before).push(endpoint_view(outputs@.last())));
            }
            if a.capabilities.microphone {
                let ghost before = inputs@;
                inputs.push(bluetooth_endpoint(a));
                assert(endpoints_view(inputs@) =~= endpoints_view(before).push(endpoint_view(inputs@.last())));
            }
        }
        i = i + 1;
    }
    assert(accs@.subrange(0, accs@.len() as int) =~= accs@);
    AudioEndpoints { outputs, inputs }
}

// ---------------------------------------------------------------------------
// Resolving routes
// ---------------------------------------------------------------------------

/// The first accessory with this id that is paired and connected.
pub open spec fn find_connected(accs: Seq<BluetoothAccessory>, id: Seq<char>) -> Option<
    BluetoothAccessory,
>
    decreases accs.len(),
{
    if accs.len() == 0 {
        None
    } else if accs[0].accessory_id@ == id && accs[0].paired && accs[0].connected {
        Some(accs[0])
    } else {
        find_connected(accs.drop_first(), id)
    }
}

fn connected(accs: &Vec<BluetoothAccessory>, id: &str) -> (r: Option<usize>)
    ensures
        r matches Some(i) ==> i < accs@.len() && find_connected(accs@, id@) == Some(accs@[i as int]),
        r is None ==> find_connected(accs@, id@) is None,
{
    let mut i: usize = 0;
    assert(accs@.subrange(0, accs@.len() as int) =~= accs@);
    while i < accs.len()
        invariant
            i <= accs@.len(),
            find_connected(accs@, id@) == find_connected(accs@.subrange(i as int, accs@.len() as int), id@),
        decreases accs.len() - i,
    {
        let ghost rest = accs@.subrange(i as int, accs@.len() as int);
        assert(rest.drop_first() =~= accs@.subrange(i + 1, accs@.len() as int));
        assert(rest[0] == accs@[i as int]);
        if accs[i].paired && accs[i].connected && str_eq(accs[i].accessory_id.as_str(), id) {
            return Some(i);
        }
        i = i + 1;
    }
    None
}

/// The accessory a route may use: the selected one when connected and able.
pub open spec fn media_accessory(desired: AudioSettings, st: BluetoothState) -> Option<
    BluetoothAccessory,
> {
    match find_connected(st.accessories@, desired.routes.media_output_id@) {
        Some(a) => if a.capabilities.stereo || a.capabilities.hands_free {
            Some(a)
        } else {
            None
        },
        None => None,
    }
}

pub open spec fn output_accessory(desired: AudioSettings, st: BluetoothState) -> Option<
    BluetoothAccessory,
> {
    match find_connected(st.accessories@, desired.routes.communication_output_id@) {
        Some(a) => if a.capabilities.hands_free {
            Some(a)
        } else {
            None
        },
        None => None,
    }
}

pub open spec fn input_accessory(desired: AudioSettings, st: BluetoothState) -> Option<
    BluetoothAccessory,
> {
    match find_connected(st.accessories@, desired.routes.communication_input_id@) {
        Some(a) => if a.capabilities.microphone {
            Some(a)
        } else {
            None
        },
        None => None,
    }
}

pub open spec fn is_builtin_id(id: Seq<char>) -> bool {
    "builtin-"@.len() <= id.len() && id.subrange(0, "builtin-"@.len() as int) == "builtin-"@
}

/// A route falls back when it selects an accessory that it cannot use.
pub open spec fn media_fallback(d: AudioSettings, st: BluetoothState) -> bool {
    !is_builtin_id(d.routes.media_output_id@) && media_accessory(d, st) is None
}

pub open spec fn output_fallback(d: AudioSettings, st: BluetoothState) -> bool {
    !is_builtin_id(d.routes.communication_output_id@) && output_accessory(d, st) is None
}

pub open spec fn input_fallback(d: AudioSettings, st: BluetoothState) -> bool {
    !is_builtin_id(d.routes.communication_input_id@) && input_accessory(d, st) is None
}

pub open spec fn min_u8(a: u8, b: u8) -> u8 {
    if a < b {
        a
    } else {
        b
    }
}

/// The local route: media to the built-in device or to the accessory over
/// A2DP (or SCO when it has no A2DP sink); calls to the built-in devices or
/// to the accessory over SCO; alerts always built in; volumes under the cap.
pub open spec fn route_spec(d: AudioSettings, b: BuiltinAudioDevices, st: BluetoothState) -> (
    Seq<char>,
    u8,
    Seq<char>,
    Seq<char>,
    Seq<char>,
    Seq<char>,
    u8,
    u8,
) {
    let out_builtin = output_fallback(d, st) || d.routes.communication_output_id@
        == "builtin-speaker"@;
    (
        if media_fallback(d, st) || d.routes.media_output_id@ == "builtin-speaker"@ {
            b.media@
        } else if media_accessory(d, st) matches Some(a) && !a.capabilities.stereo {
            "alsa/yoyopod_bt_sco"@
        } else {
            "alsa/yoyopod_bt_a2dp"@
        },
        min_u8(d.levels.media, d.levels.max_output),
        if out_builtin {
            b.voip_playback@
        } else {
            "ALSA: yoyopod_bt_sco"@
        },
        b.voip_ringer@,
        if input_fallback(d, st) || d.routes.communication_input_id@ == "builtin-microphone"@ {
            b.voip_capture@
        } else {
            "ALSA: yoyopod_bt_sco"@
        },
        if out_builtin {
            b.voip_media@
        } else {
            "ALSA: yoyopod_bt_sco"@
        },
        min_u8(d.levels.communication, d.levels.max_output),
        d.levels.microphone_gain,
    )
}

pub open spec fn any_fallback(d: AudioSettings, st: BluetoothState) -> bool {
    media_fallback(d, st) || output_fallback(d, st) || input_fallback(d, st)
}

/// The input meter that is still live at `now`.
pub open spec fn live_meter(m: Option<AudioInputMeter>, now: u64) -> Option<AudioInputMeter> {
    match m {
        Some(meter) => if meter.expires_at <= now {
            None
        } else {
            Some(meter)
        },
        None => None,
    }
}

/// The resolved state, but for the time it reports.
pub open spec fn resolved_state_view(m: AudioManager, st: BluetoothState, now: u64) -> (
    u8,
    Seq<char>,
    u64,
    ((Seq<char>, Seq<char>, Seq<char>), AudioLevels, Seq<char>, Seq<char>),
    Seq<(Seq<char>, Seq<char>, Seq<char>, Option<Seq<char>>, bool)>,
    Seq<(Seq<char>, Seq<char>, Seq<char>, Option<Seq<char>>, bool)>,
    Option<Seq<char>>,
    Option<AudioInputMeter>,
) {
    let d = m.desired;
    (
        1,
        if st.status@ == "unavailable"@ || any_fallback(d, st) {
            "degraded"@
        } else {
            "ready"@
        },
        m.desired_revision,
        applied_view(d, media_fallback(d, st), output_fallback(d, st), input_fallback(d, st)),
        seq![("builtin-speaker"@, "YoYoPod speaker"@, "builtin"@, None::<Seq<char>>, true)]
            + bt_endpoints(st.accessories@, true),
        seq![("builtin-microphone"@, "YoYoPod microphone"@, "builtin"@, None::<Seq<char>>, true)]
            + bt_endpoints(st.accessories@, false),
        if any_fallback(d, st) {
            Some("A selected Bluetooth route is disconnected; built-in audio is active"@)
        } else {
            None
        },
        live_meter(m.input_meter, now),
    )
}

/// The resolved audio for `m` against `st` at `now`.
pub open spec fn resolves_to(m: AudioManager, st: BluetoothState, now: u64, a: AppliedAudio) -> bool {
    &&& route_view(a.route) == route_spec(m.desired, m.builtin, st)
    &&& state_view(a.state) == resolved_state_view(m, st, now)
    &&& a.state.reported_at == now
}

/// What every resolution keeps: the ringer stays on the built-in device,
/// media plays no louder than the cap, the applied revision is the desired
/// one, a fallback is reported exactly when a selected route fell back, and
/// the audio is ready exactly when Bluetooth is available and nothing fell
/// back.
pub proof fn resolution_keeps_ringer_cap_and_revision(m: AudioManager, st: BluetoothState, now: u64, a: AppliedAudio)
    requires
        resolves_to(m, st, now, a),
    ensures
        route_view(a.route).3 == m.builtin.voip_ringer@,
        route_view(a.route).1 == min_u8(m.desired.levels.media, m.desired.levels.max_output),
        state_view(a.state).2 == m.desired_revision,
        (state_view(a.state).6 is Some) == any_fallback(m.desired, st),
        (state_view(a.state).1 == "ready"@) == (st.status@ != "unavailable"@ && !any_fallback(m.desired, st)),
{
    reveal_strlit("ready");
    reveal_strlit("degraded");
    assert("ready"@ != "degraded"@) by {
        assert("ready"@[0] != "degraded"@[0]);
    }
}

/// Each resolved volume follows its own level under the output cap: media
/// plays at the media level, calls at the communication level, each no
/// louder than `max_output`, and the microphone takes its gain as set.
/// Changing only the media level leaves the call volume as it was.
pub proof fn resolved_volumes_follow_their_own_levels(
    m: AudioManager,
    m2: AudioManager,
    st: BluetoothState,
    now: u64,
    now2: u64,
    a: AppliedAudio,
    b: AppliedAudio,
)
    requires
        resolves_to(m, st, now, a),
        resolves_to(m2, st, now2, b),
        m2.desired.levels == (AudioLevels { media: m2.desired.levels.media, ..m.desired.levels }),
    ensures
        a.route.communication_volume == (if m.desired.levels.communication <= m.desired.levels.max_output {
            m.desired.levels.communication
        } else {
            m.desired.levels.max_output
        }),
        a.route.media_volume == (if m.desired.levels.media <= m.desired.levels.max_output {
            m.desired.levels.media
        } else {
            m.desired.levels.max_output
        }),
        a.route.communication_volume <= m.desired.levels.max_output,
        a.route.media_volume <= m.desired.levels.max_output,
        a.route.microphone_gain == m.desired.levels.microphone_gain,
        b.route.communication_volume == a.route.communication_volume,
{
}

/// Each route plays on the device its selection reaches: a selection of the
/// built-in speaker or microphone, or a Bluetooth selection that is not
/// connected and able, uses the built-in device; a connected stereo media
/// accessory plays through A2DP and a hands-free-only one through SCO; a
/// connected call accessory carries calls through SCO. The ringer always
/// stays built in.
pub proof fn routes_reach_the_selected_devices(m: AudioManager, st: BluetoothState, now: u64, a: AppliedAudio)
    requires
        resolves_to(m, st, now, a),
    ensures
        ({
            let d = m.desired;
            let b = m.builtin;
            &&& (d.routes.media_output_id@ == "builtin-speaker"@ || (!is_builtin_id(d.routes.media_output_id@)
                && media_accessory(d, st) is None)) ==> a.route.media_device@ == b.media@
            &&& d.routes.media_output_id@ != "builtin-speaker"@ ==> (media_accessory(d, st) matches Some(acc)
                ==> a.route.media_device@ == (if acc.capabilities.stereo {
                "alsa/yoyopod_bt_a2dp"@
            } else {
                "alsa/yoyopod_bt_sco"@
            }))
            &&& (d.routes.communication_output_id@ == "builtin-speaker"@ || (!is_builtin_id(
                d.routes.communication_output_id@,
            ) && output_accessory(d, st) is None)) ==> (a.route.voip_playback_device@ == b.voip_playback@
                && a.route.voip_media_device@ == b.voip_media@)
            &&& (d.routes.communication_output_id@ != "builtin-speaker"@ && output_accessory(d, st) is Some) ==> (
            a.route.voip_playback_device@ == "ALSA: yoyopod_bt_sco"@ && a.route.voip_media_device@
                == "ALSA: yoyopod_bt_sco"@)
            &&& (d.routes.communication_input_id@ == "builtin-microphone"@ || (!is_builtin_id(
                d.routes.communication_input_id@,
            ) && input_accessory(d, st) is None)) ==> a.route.voip_capture_device@ == b.voip_capture@
            &&& (d.routes.communication_input_id@ != "builtin-microphone"@ && input_accessory(d, st) is Some)
                ==> a.route.voip_capture_device@ == "ALSA: yoyopod_bt_sco"@
            &&& a.route.voip_ringer_device@ == b.voip_ringer@
        }),
{
}

/// Whether two resolutions apply the same thing, whenever they were reported.
pub open spec fn same_application(a: AppliedAudio, b: AppliedAudio) -> bool {
    route_view(a.route) == route_view(b.route) && state_view(a.state) == state_view(b.state)
}

/// A poll right after a resolution, against the same Bluetooth state and
/// with the same settings, applies nothing new: `current_if_changed` then
/// returns nothing. This holds unless the input meter ran out between the
/// two resolutions.
pub proof fn unchanged_poll_is_not_reapplied(
    m1: AudioManager,
    m2: AudioManager,
    st: BluetoothState,
    a: AppliedAudio,
    b: AppliedAudio,
)
    requires
        resolves_to(m1, st, a.state.reported_at, a),
        remembers(m2, a),
        m2.input_meter == live_meter(m1.input_meter, a.state.reported_at),
        m2.desired == m1.desired,
        m2.desired_revision == m1.desired_revision,
        m2.builtin == m1.builtin,
        resolves_to(m2, st, b.state.reported_at, b),
        live_meter(m2.input_meter, b.state.reported_at) == m2.input_meter,
    ensures
        m2.last_resolved matches Some(p) && same_application(p, b),
{
}

/// Whether settings at `revision` are taken: they must be valid, and neither
/// older than what is active nor, at the same revision, different from it
/// (which would undo a local change made since).
pub open spec fn accepts(m: AudioManager, revision: u64, settings: AudioSettings) -> bool {
    &&& settings_valid(settings)
    &&& revision >= m.desired_revision
    &&& (revision == m.desired_revision ==> settings_view(settings) == settings_view(m.desired))
}

/// The output cap as the device reads it: held to 20 to 100.
pub open spec fn effective_cap(max_output: u8) -> u8 {
    if max_output < 20 {
        20
    } else if max_output > 100 {
        100
    } else {
        max_output
    }
}

/// The levels after the user sets the output level: media and calls at the
/// level under the cap, alerts too but never below 20; gain and cap kept.
pub open spec fn with_output_level(l: AudioLevels, level: u8) -> AudioLevels {
    let cap = effective_cap(l.max_output);
    let v = min_u8(level, cap);
    AudioLevels {
        media: v,
        communication: v,
        alerts: min_u8(if v < 20 { 20 } else { v }, cap),
        ..l
    }
}

/// Settings from the cloud never roll back: an accepted revision is at least
/// the active one.
pub proof fn accepted_revisions_never_decrease(m: AudioManager, revision: u64, s: AudioSettings)
    requires
        accepts(m, revision, s),
    ensures
        revision >= m.desired_revision,
{
}

/// A replay of the active revision with other settings (such as the cloud's
/// copy from before a local volume change) is refused, so the local change
/// stays.
pub proof fn replay_cannot_undo_local_change(m: AudioManager, s: AudioSettings)
    requires
        settings_view(s) != settings_view(m.desired),
    ensures
        !accepts(m, m.desired_revision, s),
{
}

/// Replaying exactly the active settings at the active revision is taken.
pub proof fn identical_replay_is_accepted(m: AudioManager)
    requires
        settings_valid(m.desired),
    ensures
        accepts(m, m.desired_revision, m.desired),
{
}

/// Setting the output level keeps valid settings valid: no level goes over
/// the safety cap and alerts stay audible.
pub proof fn output_level_keeps_settings_valid(s: AudioSettings, level: u8)
    requires
        settings_valid(s),
    ensures
        settings_valid(AudioSettings { levels: with_output_level(s.levels, level), ..s }),
{
}

/// Whether `m` remembers `a` as its last resolution.
pub open spec fn remembers(m: AudioManager, a: AppliedAudio) -> bool {
    m.last_resolved matches Some(p) && same_application(p, a) && p.state.reported_at
        == a.state.reported_at
}

/// The settings and levels the device should play with, and what it last
/// resolved them to. Storing the settings and writing the ALSA configuration
/// are the caller's: `apply` and `set_output_level` change the settings to
/// store; `resolve` computes what to play with.
#[derive(Debug, PartialEq, Eq)]
pub struct AudioManager {
    pub desired_revision: u64,
    pub desired: AudioSettings,
    pub input_meter: Option<AudioInputMeter>,
    pub last_resolved: Option<AppliedAudio>,
    pub builtin: BuiltinAudioDevices,
}

pub fn is_builtin(id: &str) -> (r: bool)
    ensures
        r == is_builtin_id(id@),
{
    str_starts_with(id, "builtin-")
}

fn min8(a: u8, b: u8) -> (r: u8)
    ensures
        r == min_u8(a, b),
{
    if a < b {
        a
    } else {
        b
    }
}

fn choose_device(builtin: bool, device: &String, other: &str) -> (r: String)
    ensures
        r@ == (if builtin {
            device@
        } else {
            other@
        }),
{
    if builtin {
        device.clone()
    } else {
        owned(other)
    }
}

impl AudioManager {
    /// The manager for the stored settings (revision and settings), or the
    /// defaults at revision 0 when nothing is stored.
    pub fn open_at_with_builtin(stored: Option<(u64, AudioSettings)>, builtin: BuiltinAudioDevices) -> (m:
        Self)
        ensures
            m.desired_revision == (match stored {
                Some(s) => s.0,
                None => 0,
            }),
            stored matches Some(s) ==> m.desired == s.1,
            stored is None ==> settings_view(m.desired) == default_settings_view(),
            m.input_meter is None,
            m.last_resolved is None,
            m.builtin == builtin,
    {
        match stored {
            Some((revision, settings)) => AudioManager {
                desired_revision: revision,
                desired: settings,
                input_meter: None,
                last_resolved: None,
                builtin,
            },
            None => AudioManager {
                desired_revision: 0,
                desired: AudioSettings::defaults(),
                input_meter: None,
                last_resolved: None,
                builtin,
            },
        }
    }

    /// Accepts settings from the cloud: they must be valid, and a revision
    /// older than the current one, or the current revision with other
    /// settings (a local change since), is refused.
    pub fn apply(&mut self, revision: u64, settings: AudioSettings) -> (r: Result<
        (),
        AudioOperationError,
    >)
        ensures
            r is Ok <==> accepts(*old(self), revision, settings),
            r matches Err(e) ==> e.code@ == "audio_invalid_settings"@,
            r is Ok ==> *final(self) == (AudioManager {
                desired_revision: revision,
                desired: settings,
                ..*old(self)
            }),
            r is Err ==> *final(self) == *old(self),
    {
        validate_settings(&settings)?;
        if revision < self.desired_revision || (revision == self.desired_revision && !settings_eq(
            &settings,
            &self.desired,
        )) {
            return Err(
                AudioOperationError::invalid(
                    "A newer or locally changed audio configuration is already active",
                ),
            );
        }
        self.desired_revision = revision;
        self.desired = settings;
        Ok(())
    }

    /// Sets every output level to `level` (alerts no lower than 20), held
    /// under the configured cap, which is itself read as 20 to 100.
    pub fn set_output_level(&mut self, level: u8)
        ensures
            final(self).desired.levels == with_output_level(old(self).desired.levels, level),
            final(self).desired.routes == old(self).desired.routes,
            final(self).desired.alert_policy == old(self).desired.alert_policy,
            final(self).desired.fallback_policy == old(self).desired.fallback_policy,
            final(self).desired_revision == old(self).desired_revision,
            final(self).input_meter == old(self).input_meter,
            final(self).last_resolved == old(self).last_resolved,
            final(self).builtin == old(self).builtin,
    {
        let m = self.desired.levels.max_output;
        let cap = if m < 20 {
            20
        } else if m > 100 {
            100
        } else {
            m
        };
        let level = min8(level, cap);
        self.desired.levels.media = level;
        self.desired.levels.communication = level;
        self.desired.levels.alerts = min8(
            if level < 20 {
                20
            } else {
                level
            },
            cap,
        );
    }

    /// Resolves the routes against the Bluetooth state at `now` and records
    /// the result.
    pub fn resolve_at(&mut self, bluetooth_state: &BluetoothState, now: u64) -> (a: AppliedAudio)
        ensures
            resolves_to(*old(self), *bluetooth_state, now, a),
            remembers(*final(self), a),
            final(self).input_meter == live_meter(old(self).input_meter, now),
            final(self).desired == old(self).desired,
            final(self).desired_revision == old(self).desired_revision,
            final(self).builtin == old(self).builtin,
    {
        if let Some(meter) = self.input_meter {
            if meter.expires_at <= now {
                self.input_meter = None;
            }
        }
        let d = &self.desired;
        let accs = &bluetooth_state.accessories;
        let media = match connected(accs, d.routes.media_output_id.as_str()) {
            Some(i) => if accs[i].capabilities.stereo || accs[i].capabilities.hands_free {
                Some(i)
            } else {
                None
            },
            None => None,
        };
        let media_uses_sco = match media {
            Some(i) => !accs[i].capabilities.stereo,
            None => false,
        };
        let out = match connected(accs, d.routes.communication_output_id.as_str()) {
            Some(i) => if accs[i].capabilities.hands_free {
                Some(i)
            } else {
                None
            },
            None => None,
        };
        let input = match connected(accs, d.routes.communication_input_id.as_str()) {
            Some(i) => if accs[i].capabilities.microphone {
                Some(i)
            } else {
                None
            },
            None => None,
        };
        let media_fb = !is_builtin(d.routes.media_output_id.as_str()) && media.is_none();
        let out_fb = !is_builtin(d.routes.communication_output_id.as_str()) && out.is_none();
        let in_fb = !is_builtin(d.routes.communication_input_id.as_str()) && input.is_none();
        let fallback = media_fb || out_fb || in_fb;
        let media_builtin = media_fb || str_eq(d.routes.media_output_id.as_str(), "builtin-speaker");
        let out_builtin = out_fb || str_eq(d.routes.communication_output_id.as_str(), "builtin-speaker");
        let in_builtin = in_fb || str_eq(d.routes.communication_input_id.as_str(), "builtin-microphone");
        let media_device = if media_builtin {
            self.builtin.media.clone()
        } else if media_uses_sco {
            owned("alsa/yoyopod_bt_sco")
        } else {
            owned("alsa/yoyopod_bt_a2dp")
        };
        let route = AudioRouteLocal {
            media_device,
            media_volume: min8(d.levels.media, d.levels.max_output),
            voip_playback_device: choose_device(out_builtin, &self.builtin.voip_playback, "ALSA: yoyopod_bt_sco"),
            voip_ringer_device: self.builtin.voip_ringer.clone(),
            voip_capture_device: choose_device(in_builtin, &self.builtin.voip_capture, "ALSA: yoyopod_bt_sco"),
            voip_media_device: choose_device(out_builtin, &self.builtin.voip_media, "ALSA: yoyopod_bt_sco"),
            communication_volume: min8(d.levels.communication, d.levels.max_output),
            microphone_gain: d.levels.microphone_gain,
        };
        let applied = applied_settings(d, media_fb, out_fb, in_fb);
        let degraded = str_eq(bluetooth_state.status.as_str(), "unavailable") || fallback;
        let state = AudioState {
            schema_version: 1,
            status: if degraded {
                owned("degraded")
            } else {
                owned("ready")
            },
            applied_revision: self.desired_revision,
            applied,
            endpoints: endpoints(bluetooth_state),
            fallback_reason: if fallback {
                Some(owned("A selected Bluetooth route is disconnected; built-in audio is active"))
            } else {
                None
            },
            input_meter: self.input_meter,
            reported_at: now,
        };
        let result = AppliedAudio { state, route };
        self.last_resolved = Some(result.clone());
        result
    }

    /// Accepts settings from the cloud (as `apply`) and resolves them against
    /// the Bluetooth state at `now`: the applied audio, or the refusal.
    /// Storing the accepted settings is the caller's, before it reports them.
    pub fn apply_and_resolve(
        &mut self,
        revision: u64,
        settings: AudioSettings,
        bluetooth_state: &BluetoothState,
        now: u64,
    ) -> (r: Result<AppliedAudio, AudioOperationError>)
        ensures
            r is Ok <==> accepts(*old(self), revision, settings),
            r matches Err(e) ==> e.code@ == "audio_invalid_settings"@ && *final(self) == *old(self),
            r matches Ok(a) ==> {
                let applied = AudioManager { desired_revision: revision, desired: settings, ..*old(self) };
                &&& resolves_to(applied, *bluetooth_state, now, a)
                &&& remembers(*final(self), a)
                &&& final(self).desired == settings
                &&& final(self).desired_revision == revision
                &&& final(self).builtin == old(self).builtin
                &&& final(self).input_meter == live_meter(old(self).input_meter, now)
            },
    {
        match self.apply(revision, settings) {
            Ok(()) => Ok(self.resolve_at(bluetooth_state, now)),
            Err(e) => Err(e),
        }
    }

    /// Sets the output level (as `set_output_level`) and resolves the
    /// routes against the Bluetooth state at `now`. Storing the new levels
    /// is the caller's.
    pub fn set_output_level_and_resolve(&mut self, level: u8, bluetooth_state: &BluetoothState, now: u64) -> (a:
        AppliedAudio)
        ensures
            final(self).desired.levels == with_output_level(old(self).desired.levels, level),
            final(self).desired.routes == old(self).desired.routes,
            final(self).desired_revision == old(self).desired_revision,
            resolves_to(
                AudioManager {
                    desired: AudioSettings { levels: with_output_level(old(self).desired.levels, level), ..old(self).desired },
                    ..*old(self)
                },
                *bluetooth_state,
                now,
                a,
            ),
            remembers(*final(self), a),
    {
        self.set_output_level(level);
        proof {
            assert(self.desired == AudioSettings { levels: with_output_level(old(self).desired.levels, level), ..old(self).desired });
        }
        self.resolve_at(bluetooth_state, now)
    }

    /// Resolves the routes now.
    pub fn current(&mut self, bluetooth_state: &BluetoothState) -> (a: AppliedAudio)
        ensures
            resolves_to(*old(self), *bluetooth_state, a.state.reported_at, a),
            remembers(*final(self), a),
            final(self).input_meter == live_meter(old(self).input_meter, a.state.reported_at),
            final(self).desired == old(self).desired,
            final(self).desired_revision == old(self).desired_revision,
            final(self).builtin == old(self).builtin,
    {
        let now = epoch_seconds();
        self.resolve_at(bluetooth_state, now)
    }

    /// Resolves the routes now, and returns the result only when it applies
    /// something other than the previous resolution.
    pub fn current_if_changed(&mut self, bluetooth_state: &BluetoothState) -> (r: Option<AppliedAudio>)
        ensures
            exists|a: AppliedAudio|
                #![auto]
                resolves_to(*old(self), *bluetooth_state, a.state.reported_at, a)
                    && remembers(*final(self), a)
                    && (r is Some <==> !(old(self).last_resolved matches Some(p) && same_application(p, a)))
                    && (r matches Some(x) ==> x == a),
            final(self).desired == old(self).desired,
            final(self).desired_revision == old(self).desired_revision,
            final(self).builtin == old(self).builtin,
    {
        let previous = match &self.last_resolved {
            Some(p) => Some(p.clone()),
            None => None,
        };
        let applied = self.current(bluetooth_state);
        let unchanged = match &previous {
            Some(p) => same_audio_application(p, &applied),
            None => false,
        };
        if unchanged {
            None
        } else {
            Some(applied)
        }
    }
}

} // verus!

verus! {

// ---------------------------------------------------------------------------
// Comparing resolutions
// ---------------------------------------------------------------------------

fn opt_string_eq(a: &Option<String>, b: &Option<String>) -> (r: bool)
    ensures
        r == (opt_view(*a) == opt_view(*b)),
{
    match (a, b) {
        (Some(x), Some(y)) => str_eq(x.as_str(), y.as_str()),
        (None, None) => true,
        _ => false,
    }
}

fn endpoint_eq(a: &AudioEndpoint, b: &AudioEndpoint) -> (r: bool)
    ensures
        r == (endpoint_view(*a) == endpoint_view(*b)),
{
    str_eq(a.endpoint_id.as_str(), b.endpoint_id.as_str()) && str_eq(a.name.as_str(), b.name.as_str())
        && str_eq(a.kind.as_str(), b.kind.as_str()) && opt_string_eq(&a.accessory_id, &b.accessory_id)
        && a.available == b.available
}

fn endpoints_eq(a: &Vec<AudioEndpoint>, b: &Vec<AudioEndpoint>) -> (r: bool)
    ensures
        r == (endpoints_view(a@) == endpoints_view(b@)),
{
    if a.len() != b.len() {
        assert(endpoints_view(a@).len() != endpoints_view(b@).len());
        return false;
    }
    let mut i: usize = 0;
    while i < a.len()
        invariant
            a@.len() == b@.len(),
            i <= a@.len(),
            forall|j: int| 0 <= j < i ==> endpoint_view(#[trigger] a@[j]) == endpoint_view(b@[j]),
        decreases a.len() - i,
    {
        if !endpoint_eq(&a[i], &b[i]) {
            assert(endpoints_view(a@)[i as int] != endpoints_view(b@)[i as int]);
            return false;
        }
        i = i + 1;
    }
    assert(endpoints_view(a@) =~= endpoints_view(b@)) by {
        assert forall|j: int| 0 <= j < a@.len() implies endpoints_view(a@)[j] == endpoints_view(b@)[j] by {
            assert(endpoint_view(a@[j]) == endpoint_view(b@[j]));
        }
    }
    true
}

fn route_eq(a: &AudioRouteLocal, b: &AudioRouteLocal) -> (r: bool)
    ensures
        r == (route_view(*a) == route_view(*b)),
{
    str_eq(a.media_device.as_str(), b.media_device.as_str()) && a.media_volume == b.media_volume
        && str_eq(a.voip_playback_device.as_str(), b.voip_playback_device.as_str()) && str_eq(
        a.voip_ringer_device.as_str(),
        b.voip_ringer_device.as_str(),
    ) && str_eq(a.voip_capture_device.as_str(), b.voip_capture_device.as_str()) && str_eq(
        a.voip_media_device.as_str(),
        b.voip_media_device.as_str(),
    ) && a.communication_volume == b.communication_volume && a.microphone_gain == b.microphone_gain
}

fn meter_eq(a: &Option<AudioInputMeter>, b: &Option<AudioInputMeter>) -> (r: bool)
    ensures
        r == (*a == *b),
{
    match (a, b) {
        (Some(x), Some(y)) => x.level_percent == y.level_percent && x.expires_at == y.expires_at,
        (None, None) => true,
        _ => false,
    }
}

/// Whether two resolutions apply the same routes and state, whenever each was
/// reported.
pub fn same_audio_application(left: &AppliedAudio, right: &AppliedAudio) -> (r: bool)
    ensures
        r == same_application(*left, *right),
{
    let a = &left.state;
    let b = &right.state;
    route_eq(&left.route, &right.route) && a.schema_version == b.schema_version && str_eq(
        a.status.as_str(),
        b.status.as_str(),
    ) && a.applied_revision == b.applied_revision && settings_eq(&a.applied, &b.applied)
        && endpoints_eq(&a.endpoints.outputs, &b.endpoints.outputs) && endpoints_eq(
        &a.endpoints.inputs,
        &b.endpoints.inputs,
    ) && opt_string_eq(&a.fallback_reason, &b.fallback_reason) && meter_eq(
        &a.input_meter,
        &b.input_meter,
    )
}

// ---------------------------------------------------------------------------
// ALSA device names and the player's arguments
// ---------------------------------------------------------------------------

/// The ALSA name of a device, without the `alsa/` or `ALSA: ` prefix that
/// players and call stacks put before it.
pub open spec fn local_alsa_spec(device: Seq<char>) -> Seq<char> {
    if has_prefix(device, "alsa/"@) {
        device.skip(5)
    } else if has_prefix(device, "ALSA: "@) {
        device.skip(6)
    } else {
        device
    }
}

pub fn local_alsa_device(device: &str) -> (r: String)
    ensures
        r@ == local_alsa_spec(device@),
{
    proof {
        reveal_strlit("alsa/");
        reveal_strlit("ALSA: ");
    }
    let d = chars_of(device);
    if chars_start_with(&d, &chars_of("alsa/")) {
        string_of(&skip_chars(&d, 5))
    } else if chars_start_with(&d, &chars_of("ALSA: ")) {
        string_of(&skip_chars(&d, 6))
    } else {
        owned(device)
    }
}

/// The name mpv knows a device by: `alsa/` and the ALSA name.
pub open spec fn mpv_alsa_spec(device: Seq<char>) -> Seq<char> {
    if has_prefix(device, "alsa/"@) {
        device
    } else {
        "alsa/"@ + local_alsa_spec(device)
    }
}

pub fn mpv_alsa_device(device: &str) -> (r: String)
    ensures
        r@ == mpv_alsa_spec(device@),
{
    if str_starts_with(device, "alsa/") {
        owned(device)
    } else {
        let mut out: Vec<char> = Vec::new();
        push_str(&mut out, "alsa/");
        let local = local_alsa_device(device);
        push_str(&mut out, local.as_str());
        string_of(&out)
    }
}

/// The arguments that make mpv play `sample` once on `audio_device`, at
/// `volume` (at most 100) and with its volume ceiling at 100.
pub open spec fn output_test_args_spec(audio_device: Seq<char>, volume: u8, sample: Seq<char>) -> Seq<
    Seq<char>,
> {
    seq![
        "--no-config"@,
        "--really-quiet"@,
        "--no-video"@,
        "--audio-display=no"@,
        "--ao=alsa"@,
        "--audio-device="@ + audio_device,
        "--volume="@ + decimal(min_u8(volume, 100) as nat),
        "--volume-max=100"@,
        sample,
    ]
}

pub open spec fn strings_view(v: Seq<String>) -> Seq<Seq<char>> {
    v.map_values(|s: String| s@)
}

pub fn output_test_args(audio_device: &str, volume: u8, sample: &str) -> (args: Vec<String>)
    ensures
        strings_view(args@) == output_test_args_spec(audio_device@, volume, sample@),
{
    let mut device: Vec<char> = Vec::new();
    push_str(&mut device, "--audio-device=");
    push_str(&mut device, audio_device);
    let mut level: Vec<char> = Vec::new();
    push_str(&mut level, "--volume=");
    push_decimal(&mut level, min8(volume, 100) as u64);
    let args = vec![
        owned("--no-config"),
        owned("--really-quiet"),
        owned("--no-video"),
        owned("--audio-display=no"),
        owned("--ao=alsa"),
        string_of(&device),
        string_of(&level),
        owned("--volume-max=100"),
        owned(sample),
    ];
    assert(strings_view(args@) =~= output_test_args_spec(audio_device@, volume, sample@));
    args
}

/// How long a microphone test records: the asked seconds, held to 1 to 10.
pub fn input_test_seconds(duration_seconds: u64) -> (d: u64)
    ensures
        d == (if duration_seconds < 1 {
            1
        } else if duration_seconds > 10 {
            10
        } else {
            duration_seconds
        }),
{
    if duration_seconds < 1 {
        1
    } else if duration_seconds > 10 {
        10
    } else {
        duration_seconds
    }
}

/// The loudest sample of a little-endian 16-bit capture, as a magnitude.
pub open spec fn sample_magnitude(lo: u8, hi: u8) -> int {
    let v = hi as int * 256 + lo as int;
    if v >= 32768 {
        65536 - v
    } else {
        v
    }
}

pub open spec fn peak_of(bytes: Seq<u8>, pairs: nat) -> int
    decreases pairs,
{
    if pairs == 0 {
        0
    } else {
        let p = (pairs - 1) as nat;
        let m = sample_magnitude(bytes[2 * p as int], bytes[2 * p as int + 1]);
        let rest = peak_of(bytes, p);
        if m > rest {
            m
        } else {
            rest
        }
    }
}

/// The level a recording reached: its loudest sample against full scale
/// (32767), in percent, at most 100.
pub open spec fn input_level_spec(bytes: Seq<u8>) -> int {
    let pct = peak_of(bytes, bytes.len() / 2) * 100 / 32767;
    if pct > 100 {
        100
    } else {
        pct
    }
}

pub proof fn lemma_peak_bounds(bytes: Seq<u8>, pairs: nat)
    requires
        2 * pairs <= bytes.len(),
    ensures
        0 <= peak_of(bytes, pairs) <= 32768,
    decreases pairs,
{
    if pairs > 0 {
        lemma_peak_bounds(bytes, (pairs - 1) as nat);
    }
}

pub fn input_level_percent(captured: &Vec<u8>) -> (p: u8)
    ensures
        p == input_level_spec(captured@),
{
    let pairs = captured.len() / 2;
    let mut peak: u32 = 0;
    let mut i: usize = 0;
    while i < pairs
        invariant
            pairs == captured@.len() / 2,
            i <= pairs,
            peak == peak_of(captured@, i as nat),
        decreases pairs - i,
    {
        proof {
            lemma_peak_bounds(captured@, i as nat);
        }
        assert(2 * i + 1 < captured.len()) by (nonlinear_arith)
            requires
                i < pairs,
                pairs == captured@.len() / 2,
        ;
        let lo = captured[2 * i];
        let hi = captured[2 * i + 1];
        let v: u32 = (hi as u32) * 256 + (lo as u32);
        let m: u32 = if v >= 32768 {
            65536 - v
        } else {
            v
        };
        if m > peak {
            peak = m;
        }
        i = i + 1;
    }
    proof {
        lemma_peak_bounds(captured@, pairs as nat);
    }
    let pct = peak * 100 / 32767;
    if pct > 100 {
        100
    } else {
        pct as u8
    }
}

/// The ALSA configuration that points the Bluetooth devices at the selected
/// accessories (an all-zero address when none is selected; input follows
/// output when it has none of its own).
pub open spec fn asound_config_spec(output: Option<Seq<char>>, input: Option<Seq<char>>) -> Seq<char> {
    let out = match output {
        Some(a) => a,
        None => "00:00:00:00:00:00"@,
    };
    let inp = match input {
        Some(a) => a,
        None => out,
    };
    "# Managed by YoYoPod. Bluetooth addresses stay on-device.\n</usr/share/alsa/alsa.conf>\npcm.yoyopod_bt_a2dp {\n  type bluealsa\n  device \""@
        + out + "\"\n  profile \"a2dp\"\n}\npcm.yoyopod_bt_sco {\n  type bluealsa\n  device \""@
        + inp + "\"\n  profile \"sco\"\n}\n"@
}

pub fn asound_config(output_address: Option<&str>, input_address: Option<&str>) -> (c: String)
    ensures
        c@ == asound_config_spec(
            match output_address {
                Some(a) => Some(a@),
                None => None,
            },
            match input_address {
                Some(a) => Some(a@),
                None => None,
            },
        ),
{
    let output = match output_address {
        Some(a) => a,
        None => "00:00:00:00:00:00",
    };
    let input = match input_address {
        Some(a) => a,
        None => output,
    };
    let mut out: Vec<char> = Vec::new();
    push_str(
        &mut out,
        "# Managed by YoYoPod. Bluetooth addresses stay on-device.\n</usr/share/alsa/alsa.conf>\npcm.yoyopod_bt_a2dp {\n  type bluealsa\n  device \"",
    );
    push_str(&mut out, output);
    push_str(&mut out, "\"\n  profile \"a2dp\"\n}\npcm.yoyopod_bt_sco {\n  type bluealsa\n  device \"");
    push_str(&mut out, input);
    push_str(&mut out, "\"\n  profile \"sco\"\n}\n");
    string_of(&out)
}

impl AudioManager {
    /// The device (as mpv names it) and volume a test sound for `target`
    /// plays with: media and calls on their routes at their volumes, alerts
    /// on the ringer at the alert level under the cap.
    pub fn output_test_target(&self, target: &str, route: &AudioRouteLocal) -> (r: Result<
        (String, u8),
        AudioOperationError,
    >)
        ensures
            target@ == "media"@ ==> (r matches Ok((d, v)) && d@ == mpv_alsa_spec(route.media_device@)
                && v == route.media_volume),
            target@ == "communication"@ ==> (r matches Ok((d, v)) && d@ == mpv_alsa_spec(
                route.voip_playback_device@,
            ) && v == route.communication_volume),
            target@ == "alerts"@ ==> (r matches Ok((d, v)) && d@ == mpv_alsa_spec(
                route.voip_ringer_device@,
            ) && v == min_u8(self.desired.levels.alerts, self.desired.levels.max_output)),
            target@ != "media"@ && target@ != "communication"@ && target@ != "alerts"@ ==> (r matches Err(
                e,
            ) && e.code@ == "audio_invalid_settings"@ && e.message@ == "Unknown audio test target"@),
    {
        proof {
            reveal_strlit("media");
            reveal_strlit("communication");
            reveal_strlit("alerts");
            assert("media"@.len() == 5);
            assert("alerts"@.len() == 6);
            assert("communication"@.len() == 13);
        }
        if str_eq(target, "media") {
            Ok((mpv_alsa_device(route.media_device.as_str()), route.media_volume))
        } else if str_eq(target, "communication") {
            Ok((mpv_alsa_device(route.voip_playback_device.as_str()), route.communication_volume))
        } else if str_eq(target, "alerts") {
            Ok(
                (
                    mpv_alsa_device(route.voip_ringer_device.as_str()),
                    min8(self.desired.levels.alerts, self.desired.levels.max_output),
                ),
            )
        } else {
            Err(AudioOperationError::invalid("Unknown audio test target"))
        }
    }

    /// The Bluetooth addresses the ALSA configuration points at: output to
    /// the media accessory, else the call output; input to the call input,
    /// else the call output. The backend is asked for the address of exactly
    /// the accessories `route_accessory_ids` picks; whatever it answers, an
    /// address stands only where its accessory is routed, and the two are
    /// chosen from the answers as `pick_route_addresses` states.
    pub fn route_addresses<B: BluetoothController>(&self, bluetooth: &B, bluetooth_state: &BluetoothState) -> (r: (
        Option<String>,
        Option<String>,
    ))
        ensures
            exists|media: Option<Seq<char>>, call_output: Option<Seq<char>>, call_input: Option<Seq<char>>|
                #![trigger first_some(media, call_output), first_some(call_input, call_output)]
                (media is Some ==> media_accessory(self.desired, *bluetooth_state) is Some) && (call_output is Some
                    ==> output_accessory(self.desired, *bluetooth_state) is Some) && (call_input is Some
                    ==> input_accessory(self.desired, *bluetooth_state) is Some) && opt_view(r.0) == first_some(
                    media,
                    call_output,
                ) && opt_view(r.1) == first_some(call_input, call_output),
    {
        let (media_id, output_id, input_id) = route_accessory_ids(&self.desired, bluetooth_state);
        let media = match &media_id {
            Some(id) => bluetooth.raw_address(id.as_str()),
            None => None,
        };
        let out = match &output_id {
            Some(id) => bluetooth.raw_address(id.as_str()),
            None => None,
        };
        let input = match &input_id {
            Some(id) => bluetooth.raw_address(id.as_str()),
            None => None,
        };
        let ghost (mv, ov, iv) = (opt_view(media), opt_view(out), opt_view(input));
        let r = pick_route_addresses(media, out, input);
        assert(opt_view(r.0) == first_some(mv, ov) && opt_view(r.1) == first_some(iv, ov));
        r
    }
}

/// The id of an accessory, if there is one.
pub open spec fn accessory_id_of(a: Option<BluetoothAccessory>) -> Option<Seq<char>> {
    match a {
        Some(x) => Some(x.accessory_id@),
        None => None,
    }
}

/// The accessories the ALSA routes may use, by id: the media accessory, the
/// call output and the call input, each only when connected and able to
/// carry its route.
pub fn route_accessory_ids(desired: &AudioSettings, bluetooth_state: &BluetoothState) -> (r: (
    Option<String>,
    Option<String>,
    Option<String>,
))
    ensures
        opt_view(r.0) == accessory_id_of(media_accessory(*desired, *bluetooth_state)),
        opt_view(r.1) == accessory_id_of(output_accessory(*desired, *bluetooth_state)),
        opt_view(r.2) == accessory_id_of(input_accessory(*desired, *bluetooth_state)),
{
    let accs = &bluetooth_state.accessories;
    let media = match connected(accs, desired.routes.media_output_id.as_str()) {
        Some(i) => if accs[i].capabilities.stereo || accs[i].capabilities.hands_free {
            Some(accs[i].accessory_id.clone())
        } else {
            None
        },
        None => None,
    };
    let out = match connected(accs, desired.routes.communication_output_id.as_str()) {
        Some(i) => if accs[i].capabilities.hands_free {
            Some(accs[i].accessory_id.clone())
        } else {
            None
        },
        None => None,
    };
    let input = match connected(accs, desired.routes.communication_input_id.as_str()) {
        Some(i) => if accs[i].capabilities.microphone {
            Some(accs[i].accessory_id.clone())
        } else {
            None
        },
        None => None,
    };
    (media, out, input)
}

pub open spec fn first_some(a: Option<Seq<char>>, b: Option<Seq<char>>) -> Option<Seq<char>> {
    match a {
        Some(x) => Some(x),
        None => b,
    }
}

/// The addresses the ALSA configuration points at, from what the backend
/// gave for the media accessory, the call output and the call input: output
/// to the media accessory, else the call output; input to the call input,
/// else the call output.
pub fn pick_route_addresses(media: Option<String>, call_output: Option<String>, call_input: Option<String>) -> (r: (
    Option<String>,
    Option<String>,
))
    ensures
        opt_view(r.0) == first_some(opt_view(media), opt_view(call_output)),
        opt_view(r.1) == first_some(opt_view(call_input), opt_view(call_output)),
{
    let output_address = match media {
        Some(a) => Some(a),
        None => match &call_output {
            Some(a) => Some(a.clone()),
            None => None,
        },
    };
    let input_address = match call_input {
        Some(a) => Some(a),
        None => call_output,
    };
    (output_address, input_address)
}

/// The five device settings, as found in one place (the environment or the
/// hardware file), each absent when not given there.
#[derive(Debug, Clone)]
pub struct AudioDeviceSources {
    pub media: Option<String>,
    pub voip_playback: Option<String>,
    pub voip_ringer: Option<String>,
    pub voip_capture: Option<String>,
    pub voip_media: Option<String>,
}

/// The raw strings at each device key of the hardware file: absent when the
/// text is not YAML.
pub type HardwareDeviceView = (Option<Seq<char>>, Option<Seq<char>>, Option<Seq<char>>, Option<Seq<char>>, Option<Seq<char>>);

/// The string at `section.key` of a YAML document, if there is one.
pub open spec fn yaml_string_at(doc: serde_yaml::Value, section: Seq<char>, key: Seq<char>) -> Option<Seq<char>> {
    match yaml_member(doc, section) {
        Some(s) => match yaml_member(s, key) {
            Some(v) => yaml_text(v),
            None => None,
        },
        None => None,
    }
}

/// What the hardware file says: the string at `media_audio.alsa_device` and
/// at each of `communication_audio`'s `playback_device_id`,
/// `ringer_device_id`, `capture_device_id` and `media_device_id`; nothing
/// when the text is not YAML.
pub open spec fn hardware_device_strings(text: Seq<char>) -> HardwareDeviceView {
    match yaml_parse(text) {
        Some(doc) => (
            yaml_string_at(doc, "media_audio"@, "alsa_device"@),
            yaml_string_at(doc, "communication_audio"@, "playback_device_id"@),
            yaml_string_at(doc, "communication_audio"@, "ringer_device_id"@),
            yaml_string_at(doc, "communication_audio"@, "capture_device_id"@),
            yaml_string_at(doc, "communication_audio"@, "media_device_id"@),
        ),
        None => (None, None, None, None, None),
    }
}

pub open spec fn sources_view(s: AudioDeviceSources) -> HardwareDeviceView {
    (opt_view(s.media), opt_view(s.voip_playback), opt_view(s.voip_ringer), opt_view(s.voip_capture), opt_view(s.voip_media))
}

fn string_at(doc: &serde_yaml::Value, section: &str, key: &str) -> (r: Option<String>)
    ensures
        opt_view(r) == yaml_string_at(*doc, section@, key@),
{
    match yaml_get(doc, section) {
        Some(s) => match yaml_get(&s, key) {
            Some(v) => yaml_as_text(&v),
            None => None,
        },
        None => None,
    }
}

/// Reads the device strings of the hardware file.
fn read_hardware_devices(text: &str) -> (r: AudioDeviceSources)
    ensures
        sources_view(r) == hardware_device_strings(text@),
{
    match parse_yaml(text) {
        Some(doc) => AudioDeviceSources {
            media: string_at(&doc, "media_audio", "alsa_device"),
            voip_playback: string_at(&doc, "communication_audio", "playback_device_id"),
            voip_ringer: string_at(&doc, "communication_audio", "ringer_device_id"),
            voip_capture: string_at(&doc, "communication_audio", "capture_device_id"),
            voip_media: string_at(&doc, "communication_audio", "media_device_id"),
        },
        None => AudioDeviceSources {
            media: None,
            voip_playback: None,
            voip_ringer: None,
            voip_capture: None,
            voip_media: None,
        },
    }
}

/// A setting's value: the environment's when not blank, else the hardware
/// file's (trimmed) when not blank, else the fallback.
pub open spec fn configured_spec(env: Option<Seq<char>>, file: Option<Seq<char>>, fallback: Seq<char>) -> Seq<char> {
    match env {
        Some(e) if crate::text::trim(e).len() > 0 => e,
        _ => match file {
            Some(f) if crate::text::trim(f).len() > 0 => crate::text::trim(f),
            _ => fallback,
        },
    }
}

fn configured(env: &Option<String>, file: &Option<String>, fallback: &str) -> (r: String)
    ensures
        r@ == configured_spec(opt_view(*env), opt_view(*file), fallback@),
{
    if let Some(e) = env {
        if crate::text::trimmed(e.as_str()).len() > 0 {
            return e.clone();
        }
    }
    if let Some(f) = file {
        let t = crate::text::trimmed(f.as_str());
        if t.len() > 0 {
            return string_of(&t);
        }
    }
    owned(fallback)
}

impl BuiltinAudioDevices {
    /// The built-in devices from the environment's settings and the hardware
    /// file's text (absent when it could not be read): each from the
    /// environment, else the file, else the WM8960 defaults; the media device
    /// as an mpv ALSA device.
    pub fn load(env: &AudioDeviceSources, hardware_file: Option<&str>) -> (d: Self)
        ensures
            ({
                let file: HardwareDeviceView = match hardware_file {
                    Some(t) => hardware_device_strings(t@),
                    None => (None, None, None, None, None),
                };
                let card = "ALSA: wm8960-soundcard"@;
                &&& d.media@ == mpv_alsa_spec(configured_spec(opt_view(env.media), file.0, "default"@))
                &&& d.voip_playback@ == configured_spec(opt_view(env.voip_playback), file.1, card)
                &&& d.voip_ringer@ == configured_spec(opt_view(env.voip_ringer), file.2, card)
                &&& d.voip_capture@ == configured_spec(opt_view(env.voip_capture), file.3, card)
                &&& d.voip_media@ == configured_spec(opt_view(env.voip_media), file.4, card)
            }),
    {
        let file = match hardware_file {
            Some(t) => read_hardware_devices(t),
            None => AudioDeviceSources {
                media: None,
                voip_playback: None,
                voip_ringer: None,
                voip_capture: None,
                voip_media: None,
            },
        };
        let card = "ALSA: wm8960-soundcard";
        let media = configured(&env.media, &file.media, "default");
        BuiltinAudioDevices {
            media: mpv_alsa_device(media.as_str()),
            voip_playback: configured(&env.voip_playback, &file.voip_playback, card),
            voip_ringer: configured(&env.voip_ringer, &file.voip_ringer, card),
            voip_capture: configured(&env.voip_capture, &file.voip_capture, card),
            voip_media: configured(&env.voip_media, &file.voip_media, card),
        }
    }
}

} // verus!
