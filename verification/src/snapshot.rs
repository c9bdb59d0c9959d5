//! The runtime's snapshot of the device as the UI renders it, and the
//! per-domain patches that update it. Keyed collections are held as lists of
//! (key, value) pairs with distinct keys, in key order.
use vstd::prelude::*;
use crate::text::owned;

verus! {

/// The screens of the UI.
#[derive(Debug, Clone, Copy, PartialEq, Eq, Structural)]
pub enum UiScreen {
    Hub,
    Listen,
    Playlists,
    PlaylistTracks,
    RecentTracks,
    NowPlaying,
    Talk,
    Contacts,
    CallHistory,
    TalkContact,
    Replay,
    VoiceNote,
    Ask,
    Power,
    Setup,
    SetupVolume,
    SetupCompanion,
    SetupTheme,
    SetupContacts,
    SetupWifi,
    SetupAbout,
    IncomingCall,
    OutgoingCall,
    InCall,
    Loading,
    Error,
}

/// The version reported when the runtime gives none.
pub const FIRMWARE_VERSION: &'static str = "0.1.0";

#[derive(Debug, Clone)]
pub struct ListItemSnapshot {
    pub id: String,
    pub title: String,
    pub subtitle: String,
    pub icon_key: String,
}

impl ListItemSnapshot {
    pub fn new(id: &str, title: &str, subtitle: &str, icon_key: &str) -> (item: Self)
        ensures
            item.id@ == id@,
            item.title@ == title@,
            item.subtitle@ == subtitle@,
            item.icon_key@ == icon_key@,
    {
        ListItemSnapshot { id: owned(id), title: owned(title), subtitle: owned(subtitle), icon_key: owned(icon_key) }
    }
}

#[derive(Debug, Clone)]
pub struct HubCardSnapshot {
    pub key: String,
    pub title: String,
    pub subtitle: String,
    pub accent: u32,
}

#[derive(Debug, Clone)]
pub struct HubRuntimeSnapshot {
    pub cards: Vec<HubCardSnapshot>,
}

fn card(key: &str, title: &str, accent: u32) -> (c: HubCardSnapshot)
    ensures
        c.key@ == key@,
        c.title@ == title@,
        c.subtitle@.len() == 0,
        c.accent == accent,
{
    HubCardSnapshot { key: owned(key), title: owned(title), subtitle: String::new(), accent }
}

impl Default for HubRuntimeSnapshot {
    /// The four home cards: Listen, Talk, Ask, Setup.
    fn default() -> (h: Self)
        ensures
            h.cards@.len() == 4,
            h.cards@[0].key@ == "listen"@ && h.cards@[0].accent == 0x00FF88,
            h.cards@[1].key@ == "talk"@ && h.cards@[1].accent == 0x00D4FF,
            h.cards@[2].key@ == "ask"@ && h.cards@[2].accent == 0xFFD000,
            h.cards@[3].key@ == "setup"@ && h.cards@[3].accent == 0x9CA3AF,
    {
        HubRuntimeSnapshot {
            cards: vec![
                card("listen", "Listen", 0x00FF88),
                card("talk", "Talk", 0x00D4FF),
                card("ask", "Ask", 0xFFD000),
                card("setup", "Setup", 0x9CA3AF),
            ],
        }
    }
}

#[derive(Debug, Clone)]
pub struct MusicRuntimeSnapshot {
    pub playing: bool,
    pub paused: bool,
    pub title: String,
    pub artist: String,
    pub progress_permille: i32,
    pub elapsed_text: String,
    pub total_text: String,
    pub playlists: Vec<ListItemSnapshot>,
    pub playlist_tracks: Vec<(String, Vec<ListItemSnapshot>)>,
    pub recent_tracks: Vec<ListItemSnapshot>,
}

impl Default for MusicRuntimeSnapshot {
    fn default() -> (m: Self)
        ensures
            !m.playing && !m.paused,
            m.title@ == "Nothing Playing"@,
            m.elapsed_text@ == "--:--"@ && m.total_text@ == "--:--"@,
            m.playlists@.len() == 0 && m.playlist_tracks@.len() == 0 && m.recent_tracks@.len() == 0,
    {
        MusicRuntimeSnapshot {
            playing: false,
            paused: false,
            title: owned("Nothing Playing"),
            artist: String::new(),
            progress_permille: 0,
            elapsed_text: owned("--:--"),
            total_text: owned("--:--"),
            playlists: Vec::new(),
            playlist_tracks: Vec::new(),
            recent_tracks: Vec::new(),
        }
    }
}

#[derive(Debug, Clone)]
pub struct SettingsRuntimeSnapshot {
    pub volume_level: i32,
    pub companion: String,
    pub theme: String,
    pub speak_names: bool,
    pub device_name: String,
    pub firmware_version: String,
}

impl Default for SettingsRuntimeSnapshot {
    fn default() -> (s: Self)
        ensures
            s.volume_level == 5,
            s.companion@ == "Bunny"@,
            s.theme@ == "Light"@,
            s.speak_names,
            s.device_name@ == "yoyopod"@,
            s.firmware_version@ == FIRMWARE_VERSION@,
    {
        SettingsRuntimeSnapshot {
            volume_level: 5,
            companion: owned("Bunny"),
            theme: owned("Light"),
            speak_names: true,
            device_name: owned("yoyopod"),
            firmware_version: owned(FIRMWARE_VERSION),
        }
    }
}

#[derive(Debug, Clone)]
pub struct VoiceNoteSummarySnapshot {
    pub message_id: String,
    pub direction: String,
    pub delivery_state: String,
    pub local_file_path: String,
    pub duration_ms: i32,
    pub unread: bool,
    pub display_name: String,
}

#[derive(Debug, Clone)]
pub struct CallRuntimeSnapshot {
    pub state: String,
    pub registered: bool,
    pub peer_name: String,
    pub peer_address: String,
    pub duration_text: String,
    pub muted: bool,
    pub contacts: Vec<ListItemSnapshot>,
    pub history: Vec<ListItemSnapshot>,
    pub unread_voice_notes_by_contact: Vec<(String, usize)>,
    pub latest_voice_note_by_contact: Vec<(String, VoiceNoteSummarySnapshot)>,
    pub voice_notes_by_contact: Vec<(String, Vec<VoiceNoteSummarySnapshot>)>,
}

impl Default for CallRuntimeSnapshot {
    fn default() -> (c: Self)
        ensures
            c.state@ == "idle"@,
            !c.registered && !c.muted,
            c.contacts@.len() == 0 && c.history@.len() == 0,
            c.voice_notes_by_contact@.len() == 0,
    {
        CallRuntimeSnapshot {
            state: owned("idle"),
            registered: false,
            peer_name: String::new(),
            peer_address: String::new(),
            duration_text: String::new(),
            muted: false,
            contacts: Vec::new(),
            history: Vec::new(),
            unread_voice_notes_by_contact: Vec::new(),
            latest_voice_note_by_contact: Vec::new(),
            voice_notes_by_contact: Vec::new(),
        }
    }
}

#[derive(Debug, Clone)]
pub struct VoiceRuntimeSnapshot {
    pub phase: String,
    pub headline: String,
    pub body: String,
    pub ask_unavailable: bool,
    pub capture_in_flight: bool,
    pub ptt_active: bool,
    pub recording_duration_ms: i32,
    pub capture_level_permille: i32,
    pub playback_active: bool,
    pub playback_paused: bool,
    pub playback_file_path: String,
    pub playback_elapsed_ms: i32,
    pub playback_duration_ms: i32,
}

impl Default for VoiceRuntimeSnapshot {
    fn default() -> (v: Self)
        ensures
            v.phase@ == "idle"@,
            v.headline@ == "Ask"@,
            v.body@ == "Ask me anything..."@,
            !v.capture_in_flight && !v.ptt_active && !v.playback_active,
    {
        VoiceRuntimeSnapshot {
            phase: owned("idle"),
            headline: owned("Ask"),
            body: owned("Ask me anything..."),
            ask_unavailable: false,
            capture_in_flight: false,
            ptt_active: false,
            recording_duration_ms: 0,
            capture_level_permille: 0,
            playback_active: false,
            playback_paused: false,
            playback_file_path: String::new(),
            playback_elapsed_ms: 0,
            playback_duration_ms: 0,
        }
    }
}

#[derive(Debug, Clone)]
pub struct PowerPageSnapshot {
    pub title: String,
    pub icon_key: String,
    pub rows: Vec<String>,
}

#[derive(Debug, Clone)]
pub struct PowerRuntimeSnapshot {
    pub battery_percent: i32,
    pub charging: bool,
    pub power_available: bool,
    pub rows: Vec<String>,
    pub pages: Vec<PowerPageSnapshot>,
}

impl Default for PowerRuntimeSnapshot {
    fn default() -> (p: Self)
        ensures
            p.battery_percent == 100,
            !p.charging,
            p.power_available,
            p.rows@.len() == 0 && p.pages@.len() == 0,
    {
        PowerRuntimeSnapshot {
            battery_percent: 100,
            charging: false,
            power_available: true,
            rows: Vec::new(),
            pages: Vec::new(),
        }
    }
}

#[derive(Debug, Clone)]
pub struct NetworkRuntimeSnapshot {
    pub enabled: bool,
    pub connected: bool,
    pub connection_type: String,
    pub signal_strength: i32,
    pub gps_has_fix: bool,
}

impl Default for NetworkRuntimeSnapshot {
    fn default() -> (n: Self)
        ensures
            !n.enabled && !n.connected && !n.gps_has_fix,
            n.connection_type@ == "none"@,
            n.signal_strength == 0,
    {
        NetworkRuntimeSnapshot {
            enabled: false,
            connected: false,
            connection_type: owned("none"),
            signal_strength: 0,
            gps_has_fix: false,
        }
    }
}

/// The onboarding flow as the setup screen shows it. The password is the
/// hotspot's, never the home network's.
#[derive(Debug, Clone)]
pub struct WifiSetupRuntimeSnapshot {
    pub active: bool,
    pub phase: String,
    pub ap_ssid: String,
    pub ap_password: String,
    pub portal_url: String,
    pub qr_payload: String,
    pub status_text: String,
    pub error: String,
}

impl Default for WifiSetupRuntimeSnapshot {
    fn default() -> (w: Self)
        ensures
            !w.active,
            w.phase@ == "idle"@,
            w.ap_password@.len() == 0,
    {
        WifiSetupRuntimeSnapshot {
            active: false,
            phase: owned("idle"),
            ap_ssid: String::new(),
            ap_password: String::new(),
            portal_url: String::new(),
            qr_payload: String::new(),
            status_text: String::new(),
            error: String::new(),
        }
    }
}

#[derive(Debug, Clone)]
pub struct OverlayRuntimeSnapshot {
    pub loading: bool,
    pub error: String,
    pub message: String,
    pub retryable: bool,
    pub code: String,
    pub source: String,
    pub retry_count: u8,
}

impl Default for OverlayRuntimeSnapshot {
    fn default() -> (o: Self)
        ensures
            !o.loading && !o.retryable,
            o.error@.len() == 0,
            o.retry_count == 0,
    {
        OverlayRuntimeSnapshot {
            loading: false,
            error: String::new(),
            message: String::new(),
            retryable: false,
            code: String::new(),
            source: String::new(),
            retry_count: 0,
        }
    }
}

#[derive(Debug, Clone)]
pub struct RuntimeSnapshot {
    pub app_state: UiScreen,
    pub hub: HubRuntimeSnapshot,
    pub music: MusicRuntimeSnapshot,
    pub call: CallRuntimeSnapshot,
    pub voice: VoiceRuntimeSnapshot,
    pub power: PowerRuntimeSnapshot,
    pub settings: SettingsRuntimeSnapshot,
    pub network: NetworkRuntimeSnapshot,
    pub wifi_setup: WifiSetupRuntimeSnapshot,
    pub overlay: OverlayRuntimeSnapshot,
}

impl Default for RuntimeSnapshot {
    /// The home screen with every domain at its default.
    fn default() -> (s: Self)
        ensures
            s.app_state == UiScreen::Hub,
            s.hub.cards@.len() == 4,
            s.music.playlists@.len() == 0,
            s.call.contacts@.len() == 0,
            s.call.voice_notes_by_contact@.len() == 0,
            s.voice.phase@ == "idle"@,
            !s.voice.capture_in_flight && !s.voice.ptt_active,
            s.power.rows@.len() == 0 && s.power.pages@.len() == 0,
    {
        RuntimeSnapshot {
            app_state: UiScreen::Hub,
            hub: HubRuntimeSnapshot::default(),
            music: MusicRuntimeSnapshot::default(),
            call: CallRuntimeSnapshot::default(),
            voice: VoiceRuntimeSnapshot::default(),
            power: PowerRuntimeSnapshot::default(),
            settings: SettingsRuntimeSnapshot::default(),
            network: NetworkRuntimeSnapshot::default(),
            wifi_setup: WifiSetupRuntimeSnapshot::default(),
            overlay: OverlayRuntimeSnapshot::default(),
        }
    }
}

/// The domains a snapshot is patched by.
#[derive(Debug, Clone, Copy, PartialEq, Eq, Structural)]
pub enum RuntimeSnapshotDomain {
    Full,
    AppState,
    Hub,
    Music,
    Call,
    Voice,
    Power,
    Settings,
    Network,
    WifiSetup,
    Overlay,
}

/// A new value for one domain of the snapshot, or for all of it.
#[derive(Debug, Clone)]
pub enum RuntimeSnapshotPatch {
    Full(RuntimeSnapshot),
    AppState(UiScreen),
    Hub(HubRuntimeSnapshot),
    Music(MusicRuntimeSnapshot),
    Call(CallRuntimeSnapshot),
    Voice(VoiceRuntimeSnapshot),
    Power(PowerRuntimeSnapshot),
    Settings(SettingsRuntimeSnapshot),
    Network(NetworkRuntimeSnapshot),
    WifiSetup(WifiSetupRuntimeSnapshot),
    Overlay(OverlayRuntimeSnapshot),
}

impl RuntimeSnapshotPatch {
    /// The domain the patch replaces.
    pub fn domain(&self) -> (d: RuntimeSnapshotDomain)
        ensures
            d == (match *self {
                RuntimeSnapshotPatch::Full(_) => RuntimeSnapshotDomain::Full,
                RuntimeSnapshotPatch::AppState(_) => RuntimeSnapshotDomain::AppState,
                RuntimeSnapshotPatch::Hub(_) => RuntimeSnapshotDomain::Hub,
                RuntimeSnapshotPatch::Music(_) => RuntimeSnapshotDomain::Music,
                RuntimeSnapshotPatch::Call(_) => RuntimeSnapshotDomain::Call,
                RuntimeSnapshotPatch::Voice(_) => RuntimeSnapshotDomain::Voice,
                RuntimeSnapshotPatch::Power(_) => RuntimeSnapshotDomain::Power,
                RuntimeSnapshotPatch::Settings(_) => RuntimeSnapshotDomain::Settings,
                RuntimeSnapshotPatch::Network(_) => RuntimeSnapshotDomain::Network,
                RuntimeSnapshotPatch::WifiSetup(_) => RuntimeSnapshotDomain::WifiSetup,
                RuntimeSnapshotPatch::Overlay(_) => RuntimeSnapshotDomain::Overlay,
            }),
    {
        match self {
            RuntimeSnapshotPatch::Full(_) => RuntimeSnapshotDomain::Full,
            RuntimeSnapshotPatch::AppState(_) => RuntimeSnapshotDomain::AppState,
            RuntimeSnapshotPatch::Hub(_) => RuntimeSnapshotDomain::Hub,
            RuntimeSnapshotPatch::Music(_) => RuntimeSnapshotDomain::Music,
            RuntimeSnapshotPatch::Call(_) => RuntimeSnapshotDomain::Call,
            RuntimeSnapshotPatch::Voice(_) => RuntimeSnapshotDomain::Voice,
            RuntimeSnapshotPatch::Power(_) => RuntimeSnapshotDomain::Power,
            RuntimeSnapshotPatch::Settings(_) => RuntimeSnapshotDomain::Settings,
            RuntimeSnapshotPatch::Network(_) => RuntimeSnapshotDomain::Network,
            RuntimeSnapshotPatch::WifiSetup(_) => RuntimeSnapshotDomain::WifiSetup,
            RuntimeSnapshotPatch::Overlay(_) => RuntimeSnapshotDomain::Overlay,
        }
    }
}

} // verus!
