//! What the screen reader says for the focused item: a key that names the
//! item and the label spoken for it, screen by screen.
use vstd::prelude::*;
use crate::snapshot::{ListItemSnapshot, RuntimeSnapshot, UiScreen};
use crate::text::{ascii_case_eq, decimal, eq_ignore_ascii_case, owned, push_decimal, push_str, string_of};
use crate::ui_state::{voice_note_phase, voice_phase_spec};

verus! {

/// The focused item as spoken: its key and label.
#[derive(Debug, Clone, PartialEq, Eq)]
pub struct FocusDescriptor {
    pub key: String,
    pub label: String,
}

pub type FocusView = (Seq<char>, Seq<char>);

pub open spec fn descriptor_view(d: Option<FocusDescriptor>) -> Option<FocusView> {
    match d {
        Some(x) => Some((x.key@, x.label@)),
        None => None,
    }
}

/// What the home screen shows.
#[derive(Debug, Clone, Copy, PartialEq, Eq, Structural)]
pub enum HomeMode {
    Idle,
    Focused,
    Ambient,
}

fn descriptor(key: &str, label: &str) -> (d: FocusDescriptor)
    ensures
        d.key@ == key@,
        d.label@ == label@,
{
    FocusDescriptor { key: owned(key), label: owned(label) }
}

/// The position focus lands on among `len` items: `focus`, held at the last.
pub open spec fn held_index(focus: usize, len: nat) -> nat {
    if len == 0 {
        0
    } else if focus < len - 1 {
        focus as nat
    } else {
        (len - 1) as nat
    }
}

pub open spec fn item_key(index: nat) -> Seq<char> {
    "item_"@ + decimal(index)
}

fn item_key_text(index: usize) -> (s: String)
    ensures
        s@ == item_key(index as nat),
{
    let mut out: Vec<char> = Vec::new();
    push_str(&mut out, "item_");
    push_decimal(&mut out, index as u64);
    string_of(&out)
}

fn held(focus: usize, len: usize) -> (i: usize)
    ensures
        i == held_index(focus, len as nat),
{
    if len == 0 {
        0
    } else if focus < len - 1 {
        focus
    } else {
        len - 1
    }
}

pub open spec fn labels_view(labels: Seq<&str>) -> Seq<Seq<char>> {
    labels.map_values(|l: &str| l@)
}

/// A fixed row of actions: the item at the held focus, keyed by its
/// position.
pub open spec fn static_spec(focus: usize, labels: Seq<Seq<char>>) -> FocusView {
    let i = held_index(focus, labels.len());
    (item_key(i), if i < labels.len() {
        labels[i as int]
    } else {
        Seq::empty()
    })
}

fn static_item(focus: usize, labels: &Vec<&str>) -> (d: FocusDescriptor)
    ensures
        (d.key@, d.label@) == static_spec(focus, labels_view(labels@)),
{
    let i = held(focus, labels.len());
    let label = if i < labels.len() {
        owned(labels[i])
    } else {
        String::new()
    };
    FocusDescriptor { key: item_key_text(i), label }
}

/// A list item by its id and title.
pub open spec fn list_item_view(item: ListItemSnapshot) -> FocusView {
    (item.id@, item.title@)
}

/// A list: an empty-state item when it has none, else the focused item (the
/// first when focus lies past the end).
pub open spec fn list_spec(items: Seq<ListItemSnapshot>, focus: usize, empty_label: Seq<char>) -> Option<FocusView> {
    if items.len() == 0 {
        Some(("empty"@, empty_label))
    } else if focus < items.len() {
        Some(list_item_view(items[focus as int]))
    } else {
        Some(list_item_view(items[0]))
    }
}

fn list_or_empty(items: &Vec<ListItemSnapshot>, focus: usize, empty_label: &str) -> (r: Option<FocusDescriptor>)
    ensures
        descriptor_view(r) == list_spec(items@, focus, empty_label@),
{
    if items.len() == 0 {
        Some(descriptor("empty", empty_label))
    } else if focus < items.len() {
        Some(descriptor(items[focus].id.as_str(), items[focus].title.as_str()))
    } else {
        Some(descriptor(items[0].id.as_str(), items[0].title.as_str()))
    }
}

/// The transport's middle button: pause while playing, resume while paused,
/// else play.
pub open spec fn play_pause_spec(playing: bool, paused: bool) -> Seq<char> {
    if playing {
        "Pause"@
    } else if paused {
        "Resume"@
    } else {
        "Play"@
    }
}

fn play_pause_label(playing: bool, paused: bool) -> (l: &'static str)
    ensures
        l@ == play_pause_spec(playing, paused),
{
    if playing {
        "Pause"
    } else if paused {
        "Resume"
    } else {
        "Play"
    }
}

/// The first list keyed `key`.
pub open spec fn keyed_at<T>(pairs: Seq<(String, Vec<T>)>, key: Seq<char>) -> Option<Seq<T>>
    decreases pairs.len(),
{
    if pairs.len() == 0 {
        None
    } else if pairs[0].0@ == key {
        Some(pairs[0].1@)
    } else {
        keyed_at(pairs.drop_first(), key)
    }
}

fn keyed_list<'a, T>(pairs: &'a Vec<(String, Vec<T>)>, key: &str) -> (r: Option<&'a Vec<T>>)
    ensures
        match r {
            Some(v) => keyed_at(pairs@, key@) == Some(v@),
            None => keyed_at(pairs@, key@) is None,
        },
{
    let mut i: usize = 0;
    assert(pairs@.subrange(0, pairs@.len() as int) =~= pairs@);
    while i < pairs.len()
        invariant
            i <= pairs@.len(),
            keyed_at(pairs@, key@) == keyed_at(pairs@.subrange(i as int, pairs@.len() as int), key@),
        decreases pairs.len() - i,
    {
        let ghost rest = pairs@.subrange(i as int, pairs@.len() as int);
        assert(rest.drop_first() =~= pairs@.subrange(i + 1, pairs@.len() as int));
        assert(rest[0] == pairs@[i as int]);
        if crate::text::str_eq(pairs[i].0.as_str(), key) {
            return Some(&pairs[i].1);
        }
        i = i + 1;
    }
    None
}

/// Whether the contact shown on the replay screen (the selected one, else
/// the first) has no recordings.
pub open spec fn replay_empty(snapshot: RuntimeSnapshot, selected_contact: Option<ListItemSnapshot>) -> bool {
    let contact = match selected_contact {
        Some(c) => Some(c),
        None => if snapshot.call.contacts@.len() > 0 {
            Some(snapshot.call.contacts@[0])
        } else {
            None
        },
    };
    match contact {
        None => true,
        Some(c) => match keyed_at(snapshot.call.voice_notes_by_contact@, c.id@) {
            Some(notes) => notes.len() == 0,
            None => true,
        },
    }
}

fn replay_is_empty(snapshot: &RuntimeSnapshot, selected_contact: Option<&ListItemSnapshot>) -> (r: bool)
    ensures
        r == replay_empty(
            *snapshot,
            match selected_contact {
                Some(c) => Some(*c),
                None => None,
            },
        ),
{
    let contact = match selected_contact {
        Some(c) => c,
        None => {
            if snapshot.call.contacts.len() == 0 {
                return true;
            }
            &snapshot.call.contacts[0]
        },
    };
    match keyed_list(&snapshot.call.voice_notes_by_contact, contact.id.as_str()) {
        Some(notes) => notes.len() == 0,
        None => true,
    }
}

/// A choice among `labels`: the item at the held focus, marked current when
/// it names the current setting (in any ASCII case).
pub open spec fn choice_spec(focus: usize, labels: Seq<Seq<char>>, current: Seq<char>) -> Option<FocusView> {
    let i = held_index(focus, labels.len());
    if i < labels.len() {
        Some((item_key(i), if ascii_case_eq(labels[i as int], current) {
            labels[i as int] + ", current"@
        } else {
            labels[i as int]
        }))
    } else {
        None
    }
}

fn choice_item(focus: usize, labels: &Vec<&str>, current: &str) -> (r: Option<FocusDescriptor>)
    ensures
        descriptor_view(r) == choice_spec(focus, labels_view(labels@), current@),
{
    let i = held(focus, labels.len());
    if i >= labels.len() {
        return None;
    }
    let label = labels[i];
    let spoken = if eq_ignore_ascii_case(label, current) {
        let mut out: Vec<char> = Vec::new();
        push_str(&mut out, label);
        push_str(&mut out, ", current");
        string_of(&out)
    } else {
        owned(label)
    };
    Some(FocusDescriptor { key: item_key_text(i), label: spoken })
}

/// An integer as `{}` writes it.
pub open spec fn int_text(v: int) -> Seq<char> {
    if v < 0 {
        "-"@ + decimal((-v) as nat)
    } else {
        decimal(v as nat)
    }
}

fn push_i32(out: &mut Vec<char>, v: i32)
    ensures
        final(out)@ == old(out)@ + int_text(v as int),
{
    if v < 0 {
        let ghost before = out@;
        out.push('-');
        let magnitude: u64 = (0i64 - (v as i64)) as u64;
        push_decimal(out, magnitude);
        assert(out@ =~= before + ("-"@ + decimal((-(v as int)) as nat))) by {
            reveal_strlit("-");
        }
    } else {
        push_decimal(out, v as u64);
    }
}

/// The setup screen's rows, in the order the wheel shows them.
pub open spec fn setup_labels(snapshot: RuntimeSnapshot) -> Seq<Seq<char>> {
    seq![
        "Volume, level "@ + int_text(snapshot.settings.volume_level as int),
        "Companion, "@ + snapshot.settings.companion@,
        "Contacts, "@ + decimal(snapshot.call.contacts@.len()),
        "Theme, "@ + snapshot.settings.theme@,
        "Speak names, "@ + (if snapshot.settings.speak_names {
            "on"@
        } else {
            "off"@
        }),
        "Wi-Fi"@,
        "About"@,
    ]
}

fn setup_root_item(snapshot: &RuntimeSnapshot, focus: usize) -> (d: FocusDescriptor)
    ensures
        (d.key@, d.label@) == static_spec(focus, setup_labels(*snapshot)),
{
    let i = held(focus, 7);
    let mut out: Vec<char> = Vec::new();
    if i == 0 {
        push_str(&mut out, "Volume, level ");
        push_i32(&mut out, snapshot.settings.volume_level);
    } else if i == 1 {
        push_str(&mut out, "Companion, ");
        push_str(&mut out, snapshot.settings.companion.as_str());
    } else if i == 2 {
        push_str(&mut out, "Contacts, ");
        push_decimal(&mut out, snapshot.call.contacts.len() as u64);
    } else if i == 3 {
        push_str(&mut out, "Theme, ");
        push_str(&mut out, snapshot.settings.theme.as_str());
    } else if i == 4 {
        push_str(&mut out, "Speak names, ");
        push_str(&mut out, if snapshot.settings.speak_names {
            "on"
        } else {
            "off"
        });
    } else if i == 5 {
        push_str(&mut out, "Wi-Fi");
    } else {
        push_str(&mut out, "About");
    }
    FocusDescriptor { key: item_key_text(i), label: string_of(&out) }
}

/// The spoken item on each screen.
pub open spec fn focused_spec(
    screen: UiScreen,
    home_mode: HomeMode,
    focus: usize,
    snapshot: RuntimeSnapshot,
    selected_playlist: Option<ListItemSnapshot>,
    selected_contact: Option<ListItemSnapshot>,
) -> Option<FocusView> {
    match screen {
        UiScreen::Hub => if home_mode == HomeMode::Focused {
            let cards = snapshot.hub.cards@;
            if focus < cards.len() {
                Some((cards[focus as int].key@, cards[focus as int].title@))
            } else if cards.len() > 0 {
                Some((cards[0].key@, cards[0].title@))
            } else {
                None
            }
        } else {
            None
        },
        UiScreen::Listen => if focus < 3 {
            Some(
                seq![("playlists"@, "Playlists"@), ("recent_tracks"@, "Recent"@), ("shuffle"@, "Shuffle All"@)][focus as int],
            )
        } else {
            None
        },
        UiScreen::Playlists => list_spec(snapshot.music.playlists@, focus, "No playlists"@),
        UiScreen::PlaylistTracks => list_spec(
            match selected_playlist {
                Some(p) => match keyed_at(snapshot.music.playlist_tracks@, p.id@) {
                    Some(t) => t,
                    None => Seq::empty(),
                },
                None => Seq::empty(),
            },
            focus,
            "No tracks"@,
        ),
        UiScreen::RecentTracks => list_spec(snapshot.music.recent_tracks@, focus, "No recent tracks"@),
        UiScreen::NowPlaying => Some(
            static_spec(
                focus,
                seq!["Previous"@, play_pause_spec(snapshot.music.playing, snapshot.music.paused), "Next"@],
            ),
        ),
        UiScreen::Talk | UiScreen::Contacts | UiScreen::SetupContacts => list_spec(
            snapshot.call.contacts@,
            focus,
            "No contacts yet. Ask a grown-up!"@,
        ),
        UiScreen::CallHistory => list_spec(snapshot.call.history@, focus, "No recent calls"@),
        UiScreen::TalkContact => Some(static_spec(focus, seq!["Call"@, "Hold to record"@, "Replay"@])),
        UiScreen::Replay => if replay_empty(snapshot, selected_contact) {
            Some(("empty"@, "No recordings"@))
        } else {
            Some(
                static_spec(
                    focus,
                    seq!["Delete"@, play_pause_spec(snapshot.voice.playback_active, snapshot.voice.playback_paused), "Next"@],
                ),
            )
        },
        UiScreen::VoiceNote => {
            let phase = voice_phase_spec(
                snapshot.voice.phase@,
                snapshot.voice.capture_in_flight,
                snapshot.voice.ptt_active,
            );
            if phase == "review"@ {
                Some(static_spec(focus, seq!["Send"@, "Play"@, "Again"@]))
            } else if phase == "failed"@ {
                Some(static_spec(focus, seq!["Retry"@, "Again"@]))
            } else {
                None
            }
        },
        UiScreen::IncomingCall => Some(static_spec(focus, seq!["Answer call"@, "Reject call"@])),
        UiScreen::OutgoingCall => Some(("hang_up"@, "Hang up"@)),
        UiScreen::InCall => Some(
            static_spec(
                focus,
                seq![
                    if snapshot.call.muted {
                        "Unmute"@
                    } else {
                        "Mute"@
                    },
                    "Hang up"@,
                ],
            ),
        ),
        UiScreen::Setup => Some(static_spec(focus, setup_labels(snapshot))),
        UiScreen::SetupVolume => Some(("volume"@, "Volume, level "@ + int_text(snapshot.settings.volume_level as int))),
        UiScreen::SetupCompanion => choice_spec(
            focus,
            seq!["Blob"@, "Owl"@, "Cat"@, "Bunny"@, "Robot"@],
            snapshot.settings.companion@,
        ),
        UiScreen::SetupTheme => choice_spec(focus, seq!["Light"@, "Dark"@, "Auto"@], snapshot.settings.theme@),
        UiScreen::SetupAbout => Some(("about"@, "About"@)),
        UiScreen::Ask | UiScreen::Loading | UiScreen::Error | UiScreen::SetupWifi | UiScreen::Power => None,
    }
}

fn some_static(focus: usize, labels: &Vec<&str>) -> (r: Option<FocusDescriptor>)
    ensures
        descriptor_view(r) == Some(static_spec(focus, labels_view(labels@))),
{
    Some(static_item(focus, labels))
}

/// The item the screen reader speaks on `screen`, if any.
/// On a list screen the spoken item is the focused one, by its id and
/// title, wherever it stands in the list (the last included); focus past
/// the end speaks the first item, and an empty list speaks its empty state.
pub proof fn lists_speak_the_focused_item(
    items: Seq<ListItemSnapshot>,
    focus: usize,
    empty_label: Seq<char>,
    home_mode: HomeMode,
    snapshot: RuntimeSnapshot,
    selected_playlist: Option<ListItemSnapshot>,
    selected_contact: Option<ListItemSnapshot>,
)
    ensures
        focus < items.len() ==> list_spec(items, focus, empty_label) == Some((items[focus as int].id@, items[focus as int].title@)),
        items.len() > 0 && focus >= items.len() ==> list_spec(items, focus, empty_label) == Some((items[0].id@, items[0].title@)),
        items.len() == 0 ==> list_spec(items, focus, empty_label) == Some(("empty"@, empty_label)),
        ({
            let playlists = snapshot.music.playlists@;
            focus < playlists.len() ==> focused_spec(
                UiScreen::Playlists,
                home_mode,
                focus,
                snapshot,
                selected_playlist,
                selected_contact,
            ) == Some((playlists[focus as int].id@, playlists[focus as int].title@))
        }),
        ({
            let tracks = snapshot.music.recent_tracks@;
            focus < tracks.len() ==> focused_spec(
                UiScreen::RecentTracks,
                home_mode,
                focus,
                snapshot,
                selected_playlist,
                selected_contact,
            ) == Some((tracks[focus as int].id@, tracks[focus as int].title@))
        }),
        ({
            let calls = snapshot.call.history@;
            focus < calls.len() ==> focused_spec(
                UiScreen::CallHistory,
                home_mode,
                focus,
                snapshot,
                selected_playlist,
                selected_contact,
            ) == Some((calls[focus as int].id@, calls[focus as int].title@))
        }),
        ({
            let contacts = snapshot.call.contacts@;
            focus < contacts.len() ==> focused_spec(
                UiScreen::Contacts,
                home_mode,
                focus,
                snapshot,
                selected_playlist,
                selected_contact,
            ) == Some((contacts[focus as int].id@, contacts[focus as int].title@))
        }),
{
}

pub fn focused_item(
    screen: UiScreen,
    home_mode: HomeMode,
    focus: usize,
    snapshot: &RuntimeSnapshot,
    selected_playlist: Option<&ListItemSnapshot>,
    selected_contact: Option<&ListItemSnapshot>,
) -> (r: Option<FocusDescriptor>)
    ensures
        descriptor_view(r) == focused_spec(
            screen,
            home_mode,
            focus,
            *snapshot,
            match selected_playlist {
                Some(p) => Some(*p),
                None => None,
            },
            match selected_contact {
                Some(c) => Some(*c),
                None => None,
            },
        ),
{
    match screen {
        UiScreen::Hub => {
            if home_mode != HomeMode::Focused {
                return None;
            }
            let cards = &snapshot.hub.cards;
            if focus < cards.len() {
                Some(descriptor(cards[focus].key.as_str(), cards[focus].title.as_str()))
            } else if cards.len() > 0 {
                Some(descriptor(cards[0].key.as_str(), cards[0].title.as_str()))
            } else {
                None
            }
        },
        UiScreen::Listen => {
            let r = if focus == 0 {
                Some(descriptor("playlists", "Playlists"))
            } else if focus == 1 {
                Some(descriptor("recent_tracks", "Recent"))
            } else if focus == 2 {
                Some(descriptor("shuffle", "Shuffle All"))
            } else {
                None
            };
            r
        },
        UiScreen::Playlists => list_or_empty(&snapshot.music.playlists, focus, "No playlists"),
        UiScreen::PlaylistTracks => {
            let empty: Vec<ListItemSnapshot> = Vec::new();
            let tracks = match selected_playlist {
                Some(p) => match keyed_list(&snapshot.music.playlist_tracks, p.id.as_str()) {
                    Some(t) => t,
                    None => &empty,
                },
                None => &empty,
            };
            list_or_empty(tracks, focus, "No tracks")
        },
        UiScreen::RecentTracks => list_or_empty(&snapshot.music.recent_tracks, focus, "No recent tracks"),
        UiScreen::NowPlaying => {
            let labels = vec!["Previous", play_pause_label(snapshot.music.playing, snapshot.music.paused), "Next"];
            assert(labels_view(labels@) =~= seq![
                "Previous"@,
                play_pause_spec(snapshot.music.playing, snapshot.music.paused),
                "Next"@,
            ]);
            some_static(focus, &labels)
        },
        UiScreen::Talk | UiScreen::Contacts | UiScreen::SetupContacts => list_or_empty(
            &snapshot.call.contacts,
            focus,
            "No contacts yet. Ask a grown-up!",
        ),
        UiScreen::CallHistory => list_or_empty(&snapshot.call.history, focus, "No recent calls"),
        UiScreen::TalkContact => {
            let labels = vec!["Call", "Hold to record", "Replay"];
            assert(labels_view(labels@) =~= seq!["Call"@, "Hold to record"@, "Replay"@]);
            some_static(focus, &labels)
        },
        UiScreen::Replay => {
            if replay_is_empty(snapshot, selected_contact) {
                Some(descriptor("empty", "No recordings"))
            } else {
                let labels = vec![
                    "Delete",
                    play_pause_label(snapshot.voice.playback_active, snapshot.voice.playback_paused),
                    "Next",
                ];
                assert(labels_view(labels@) =~= seq![
                    "Delete"@,
                    play_pause_spec(snapshot.voice.playback_active, snapshot.voice.playback_paused),
                    "Next"@,
                ]);
                some_static(focus, &labels)
            }
        },
        UiScreen::VoiceNote => {
            let phase = voice_note_phase(snapshot);
            if crate::text::str_eq(phase.as_str(), "review") {
                let labels = vec!["Send", "Play", "Again"];
                assert(labels_view(labels@) =~= seq!["Send"@, "Play"@, "Again"@]);
                some_static(focus, &labels)
            } else if crate::text::str_eq(phase.as_str(), "failed") {
                let labels = vec!["Retry", "Again"];
                assert(labels_view(labels@) =~= seq!["Retry"@, "Again"@]);
                some_static(focus, &labels)
            } else {
                None
            }
        },
        UiScreen::IncomingCall => {
            let labels = vec!["Answer call", "Reject call"];
            assert(labels_view(labels@) =~= seq!["Answer call"@, "Reject call"@]);
            some_static(focus, &labels)
        },
        UiScreen::OutgoingCall => Some(descriptor("hang_up", "Hang up")),
        UiScreen::InCall => {
            let mute = if snapshot.call.muted {
                "Unmute"
            } else {
                "Mute"
            };
            let labels = vec![mute, "Hang up"];
            assert(labels_view(labels@) =~= seq![
                if snapshot.call.muted {
                    "Unmute"@
                } else {
                    "Mute"@
                },
                "Hang up"@,
            ]);
            some_static(focus, &labels)
        },
        UiScreen::Setup => Some(setup_root_item(snapshot, focus)),
        UiScreen::SetupVolume => {
            let mut out: Vec<char> = Vec::new();
            push_str(&mut out, "Volume, level ");
            push_i32(&mut out, snapshot.settings.volume_level);
            Some(FocusDescriptor { key: owned("volume"), label: string_of(&out) })
        },
        UiScreen::SetupCompanion => {
            let labels = vec!["Blob", "Owl", "Cat", "Bunny", "Robot"];
            assert(labels_view(labels@) =~= seq!["Blob"@, "Owl"@, "Cat"@, "Bunny"@, "Robot"@]);
            choice_item(focus, &labels, snapshot.settings.companion.as_str())
        },
        UiScreen::SetupTheme => {
            let labels = vec!["Light", "Dark", "Auto"];
            assert(labels_view(labels@) =~= seq!["Light"@, "Dark"@, "Auto"@]);
            choice_item(focus, &labels, snapshot.settings.theme.as_str())
        },
        UiScreen::SetupAbout => Some(descriptor("about", "About")),
        UiScreen::Ask | UiScreen::Loading | UiScreen::Error | UiScreen::SetupWifi | UiScreen::Power => None,
    }
}

/// Every row the setup wheel lets focus reach has its own spoken label, in
/// the wheel's order: no row is announced with another row's label.
pub proof fn every_setup_row_is_spoken(
    snapshot: RuntimeSnapshot,
    home_mode: HomeMode,
    focus: usize,
    selected_playlist: Option<ListItemSnapshot>,
    selected_contact: Option<ListItemSnapshot>,
    replay_index: usize,
)
    requires
        focus < crate::ui_state::focus_count_spec(UiScreen::Setup, snapshot, selected_playlist, selected_contact, replay_index),
    ensures
        focused_spec(UiScreen::Setup, home_mode, focus, snapshot, selected_playlist, selected_contact) == Some(
            (item_key(focus as nat), setup_labels(snapshot)[focus as int]),
        ),
{
}

} // verus!
