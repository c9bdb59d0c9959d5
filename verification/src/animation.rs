//! The UI's preset animations: timelines of keyframed tracks that the
//! renderer samples.
use vstd::prelude::*;

verus! {

#[derive(Debug, Clone, Copy, PartialEq, Eq, Structural)]
pub struct TimelineId(pub u32);

#[derive(Debug, Clone, Copy, PartialEq, Eq, Structural)]
pub struct EventId(pub u32);

/// The screen regions an animation can target.
#[derive(Debug, Clone, Copy, PartialEq, Eq, Structural)]
pub enum RegionId {
    Progress,
    Companion,
    StatusBar,
}

/// What a track moves.
#[derive(Debug, Clone, Copy, PartialEq, Eq, Structural)]
pub enum ActorRef {
    Screen,
    Cursor,
    DeckItem { deck: usize, index: usize },
    Region(RegionId),
}

#[derive(Debug, Clone, Copy, PartialEq, Eq, Structural)]
pub enum AnimatableProp {
    X,
    Y,
    Scale,
    Opacity,
    ProgressPermille,
    SelectionOffset,
}

#[derive(Debug, Clone, Copy, PartialEq, Eq, Structural)]
pub enum AnimatableValue {
    I32(i32),
    U8(u8),
}

/// The clock a timeline runs on.
#[derive(Debug, Clone, Copy, PartialEq, Eq, Structural)]
pub enum ClockSource {
    GlobalTime,
    SceneTime,
    EventTime(EventId),
}

#[derive(Debug, Clone, Copy, PartialEq, Eq, Structural)]
pub enum Easing {
    Linear,
    EaseIn,
    EaseOut,
    EaseInOut,
}

#[derive(Debug, Clone, Copy, PartialEq, Eq, Structural)]
pub enum LoopMode {
    Once,
    Loop,
}

#[derive(Debug, Clone, Copy, PartialEq, Eq, Structural)]
pub struct Keyframe {
    pub at_ms: u32,
    pub value: AnimatableValue,
}

#[derive(Debug, Clone)]
pub struct Track {
    pub target: ActorRef,
    pub property: AnimatableProp,
    pub keyframes: Vec<Keyframe>,
    pub easing: Easing,
}

#[derive(Debug, Clone)]
pub struct Timeline {
    pub id: TimelineId,
    pub clock: ClockSource,
    pub tracks: Vec<Track>,
    pub loop_mode: LoopMode,
    pub on_complete: Option<EventId>,
    pub started_ms: u64,
}

pub const BREATHE_TIMELINE_ID: u32 = 10;
pub const SCENE_ENTER_TIMELINE_ID: u32 = 1;
pub const STAGGER_ENTER_TIMELINE_ID: u32 = 2;
pub const PULSE_ONE_SHOT_TIMELINE_ID: u32 = 3;
pub const SLIDE_IN_FROM_RIGHT_TIMELINE_ID: u32 = 4;
pub const PROGRESS_SWEEP_TIMELINE_ID: u32 = 5;
pub const SELECTION_SNAP_TIMELINE_ID: u32 = 6;
pub const MEDIA_WHEEL_ROLL_TIMELINE_ID: u32 = 7;
/// How long a wheel roll takes, in ms.
pub const MEDIA_WHEEL_ROLL_DURATION_MS: u64 = 180;
/// The opacity of the items that peek above and below the focused one.
pub const MEDIA_WHEEL_PEEK_OPACITY: u8 = 148;

/// A track as the contracts see it.
pub type TrackView = (ActorRef, AnimatableProp, Seq<Keyframe>, Easing);

pub open spec fn track_view(t: Track) -> TrackView {
    (t.target, t.property, t.keyframes@, t.easing)
}

pub open spec fn tracks_view(ts: Seq<Track>) -> Seq<TrackView> {
    ts.map_values(|t: Track| track_view(t))
}

/// Two keyframes: `from` at the start, `to` at `at_ms`.
pub open spec fn ramp(from: AnimatableValue, at_ms: u32, to: AnimatableValue) -> Seq<Keyframe> {
    seq![Keyframe { at_ms: 0, value: from }, Keyframe { at_ms, value: to }]
}

fn ramp_exec(from: AnimatableValue, at_ms: u32, to: AnimatableValue) -> (v: Vec<Keyframe>)
    ensures
        v@ == ramp(from, at_ms, to),
{
    let v = vec![Keyframe { at_ms: 0, value: from }, Keyframe { at_ms, value: to }];
    assert(v@ =~= ramp(from, at_ms, to));
    v
}

/// Three keyframes, there and back: `low`, `high` halfway, `low` again.
pub open spec fn breath(low: AnimatableValue, high: AnimatableValue) -> Seq<Keyframe> {
    seq![
        Keyframe { at_ms: 0, value: low },
        Keyframe { at_ms: 700, value: high },
        Keyframe { at_ms: 1400, value: low },
    ]
}

fn breath_exec(low: AnimatableValue, high: AnimatableValue) -> (v: Vec<Keyframe>)
    ensures
        v@ == breath(low, high),
{
    let v = vec![
        Keyframe { at_ms: 0, value: low },
        Keyframe { at_ms: 700, value: high },
        Keyframe { at_ms: 1400, value: low },
    ];
    assert(v@ =~= breath(low, high));
    v
}

fn one_track(track: Track) -> (v: Vec<Track>)
    ensures
        tracks_view(v@) == seq![track_view(track)],
{
    let v = vec![track];
    assert(tracks_view(v@) =~= seq![track_view(track)]);
    v
}

/// A focused deck item breathing in scale, forever; each item of each deck
/// has its own timeline.
pub fn breathe_focused_item(deck: usize, index: usize) -> (t: Timeline)
    requires
        100 + deck * 16 + index <= u32::MAX,
    ensures
        t.id == TimelineId((100 + deck * 16 + index) as u32),
        t.clock == ClockSource::GlobalTime,
        tracks_view(t.tracks@) == seq![
            (
                ActorRef::DeckItem { deck, index },
                AnimatableProp::Scale,
                breath(AnimatableValue::I32(980), AnimatableValue::I32(1020)),
                Easing::EaseInOut,
            ),
        ],
        t.loop_mode == LoopMode::Loop,
        t.on_complete is None,
        t.started_ms == 0,
{
    let id = 100 + (deck as u32) * 16 + (index as u32);
    Timeline {
        id: TimelineId(id),
        clock: ClockSource::GlobalTime,
        tracks: one_track(
            Track {
                target: ActorRef::DeckItem { deck, index },
                property: AnimatableProp::Scale,
                keyframes: breath_exec(AnimatableValue::I32(980), AnimatableValue::I32(1020)),
                easing: Easing::EaseInOut,
            },
        ),
        loop_mode: LoopMode::Loop,
        on_complete: None,
        started_ms: 0,
    }
}

/// A region breathing in opacity, forever.
pub fn breathe_around(region: RegionId) -> (t: Timeline)
    ensures
        t.id == TimelineId(BREATHE_TIMELINE_ID),
        t.clock == ClockSource::GlobalTime,
        tracks_view(t.tracks@) == seq![
            (
                ActorRef::Region(region),
                AnimatableProp::Opacity,
                breath(AnimatableValue::U8(64), AnimatableValue::U8(128)),
                Easing::EaseInOut,
            ),
        ],
        t.loop_mode == LoopMode::Loop,
        t.on_complete is None,
        t.started_ms == 0,
{
    Timeline {
        id: TimelineId(BREATHE_TIMELINE_ID),
        clock: ClockSource::GlobalTime,
        tracks: one_track(
            Track {
                target: ActorRef::Region(region),
                property: AnimatableProp::Opacity,
                keyframes: breath_exec(AnimatableValue::U8(64), AnimatableValue::U8(128)),
                easing: Easing::EaseInOut,
            },
        ),
        loop_mode: LoopMode::Loop,
        on_complete: None,
        started_ms: 0,
    }
}

/// A new screen fades in and rises 8 px, in 220 ms.
pub fn scene_enter() -> (t: Timeline)
    ensures
        t.id == TimelineId(SCENE_ENTER_TIMELINE_ID),
        t.clock == ClockSource::SceneTime,
        tracks_view(t.tracks@) == seq![
            (
                ActorRef::Screen,
                AnimatableProp::Opacity,
                ramp(AnimatableValue::U8(0), 220, AnimatableValue::U8(255)),
                Easing::EaseOut,
            ),
            (
                ActorRef::Screen,
                AnimatableProp::Y,
                ramp(AnimatableValue::I32(8), 220, AnimatableValue::I32(0)),
                Easing::EaseOut,
            ),
        ],
        t.loop_mode == LoopMode::Once,
        t.on_complete is None,
        t.started_ms == 0,
{
    let tracks = vec![
        Track {
            target: ActorRef::Screen,
            property: AnimatableProp::Opacity,
            keyframes: ramp_exec(AnimatableValue::U8(0), 220, AnimatableValue::U8(255)),
            easing: Easing::EaseOut,
        },
        Track {
            target: ActorRef::Screen,
            property: AnimatableProp::Y,
            keyframes: ramp_exec(AnimatableValue::I32(8), 220, AnimatableValue::I32(0)),
            easing: Easing::EaseOut,
        },
    ];
    assert(tracks_view(tracks@) =~= seq![
        (
            ActorRef::Screen,
            AnimatableProp::Opacity,
            ramp(AnimatableValue::U8(0), 220, AnimatableValue::U8(255)),
            Easing::EaseOut,
        ),
        (
            ActorRef::Screen,
            AnimatableProp::Y,
            ramp(AnimatableValue::I32(8), 220, AnimatableValue::I32(0)),
            Easing::EaseOut,
        ),
    ]);
    Timeline {
        id: TimelineId(SCENE_ENTER_TIMELINE_ID),
        clock: ClockSource::SceneTime,
        tracks,
        loop_mode: LoopMode::Once,
        on_complete: None,
        started_ms: 0,
    }
}

/// The first four deck items fade in one after another, `delay` ms apart,
/// each in 160 ms.
pub open spec fn stagger_track(delay: u32, index: int) -> TrackView {
    (
        ActorRef::DeckItem { deck: 0, index: index as usize },
        AnimatableProp::Opacity,
        ramp(
            AnimatableValue::U8(0),
            (160 + delay * index) as u32,
            AnimatableValue::U8(255),
        ).update(0, Keyframe { at_ms: (delay * index) as u32, value: AnimatableValue::U8(0) }),
        Easing::EaseOut,
    )
}

pub fn stagger_enter(delay_per_index_ms: u32) -> (t: Timeline)
    requires
        160 + delay_per_index_ms * 3 <= u32::MAX,
    ensures
        t.id == TimelineId(STAGGER_ENTER_TIMELINE_ID),
        t.clock == ClockSource::SceneTime,
        tracks_view(t.tracks@) == Seq::new(4, |i: int| stagger_track(delay_per_index_ms, i)),
        t.loop_mode == LoopMode::Once,
        t.on_complete is None,
        t.started_ms == 0,
{
    let mut tracks: Vec<Track> = Vec::new();
    let mut index: usize = 0;
    while index < 4
        invariant
            index <= 4,
            160 + delay_per_index_ms * 3 <= u32::MAX,
            tracks_view(tracks@) == Seq::new(index as nat, |i: int| stagger_track(delay_per_index_ms, i)),
        decreases 4 - index,
    {
        assert(delay_per_index_ms * index <= delay_per_index_ms * 3) by (nonlinear_arith)
            requires
                index < 4,
        ;
        let start = delay_per_index_ms * (index as u32);
        let keyframes = vec![
            Keyframe { at_ms: start, value: AnimatableValue::U8(0) },
            Keyframe { at_ms: 160 + start, value: AnimatableValue::U8(255) },
        ];
        let track = Track {
            target: ActorRef::DeckItem { deck: 0, index },
            property: AnimatableProp::Opacity,
            keyframes,
            easing: Easing::EaseOut,
        };
        let ghost prev = tracks@;
        tracks.push(track);
        assert(keyframes@ =~= ramp(
            AnimatableValue::U8(0),
            (160 + delay_per_index_ms * index) as u32,
            AnimatableValue::U8(255),
        ).update(0, Keyframe { at_ms: (delay_per_index_ms * index) as u32, value: AnimatableValue::U8(0) }));
        assert(tracks_view(tracks@) =~= tracks_view(prev).push(track_view(track)));
        assert(tracks_view(tracks@) =~= Seq::new((index + 1) as nat, |i: int| stagger_track(delay_per_index_ms, i)));
        index = index + 1;
    }
    Timeline {
        id: TimelineId(STAGGER_ENTER_TIMELINE_ID),
        clock: ClockSource::SceneTime,
        tracks,
        loop_mode: LoopMode::Once,
        on_complete: None,
        started_ms: 0,
    }
}

/// An actor flashes: fading out from 192 while growing from 92% to 112%, in
/// 600 ms.
pub fn pulse_one_shot(actor: ActorRef) -> (t: Timeline)
    ensures
        t.id == TimelineId(PULSE_ONE_SHOT_TIMELINE_ID),
        t.clock == ClockSource::EventTime(EventId(3)),
        tracks_view(t.tracks@) == seq![
            (
                actor,
                AnimatableProp::Opacity,
                ramp(AnimatableValue::U8(192), 600, AnimatableValue::U8(0)),
                Easing::EaseOut,
            ),
            (
                actor,
                AnimatableProp::Scale,
                ramp(AnimatableValue::I32(920), 600, AnimatableValue::I32(1120)),
                Easing::EaseOut,
            ),
        ],
        t.loop_mode == LoopMode::Once,
        t.on_complete is None,
        t.started_ms == 0,
{
    let tracks = vec![
        Track {
            target: actor,
            property: AnimatableProp::Opacity,
            keyframes: ramp_exec(AnimatableValue::U8(192), 600, AnimatableValue::U8(0)),
            easing: Easing::EaseOut,
        },
        Track {
            target: actor,
            property: AnimatableProp::Scale,
            keyframes: ramp_exec(AnimatableValue::I32(920), 600, AnimatableValue::I32(1120)),
            easing: Easing::EaseOut,
        },
    ];
    assert(tracks_view(tracks@) =~= seq![
        (
            actor,
            AnimatableProp::Opacity,
            ramp(AnimatableValue::U8(192), 600, AnimatableValue::U8(0)),
            Easing::EaseOut,
        ),
        (
            actor,
            AnimatableProp::Scale,
            ramp(AnimatableValue::I32(920), 600, AnimatableValue::I32(1120)),
            Easing::EaseOut,
        ),
    ]);
    Timeline {
        id: TimelineId(PULSE_ONE_SHOT_TIMELINE_ID),
        clock: ClockSource::EventTime(EventId(3)),
        tracks,
        loop_mode: LoopMode::Once,
        on_complete: None,
        started_ms: 0,
    }
}

/// A new screen slides in 28 px from the right, in 220 ms.
pub fn slide_in_from_right() -> (t: Timeline)
    ensures
        t.id == TimelineId(SLIDE_IN_FROM_RIGHT_TIMELINE_ID),
        t.clock == ClockSource::SceneTime,
        tracks_view(t.tracks@) == seq![
            (
                ActorRef::Screen,
                AnimatableProp::X,
                ramp(AnimatableValue::I32(28), 220, AnimatableValue::I32(0)),
                Easing::EaseOut,
            ),
        ],
        t.loop_mode == LoopMode::Once,
        t.on_complete is None,
        t.started_ms == 0,
{
    Timeline {
        id: TimelineId(SLIDE_IN_FROM_RIGHT_TIMELINE_ID),
        clock: ClockSource::SceneTime,
        tracks: one_track(
            Track {
                target: ActorRef::Screen,
                property: AnimatableProp::X,
                keyframes: ramp_exec(AnimatableValue::I32(28), 220, AnimatableValue::I32(0)),
                easing: Easing::EaseOut,
            },
        ),
        loop_mode: LoopMode::Once,
        on_complete: None,
        started_ms: 0,
    }
}

/// The progress bar sweeps from `from` to `to` permille in 360 ms.
pub fn progress_sweep(from: i32, to: i32) -> (t: Timeline)
    ensures
        t.id == TimelineId(PROGRESS_SWEEP_TIMELINE_ID),
        t.clock == ClockSource::EventTime(EventId(5)),
        tracks_view(t.tracks@) == seq![
            (
                ActorRef::Region(RegionId::Progress),
                AnimatableProp::ProgressPermille,
                ramp(AnimatableValue::I32(from), 360, AnimatableValue::I32(to)),
                Easing::EaseInOut,
            ),
        ],
        t.loop_mode == LoopMode::Once,
        t.on_complete is None,
        t.started_ms == 0,
{
    Timeline {
        id: TimelineId(PROGRESS_SWEEP_TIMELINE_ID),
        clock: ClockSource::EventTime(EventId(5)),
        tracks: one_track(
            Track {
                target: ActorRef::Region(RegionId::Progress),
                property: AnimatableProp::ProgressPermille,
                keyframes: ramp_exec(AnimatableValue::I32(from), 360, AnimatableValue::I32(to)),
                easing: Easing::EaseInOut,
            },
        ),
        loop_mode: LoopMode::Once,
        on_complete: None,
        started_ms: 0,
    }
}

/// The cursor snaps to item `to_index` (1000 units per item) in 120 ms.
pub fn selection_snap(to_index: usize) -> (t: Timeline)
    requires
        to_index * 1000 <= i32::MAX,
    ensures
        t.id == TimelineId(SELECTION_SNAP_TIMELINE_ID),
        t.clock == ClockSource::EventTime(EventId(6)),
        tracks_view(t.tracks@) == seq![
            (
                ActorRef::Cursor,
                AnimatableProp::SelectionOffset,
                ramp(AnimatableValue::I32(0), 120, AnimatableValue::I32((to_index * 1000) as i32)),
                Easing::EaseOut,
            ),
        ],
        t.loop_mode == LoopMode::Once,
        t.on_complete is None,
        t.started_ms == 0,
{
    let offset = (to_index as i32) * 1000;
    Timeline {
        id: TimelineId(SELECTION_SNAP_TIMELINE_ID),
        clock: ClockSource::EventTime(EventId(6)),
        tracks: one_track(
            Track {
                target: ActorRef::Cursor,
                property: AnimatableProp::SelectionOffset,
                keyframes: ramp_exec(AnimatableValue::I32(0), 120, AnimatableValue::I32(offset)),
                easing: Easing::EaseOut,
            },
        ),
        loop_mode: LoopMode::Once,
        on_complete: None,
        started_ms: 0,
    }
}

/// One item's motion in a wheel roll: it moves to `to_y`, scales to
/// `to_scale` permille and fades from `from_opacity` to `to_opacity`, in
/// 180 ms.
pub open spec fn motion_spec(deck: usize, index: usize, to_y: i32, to_scale: i32, from_opacity: u8, to_opacity: u8) -> Seq<
    TrackView,
> {
    let target = ActorRef::DeckItem { deck, index };
    seq![
        (target, AnimatableProp::Y, ramp(AnimatableValue::I32(0), 180, AnimatableValue::I32(to_y)), Easing::EaseOut),
        (
            target,
            AnimatableProp::Scale,
            ramp(AnimatableValue::I32(1000), 180, AnimatableValue::I32(to_scale)),
            Easing::EaseOut,
        ),
        (
            target,
            AnimatableProp::Opacity,
            ramp(AnimatableValue::U8(from_opacity), 180, AnimatableValue::U8(to_opacity)),
            Easing::EaseOut,
        ),
    ]
}

fn push_motion(
    tracks: &mut Vec<Track>,
    deck: usize,
    index: usize,
    to_y: i32,
    to_scale: i32,
    from_opacity: u8,
    to_opacity: u8,
)
    ensures
        tracks_view(final(tracks)@) == tracks_view(old(tracks)@) + motion_spec(
            deck,
            index,
            to_y,
            to_scale,
            from_opacity,
            to_opacity,
        ),
{
    let target = ActorRef::DeckItem { deck, index };
    let ghost start = tracks@;
    tracks.push(
        Track {
            target,
            property: AnimatableProp::Y,
            keyframes: ramp_exec(AnimatableValue::I32(0), 180, AnimatableValue::I32(to_y)),
            easing: Easing::EaseOut,
        },
    );
    tracks.push(
        Track {
            target,
            property: AnimatableProp::Scale,
            keyframes: ramp_exec(AnimatableValue::I32(1000), 180, AnimatableValue::I32(to_scale)),
            easing: Easing::EaseOut,
        },
    );
    tracks.push(
        Track {
            target,
            property: AnimatableProp::Opacity,
            keyframes: ramp_exec(AnimatableValue::U8(from_opacity), 180, AnimatableValue::U8(to_opacity)),
            easing: Easing::EaseOut,
        },
    );
    assert(tracks_view(tracks@) =~= tracks_view(start) + motion_spec(
        deck,
        index,
        to_y,
        to_scale,
        from_opacity,
        to_opacity,
    ));
}

/// The roll of a media wheel of `item_count` items: none under two items;
/// two items cross over; otherwise the top peek leaves, the focused item
/// rises to the top peek and the bottom peek takes the focus. The focus
/// itself is committed when the roll ends.
pub open spec fn wheel_roll_spec(item_count: usize, deck: usize) -> Seq<TrackView> {
    if item_count == 2 {
        motion_spec(deck, 0, 102, 600, 255, 0) + motion_spec(deck, 1, -102i32, 1120, 148, 255)
    } else {
        motion_spec(deck, 0, -12i32, 860, 148, 0) + motion_spec(deck, 1, -34i32, 780, 255, 148)
            + motion_spec(deck, 2, -82i32, 1120, 148, 255)
    }
}

pub fn media_wheel_roll(item_count: usize, deck_index: usize, started_ms: u64) -> (r: Option<Timeline>)
    ensures
        item_count < 2 ==> r is None,
        item_count >= 2 ==> (r matches Some(t) && t.id == TimelineId(MEDIA_WHEEL_ROLL_TIMELINE_ID) && t.clock
            == ClockSource::EventTime(EventId(7)) && tracks_view(t.tracks@) == wheel_roll_spec(item_count, deck_index)
            && t.loop_mode == LoopMode::Once && t.on_complete is None && t.started_ms == started_ms),
{
    if item_count < 2 {
        return None;
    }
    let mut tracks: Vec<Track> = Vec::new();
    assert(tracks_view(tracks@) =~= Seq::<TrackView>::empty());
    if item_count == 2 {
        push_motion(&mut tracks, deck_index, 0, 102, 600, 255, 0);
        push_motion(&mut tracks, deck_index, 1, -102, 1120, MEDIA_WHEEL_PEEK_OPACITY, 255);
    } else {
        push_motion(&mut tracks, deck_index, 0, -12, 860, MEDIA_WHEEL_PEEK_OPACITY, 0);
        push_motion(&mut tracks, deck_index, 1, -34, 780, 255, MEDIA_WHEEL_PEEK_OPACITY);
        push_motion(&mut tracks, deck_index, 2, -82, 1120, MEDIA_WHEEL_PEEK_OPACITY, 255);
    }
    Some(
        Timeline {
            id: TimelineId(MEDIA_WHEEL_ROLL_TIMELINE_ID),
            clock: ClockSource::EventTime(EventId(7)),
            tracks,
            loop_mode: LoopMode::Once,
            on_complete: None,
            started_ms,
        },
    )
}

/// Every wheel roll ends within its 180 ms: no keyframe of any track lies
/// later.
pub proof fn wheel_roll_ends_in_time(item_count: usize, deck: usize, i: int, k: int)
    requires
        0 <= i < wheel_roll_spec(item_count, deck).len(),
        0 <= k < wheel_roll_spec(item_count, deck)[i].2.len(),
    ensures
        wheel_roll_spec(item_count, deck)[i].2[k].at_ms <= 180,
{
}

} // verus!
