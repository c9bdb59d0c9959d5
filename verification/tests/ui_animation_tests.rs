use yoyopod::animation::{
    breathe_focused_item, media_wheel_roll, progress_sweep, selection_snap, ActorRef, AnimatableProp,
    AnimatableValue, LoopMode, Timeline, MEDIA_WHEEL_ROLL_DURATION_MS, MEDIA_WHEEL_ROLL_TIMELINE_ID,
};

fn final_value(timeline: &Timeline, target: ActorRef, property: AnimatableProp) -> Option<AnimatableValue> {
    timeline
        .tracks
        .iter()
        .find(|track| track.target == target && track.property == property)
        .and_then(|track| track.keyframes.last())
        .map(|keyframe| keyframe.value)
}

#[test]
fn media_wheel_roll_matches_the_three_slot_motion_contract() {
    let timeline = media_wheel_roll(3, 0, 1_000).expect("three tracks should roll");
    assert_eq!(timeline.tracks.len(), 9);
    // At 1 180 ms the roll is over: each track rests on its last keyframe.
    assert_eq!(MEDIA_WHEEL_ROLL_DURATION_MS, 180);
    assert_eq!(
        final_value(&timeline, ActorRef::DeckItem { deck: 0, index: 0 }, AnimatableProp::Opacity),
        Some(AnimatableValue::U8(0))
    );
    assert_eq!(
        final_value(&timeline, ActorRef::DeckItem { deck: 0, index: 1 }, AnimatableProp::Y),
        Some(AnimatableValue::I32(-34))
    );
    assert_eq!(
        final_value(&timeline, ActorRef::DeckItem { deck: 0, index: 2 }, AnimatableProp::Scale),
        Some(AnimatableValue::I32(1_120))
    );
}

#[test]
fn media_wheel_roll_handles_short_wheels_without_fake_peeks() {
    assert!(media_wheel_roll(1, 0, 0).is_none());
    assert_eq!(
        media_wheel_roll(2, 0, 0)
            .expect("two tracks should cross-roll")
            .tracks
            .len(),
        6
    );
}

#[test]
fn media_wheel_roll_runs_once_on_its_own_timeline() {
    let timeline = media_wheel_roll(4, 2, 55).expect("four tracks should roll");
    assert_eq!(timeline.id.0, MEDIA_WHEEL_ROLL_TIMELINE_ID);
    assert_eq!(timeline.loop_mode, LoopMode::Once);
    assert_eq!(timeline.started_ms, 55);
    assert!(timeline.tracks.iter().all(|track| matches!(track.target, ActorRef::DeckItem { deck: 2, .. })));
    assert!(timeline
        .tracks
        .iter()
        .all(|track| track.keyframes.last().map(|k| u64::from(k.at_ms)) == Some(MEDIA_WHEEL_ROLL_DURATION_MS)));
    assert!(media_wheel_roll(0, 0, 0).is_none());
}

#[test]
fn breathing_targets_the_focused_item_and_loops() {
    let timeline = breathe_focused_item(1, 4);
    assert_eq!(timeline.id.0, 120);
    assert_eq!(timeline.loop_mode, LoopMode::Loop);
    assert!(timeline
        .tracks
        .iter()
        .all(|track| track.target == ActorRef::DeckItem { deck: 1, index: 4 }));
}

#[test]
fn progress_sweep_runs_between_its_ends() {
    let timeline = progress_sweep(100, 900);
    let track = &timeline.tracks[0];
    assert_eq!(track.property, AnimatableProp::ProgressPermille);
    assert_eq!(track.keyframes.first().map(|k| k.value), Some(AnimatableValue::I32(100)));
    assert_eq!(track.keyframes.last().map(|k| k.value), Some(AnimatableValue::I32(900)));
}

#[test]
fn selection_snap_ends_on_the_chosen_index() {
    let timeline = selection_snap(3);
    let last = timeline.tracks[0].keyframes.last().map(|k| k.value);
    assert_eq!(last, Some(AnimatableValue::I32(3_000)));
    assert_eq!(timeline.tracks[0].target, ActorRef::Cursor);
}
