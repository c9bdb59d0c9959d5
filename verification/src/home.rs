//! The home screen's idle clock (focus fades to idle, idle gives way to the
//! ambient watch face, a press wakes it), and how long a failed Ask stays on
//! screen.
use vstd::prelude::*;
use crate::accessibility::HomeMode;
use crate::snapshot::VoiceRuntimeSnapshot;
use crate::text::owned;

verus! {

/// A focused home card fades back to idle after this long without input,
/// in ms.
pub const HOME_FOCUS_DECAY_MS: u64 = 8_000;
/// The idle home screen gives way to the watch face after this long.
pub const HOME_AMBIENT_MS: u64 = 30_000;
/// A failed Ask stays on screen this long before it is cancelled.
pub const ASK_FAILURE_VISIBLE_MS: u64 = 4_000;

/// The parts of the screen the home clock has changed.
#[derive(Debug, Clone, Copy, PartialEq, Eq, Structural)]
pub struct HomeRedraw {
    pub focus: bool,
    pub navigation: bool,
    pub input: bool,
}

/// The home screen's clock: its mode, the last input, the focused card, and
/// the scene's revision (bumped whenever the whole scene is rebuilt).
#[derive(Debug, Clone, Copy, PartialEq, Eq, Structural)]
pub struct HomeClock {
    pub home_mode: HomeMode,
    pub last_input_ms: Option<u64>,
    pub focus_index: usize,
    pub scene_revision: u32,
    pub dirty: HomeRedraw,
}

pub open spec fn idle_for(now: u64, since: u64) -> int {
    if now >= since {
        now - since
    } else {
        0
    }
}

/// The revision after a rebuild: one more, wrapping round.
pub open spec fn next_revision(r: u32) -> u32 {
    if r == u32::MAX {
        0
    } else {
        (r + 1) as u32
    }
}

/// The mode the home screen moves to after `idle` ms without input, if it
/// moves: focus fades after 8 s, idle turns ambient after 30 s.
pub open spec fn home_transition(mode: HomeMode, idle: int) -> Option<HomeMode> {
    match mode {
        HomeMode::Focused => if idle >= 8000 { Some(HomeMode::Idle) } else { None },
        HomeMode::Idle => if idle >= 30000 { Some(HomeMode::Ambient) } else { None },
        HomeMode::Ambient => None,
    }
}

/// One tick of the home clock at `now`; `on_hub` is whether the home
/// screen shows. The first tick starts the idle clock.
pub open spec fn home_tick(c: HomeClock, on_hub: bool, now: u64) -> HomeClock {
    let last = match c.last_input_ms {
        Some(t) => t,
        None => now,
    };
    let started = HomeClock { last_input_ms: Some(last), ..c };
    if !on_hub {
        started
    } else {
        match home_transition(c.home_mode, idle_for(now, last)) {
            None => started,
            Some(next) => HomeClock {
                home_mode: next,
                scene_revision: if next == HomeMode::Ambient {
                    next_revision(c.scene_revision)
                } else {
                    c.scene_revision
                },
                dirty: HomeRedraw {
                    focus: true,
                    navigation: c.dirty.navigation || next == HomeMode::Ambient,
                    ..c.dirty
                },
                ..started
            },
        }
    }
}

fn bump(r: u32) -> (n: u32)
    ensures
        n == next_revision(r),
{
    if r == u32::MAX {
        0
    } else {
        r + 1
    }
}

impl HomeClock {
    /// The home screen at rest: idle, no input yet, the first card.
    pub fn new() -> (c: Self)
        ensures
            c.home_mode == HomeMode::Idle,
            c.last_input_ms is None,
            c.focus_index == 0,
            c.scene_revision == 0,
            c.dirty == (HomeRedraw { focus: false, navigation: false, input: false }),
    {
        HomeClock {
            home_mode: HomeMode::Idle,
            last_input_ms: None,
            focus_index: 0,
            scene_revision: 0,
            dirty: HomeRedraw { focus: false, navigation: false, input: false },
        }
    }

    /// Moves the home clock to `now_ms`. Returns whether the mode changed
    /// (and what is read aloud must be refreshed).
    pub fn advance_home_state(&mut self, on_hub: bool, now_ms: u64) -> (moved: bool)
        ensures
            *final(self) == home_tick(*old(self), on_hub, now_ms),
            moved == (final(self).home_mode != old(self).home_mode),
    {
        let last = match self.last_input_ms {
            Some(t) => t,
            None => now_ms,
        };
        self.last_input_ms = Some(last);
        if !on_hub {
            return false;
        }
        let idle: u64 = if now_ms >= last { now_ms - last } else { 0 };
        let next = match self.home_mode {
            HomeMode::Focused => if idle >= HOME_FOCUS_DECAY_MS { Some(HomeMode::Idle) } else { None },
            HomeMode::Idle => if idle >= HOME_AMBIENT_MS { Some(HomeMode::Ambient) } else { None },
            HomeMode::Ambient => None,
        };
        match next {
            None => false,
            Some(mode) => {
                if mode == HomeMode::Ambient {
                    self.scene_revision = bump(self.scene_revision);
                    self.dirty.navigation = true;
                }
                self.home_mode = mode;
                self.dirty.focus = true;
                true
            },
        }
    }

    /// A press on the ambient home screen wakes it: the first card is
    /// focused and the scene rebuilt, and the press does nothing else (the
    /// result). Elsewhere nothing changes.
    pub fn wake_home_from_ambient(&mut self, on_hub: bool, now_ms: u64) -> (woke: bool)
        ensures
            woke == (on_hub && old(self).home_mode == HomeMode::Ambient),
            !woke ==> *final(self) == *old(self),
            woke ==> *final(self) == (HomeClock {
                home_mode: HomeMode::Focused,
                last_input_ms: Some(now_ms),
                focus_index: 0,
                scene_revision: next_revision(old(self).scene_revision),
                dirty: HomeRedraw { focus: true, navigation: true, input: true },
            }),
    {
        if !on_hub || self.home_mode != HomeMode::Ambient {
            return false;
        }
        self.last_input_ms = Some(now_ms);
        self.home_mode = HomeMode::Focused;
        self.focus_index = 0;
        self.scene_revision = bump(self.scene_revision);
        self.dirty = HomeRedraw { focus: true, navigation: true, input: true };
        true
    }

    /// Any other press restarts the idle clock.
    pub fn record_input(&mut self, now_ms: u64)
        ensures
            *final(self) == (HomeClock { last_input_ms: Some(now_ms), ..*old(self) }),
    {
        self.last_input_ms = Some(now_ms);
    }
}

/// Focus fades on a home screen left alone: 8 s after the last input a
/// focused card gives way to the idle screen, and 30 s after it the idle
/// screen gives way to the watch face.
pub proof fn home_fades_to_idle_then_ambient(c: HomeClock, now: u64)
    requires
        c.last_input_ms matches Some(t) && now >= t,
    ensures
        c.home_mode == HomeMode::Focused && now - c.last_input_ms->0 >= 8000 ==> home_tick(c, true, now).home_mode
            == HomeMode::Idle,
        c.home_mode == HomeMode::Idle && now - c.last_input_ms->0 >= 30000 ==> home_tick(c, true, now).home_mode
            == HomeMode::Ambient,
        c.home_mode == HomeMode::Focused && now - c.last_input_ms->0 < 8000 ==> home_tick(c, true, now) == c,
{
}

/// What the runtime does about a failed Ask at `now`: nothing while it is
/// shown for its first 4 s, then it is cleared and the request cancelled
/// (`true`). Off the Ask screen, or once Ask works again, the clock stops.
pub open spec fn ask_failure_expired(started: Option<u64>, ask_screen: bool, unavailable: bool, now: u64) -> (Option<u64>, bool) {
    if !ask_screen || !unavailable {
        (None, false)
    } else {
        let since = match started {
            Some(s) => s,
            None => now,
        };
        if idle_for(now, since) < 4000 {
            (Some(since), false)
        } else {
            (None, true)
        }
    }
}

/// Moves the Ask failure clock to `now_ms`; on `true` the caller clears
/// the failure (`clear_ask_failure`) and cancels the request.
pub fn advance_ask_state(started_ms: &mut Option<u64>, ask_screen: bool, unavailable: bool, now_ms: u64) -> (expired: bool)
    ensures
        (*final(started_ms), expired) == ask_failure_expired(*old(started_ms), ask_screen, unavailable, now_ms),
{
    if !ask_screen || !unavailable {
        *started_ms = None;
        return false;
    }
    let since = match *started_ms {
        Some(s) => s,
        None => now_ms,
    };
    let waited: u64 = if now_ms >= since { now_ms - since } else { 0 };
    if waited < ASK_FAILURE_VISIBLE_MS {
        *started_ms = Some(since);
        false
    } else {
        *started_ms = None;
        true
    }
}

/// The Ask screen back at rest after a failure: idle, its greeting shown,
/// nothing recording or playing.
pub fn clear_ask_failure(voice: &mut VoiceRuntimeSnapshot)
    ensures
        !final(voice).ask_unavailable,
        final(voice).phase@ == "idle"@,
        final(voice).headline@ == "Ask"@,
        final(voice).body@ == "Ask me anything..."@,
        !final(voice).capture_in_flight && !final(voice).ptt_active,
        !final(voice).playback_active && !final(voice).playback_paused,
        final(voice).recording_duration_ms == old(voice).recording_duration_ms,
        final(voice).capture_level_permille == old(voice).capture_level_permille,
        final(voice).playback_file_path == old(voice).playback_file_path,
        final(voice).playback_elapsed_ms == old(voice).playback_elapsed_ms,
        final(voice).playback_duration_ms == old(voice).playback_duration_ms,
{
    voice.ask_unavailable = false;
    voice.phase = owned("idle");
    voice.headline = owned("Ask");
    voice.body = owned("Ask me anything...");
    voice.capture_in_flight = false;
    voice.ptt_active = false;
    voice.playback_active = false;
    voice.playback_paused = false;
}

} // verus!
