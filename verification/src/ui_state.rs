//! UI state that lives between frames: the stopwatch, the system overlay's
//! bookkeeping, which parts of the screen need redrawing, and how focus moves
//! through each screen's items.
use vstd::prelude::*;
use crate::snapshot::{ListItemSnapshot, RuntimeSnapshot, RuntimeSnapshotDomain, UiScreen};
use crate::text::{decimal, decimal2, lower_chars, owned, push_decimal, push_decimal2, push_str, str_eq, string_of, to_ascii_lower, trim, trimmed};

verus! {

// ---------------------------------------------------------------------------
// System overlay
// ---------------------------------------------------------------------------

/// A system overlay shown on request for hardware review.
#[derive(Debug, Clone, Copy, PartialEq, Eq, Structural)]
pub enum SystemOverlayPreview {
    Loading,
    RecoverableError,
    UnrecoverableError,
}

/// How far the loading and error overlays have got.
#[derive(Debug, Clone)]
pub struct SystemOverlayState {
    pub loading_started_ms: Option<u64>,
    pub loading_visible: bool,
    pub loading_announced: bool,
    pub spinner_step: u8,
    pub error_started_ms: Option<u64>,
    pub error_signature: String,
    pub error_announced: bool,
    pub unrecoverable_repeat_announced: bool,
}

pub open spec fn loading_cleared(s: SystemOverlayState) -> bool {
    s.loading_started_ms is None && !s.loading_visible && !s.loading_announced && s.spinner_step == 0
}

pub open spec fn error_cleared(s: SystemOverlayState) -> bool {
    s.error_started_ms is None && s.error_signature@.len() == 0 && !s.error_announced
        && !s.unrecoverable_repeat_announced
}

impl SystemOverlayState {
    /// Nothing shown or announced.
    pub fn new() -> (s: Self)
        ensures
            loading_cleared(s),
            error_cleared(s),
    {
        SystemOverlayState {
            loading_started_ms: None,
            loading_visible: false,
            loading_announced: false,
            spinner_step: 0,
            error_started_ms: None,
            error_signature: String::new(),
            error_announced: false,
            unrecoverable_repeat_announced: false,
        }
    }

    /// Forgets the loading overlay; the error overlay is kept.
    pub fn reset_loading(&mut self)
        ensures
            loading_cleared(*final(self)),
            final(self).error_started_ms == old(self).error_started_ms,
            final(self).error_signature == old(self).error_signature,
            final(self).error_announced == old(self).error_announced,
            final(self).unrecoverable_repeat_announced == old(self).unrecoverable_repeat_announced,
    {
        self.loading_started_ms = None;
        self.loading_visible = false;
        self.loading_announced = false;
        self.spinner_step = 0;
    }

    /// Forgets the error overlay; the loading overlay is kept.
    pub fn reset_error(&mut self)
        ensures
            error_cleared(*final(self)),
            final(self).loading_started_ms == old(self).loading_started_ms,
            final(self).loading_visible == old(self).loading_visible,
            final(self).loading_announced == old(self).loading_announced,
            final(self).spinner_step == old(self).spinner_step,
    {
        self.error_started_ms = None;
        self.error_signature = String::new();
        self.error_announced = false;
        self.unrecoverable_repeat_announced = false;
    }

    /// Forgets both overlays.
    pub fn reset(&mut self)
        ensures
            loading_cleared(*final(self)),
            error_cleared(*final(self)),
    {
        self.reset_loading();
        self.reset_error();
    }
}

// ---------------------------------------------------------------------------
// Stopwatch
// ---------------------------------------------------------------------------

#[derive(Debug, Clone, Copy, PartialEq, Eq, Structural)]
pub enum StopwatchPhase {
    Idle,
    Running,
    Paused,
}

/// What the display shows, at its resolution: tenths of a second below an
/// hour, whole seconds from then on.
#[derive(Debug, Clone, Copy, PartialEq, Eq, Structural)]
pub struct StopwatchDisplayKey {
    pub hour_mode: bool,
    pub units: u64,
}

/// The stopwatch: time banked while paused, and when the current run began.
#[derive(Debug, Clone, Copy, PartialEq, Eq, Structural)]
pub struct StopwatchState {
    pub phase: StopwatchPhase,
    pub accumulated_ms: u64,
    pub started_at_ms: Option<u64>,
    pub displayed: StopwatchDisplayKey,
}

pub open spec fn sat_add(a: u64, b: u64) -> u64 {
    if a + b > u64::MAX {
        u64::MAX
    } else {
        (a + b) as u64
    }
}

pub open spec fn sat_sub(a: u64, b: u64) -> u64 {
    if a < b {
        0
    } else {
        (a - b) as u64
    }
}

/// The time on the stopwatch at `now`: what was banked plus the current run
/// (never negative, saturating at the top).
pub open spec fn elapsed_spec(s: StopwatchState, now: u64) -> u64 {
    sat_add(
        s.accumulated_ms,
        match s.started_at_ms {
            Some(start) => sat_sub(now, start),
            None => 0,
        },
    )
}

pub open spec fn display_key_spec(elapsed: u64) -> StopwatchDisplayKey {
    if elapsed < 3_600_000 {
        StopwatchDisplayKey { hour_mode: false, units: elapsed / 100 }
    } else {
        StopwatchDisplayKey { hour_mode: true, units: elapsed / 1_000 }
    }
}

pub fn display_key(elapsed_ms: u64) -> (k: StopwatchDisplayKey)
    ensures
        k == display_key_spec(elapsed_ms),
{
    if elapsed_ms < 3_600_000 {
        StopwatchDisplayKey { hour_mode: false, units: elapsed_ms / 100 }
    } else {
        StopwatchDisplayKey { hour_mode: true, units: elapsed_ms / 1_000 }
    }
}

/// `MM:SS.t` below an hour, `HH:MM:SS` from then on.
pub open spec fn stopwatch_text(elapsed: u64) -> Seq<char> {
    let total = elapsed / 1000;
    if elapsed < 3_600_000 {
        decimal2((total / 60) as nat) + ":"@ + decimal2((total % 60) as nat) + "."@ + decimal(
            ((elapsed / 100) % 10) as nat,
        )
    } else {
        decimal2((total / 3600) as nat) + ":"@ + decimal2(((total / 60) % 60) as nat) + ":"@ + decimal2(
            (total % 60) as nat,
        )
    }
}

pub fn format_stopwatch_duration(elapsed_ms: u64) -> (t: String)
    ensures
        t@ == stopwatch_text(elapsed_ms),
{
    let total = elapsed_ms / 1000;
    let mut out: Vec<char> = Vec::new();
    if elapsed_ms < 3_600_000 {
        push_decimal2(&mut out, total / 60);
        push_str(&mut out, ":");
        push_decimal2(&mut out, total % 60);
        push_str(&mut out, ".");
        push_decimal(&mut out, (elapsed_ms / 100) % 10);
    } else {
        push_decimal2(&mut out, total / 3600);
        push_str(&mut out, ":");
        push_decimal2(&mut out, (total / 60) % 60);
        push_str(&mut out, ":");
        push_decimal2(&mut out, total % 60);
    }
    string_of(&out)
}

/// The stopwatch after pressing the action at `focus_index` at `now`: idle
/// and paused (first action) start a run; running pauses and banks the time;
/// paused (other action) resets.
pub open spec fn activated(s: StopwatchState, focus_index: usize, now: u64) -> StopwatchState {
    match s.phase {
        StopwatchPhase::Idle => StopwatchState { phase: StopwatchPhase::Running, started_at_ms: Some(now), ..s },
        StopwatchPhase::Running => StopwatchState {
            phase: StopwatchPhase::Paused,
            accumulated_ms: elapsed_spec(s, now),
            started_at_ms: None,
            displayed: display_key_spec(elapsed_spec(s, now)),
        },
        StopwatchPhase::Paused => if focus_index == 0 {
            StopwatchState { phase: StopwatchPhase::Running, started_at_ms: Some(now), ..s }
        } else {
            stopwatch_idle()
        },
    }
}

/// Pressing the stopwatch's action: starting or resuming a stopwatch that
/// is not running makes its time run on from what it showed, one
/// millisecond per millisecond (until the count would pass `u64::MAX`);
/// pausing holds the time it showed from then on; reset returns it to zero.
pub proof fn stopwatch_runs_holds_and_resets(s: StopwatchState, focus_index: usize, now: u64, t: u64)
    requires
        t >= now,
    ensures
        ({
            let n = activated(s, focus_index, now);
            let e0 = elapsed_spec(s, now);
            &&& ((s.phase == StopwatchPhase::Idle || (s.phase == StopwatchPhase::Paused && focus_index == 0))
                && s.started_at_ms is None && e0 + (t - now) <= u64::MAX) ==> (n.phase == StopwatchPhase::Running
                && elapsed_spec(n, t) == e0 + (t - now))
            &&& s.phase == StopwatchPhase::Running ==> (n.phase == StopwatchPhase::Paused && elapsed_spec(n, t) == e0)
            &&& (s.phase == StopwatchPhase::Paused && focus_index > 0) ==> n == stopwatch_idle()
        }),
{
}

pub open spec fn stopwatch_idle() -> StopwatchState {
    StopwatchState {
        phase: StopwatchPhase::Idle,
        accumulated_ms: 0,
        started_at_ms: None,
        displayed: StopwatchDisplayKey { hour_mode: false, units: 0 },
    }
}

impl StopwatchState {
    /// A stopwatch at zero, not running.
    pub fn new() -> (s: Self)
        ensures
            s == stopwatch_idle(),
    {
        StopwatchState {
            phase: StopwatchPhase::Idle,
            accumulated_ms: 0,
            started_at_ms: None,
            displayed: StopwatchDisplayKey { hour_mode: false, units: 0 },
        }
    }

    pub fn elapsed_ms(&self, now_ms: u64) -> (e: u64)
        ensures
            e == elapsed_spec(*self, now_ms),
    {
        let run = match self.started_at_ms {
            Some(start) => now_ms.saturating_sub(start),
            None => 0,
        };
        self.accumulated_ms.saturating_add(run)
    }

    pub fn display_text(&self, now_ms: u64) -> (t: String)
        ensures
            t@ == stopwatch_text(elapsed_spec(*self, now_ms)),
    {
        format_stopwatch_duration(self.elapsed_ms(now_ms))
    }

    /// Paused offers resume and reset; otherwise one action.
    pub fn action_count(&self) -> (n: usize)
        ensures
            n == (if self.phase == StopwatchPhase::Paused {
                2usize
            } else {
                1usize
            }),
    {
        if self.phase == StopwatchPhase::Paused {
            2
        } else {
            1
        }
    }

    pub fn action_label(&self, focus_index: usize) -> (l: &'static str)
        ensures
            l@ == (match self.phase {
                StopwatchPhase::Idle => "Start"@,
                StopwatchPhase::Running => "Pause"@,
                StopwatchPhase::Paused => if focus_index == 0 {
                    "Resume"@
                } else {
                    "Reset"@
                },
            }),
    {
        match self.phase {
            StopwatchPhase::Idle => "Start",
            StopwatchPhase::Running => "Pause",
            StopwatchPhase::Paused => if focus_index == 0 {
                "Resume"
            } else {
                "Reset"
            },
        }
    }

    pub fn action_icon(&self, focus_index: usize) -> (i: &'static str)
        ensures
            i@ == (match self.phase {
                StopwatchPhase::Running => "pause_sm"@,
                StopwatchPhase::Paused => if focus_index > 0 {
                    "reset_sm"@
                } else {
                    "play_sm"@
                },
                StopwatchPhase::Idle => "play_sm"@,
            }),
    {
        match self.phase {
            StopwatchPhase::Running => "pause_sm",
            StopwatchPhase::Paused => if focus_index > 0 {
                "reset_sm"
            } else {
                "play_sm"
            },
            StopwatchPhase::Idle => "play_sm",
        }
    }

    pub fn activate(&mut self, focus_index: usize, now_ms: u64)
        ensures
            *final(self) == activated(*old(self), focus_index, now_ms),
    {
        match self.phase {
            StopwatchPhase::Idle => {
                self.phase = StopwatchPhase::Running;
                self.started_at_ms = Some(now_ms);
            },
            StopwatchPhase::Running => {
                let e = self.elapsed_ms(now_ms);
                self.accumulated_ms = e;
                self.started_at_ms = None;
                self.phase = StopwatchPhase::Paused;
                self.displayed = display_key(e);
            },
            StopwatchPhase::Paused => {
                if focus_index == 0 {
                    self.phase = StopwatchPhase::Running;
                    self.started_at_ms = Some(now_ms);
                } else {
                    self.reset();
                }
            },
        }
    }

    /// While running, records what the display should now show; whether
    /// that changed (and a redraw is due).
    pub fn advance_display(&mut self, now_ms: u64) -> (changed: bool)
        ensures
            old(self).phase != StopwatchPhase::Running ==> !changed && *final(self) == *old(self),
            old(self).phase == StopwatchPhase::Running ==> {
                let k = display_key_spec(elapsed_spec(*old(self), now_ms));
                &&& changed == (k != old(self).displayed)
                &&& *final(self) == StopwatchState { displayed: k, ..*old(self) }
            },
    {
        if self.phase != StopwatchPhase::Running {
            return false;
        }
        let k = display_key(self.elapsed_ms(now_ms));
        if k == self.displayed {
            return false;
        }
        self.displayed = k;
        true
    }

    pub fn reset(&mut self)
        ensures
            *final(self) == stopwatch_idle(),
    {
        *self = StopwatchState::new();
    }
}

/// A running stopwatch never loses time as the clock moves on.
pub proof fn running_stopwatch_never_goes_back(s: StopwatchState, t1: u64, t2: u64)
    requires
        t1 <= t2,
    ensures
        elapsed_spec(s, t1) <= elapsed_spec(s, t2),
{
}

/// Pausing banks exactly the time shown at that moment, and the time then
/// stands still until the stopwatch is resumed.
pub proof fn pause_keeps_the_time(s: StopwatchState, now: u64, later: u64)
    requires
        s.phase == StopwatchPhase::Running,
    ensures
        elapsed_spec(activated(s, 0, now), later) == elapsed_spec(s, now),
        activated(s, 0, now).phase == StopwatchPhase::Paused,
{
}

/// Resuming continues from the banked time.
pub proof fn resume_continues_from_the_banked_time(s: StopwatchState, now: u64, later: u64)
    requires
        s.phase == StopwatchPhase::Paused,
        s.started_at_ms is None,
        now <= later,
    ensures
        elapsed_spec(activated(s, 0, now), later) == sat_add(s.accumulated_ms, (later - now) as u64),
{
}

/// Resetting from pause shows zero again.
pub proof fn reset_shows_zero(s: StopwatchState, focus_index: usize, now: u64, later: u64)
    requires
        s.phase == StopwatchPhase::Paused,
        focus_index > 0,
    ensures
        elapsed_spec(activated(s, focus_index, now), later) == 0,
        activated(s, focus_index, now).phase == StopwatchPhase::Idle,
{
}

// ---------------------------------------------------------------------------
// What needs redrawing
// ---------------------------------------------------------------------------

/// The parts of the screen that changed since the last frame.
#[derive(Debug, Clone, Copy, PartialEq, Eq, Structural)]
pub struct DirtyState {
    pub full: bool,
    pub app_state: bool,
    pub hub: bool,
    pub music: bool,
    pub call: bool,
    pub voice: bool,
    pub power: bool,
    pub settings: bool,
    pub network: bool,
    pub wifi_setup: bool,
    pub overlay: bool,
    pub navigation: bool,
    pub focus: bool,
    pub input: bool,
    pub animation: bool,
    pub stopwatch: bool,
}

pub open spec fn any_dirty(d: DirtyState) -> bool {
    d.full || d.app_state || d.hub || d.music || d.call || d.voice || d.power || d.settings || d.network
        || d.wifi_setup || d.overlay || d.navigation || d.focus || d.input || d.animation || d.stopwatch
}

pub open spec fn clean_state() -> DirtyState {
    DirtyState {
        full: false,
        app_state: false,
        hub: false,
        music: false,
        call: false,
        voice: false,
        power: false,
        settings: false,
        network: false,
        wifi_setup: false,
        overlay: false,
        navigation: false,
        focus: false,
        input: false,
        animation: false,
        stopwatch: false,
    }
}

/// Everything but input and animation marked.
pub open spec fn marked_full(d: DirtyState) -> DirtyState {
    DirtyState {
        full: true,
        app_state: true,
        hub: true,
        music: true,
        call: true,
        voice: true,
        power: true,
        settings: true,
        network: true,
        wifi_setup: true,
        overlay: true,
        navigation: true,
        focus: true,
        stopwatch: true,
        ..d
    }
}

/// A patch of `domain` marks what it changes: a full patch everything, the
/// app state also the navigation, any other domain itself.
pub open spec fn marked_domain(d: DirtyState, domain: RuntimeSnapshotDomain) -> DirtyState {
    match domain {
        RuntimeSnapshotDomain::Full => marked_full(d),
        RuntimeSnapshotDomain::AppState => DirtyState { app_state: true, navigation: true, ..d },
        RuntimeSnapshotDomain::Hub => DirtyState { hub: true, ..d },
        RuntimeSnapshotDomain::Music => DirtyState { music: true, ..d },
        RuntimeSnapshotDomain::Call => DirtyState { call: true, ..d },
        RuntimeSnapshotDomain::Voice => DirtyState { voice: true, ..d },
        RuntimeSnapshotDomain::Power => DirtyState { power: true, ..d },
        RuntimeSnapshotDomain::Settings => DirtyState { settings: true, ..d },
        RuntimeSnapshotDomain::Network => DirtyState { network: true, ..d },
        RuntimeSnapshotDomain::WifiSetup => DirtyState { wifi_setup: true, ..d },
        RuntimeSnapshotDomain::Overlay => DirtyState { overlay: true, ..d },
    }
}

impl DirtyState {
    /// Nothing to redraw.
    pub fn clean() -> (d: Self)
        ensures
            d == clean_state(),
    {
        DirtyState {
            full: false,
            app_state: false,
            hub: false,
            music: false,
            call: false,
            voice: false,
            power: false,
            settings: false,
            network: false,
            wifi_setup: false,
            overlay: false,
            navigation: false,
            focus: false,
            input: false,
            animation: false,
            stopwatch: false,
        }
    }

    /// Whether anything needs redrawing.
    pub fn any(self) -> (r: bool)
        ensures
            r == any_dirty(self),
    {
        self.full || self.app_state || self.hub || self.music || self.call || self.voice || self.power
            || self.settings || self.network || self.wifi_setup || self.overlay || self.navigation
            || self.focus || self.input || self.animation || self.stopwatch
    }

    /// Whether only the animation needs redrawing.
    pub fn animation_only(self) -> (r: bool)
        ensures
            r == (self.animation && !any_dirty(DirtyState { animation: false, ..self })),
    {
        if !self.animation {
            return false;
        }
        let mut rest = self;
        rest.animation = false;
        !rest.any()
    }

    pub fn mark_full(&mut self)
        ensures
            *final(self) == marked_full(*old(self)),
    {
        self.full = true;
        self.app_state = true;
        self.hub = true;
        self.music = true;
        self.call = true;
        self.voice = true;
        self.power = true;
        self.settings = true;
        self.network = true;
        self.wifi_setup = true;
        self.overlay = true;
        self.navigation = true;
        self.focus = true;
        self.stopwatch = true;
    }

    pub fn mark_patch_domain(&mut self, domain: RuntimeSnapshotDomain)
        ensures
            *final(self) == marked_domain(*old(self), domain),
    {
        let d = *self;
        *self = match domain {
            RuntimeSnapshotDomain::Full => DirtyState {
                full: true,
                app_state: true,
                hub: true,
                music: true,
                call: true,
                voice: true,
                power: true,
                settings: true,
                network: true,
                wifi_setup: true,
                overlay: true,
                navigation: true,
                focus: true,
                stopwatch: true,
                ..d
            },
            RuntimeSnapshotDomain::AppState => DirtyState { app_state: true, navigation: true, ..d },
            RuntimeSnapshotDomain::Hub => DirtyState { hub: true, ..d },
            RuntimeSnapshotDomain::Music => DirtyState { music: true, ..d },
            RuntimeSnapshotDomain::Call => DirtyState { call: true, ..d },
            RuntimeSnapshotDomain::Voice => DirtyState { voice: true, ..d },
            RuntimeSnapshotDomain::Power => DirtyState { power: true, ..d },
            RuntimeSnapshotDomain::Settings => DirtyState { settings: true, ..d },
            RuntimeSnapshotDomain::Network => DirtyState { network: true, ..d },
            RuntimeSnapshotDomain::WifiSetup => DirtyState { wifi_setup: true, ..d },
            RuntimeSnapshotDomain::Overlay => DirtyState { overlay: true, ..d },
        };
    }
}

/// Every patch leaves something to redraw, so no update is lost.
pub proof fn every_patch_requests_a_frame(d: DirtyState, domain: RuntimeSnapshotDomain)
    ensures
        any_dirty(marked_domain(d, domain)),
{
}

/// Marking is never undone by more marking: whatever was dirty stays dirty.
pub proof fn marking_only_adds(d: DirtyState, domain: RuntimeSnapshotDomain)
    ensures
        any_dirty(d) ==> any_dirty(marked_domain(d, domain)),
        d.input ==> marked_domain(d, domain).input,
        d.animation ==> marked_domain(d, domain).animation,
{
}

// ---------------------------------------------------------------------------
// Focus
// ---------------------------------------------------------------------------

/// The next item, wrapping round; unchanged on an empty screen.
pub fn advance(current: usize, count: usize) -> (r: usize)
    requires
        count == 0 || current < usize::MAX,
    ensures
        r == (if count == 0 {
            current as int
        } else {
            (current + 1) % (count as int)
        }),
        r == advance_spec(current as int, count as int),
{
    if count == 0 {
        current
    } else {
        (current + 1) % count
    }
}

/// The item `advance` moves to from `current` among `count`.
pub open spec fn advance_spec(current: int, count: int) -> int {
    if count == 0 {
        current
    } else {
        (current + 1) % count
    }
}

/// Where `n` steps of `advance` lead from `current`.
pub open spec fn advanced(current: int, count: int, n: nat) -> int
    decreases n,
{
    if n == 0 {
        current
    } else {
        advance_spec(advanced(current, count, (n - 1) as nat), count)
    }
}

proof fn lemma_advanced(current: int, count: int, n: nat)
    requires
        count > 0,
        0 <= current < count,
    ensures
        advanced(current, count, n) == (current + n) % count,
    decreases n,
{
    if n == 0 {
        vstd::arithmetic::div_mod::lemma_small_mod(current as nat, count as nat);
    } else {
        lemma_advanced(current, count, (n - 1) as nat);
        vstd::arithmetic::div_mod::lemma_add_mod_noop_right(1, current + n - 1, count);
    }
}

/// Focus wraps round: from any item, as many steps of `advance` as there
/// are items come back to it, and every step stays on an item.
pub proof fn advancing_through_every_item_returns_to_the_start(current: int, count: int)
    requires
        0 <= current < count,
    ensures
        advanced(current, count, count as nat) == current,
        forall|n: nat| 0 <= #[trigger] advanced(current, count, n) < count,
{
    lemma_advanced(current, count, count as nat);
    vstd::arithmetic::div_mod::lemma_mod_add_multiples_vanish(current, count);
    vstd::arithmetic::div_mod::lemma_small_mod(current as nat, count as nat);
    assert forall|n: nat| 0 <= #[trigger] advanced(current, count, n) < count by {
        lemma_advanced(current, count, n);
        vstd::arithmetic::div_mod::lemma_mod_bound(current + n, count);
    }
}

/// The next item, stopping at the last; 0 on an empty screen.
pub fn advance_clamped(current: usize, count: usize) -> (r: usize)
    requires
        count == 0 || current < usize::MAX,
    ensures
        r == (if count == 0 {
            0
        } else if current + 1 < count - 1 {
            current + 1
        } else {
            count - 1
        }),
{
    if count == 0 {
        0
    } else if current + 1 < count - 1 {
        current + 1
    } else {
        count - 1
    }
}

/// The focus held on the screen's items; 0 on an empty screen.
pub fn clamp(current: usize, count: usize) -> (r: usize)
    ensures
        r == (if count == 0 {
            0
        } else if current >= count {
            count - 1
        } else {
            current as int
        }),
{
    if count == 0 {
        0
    } else if current >= count {
        count - 1
    } else {
        current
    }
}

/// Focus always lands on an item when there is one.
pub proof fn focus_stays_on_an_item(current: usize, count: usize)
    requires
        count > 0,
        current < usize::MAX,
    ensures
        (current + 1) % (count as int) < count,
        (if current + 1 < count - 1 { current + 1 } else { count - 1 }) < count,
        (if current >= count { count - 1 } else { current as int }) < count,
{
}

/// Stepping through every item of a screen comes back to the first.
pub proof fn advancing_wraps_to_the_first_item(count: usize)
    requires
        count > 0,
    ensures
        ((count - 1) + 1) % (count as int) == 0,
{
    assert((count as int) % (count as int) == 0) by (nonlinear_arith)
        requires
            count > 0,
    ;
}

#[derive(Debug, Clone, Copy)]
pub struct TalkContactAction {
    pub kind: &'static str,
}

/// The Listen screen's items.
pub fn listen_items(snapshot: &RuntimeSnapshot) -> (items: Vec<ListItemSnapshot>)
    ensures
        items@.map_values(|i: ListItemSnapshot| (i.id@, i.title@, i.subtitle@, i.icon_key@)) == seq![
            ("playlists"@, "Playlists"@, "Saved mixes"@, "playlist"@),
            ("recent_tracks"@, "Recent"@, "Recently played"@, "recent"@),
            ("shuffle"@, "Shuffle All"@, "Start music"@, "shuffle"@),
        ],
{
    let items = vec![
        ListItemSnapshot::new("playlists", "Playlists", "Saved mixes", "playlist"),
        ListItemSnapshot::new("recent_tracks", "Recent", "Recently played", "recent"),
        ListItemSnapshot::new("shuffle", "Shuffle All", "Start music", "shuffle"),
    ];
    assert(items@.map_values(|i: ListItemSnapshot| (i.id@, i.title@, i.subtitle@, i.icon_key@)) =~= seq![
        ("playlists"@, "Playlists"@, "Saved mixes"@, "playlist"@),
        ("recent_tracks"@, "Recent"@, "Recently played"@, "recent"@),
        ("shuffle"@, "Shuffle All"@, "Start music"@, "shuffle"@),
    ]);
    items
}

/// A contact's actions: call, record, replay.
pub fn talk_contact_actions(
    snapshot: &RuntimeSnapshot,
    selected_contact: Option<&ListItemSnapshot>,
) -> (actions: Vec<TalkContactAction>)
    ensures
        actions@.map_values(|a: TalkContactAction| a.kind@) == seq!["call"@, "record"@, "replay"@],
{
    let actions = vec![
        TalkContactAction { kind: "call" },
        TalkContactAction { kind: "record" },
        TalkContactAction { kind: "replay" },
    ];
    assert(actions@.map_values(|a: TalkContactAction| a.kind@) =~= seq!["call"@, "record"@, "replay"@]);
    actions
}

/// The voice note screen's phase: recording while a capture runs, else the
/// runtime's phase when it is one the screen shows, else ready.
pub open spec fn voice_phase_spec(phase: Seq<char>, capture_in_flight: bool, ptt_active: bool) -> Seq<char> {
    let p = to_ascii_lower(trim(phase));
    if capture_in_flight || ptt_active || p == "recording"@ {
        "recording"@
    } else if p == "review"@ || p == "sending"@ || p == "sent"@ || p == "failed"@ {
        p
    } else {
        "ready"@
    }
}

pub fn voice_note_phase(snapshot: &RuntimeSnapshot) -> (p: String)
    ensures
        p@ == voice_phase_spec(
            snapshot.voice.phase@,
            snapshot.voice.capture_in_flight,
            snapshot.voice.ptt_active,
        ),
{
    let phase = string_of(&lower_chars(&trimmed(snapshot.voice.phase.as_str())));
    let p = phase.as_str();
    if snapshot.voice.capture_in_flight || snapshot.voice.ptt_active || str_eq(p, "recording") {
        return owned("recording");
    }
    if str_eq(p, "review") || str_eq(p, "sending") || str_eq(p, "sent") || str_eq(p, "failed") {
        return phase;
    }
    owned("ready")
}

/// Review offers three actions, a failure two, other phases none.
pub fn voice_note_action_count(snapshot: &RuntimeSnapshot) -> (n: usize)
    ensures
        n == (if voice_phase_spec(
            snapshot.voice.phase@,
            snapshot.voice.capture_in_flight,
            snapshot.voice.ptt_active,
        ) == "review"@ {
            3usize
        } else if voice_phase_spec(
            snapshot.voice.phase@,
            snapshot.voice.capture_in_flight,
            snapshot.voice.ptt_active,
        ) == "failed"@ {
            2usize
        } else {
            0usize
        }),
{
    let phase = voice_note_phase(snapshot);
    if str_eq(phase.as_str(), "review") {
        3
    } else if str_eq(phase.as_str(), "failed") {
        2
    } else {
        0
    }
}

/// The power screen's pages: the runtime's pages, or one page of rows, or
/// the four built-in pages.
pub fn power_page_count(snapshot: &RuntimeSnapshot) -> (n: usize)
    ensures
        n == (if snapshot.power.pages@.len() > 0 {
            snapshot.power.pages@.len()
        } else if snapshot.power.rows@.len() > 0 {
            1
        } else {
            4
        }),
{
    if snapshot.power.pages.len() > 0 {
        return snapshot.power.pages.len();
    }
    if snapshot.power.rows.len() > 0 {
        return 1;
    }
    4
}

/// How many entries the first list keyed `key` holds (0 when none is).
pub open spec fn keyed_len<T>(pairs: Seq<(String, Vec<T>)>, key: Seq<char>) -> nat
    decreases pairs.len(),
{
    if pairs.len() == 0 {
        0
    } else if pairs[0].0@ == key {
        pairs[0].1@.len()
    } else {
        keyed_len(pairs.drop_first(), key)
    }
}

fn keyed_count<T>(pairs: &Vec<(String, Vec<T>)>, key: &str) -> (n: usize)
    ensures
        n == keyed_len(pairs@, key@),
{
    let mut i: usize = 0;
    assert(pairs@.subrange(0, pairs@.len() as int) =~= pairs@);
    while i < pairs.len()
        invariant
            i <= pairs@.len(),
            keyed_len(pairs@, key@) == keyed_len(pairs@.subrange(i as int, pairs@.len() as int), key@),
        decreases pairs.len() - i,
    {
        let ghost rest = pairs@.subrange(i as int, pairs@.len() as int);
        assert(rest.drop_first() =~= pairs@.subrange(i + 1, pairs@.len() as int));
        assert(rest[0] == pairs@[i as int]);
        if str_eq(pairs[i].0.as_str(), key) {
            return pairs[i].1.len();
        }
        i = i + 1;
    }
    0
}

/// How many items focus moves through on a screen.
pub open spec fn focus_count_spec(
    screen: UiScreen,
    snapshot: RuntimeSnapshot,
    selected_playlist: Option<ListItemSnapshot>,
    selected_contact: Option<ListItemSnapshot>,
    replay_index: usize,
) -> nat {
    match screen {
        UiScreen::Hub => if snapshot.hub.cards@.len() > 1 {
            snapshot.hub.cards@.len()
        } else {
            1
        },
        UiScreen::Listen => 3,
        UiScreen::Playlists => snapshot.music.playlists@.len(),
        UiScreen::PlaylistTracks => match selected_playlist {
            Some(p) => keyed_len(snapshot.music.playlist_tracks@, p.id@),
            None => 0,
        },
        UiScreen::RecentTracks => snapshot.music.recent_tracks@.len(),
        UiScreen::NowPlaying => 3,
        UiScreen::Talk => snapshot.call.contacts@.len(),
        UiScreen::Contacts => snapshot.call.contacts@.len(),
        UiScreen::CallHistory => snapshot.call.history@.len(),
        UiScreen::TalkContact => 3,
        UiScreen::Replay => {
            let notes = match selected_contact {
                Some(c) => keyed_len(snapshot.call.voice_notes_by_contact@, c.id@),
                None => 0,
            };
            if replay_index + 1 < notes {
                3
            } else {
                2
            }
        },
        UiScreen::VoiceNote => {
            let phase = voice_phase_spec(
                snapshot.voice.phase@,
                snapshot.voice.capture_in_flight,
                snapshot.voice.ptt_active,
            );
            if phase == "review"@ {
                3
            } else if phase == "failed"@ {
                2
            } else {
                0
            }
        },
        UiScreen::Power => if snapshot.power.pages@.len() > 0 {
            snapshot.power.pages@.len()
        } else if snapshot.power.rows@.len() > 0 {
            1
        } else {
            4
        },
        UiScreen::Setup => 7,
        _ => 0,
    }
}

pub fn focus_count(
    screen: UiScreen,
    snapshot: &RuntimeSnapshot,
    selected_playlist: Option<&ListItemSnapshot>,
    selected_contact: Option<&ListItemSnapshot>,
    replay_index: usize,
) -> (n: usize)
    ensures
        n == focus_count_spec(
            screen,
            *snapshot,
            match selected_playlist {
                Some(p) => Some(*p),
                None => None,
            },
            match selected_contact {
                Some(c) => Some(*c),
                None => None,
            },
            replay_index,
        ),
{
    match screen {
        UiScreen::Hub => if snapshot.hub.cards.len() > 1 {
            snapshot.hub.cards.len()
        } else {
            1
        },
        UiScreen::Listen => {
            let items = listen_items(snapshot);
            assert(items@.len() == items@.map_values(
                |i: ListItemSnapshot| (i.id@, i.title@, i.subtitle@, i.icon_key@),
            ).len());
            items.len()
        },
        UiScreen::Playlists => snapshot.music.playlists.len(),
        UiScreen::PlaylistTracks => match selected_playlist {
            Some(p) => keyed_count(&snapshot.music.playlist_tracks, p.id.as_str()),
            None => 0,
        },
        UiScreen::RecentTracks => snapshot.music.recent_tracks.len(),
        UiScreen::NowPlaying => 3,
        UiScreen::Talk => snapshot.call.contacts.len(),
        UiScreen::Contacts => snapshot.call.contacts.len(),
        UiScreen::CallHistory => snapshot.call.history.len(),
        UiScreen::TalkContact => {
            let actions = talk_contact_actions(snapshot, selected_contact);
            assert(actions@.len() == actions@.map_values(|a: TalkContactAction| a.kind@).len());
            actions.len()
        },
        UiScreen::Replay => {
            let notes = match selected_contact {
                Some(c) => keyed_count(&snapshot.call.voice_notes_by_contact, c.id.as_str()),
                None => 0,
            };
            if replay_index < notes && replay_index + 1 < notes {
                3
            } else {
                2
            }
        },
        UiScreen::VoiceNote => voice_note_action_count(snapshot),
        UiScreen::Power => power_page_count(snapshot),
        UiScreen::Setup => 7,
        _ => 0,
    }
}

} // verus!
