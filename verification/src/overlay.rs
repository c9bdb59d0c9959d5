//! The system overlay that covers any screen while an operation is pending
//! or has failed: when the loading screen appears, is announced and times
//! out, and how an error is announced, retried and announced again.
use vstd::prelude::*;
use crate::snapshot::OverlayRuntimeSnapshot;
use crate::text::{decimal, owned, push_decimal, push_str, str_eq, string_of, trim, trimmed};
use crate::ui_state::{SystemOverlayPreview, SystemOverlayState};

verus! {

/// What the overlay asks of the runtime.
#[derive(Debug, Clone, Copy, PartialEq, Eq, Structural)]
pub enum SystemIntent {
    RetryOverlay,
    DismissOverlay,
    LoadingTimedOut,
    AnnounceWait,
    AnnounceRecoverableError,
    AnnounceUnrecoverableError,
    AnnounceRetry,
}

/// The error the overlay shows while the runtime does not answer.
pub const RUNTIME_LINK_ERROR: &'static str = "Lost runtime link";

/// The parts of the screen the overlay has changed since the last frame.
#[derive(Debug, Clone, Copy, PartialEq, Eq, Structural)]
pub struct OverlayRedraw {
    pub overlay: bool,
    pub navigation: bool,
    pub animation: bool,
}

/// The loading screen shows after this long, in ms.
pub const LOADING_DELAY_MS: u64 = 300;
/// The wait is announced after this long.
pub const LOADING_ANNOUNCE_MS: u64 = 2_000;
/// A load that takes this long becomes a recoverable error.
pub const LOADING_TIMEOUT_MS: u64 = 8_000;
/// A first recoverable failure is retried after this long.
pub const AUTO_RETRY_MS: u64 = 4_000;
/// An unrecoverable error is announced again after this long.
pub const UNRECOVERABLE_REPEAT_MS: u64 = 60_000;
/// Each of the spinner's eight steps lasts this long.
pub const SPINNER_STEP_MS: u64 = 80;

/// The overlay part of the UI runtime: the runtime's overlay snapshot, the
/// overlay's own bookkeeping, a preview forced for hardware review, the
/// intents raised for the runtime, and what needs redrawing.
pub struct OverlayRuntime {
    pub overlay: OverlayRuntimeSnapshot,
    pub state: SystemOverlayState,
    pub preview: Option<SystemOverlayPreview>,
    pub intents: Vec<SystemIntent>,
    pub dirty: OverlayRedraw,
}

/// The overlay snapshot as the contracts see it.
pub ghost struct OverlayView {
    pub loading: bool,
    pub error: Seq<char>,
    pub message: Seq<char>,
    pub retryable: bool,
    pub code: Seq<char>,
    pub source: Seq<char>,
    pub retry_count: u8,
}

/// The overlay's bookkeeping as the contracts see it.
pub ghost struct ClockView {
    pub loading_started_ms: Option<u64>,
    pub loading_visible: bool,
    pub loading_announced: bool,
    pub spinner_step: u8,
    pub error_started_ms: Option<u64>,
    pub error_signature: Seq<char>,
    pub error_announced: bool,
    pub unrecoverable_repeat_announced: bool,
}

/// Everything the overlay keeps, as the contracts see it.
pub ghost struct OverlayModel {
    pub overlay: OverlayView,
    pub clock: ClockView,
    pub preview: Option<SystemOverlayPreview>,
    pub intents: Seq<SystemIntent>,
    pub dirty: OverlayRedraw,
}

pub open spec fn overlay_view(o: OverlayRuntimeSnapshot) -> OverlayView {
    OverlayView {
        loading: o.loading,
        error: o.error@,
        message: o.message@,
        retryable: o.retryable,
        code: o.code@,
        source: o.source@,
        retry_count: o.retry_count,
    }
}

pub open spec fn clock_view(s: SystemOverlayState) -> ClockView {
    ClockView {
        loading_started_ms: s.loading_started_ms,
        loading_visible: s.loading_visible,
        loading_announced: s.loading_announced,
        spinner_step: s.spinner_step,
        error_started_ms: s.error_started_ms,
        error_signature: s.error_signature@,
        error_announced: s.error_announced,
        unrecoverable_repeat_announced: s.unrecoverable_repeat_announced,
    }
}

impl OverlayRuntime {
    pub open spec fn model(&self) -> OverlayModel {
        OverlayModel {
            overlay: overlay_view(self.overlay),
            clock: clock_view(self.state),
            preview: self.preview,
            intents: self.intents@,
            dirty: self.dirty,
        }
    }
}

/// No overlay: not loading, no error, nothing to retry.
pub open spec fn quiet_overlay() -> OverlayView {
    OverlayView {
        loading: false,
        error: Seq::empty(),
        message: Seq::empty(),
        retryable: false,
        code: Seq::empty(),
        source: Seq::empty(),
        retry_count: 0,
    }
}

/// Bookkeeping with both overlays forgotten.
pub open spec fn quiet_clock() -> ClockView {
    ClockView {
        loading_started_ms: None,
        loading_visible: false,
        loading_announced: false,
        spinner_step: 0,
        error_started_ms: None,
        error_signature: Seq::empty(),
        error_announced: false,
        unrecoverable_repeat_announced: false,
    }
}

pub open spec fn without_loading(c: ClockView) -> ClockView {
    ClockView {
        loading_started_ms: None,
        loading_visible: false,
        loading_announced: false,
        spinner_step: 0,
        ..c
    }
}

pub open spec fn without_error(c: ClockView) -> ClockView {
    ClockView {
        error_started_ms: None,
        error_signature: Seq::empty(),
        error_announced: false,
        unrecoverable_repeat_announced: false,
        ..c
    }
}

pub open spec fn bool_text(b: bool) -> Seq<char> {
    if b {
        "true"@
    } else {
        "false"@
    }
}

/// What identifies an error: its code, source, retryability and retry
/// count, joined with `|`. A new signature is a new error.
pub open spec fn signature(o: OverlayView) -> Seq<char> {
    o.code + "|"@ + o.source + "|"@ + bool_text(o.retryable) + "|"@ + decimal(o.retry_count as nat)
}

/// Whether an error is reported: its text has something besides spaces.
pub open spec fn has_error(o: OverlayView) -> bool {
    trim(o.error).len() > 0
}

pub open spec fn elapsed(now: u64, since: u64) -> int {
    if now >= since {
        now - since
    } else {
        0
    }
}

/// The spinner's step, eight steps a cycle.
#[verifier::opaque]
pub open spec fn spinner_at(ms: int) -> u8 {
    ((ms / 80) % 8) as u8
}

pub open spec fn mark_redraw(d: OverlayRedraw) -> OverlayRedraw {
    OverlayRedraw { overlay: true, navigation: true, ..d }
}

/// The overlay a preview forces.
pub open spec fn preview_overlay(p: SystemOverlayPreview) -> OverlayView {
    let name = match p {
        SystemOverlayPreview::Loading => Seq::empty(),
        SystemOverlayPreview::RecoverableError => "preview_recoverable"@,
        SystemOverlayPreview::UnrecoverableError => "preview_unrecoverable"@,
    };
    OverlayView {
        loading: p == SystemOverlayPreview::Loading,
        error: name,
        message: Seq::empty(),
        retryable: p == SystemOverlayPreview::RecoverableError,
        code: name,
        source: "ui.preview"@,
        retry_count: if p == SystemOverlayPreview::RecoverableError { 1 } else { 0 },
    }
}

/// A preview tick: the preview's overlay is kept in place and, for
/// loading, the spinner turns with the clock.
pub open spec fn preview_tick(m: OverlayModel, p: SystemOverlayPreview, now: u64) -> (OverlayModel, bool) {
    let loading = p == SystemOverlayPreview::Loading;
    let step = if loading { spinner_at(now as int) } else { m.clock.spinner_step };
    let changed = step != m.clock.spinner_step;
    (
        OverlayModel {
            overlay: preview_overlay(p),
            clock: ClockView { loading_visible: loading, spinner_step: step, ..m.clock },
            dirty: if changed {
                OverlayRedraw { animation: true, overlay: true, ..m.dirty }
            } else {
                m.dirty
            },
            ..m
        },
        changed,
    )
}

/// An error tick: the error is announced once (as recoverable or not); a
/// first recoverable failure is retried after 4 s, which clears the
/// overlay; an unrecoverable one is announced again after a minute.
pub open spec fn error_tick(m: OverlayModel, now: u64) -> (OverlayModel, bool) {
    let cleared = without_loading(m.clock);
    let sig = signature(m.overlay);
    let fresh = if cleared.error_signature != sig {
        ClockView { error_signature: sig, ..without_error(cleared) }
    } else {
        cleared
    };
    let started = match fresh.error_started_ms {
        Some(s) => s,
        None => now,
    };
    let timed = ClockView { error_started_ms: Some(started), ..fresh };
    let waited = elapsed(now, started);
    let announce = !timed.error_announced;
    let intents = if announce {
        m.intents.push(
            if m.overlay.retryable {
                SystemIntent::AnnounceRecoverableError
            } else {
                SystemIntent::AnnounceUnrecoverableError
            },
        )
    } else {
        m.intents
    };
    let announced = ClockView { error_announced: true, ..timed };
    if m.overlay.retryable && m.overlay.retry_count == 0 && waited >= 4000 {
        (
            OverlayModel {
                overlay: quiet_overlay(),
                clock: quiet_clock(),
                intents: intents.push(SystemIntent::RetryOverlay),
                dirty: mark_redraw(m.dirty),
                ..m
            },
            true,
        )
    } else if !m.overlay.retryable && waited >= 60000 && !announced.unrecoverable_repeat_announced {
        (
            OverlayModel {
                clock: ClockView { unrecoverable_repeat_announced: true, ..announced },
                intents: intents.push(SystemIntent::AnnounceUnrecoverableError),
                ..m
            },
            true,
        )
    } else {
        (OverlayModel { clock: announced, intents, ..m }, announce)
    }
}

/// A loading tick: the loading screen shows after 300 ms, the wait is
/// announced once after 2 s, the spinner turns while it shows, and after
/// 8 s the load becomes a recoverable `operation_timeout` error.
#[verifier::opaque]
pub open spec fn loading_tick(m: OverlayModel, now: u64) -> (OverlayModel, bool) {
    let started = match m.clock.loading_started_ms {
        Some(s) => s,
        None => now,
    };
    let waited = elapsed(now, started);
    let show = waited >= 300 && !m.clock.loading_visible;
    let announce = waited >= 2000 && !m.clock.loading_announced;
    let intents = if announce { m.intents.push(SystemIntent::AnnounceWait) } else { m.intents };
    if waited >= 8000 {
        (
            OverlayModel {
                overlay: OverlayView {
                    loading: false,
                    error: "operation_timeout"@,
                    code: "operation_timeout"@,
                    retryable: true,
                    ..m.overlay
                },
                clock: quiet_clock(),
                intents: intents.push(SystemIntent::LoadingTimedOut),
                dirty: mark_redraw(m.dirty),
                ..m
            },
            true,
        )
    } else {
        let visible = m.clock.loading_visible || show;
        let step = spinner_at(waited);
        let spin = visible && step != m.clock.spinner_step;
        let changed = show || announce || spin;
        (
            OverlayModel {
                clock: ClockView {
                    loading_started_ms: Some(started),
                    loading_visible: visible,
                    loading_announced: m.clock.loading_announced || announce,
                    spinner_step: if spin { step } else { m.clock.spinner_step },
                    ..without_error(m.clock)
                },
                intents,
                dirty: OverlayRedraw {
                    animation: m.dirty.animation || spin,
                    overlay: m.dirty.overlay || changed,
                    ..m.dirty
                },
                ..m
            },
            changed,
        )
    }
}

pub open spec fn loading_started(m: OverlayModel, now: u64) -> u64 {
    match m.clock.loading_started_ms {
        Some(s) => s,
        None => now,
    }
}

pub open spec fn loading_intents(m: OverlayModel, now: u64) -> Seq<SystemIntent> {
    let waited = elapsed(now, loading_started(m, now));
    if waited >= 2000 && !m.clock.loading_announced {
        m.intents.push(SystemIntent::AnnounceWait)
    } else {
        m.intents
    }
}

proof fn lemma_loading_timeout(m: OverlayModel, now: u64)
    requires
        elapsed(now, loading_started(m, now)) >= 8000,
    ensures
        loading_tick(m, now) == (
            OverlayModel {
                overlay: OverlayView {
                    loading: false,
                    error: "operation_timeout"@,
                    code: "operation_timeout"@,
                    retryable: true,
                    ..m.overlay
                },
                clock: quiet_clock(),
                intents: loading_intents(m, now).push(SystemIntent::LoadingTimedOut),
                dirty: mark_redraw(m.dirty),
                ..m
            },
            true,
        ),
{
    reveal(loading_tick);
}

proof fn lemma_loading_keeps_preview(m: OverlayModel, now: u64)
    ensures
        loading_tick(m, now).0.preview == m.preview,
{
    reveal(loading_tick);
}

proof fn lemma_loading_continues(m: OverlayModel, now: u64)
    requires
        elapsed(now, loading_started(m, now)) < 8000,
    ensures
        ({
            let started = loading_started(m, now);
            let waited = elapsed(now, started);
            let show = waited >= 300 && !m.clock.loading_visible;
            let announce = waited >= 2000 && !m.clock.loading_announced;
            let visible = m.clock.loading_visible || show;
            let step = spinner_at(waited);
            let spin = visible && step != m.clock.spinner_step;
            let changed = show || announce || spin;
            loading_tick(m, now) == (
                OverlayModel {
                    clock: ClockView {
                        loading_started_ms: Some(started),
                        loading_visible: visible,
                        loading_announced: m.clock.loading_announced || announce,
                        spinner_step: if spin { step } else { m.clock.spinner_step },
                        ..without_error(m.clock)
                    },
                    intents: loading_intents(m, now),
                    dirty: OverlayRedraw {
                        animation: m.dirty.animation || spin,
                        overlay: m.dirty.overlay || changed,
                        ..m.dirty
                    },
                    ..m
                },
                changed,
            )
        }),
{
    reveal(loading_tick);
}

/// The overlay as the contracts see it, without a preview.
pub open spec fn parts_model(
    overlay: OverlayRuntimeSnapshot,
    state: SystemOverlayState,
    intents: Seq<SystemIntent>,
    dirty: OverlayRedraw,
) -> OverlayModel {
    OverlayModel { overlay: overlay_view(overlay), clock: clock_view(state), preview: None, intents, dirty }
}

fn redraw(d: OverlayRedraw) -> (r: OverlayRedraw)
    ensures
        r == mark_redraw(d),
{
    OverlayRedraw { overlay: true, navigation: true, ..d }
}

fn with_motion(d: OverlayRedraw, spin: bool, changed: bool) -> (r: OverlayRedraw)
    ensures
        r == (OverlayRedraw { animation: d.animation || spin, overlay: d.overlay || changed, ..d }),
{
    OverlayRedraw { animation: d.animation || spin, overlay: d.overlay || changed, ..d }
}

/// A load that took too long becomes a recoverable `operation_timeout`
/// error.
fn time_out(overlay: &mut OverlayRuntimeSnapshot)
    ensures
        overlay_view(*final(overlay)) == (OverlayView {
            loading: false,
            error: "operation_timeout"@,
            code: "operation_timeout"@,
            retryable: true,
            ..overlay_view(*old(overlay))
        }),
{
    overlay.loading = false;
    overlay.error = owned("operation_timeout");
    overlay.code = owned("operation_timeout");
    overlay.retryable = true;
}

fn loading_step(
    overlay: &mut OverlayRuntimeSnapshot,
    state: &mut SystemOverlayState,
    intents: &mut Vec<SystemIntent>,
    dirty: &mut OverlayRedraw,
    now_ms: u64,
) -> (changed: bool)
    ensures
        overlay_view(*final(overlay)) == loading_tick(parts_model(*old(overlay), *old(state), old(intents)@, *old(dirty)), now_ms).0.overlay,
        clock_view(*final(state)) == loading_tick(parts_model(*old(overlay), *old(state), old(intents)@, *old(dirty)), now_ms).0.clock,
        final(intents)@ == loading_tick(parts_model(*old(overlay), *old(state), old(intents)@, *old(dirty)), now_ms).0.intents,
        *final(dirty) == loading_tick(parts_model(*old(overlay), *old(state), old(intents)@, *old(dirty)), now_ms).0.dirty,
        changed == loading_tick(parts_model(*old(overlay), *old(state), old(intents)@, *old(dirty)), now_ms).1,
{
    let ghost m = parts_model(*overlay, *state, intents@, *dirty);
    let started = match state.loading_started_ms {
        Some(s) => s,
        None => now_ms,
    };
    let waited: u64 = if now_ms >= started { now_ms - started } else { 0 };
    assert(started == loading_started(m, now_ms));
    assert(waited as int == elapsed(now_ms, started));
    let show = waited >= LOADING_DELAY_MS && !state.loading_visible;
    let visible = state.loading_visible || show;
    let announce = waited >= LOADING_ANNOUNCE_MS && !state.loading_announced;
    if announce {
        intents.push(SystemIntent::AnnounceWait);
    }
    assert(intents@ == loading_intents(m, now_ms));
    if waited >= LOADING_TIMEOUT_MS {
        intents.push(SystemIntent::LoadingTimedOut);
        time_out(overlay);
        *state = quiet_state();
        *dirty = redraw(*dirty);
        proof {
            lemma_loading_timeout(m, now_ms);
        }
        return true;
    }
    let step = spinner_step(waited);
    let spin = visible && step != state.spinner_step;
    let new_step = if spin { step } else { state.spinner_step };
    let announced = state.loading_announced || announce;
    *state = SystemOverlayState {
        loading_started_ms: Some(started),
        loading_visible: visible,
        loading_announced: announced,
        spinner_step: new_step,
        error_started_ms: None,
        error_signature: String::new(),
        error_announced: false,
        unrecoverable_repeat_announced: false,
    };
    let changed = show || announce || spin;
    *dirty = with_motion(*dirty, spin, changed);
    assert(state.error_signature@ =~= Seq::<char>::empty());
    assert(clock_view(*state) == ClockView {
        loading_started_ms: Some(started),
        loading_visible: visible,
        loading_announced: m.clock.loading_announced || announce,
        spinner_step: if spin { step } else { m.clock.spinner_step },
        ..without_error(m.clock)
    });
    proof {
        lemma_loading_continues(m, now_ms);
    }
    changed
}

/// The model with a forced preview's overlay in place.
pub open spec fn enforced(m: OverlayModel) -> OverlayModel {
    match m.preview {
        Some(p) => OverlayModel { overlay: preview_overlay(p), ..m },
        None => m,
    }
}

/// The bookkeeping brought in line with the overlay: a load that ended and
/// an error that cleared are forgotten, and an error with a new signature
/// starts afresh.
pub open spec fn reconciled(m: OverlayModel) -> OverlayModel {
    let c1 = if m.overlay.loading { m.clock } else { without_loading(m.clock) };
    let c2 = if !has_error(m.overlay) {
        without_error(c1)
    } else if c1.error_signature != signature(m.overlay) {
        ClockView { error_signature: signature(m.overlay), ..without_error(c1) }
    } else {
        c1
    };
    OverlayModel { clock: c2, ..m }
}

/// One tick of the overlay's clock at `now`. `overlay_screen` is whether
/// an overlay screen is showing; with nothing pending it is taken down.
pub open spec fn overlay_tick(m: OverlayModel, now: u64, overlay_screen: bool) -> (OverlayModel, bool) {
    match m.preview {
        Some(p) => preview_tick(m, p, now),
        None => if has_error(m.overlay) {
            error_tick(m, now)
        } else if m.overlay.loading {
            loading_tick(m, now)
        } else {
            (
                OverlayModel {
                    clock: quiet_clock(),
                    dirty: if overlay_screen { mark_redraw(m.dirty) } else { m.dirty },
                    ..m
                },
                overlay_screen,
            )
        },
    }
}

fn quiet_snapshot() -> (o: OverlayRuntimeSnapshot)
    ensures
        overlay_view(o) == quiet_overlay(),
{
    OverlayRuntimeSnapshot {
        loading: false,
        error: String::new(),
        message: String::new(),
        retryable: false,
        code: String::new(),
        source: String::new(),
        retry_count: 0,
    }
}

impl OverlayRuntime {
    /// Nothing pending.
    pub fn new() -> (r: Self)
        ensures
            r.model() == (OverlayModel {
                overlay: quiet_overlay(),
                clock: quiet_clock(),
                preview: None,
                intents: Seq::empty(),
                dirty: OverlayRedraw { overlay: false, navigation: false, animation: false },
            }),
    {
        let dirty = OverlayRedraw { overlay: false, navigation: false, animation: false };
        let r = OverlayRuntime {
            overlay: quiet_snapshot(),
            state: SystemOverlayState::new(),
            preview: None,
            intents: Vec::new(),
            dirty,
        };
        assert(r.state.error_signature@ =~= Seq::<char>::empty());
        assert(r.model().clock == quiet_clock());
        r
    }
}

impl OverlayRuntime {
    /// The error's signature: code, source, retryability and retry count.
    pub fn system_overlay_signature(&self) -> (r: String)
        ensures
            r@ == signature(overlay_view(self.overlay)),
    {
        let mut out: Vec<char> = Vec::new();
        push_str(&mut out, self.overlay.code.as_str());
        push_str(&mut out, "|");
        push_str(&mut out, self.overlay.source.as_str());
        push_str(&mut out, "|");
        push_str(&mut out, if self.overlay.retryable { "true" } else { "false" });
        push_str(&mut out, "|");
        push_decimal(&mut out, self.overlay.retry_count as u64);
        string_of(&out)
    }

    /// Takes the overlay down here, without waiting for the runtime.
    pub fn clear_local_system_overlay(&mut self)
        ensures
            final(self).model() == (OverlayModel {
                overlay: quiet_overlay(),
                clock: quiet_clock(),
                dirty: mark_redraw(old(self).dirty),
                ..old(self).model()
            }),
    {
        self.overlay = quiet_snapshot();
        self.state.reset();
        self.dirty.overlay = true;
        self.dirty.navigation = true;
        assert(self.state.error_signature@ =~= Seq::<char>::empty());
        assert(self.model().clock == quiet_clock());
    }

    /// Asks the runtime to retry the failed operation (announcing it when
    /// asked to), and takes the overlay down.
    pub fn retry_system_overlay(&mut self, announce: bool)
        ensures
            final(self).model() == (OverlayModel {
                overlay: quiet_overlay(),
                clock: quiet_clock(),
                intents: if announce {
                    old(self).intents@.push(SystemIntent::AnnounceRetry).push(SystemIntent::RetryOverlay)
                } else {
                    old(self).intents@.push(SystemIntent::RetryOverlay)
                },
                dirty: mark_redraw(old(self).dirty),
                ..old(self).model()
            }),
    {
        if announce {
            self.intents.push(SystemIntent::AnnounceRetry);
        }
        self.intents.push(SystemIntent::RetryOverlay);
        self.clear_local_system_overlay();
    }

    /// Asks the runtime to drop the failed operation, and takes the overlay
    /// down.
    pub fn dismiss_system_overlay(&mut self)
        ensures
            final(self).model() == (OverlayModel {
                overlay: quiet_overlay(),
                clock: quiet_clock(),
                intents: old(self).intents@.push(SystemIntent::DismissOverlay),
                dirty: mark_redraw(old(self).dirty),
                ..old(self).model()
            }),
    {
        self.intents.push(SystemIntent::DismissOverlay);
        self.clear_local_system_overlay();
    }

    /// Starts the clocks of an overlay the runtime has just reported.
    pub fn note_system_overlay_snapshot_received(&mut self, now_ms: u64)
        ensures
            final(self).model() == (OverlayModel {
                clock: ClockView {
                    loading_started_ms: if old(self).overlay.loading && old(self).state.loading_started_ms is None {
                        Some(now_ms)
                    } else {
                        old(self).state.loading_started_ms
                    },
                    error_started_ms: if has_error(overlay_view(old(self).overlay))
                        && old(self).state.error_started_ms is None {
                        Some(now_ms)
                    } else {
                        old(self).state.error_started_ms
                    },
                    ..old(self).model().clock
                },
                ..old(self).model()
            }),
    {
        if self.overlay.loading && self.state.loading_started_ms.is_none() {
            self.state.loading_started_ms = Some(now_ms);
        }
        if trimmed(self.overlay.error.as_str()).len() > 0 && self.state.error_started_ms.is_none() {
            self.state.error_started_ms = Some(now_ms);
        }
    }
}

/// The overlay snapshot a preview forces.
fn preview_snapshot(p: SystemOverlayPreview) -> (o: OverlayRuntimeSnapshot)
    ensures
        overlay_view(o) == preview_overlay(p),
{
    let recoverable = match p {
        SystemOverlayPreview::RecoverableError => true,
        _ => false,
    };
    proof {
        reveal_strlit("");
        assert(""@ =~= Seq::<char>::empty());
    }
    let name = match p {
        SystemOverlayPreview::Loading => "",
        SystemOverlayPreview::RecoverableError => "preview_recoverable",
        SystemOverlayPreview::UnrecoverableError => "preview_unrecoverable",
    };
    proof {
        reveal_strlit("");
    }
    OverlayRuntimeSnapshot {
        loading: match p {
            SystemOverlayPreview::Loading => true,
            _ => false,
        },
        error: owned(name),
        message: String::new(),
        retryable: recoverable,
        code: owned(name),
        source: owned("ui.preview"),
        retry_count: if recoverable { 1 } else { 0 },
    }
}

fn quiet_state() -> (s: SystemOverlayState)
    ensures
        clock_view(s) == quiet_clock(),
{
    let s = SystemOverlayState::new();
    assert(s.error_signature@ =~= Seq::<char>::empty());
    s
}

/// The spinner's step `ms` into its run.
pub fn spinner_step(ms: u64) -> (r: u8)
    ensures
        r == spinner_at(ms as int),
        r < 8,
{
    reveal(spinner_at);
    ((ms / SPINNER_STEP_MS) % 8) as u8
}

impl OverlayRuntime {
    /// Holds the overlay snapshot to the preview, when one is forced.
    pub fn enforce_system_overlay_preview(&mut self)
        ensures
            final(self).model() == enforced(old(self).model()),
    {
        if let Some(p) = self.preview {
            self.overlay = preview_snapshot(p);
        }
    }

    /// Brings the bookkeeping in line with a new overlay snapshot: a load
    /// that ended and an error that cleared are forgotten, and an error
    /// with a new signature starts afresh.
    pub fn reconcile_system_overlay_snapshot(&mut self)
        ensures
            final(self).model() == reconciled(old(self).model()),
    {
        if !self.overlay.loading {
            self.state.reset_loading();
        }
        if trimmed(self.overlay.error.as_str()).len() == 0 {
            self.state.reset_error();
        } else {
            let sig = self.system_overlay_signature();
            if !str_eq(self.state.error_signature.as_str(), sig.as_str()) {
                self.state.reset_error();
                self.state.error_signature = sig;
            }
        }
        assert(self.state.error_signature@.len() == 0 ==> self.state.error_signature@ =~= Seq::<char>::empty());
    }

    #[verifier::rlimit(60)]
    fn preview_step(&mut self, p: SystemOverlayPreview, now_ms: u64) -> (changed: bool)
        requires
            old(self).preview == Some(p),
        ensures
            final(self).model() == preview_tick(old(self).model(), p, now_ms).0,
            changed == preview_tick(old(self).model(), p, now_ms).1,
    {
        let ghost m = self.model();
        self.overlay = preview_snapshot(p);
        let previous = self.state.spinner_step;
        let loading = match p {
            SystemOverlayPreview::Loading => true,
            _ => false,
        };
        let step = if loading { spinner_step(now_ms) } else { previous };
        self.state.loading_visible = loading;
        self.state.spinner_step = step;
        let changed = step != previous;
        if changed {
            self.dirty.animation = true;
            self.dirty.overlay = true;
        }
        assert(self.model().clock == ClockView { loading_visible: loading, spinner_step: step, ..m.clock });
        changed
    }

    fn error_step(&mut self, now_ms: u64) -> (changed: bool)
        ensures
            (final(self).model(), changed) == error_tick(old(self).model(), now_ms),
    {
        let ghost m = self.model();
        self.state.reset_loading();
        let sig = self.system_overlay_signature();
        if !str_eq(self.state.error_signature.as_str(), sig.as_str()) {
            self.state.reset_error();
            self.state.error_signature = sig;
            assert(self.model().clock =~= ClockView {
                error_signature: signature(m.overlay),
                ..without_error(without_loading(m.clock))
            });
        } else {
            assert(self.model().clock =~= without_loading(m.clock));
        }
        let started = match self.state.error_started_ms {
            Some(s) => s,
            None => now_ms,
        };
        self.state.error_started_ms = Some(started);
        let waited: u64 = if now_ms >= started { now_ms - started } else { 0 };
        let mut changed = false;
        if !self.state.error_announced {
            self.intents.push(
                if self.overlay.retryable {
                    SystemIntent::AnnounceRecoverableError
                } else {
                    SystemIntent::AnnounceUnrecoverableError
                },
            );
            self.state.error_announced = true;
            changed = true;
        }
        if self.overlay.retryable && self.overlay.retry_count == 0 && waited >= AUTO_RETRY_MS {
            self.retry_system_overlay(false);
            return true;
        }
        if !self.overlay.retryable && waited >= UNRECOVERABLE_REPEAT_MS && !self.state.unrecoverable_repeat_announced {
            self.intents.push(SystemIntent::AnnounceUnrecoverableError);
            self.state.unrecoverable_repeat_announced = true;
            changed = true;
        }
        changed
    }

    /// Moves the overlay's clock to `now_ms`. `overlay_screen` is whether an
    /// overlay screen is showing. Afterwards the caller lets the overlay
    /// take over, or give back, the route.
    pub fn advance_system_overlay(&mut self, now_ms: u64, overlay_screen: bool) -> (changed: bool)
        ensures
            (final(self).model(), changed) == overlay_tick(old(self).model(), now_ms, overlay_screen),
    {
        if let Some(p) = self.preview {
            return self.preview_step(p, now_ms);
        }
        if trimmed(self.overlay.error.as_str()).len() > 0 {
            return self.error_step(now_ms);
        }
        if self.overlay.loading {
            let ghost m = self.model();
            assert(parts_model(self.overlay, self.state, self.intents@, self.dirty) == m);
            let changed = loading_step(&mut self.overlay, &mut self.state, &mut self.intents, &mut self.dirty, now_ms);
            proof {
                lemma_loading_keeps_preview(m, now_ms);
            }
            assert(self.model() == loading_tick(m, now_ms).0);
            return changed;
        }
        self.state.reset();
        assert(self.state.error_signature@ =~= Seq::<char>::empty());
        if overlay_screen {
            self.dirty.overlay = true;
            self.dirty.navigation = true;
        }
        overlay_screen
    }
}

/// The overlay is tracking a load: no preview, no error, loading reported.
pub open spec fn loading_pending(m: OverlayModel) -> bool {
    m.preview is None && !has_error(m.overlay) && m.overlay.loading
}

/// The loading screen stays hidden for the first 300 ms of a load, and
/// nothing changes on screen meanwhile.
pub proof fn loading_stays_hidden_at_first(m: OverlayModel, now: u64, overlay_screen: bool)
    requires
        loading_pending(m),
        !m.clock.loading_visible,
        m.clock.loading_started_ms matches Some(s) && now < s + 300,
    ensures
        !overlay_tick(m, now, overlay_screen).0.clock.loading_visible,
        !overlay_tick(m, now, overlay_screen).1,
        overlay_tick(m, now, overlay_screen).0.intents == m.intents,
{
    reveal(loading_tick);
}

/// The wait is announced once per load: a load already announced gains no
/// second announcement.
pub proof fn wait_is_announced_once(m: OverlayModel, now: u64, overlay_screen: bool)
    requires
        loading_pending(m),
        m.clock.loading_announced,
    ensures
        overlay_tick(m, now, overlay_screen).0.intents == m.intents
            || overlay_tick(m, now, overlay_screen).0.intents == m.intents.push(SystemIntent::LoadingTimedOut),
{
    reveal(loading_tick);
}

/// A load still pending 8 s after it began becomes a recoverable
/// `operation_timeout` error, and the runtime is told.
pub proof fn slow_load_times_out(m: OverlayModel, now: u64, overlay_screen: bool)
    requires
        loading_pending(m),
        m.clock.loading_started_ms matches Some(s) && now >= s + 8000,
    ensures
        ({
            let r = overlay_tick(m, now, overlay_screen).0;
            &&& !r.overlay.loading
            &&& r.overlay.error == "operation_timeout"@
            &&& r.overlay.code == "operation_timeout"@
            &&& r.overlay.retryable
            &&& r.intents.last() == SystemIntent::LoadingTimedOut
        }),
{
    reveal(loading_tick);
}

/// The overlay is showing an error: no preview, an error reported.
pub open spec fn error_pending(m: OverlayModel) -> bool {
    m.preview is None && has_error(m.overlay)
}

/// Only the first failure of a recoverable operation is retried
/// automatically: once the runtime reports a retry, the overlay asks for
/// no other.
pub proof fn only_the_first_failure_is_retried(m: OverlayModel, now: u64, overlay_screen: bool)
    requires
        error_pending(m),
        m.overlay.retry_count > 0,
    ensures
        ({
            let r = overlay_tick(m, now, overlay_screen).0;
            forall|i: int| m.intents.len() <= i < r.intents.len() ==> r.intents[i] != SystemIntent::RetryOverlay
        }),
{
}

/// A first recoverable failure is retried 4 s after it was reported, and
/// the overlay is taken down.
pub proof fn first_failure_is_retried_after_four_seconds(m: OverlayModel, now: u64, overlay_screen: bool)
    requires
        error_pending(m),
        m.overlay.retryable,
        m.overlay.retry_count == 0,
        m.clock.error_signature == signature(m.overlay),
        m.clock.error_started_ms matches Some(s) && now >= s + 4000,
    ensures
        ({
            let r = overlay_tick(m, now, overlay_screen);
            &&& r.1
            &&& r.0.intents.last() == SystemIntent::RetryOverlay
            &&& r.0.overlay == quiet_overlay()
        }),
{
}

/// An error is announced once while its signature stays the same.
pub proof fn error_is_announced_once(m: OverlayModel, now: u64, overlay_screen: bool)
    requires
        error_pending(m),
        m.clock.error_announced,
        m.clock.error_signature == signature(m.overlay),
    ensures
        ({
            let r = overlay_tick(m, now, overlay_screen).0;
            forall|i: int| m.intents.len() <= i < r.intents.len() ==> r.intents[i] != SystemIntent::AnnounceRecoverableError
        }),
{
}

impl OverlayRuntime {
    /// Takes the overlay the runtime reports: a forced preview stays in
    /// place, the bookkeeping is brought in line, and the overlay is
    /// redrawn.
    pub fn apply_overlay_snapshot(&mut self, overlay: OverlayRuntimeSnapshot)
        ensures
            final(self).model() == reconciled(
                enforced(
                    OverlayModel {
                        overlay: overlay_view(overlay),
                        dirty: OverlayRedraw { overlay: true, ..old(self).dirty },
                        ..old(self).model()
                    },
                ),
            ),
    {
        self.overlay = overlay;
        self.dirty.overlay = true;
        self.enforce_system_overlay_preview();
        self.reconcile_system_overlay_snapshot();
    }
}

/// The overlay the watchdog raises when the runtime stops answering: an
/// unrecoverable `runtime_stalled` error.
pub open spec fn stalled_overlay() -> OverlayView {
    OverlayView {
        loading: false,
        error: "Lost runtime link"@,
        message: Seq::empty(),
        retryable: false,
        code: "runtime_stalled"@,
        source: "ui.watchdog"@,
        retry_count: 0,
    }
}

impl OverlayRuntime {
    /// The runtime stopped answering: the watchdog's error covers the
    /// screen.
    pub fn mark_runtime_stalled(&mut self)
        ensures
            final(self).model() == reconciled(
                OverlayModel {
                    overlay: stalled_overlay(),
                    dirty: mark_redraw(old(self).dirty),
                    ..old(self).model()
                },
            ),
    {
        self.overlay = OverlayRuntimeSnapshot {
            loading: false,
            error: owned(RUNTIME_LINK_ERROR),
            message: String::new(),
            retryable: false,
            code: owned("runtime_stalled"),
            source: owned("ui.watchdog"),
            retry_count: 0,
        };
        self.dirty.overlay = true;
        self.dirty.navigation = true;
        proof {
            reveal_strlit("Lost runtime link");
        }
        assert(self.overlay.message@ =~= Seq::<char>::empty());
        self.reconcile_system_overlay_snapshot();
    }

    /// The runtime answers again: the watchdog's error, and only that
    /// error, is taken down (`true` when it was showing).
    pub fn mark_runtime_connected(&mut self) -> (cleared: bool)
        ensures
            cleared == (old(self).overlay.error@ == "Lost runtime link"@),
            !cleared ==> final(self).model() == old(self).model(),
            cleared ==> final(self).model() == reconciled(
                OverlayModel {
                    overlay: OverlayView {
                        error: Seq::empty(),
                        code: Seq::empty(),
                        source: Seq::empty(),
                        retryable: false,
                        retry_count: 0,
                        ..old(self).model().overlay
                    },
                    dirty: mark_redraw(old(self).dirty),
                    ..old(self).model()
                },
            ),
    {
        if !str_eq(self.overlay.error.as_str(), RUNTIME_LINK_ERROR) {
            return false;
        }
        self.overlay.error = String::new();
        self.overlay.code = String::new();
        self.overlay.source = String::new();
        self.overlay.retryable = false;
        self.overlay.retry_count = 0;
        self.dirty.overlay = true;
        self.dirty.navigation = true;
        assert(self.overlay.error@ =~= Seq::<char>::empty());
        assert(self.overlay.code@ =~= Seq::<char>::empty());
        assert(self.overlay.source@ =~= Seq::<char>::empty());
        self.reconcile_system_overlay_snapshot();
        true
    }
}

/// A button press.
#[derive(Debug, Clone, Copy, PartialEq, Eq, Structural)]
pub enum InputAction {
    Advance,
    Select,
    Back,
    Home,
    PttPress,
    PttRelease,
}

/// The model once the overlay is taken down after `intents` were raised.
pub open spec fn taken_down(m: OverlayModel, intents: Seq<SystemIntent>) -> OverlayModel {
    OverlayModel {
        overlay: quiet_overlay(),
        clock: quiet_clock(),
        intents: m.intents + intents,
        dirty: mark_redraw(m.dirty),
        ..m
    }
}

impl OverlayRuntime {
    /// A button pressed while an overlay screen shows. Home dismisses the
    /// overlay (and the caller then goes home: the result); Select on the
    /// error screen retries a recoverable failure, announcing it; every
    /// other press is swallowed.
    pub fn handle_overlay_input(&mut self, action: InputAction, error_screen: bool) -> (go_home: bool)
        ensures
            go_home == (action == InputAction::Home),
            final(self).model() == if action == InputAction::Home {
                taken_down(old(self).model(), seq![SystemIntent::DismissOverlay])
            } else if action == InputAction::Select && error_screen && old(self).overlay.retryable {
                taken_down(old(self).model(), seq![SystemIntent::AnnounceRetry, SystemIntent::RetryOverlay])
            } else {
                old(self).model()
            },
    {
        let ghost m = self.model();
        match action {
            InputAction::Home => {
                self.dismiss_system_overlay();
                assert(m.intents.push(SystemIntent::DismissOverlay) =~= m.intents + seq![SystemIntent::DismissOverlay]);
                true
            },
            InputAction::Select => {
                if error_screen && self.overlay.retryable {
                    self.retry_system_overlay(true);
                    assert(m.intents.push(SystemIntent::AnnounceRetry).push(SystemIntent::RetryOverlay) =~= m.intents
                        + seq![SystemIntent::AnnounceRetry, SystemIntent::RetryOverlay]);
                }
                false
            },
            _ => false,
        }
    }
}

} // verus!
