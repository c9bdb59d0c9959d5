use yoyopod::overlay::{spinner_step, InputAction, OverlayRuntime, SystemIntent};
use yoyopod::snapshot::OverlayRuntimeSnapshot;
use yoyopod::ui_state::SystemOverlayPreview;

fn overlay(loading: bool, error: &str, retryable: bool, code: &str, source: &str, retry_count: u8) -> OverlayRuntimeSnapshot {
    OverlayRuntimeSnapshot {
        loading,
        error: error.to_string(),
        message: String::new(),
        retryable,
        code: code.to_string(),
        source: source.to_string(),
        retry_count,
    }
}

fn take(runtime: &mut OverlayRuntime) -> Vec<SystemIntent> {
    std::mem::take(&mut runtime.intents)
}

#[test]
fn loading_shows_after_300_ms_announces_at_2_s_and_times_out_at_8_s() {
    let mut runtime = OverlayRuntime::new();
    runtime.apply_overlay_snapshot(overlay(true, "", false, "", "music.load_playlist", 0));

    runtime.advance_system_overlay(1_000, false);
    assert!(!runtime.advance_system_overlay(1_299, false));
    assert!(!runtime.state.loading_visible);

    assert!(runtime.advance_system_overlay(1_300, false));
    assert!(runtime.state.loading_visible);
    assert!(take(&mut runtime).is_empty());

    runtime.advance_system_overlay(3_000, true);
    assert_eq!(take(&mut runtime), vec![SystemIntent::AnnounceWait]);
    assert_eq!(runtime.state.spinner_step, ((2_000 / 80) % 8) as u8);

    assert!(runtime.advance_system_overlay(9_000, true));
    assert!(!runtime.overlay.loading);
    assert!(runtime.overlay.retryable);
    assert_eq!(runtime.overlay.code, "operation_timeout");
    assert_eq!(runtime.overlay.error, "operation_timeout");
    assert_eq!(take(&mut runtime), vec![SystemIntent::LoadingTimedOut]);
    assert!(runtime.dirty.overlay && runtime.dirty.navigation);
}

#[test]
fn recoverable_failure_is_retried_automatically_only_once() {
    let mut runtime = OverlayRuntime::new();
    runtime.apply_overlay_snapshot(overlay(false, "worker_error", true, "worker_media_error", "music.play", 0));
    assert_eq!(runtime.state.error_signature, "worker_media_error|music.play|true|0");
    runtime.advance_system_overlay(0, true);
    assert_eq!(take(&mut runtime), vec![SystemIntent::AnnounceRecoverableError]);
    assert!(!runtime.advance_system_overlay(3_999, true));
    assert!(runtime.advance_system_overlay(4_000, true));
    assert_eq!(take(&mut runtime), vec![SystemIntent::RetryOverlay]);
    assert!(runtime.overlay.error.is_empty());

    runtime.apply_overlay_snapshot(overlay(false, "worker_error", true, "worker_media_error", "music.play", 1));
    runtime.advance_system_overlay(5_000, true);
    assert_eq!(take(&mut runtime), vec![SystemIntent::AnnounceRecoverableError]);
    runtime.advance_system_overlay(10_000, true);
    assert!(take(&mut runtime).is_empty());
    assert_eq!(runtime.overlay.error, "worker_error");
}

#[test]
fn unrecoverable_error_is_announced_again_after_a_minute() {
    let mut runtime = OverlayRuntime::new();
    runtime.apply_overlay_snapshot(overlay(false, "hardware_fault", false, "power_hardware_fault", "power.refresh", 0));
    runtime.advance_system_overlay(100, true);
    assert_eq!(take(&mut runtime), vec![SystemIntent::AnnounceUnrecoverableError]);
    runtime.advance_system_overlay(60_099, true);
    assert!(take(&mut runtime).is_empty());
    assert!(runtime.advance_system_overlay(60_100, true));
    assert_eq!(take(&mut runtime), vec![SystemIntent::AnnounceUnrecoverableError]);
    runtime.advance_system_overlay(200_000, true);
    assert!(take(&mut runtime).is_empty());
}

#[test]
fn manual_retry_and_dismiss_clear_the_overlay() {
    let mut runtime = OverlayRuntime::new();
    runtime.apply_overlay_snapshot(overlay(false, "worker_error", true, "worker_media_error", "music.play", 0));
    runtime.retry_system_overlay(true);
    assert_eq!(take(&mut runtime), vec![SystemIntent::AnnounceRetry, SystemIntent::RetryOverlay]);
    assert!(runtime.overlay.error.is_empty());
    assert!(runtime.dirty.overlay && runtime.dirty.navigation);

    runtime.apply_overlay_snapshot(overlay(false, "hardware_fault", false, "power_hardware_fault", "power.refresh", 0));
    runtime.dismiss_system_overlay();
    assert_eq!(take(&mut runtime), vec![SystemIntent::DismissOverlay]);
    assert!(runtime.overlay.code.is_empty());
    assert!(!runtime.advance_system_overlay(1_000, false));
    assert!(runtime.advance_system_overlay(1_000, true));
}

#[test]
fn previews_hold_their_overlay_through_snapshots() {
    let mut runtime = OverlayRuntime::new();
    runtime.preview = Some(SystemOverlayPreview::Loading);
    runtime.apply_overlay_snapshot(overlay(false, "", false, "", "", 0));
    assert!(runtime.overlay.loading);
    assert_eq!(runtime.overlay.source, "ui.preview");
    assert!(runtime.advance_system_overlay(160, true));
    assert_eq!(runtime.state.spinner_step, 2);
    assert!(runtime.state.loading_visible);

    runtime.preview = Some(SystemOverlayPreview::RecoverableError);
    runtime.apply_overlay_snapshot(overlay(false, "", false, "", "", 0));
    assert_eq!(runtime.overlay.error, "preview_recoverable");
    assert_eq!(runtime.overlay.retry_count, 1);
    assert!(runtime.overlay.retryable);
    assert!(!runtime.advance_system_overlay(100_000, true));
    assert!(take(&mut runtime).is_empty());
}

#[test]
fn snapshot_clocks_start_when_the_overlay_arrives() {
    let mut runtime = OverlayRuntime::new();
    runtime.apply_overlay_snapshot(overlay(true, " ", false, "", "", 0));
    runtime.note_system_overlay_snapshot_received(500);
    assert_eq!(runtime.state.loading_started_ms, Some(500));
    assert_eq!(runtime.state.error_started_ms, None);
    runtime.note_system_overlay_snapshot_received(900);
    assert_eq!(runtime.state.loading_started_ms, Some(500));
    assert_eq!(spinner_step(80 * 9), 1);
}

#[test]
fn runtime_link_recovery_clears_only_the_watchdog_error() {
    let mut runtime = OverlayRuntime::new();
    runtime.mark_runtime_stalled();
    assert_eq!(runtime.overlay.error, "Lost runtime link");
    assert_eq!(runtime.overlay.code, "runtime_stalled");
    assert_eq!(runtime.overlay.source, "ui.watchdog");
    assert!(!runtime.overlay.retryable);
    assert_eq!(runtime.state.error_signature, "runtime_stalled|ui.watchdog|false|0");

    runtime.dirty = yoyopod::overlay::OverlayRedraw { overlay: false, navigation: false, animation: false };
    assert!(runtime.mark_runtime_connected());
    assert!(runtime.overlay.error.is_empty());
    assert!(runtime.dirty.overlay && runtime.dirty.navigation);
    assert!(runtime.state.error_signature.is_empty());

    runtime.apply_overlay_snapshot(overlay(false, "Call failed", false, "voip_error", "call", 0));
    assert!(!runtime.mark_runtime_connected());
    assert_eq!(runtime.overlay.error, "Call failed");
}

#[test]
fn overlay_buttons_retry_recoverable_errors_and_go_home() {
    let mut runtime = OverlayRuntime::new();
    runtime.apply_overlay_snapshot(overlay(false, "hardware_fault", false, "power_hardware_fault", "power.refresh", 0));
    assert!(!runtime.handle_overlay_input(InputAction::Select, true));
    assert!(take(&mut runtime).is_empty());
    assert_eq!(runtime.overlay.error, "hardware_fault");
    assert!(runtime.handle_overlay_input(InputAction::Home, true));
    assert_eq!(take(&mut runtime), vec![SystemIntent::DismissOverlay]);
    assert!(runtime.overlay.error.is_empty());

    runtime.apply_overlay_snapshot(overlay(false, "worker_error", true, "worker_media_error", "music.play", 0));
    assert!(!runtime.handle_overlay_input(InputAction::Advance, true));
    assert!(take(&mut runtime).is_empty());
    assert!(!runtime.handle_overlay_input(InputAction::Select, false));
    assert!(take(&mut runtime).is_empty());
    assert!(!runtime.handle_overlay_input(InputAction::Select, true));
    assert_eq!(take(&mut runtime), vec![SystemIntent::AnnounceRetry, SystemIntent::RetryOverlay]);
    assert!(runtime.overlay.error.is_empty());
}
