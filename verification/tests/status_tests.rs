use yoyopod::status::{
    status_bar_preview_stage, status_bar_preview_status, status_clock_text, watch_face_text, HudConnectivityKind,
    STATUS_BAR_PREVIEW_STAGE_COUNT, STATUS_BAR_PREVIEW_STAGE_MS,
};

#[test]
fn watch_face_text_uses_uppercase_local_calendar_and_24_hour_time() {
    // Thursday, 23 July 2026, 09:41.
    assert_eq!(watch_face_text(3, 23, 7, 9, 41), ("THU 23 JUL".to_string(), "09:41".to_string()));
    assert_eq!(watch_face_text(6, 1, 12, 23, 5), ("SUN 01 DEC".to_string(), "23:05".to_string()));
    assert_eq!(status_clock_text(0, 0), "00:00");
}

#[test]
fn status_bar_preview_cycles_every_contract_state() {
    let stages = (0..STATUS_BAR_PREVIEW_STAGE_COUNT)
        .map(|stage| status_bar_preview_status(u64::from(stage) * STATUS_BAR_PREVIEW_STAGE_MS))
        .collect::<Vec<_>>();

    assert_eq!(stages[0].time, "S0 OFF");
    assert!(!stages[0].connectivity.connected);
    assert_eq!(stages[0].battery.percent, 0);

    assert_eq!(stages[1].connectivity.kind, HudConnectivityKind::Cellular);
    assert_eq!(stages[1].connectivity.strength, 1);
    assert_eq!(stages[1].battery.percent, 25);

    assert!(stages[2].gps_has_fix);
    assert!(!stages[2].voip_registered);
    assert_eq!(stages[2].battery.percent, 50);

    assert!(stages[3].voip_registered);
    assert_eq!(stages[3].connectivity.strength, 3);
    assert_eq!(stages[3].battery.percent, 75);

    assert_eq!(stages[4].connectivity.strength, 4);
    assert_eq!(stages[4].battery.percent, 100);
    assert!(!stages[4].battery.charging);

    assert_eq!(stages[5].connectivity.kind, HudConnectivityKind::Wifi);
    assert!(stages[5].battery.charging);
    assert_eq!(stages[5].time, "S5 CHG");
}

#[test]
fn preview_stage_wraps_after_the_last_stage() {
    assert_eq!(status_bar_preview_stage(0), 0);
    assert_eq!(status_bar_preview_stage(4_999), 0);
    assert_eq!(status_bar_preview_stage(5_000), 1);
    assert_eq!(status_bar_preview_stage(30_000), 0);
    assert_eq!(status_bar_preview_stage(29_999), 5);
}
