use yoyopod::ui_host::{format_ui_health, require_healthy_ui, ui_health_problem, UiHealthProblem};

fn json(text: &str) -> serde_json::Value {
    serde_json::from_str(text).expect("valid JSON")
}

#[test]
fn healthy_payload_passes() {
    let payload = json(r#"{"frames": 12, "last_ui_renderer": "lvgl", "active_screen": "hub"}"#);
    assert!(require_healthy_ui(&payload).is_ok());
}

#[test]
fn zero_frames_fails() {
    let payload = json(r#"{"frames": 0, "last_ui_renderer": "lvgl", "active_screen": "hub"}"#);
    assert!(require_healthy_ui(&payload).is_err());
}

#[test]
fn non_lvgl_renderer_fails() {
    let payload = json(r#"{"frames": 4, "last_ui_renderer": "mock", "active_screen": "hub"}"#);
    assert!(require_healthy_ui(&payload).is_err());
}

#[test]
fn missing_active_screen_fails() {
    let payload = json(r#"{"frames": 4, "last_ui_renderer": "lvgl"}"#);
    assert!(require_healthy_ui(&payload).is_err());
}

#[test]
fn health_problems_are_named_with_the_report() {
    let no_frames = json(r#"{"frames": "many", "last_ui_renderer": "lvgl", "active_screen": "hub"}"#);
    assert_eq!(ui_health_problem(&no_frames), Some(UiHealthProblem::NoFrames));
    assert_eq!(
        require_healthy_ui(&no_frames).unwrap_err().to_string(),
        format!("UI host rendered no frames: {no_frames}")
    );
    let mock = json(r#"{"frames": 4, "last_ui_renderer": "mock", "active_screen": "hub"}"#);
    assert_eq!(ui_health_problem(&mock), Some(UiHealthProblem::NotLvgl));
    assert_eq!(
        require_healthy_ui(&mock).unwrap_err().to_string(),
        format!("UI host did not report LVGL renderer: {mock}")
    );
    let blank = json(r#"{"frames": 4, "last_ui_renderer": "lvgl", "active_screen": ""}"#);
    assert_eq!(ui_health_problem(&blank), Some(UiHealthProblem::NoActiveScreen));
    assert_eq!(UiHealthProblem::NoActiveScreen.message("{}"), "UI host did not report an active screen: {}");
}

#[test]
fn health_line_quotes_the_reported_values() {
    let payload = json(r#"{"frames": 12, "last_ui_renderer": "lvgl", "active_screen": "hub"}"#);
    assert_eq!(
        format_ui_health("/opt/yoyopod/bin/ui-host", "whisplay", &payload),
        "binary=/opt/yoyopod/bin/ui-host, hardware=whisplay, frames=12, button_events=null, \
         active_screen=\"hub\", last_ui_renderer=\"lvgl\""
    );
}
