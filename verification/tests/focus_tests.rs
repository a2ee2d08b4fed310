use qdrin_core::focus::FocusState;
use qdrin_core::server::status_body;

#[test]
fn startup_defaults() {
    let f = FocusState::new();
    assert_eq!(f.is_focusing, false);
    assert_eq!(f.is_timer_running, false);
    assert_eq!(f.idle_reminder_enabled, true);
    assert_eq!(f.idle_reminder_interval_minutes, 10);
    assert_eq!(FocusState::default(), f);
}

#[test]
fn set_focus_state_touches_only_the_focus_flag() {
    let mut f = FocusState::new();
    f.set_focus_state(true);
    assert_eq!(f.is_focusing, true);
    assert_eq!(f.is_timer_running, false);
    assert_eq!(f.idle_reminder_enabled, true);
    assert_eq!(f.idle_reminder_interval_minutes, 10);
    f.set_focus_state(false);
    assert_eq!(f.is_focusing, false);
}

#[test]
fn set_timer_running_touches_only_the_timer_flag() {
    let mut f = FocusState::new();
    f.set_timer_running(true);
    assert_eq!(f.is_timer_running, true);
    assert_eq!(f.is_focusing, false);
    assert_eq!(f.idle_reminder_enabled, true);
    assert_eq!(f.idle_reminder_interval_minutes, 10);
}

#[test]
fn reminder_settings_are_stored_unclamped() {
    let mut f = FocusState::new();
    f.set_idle_reminder_settings(false, 0);
    assert_eq!(f.idle_reminder_enabled, false);
    assert_eq!(f.idle_reminder_interval_minutes, 0);
    assert_eq!(f.is_focusing, false);
    assert_eq!(f.is_timer_running, false);
}

#[test]
fn status_body_reports_the_flag_exactly() {
    let mut f = FocusState::new();
    f.set_focus_state(true);
    let body = status_body(f.is_focusing);
    assert_eq!(body, "{\"is_focusing\":true}");
    let parsed: serde_json::Value = serde_json::from_str(&body).unwrap();
    assert_eq!(parsed["is_focusing"], serde_json::Value::Bool(true));

    f.set_focus_state(false);
    let body = status_body(f.is_focusing);
    assert_eq!(body, "{\"is_focusing\":false}");
    let parsed: serde_json::Value = serde_json::from_str(&body).unwrap();
    assert_eq!(parsed["is_focusing"], serde_json::Value::Bool(false));
}
