use neko::platform::cursor::{MonitorBounds, PixelPosition};
use neko::{should_exit_from_shortcuts, startup_window_position};

#[test]
fn escape_requests_exit() {
    assert!(should_exit_from_shortcuts(true, false));
}

#[test]
fn right_click_on_neko_requests_exit() {
    assert!(should_exit_from_shortcuts(false, true));
}

#[test]
fn no_shortcut_does_not_exit() {
    assert!(!should_exit_from_shortcuts(false, false));
}

#[test]
fn startup_position_prefers_layout_choice() {
    let bounds = MonitorBounds { left: 0, top: 0, right: 100, bottom: 100 };
    let p = startup_window_position(Some(PixelPosition::new(7, 9)), Some(bounds), 20, 20);
    assert_eq!(p, PixelPosition::new(7, 9));
}

#[test]
fn startup_position_falls_back_to_cursor_monitor_then_default() {
    let bounds = MonitorBounds { left: 100, top: 0, right: 300, bottom: 100 };
    assert_eq!(startup_window_position(None, Some(bounds), 64, 64), PixelPosition::new(168, 18));
    assert_eq!(startup_window_position(None, None, 64, 64), PixelPosition::new(400, 200));
}
