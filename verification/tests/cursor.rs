use neko::platform::cursor::{DesktopMonitor, DesktopMonitorLayout, MonitorBounds, PixelPosition, PointRelation};
use neko::platform::{linux, macos, unsupported, windows};

fn monitor(bounds: MonitorBounds, is_primary: bool) -> DesktopMonitor {
    DesktopMonitor { bounds, is_primary }
}

fn bounds(left: i32, top: i32, right: i32, bottom: i32) -> MonitorBounds {
    MonitorBounds { left, top, right, bottom }
}

// What each monitor of the layout knows of a desktop point: whether it holds
// it, and its squared distance to it as an order key.
fn relations(layout: &DesktopMonitorLayout, x: f32, y: f32) -> Vec<PointRelation> {
    layout
        .monitors()
        .iter()
        .map(|m| {
            let b = m.bounds;
            let inside = x >= b.left as f32 && x < b.right as f32 && y >= b.top as f32 && y < b.bottom as f32;
            let dx = if x < b.left as f32 {
                b.left as f32 - x
            } else if x >= b.right as f32 {
                x - b.right as f32
            } else {
                0.0
            };
            let dy = if y < b.top as f32 {
                b.top as f32 - y
            } else if y >= b.bottom as f32 {
                y - b.bottom as f32
            } else {
                0.0
            };
            PointRelation { inside, distance_key: (dx * dx + dy * dy).to_bits() }
        })
        .collect()
}

fn clamp(b: MonitorBounds, x: f32, y: f32, w: i32, h: i32) -> (f32, f32) {
    let (lo, hi) = b.window_position_limits(w, h);
    (x.clamp(lo.x as f32, hi.x as f32), y.clamp(lo.y as f32, hi.y as f32))
}

fn side_by_side() -> DesktopMonitorLayout {
    DesktopMonitorLayout::new(vec![
        monitor(bounds(0, 0, 100, 100), true),
        monitor(bounds(100, 0, 200, 100), false),
    ])
}

#[test]
fn monitor_bounds_clamp_window_position() {
    let b = bounds(0, 0, 100, 80);
    assert_eq!(clamp(b, 95.0, 90.0, 32, 32), (68.0, 48.0));
}

#[test]
fn startup_position_prefers_monitor_containing_cursor() {
    let layout = side_by_side();
    let cursor = relations(&layout, 150.0, 50.0);
    let position = layout.initial_window_position(Some(&cursor), 20, 20);
    assert_eq!(position, Some(PixelPosition::new(140, 40)));
}

#[test]
fn startup_position_falls_back_to_primary_monitor_without_cursor() {
    let layout = DesktopMonitorLayout::new(vec![
        monitor(bounds(300, 0, 500, 200), true),
        monitor(bounds(0, 0, 200, 200), false),
    ]);
    let position = layout.initial_window_position(None, 40, 40);
    assert_eq!(position, Some(PixelPosition::new(380, 80)));
}

#[test]
fn active_monitor_prefers_containing_monitor_left_to_right() {
    let layout = side_by_side();
    let monitor = layout.active_monitor(&relations(&layout, 150.0, 50.0));
    assert_eq!(monitor.map(|monitor| monitor.bounds.left), Some(100));
}

#[test]
fn active_monitor_prefers_containing_monitor_right_to_left() {
    let layout = side_by_side();
    let monitor = layout.active_monitor(&relations(&layout, 20.0, 50.0));
    assert_eq!(monitor.map(|monitor| monitor.bounds.left), Some(0));
}

#[test]
fn active_monitor_handles_stacked_vertical_layouts() {
    let layout = DesktopMonitorLayout::new(vec![
        monitor(bounds(0, 0, 100, 100), true),
        monitor(bounds(0, 100, 100, 200), false),
    ]);
    let monitor = layout.active_monitor(&relations(&layout, 50.0, 150.0));
    assert_eq!(monitor.map(|monitor| monitor.bounds.top), Some(100));
}

#[test]
fn active_monitor_supports_negative_desktop_coordinates() {
    let layout = DesktopMonitorLayout::new(vec![
        monitor(bounds(-200, 0, 0, 100), false),
        monitor(bounds(0, 0, 200, 100), true),
    ]);
    let monitor = layout.active_monitor(&relations(&layout, -150.0, 40.0));
    assert_eq!(monitor.map(|monitor| monitor.bounds.left), Some(-200));
}

#[test]
fn active_monitor_chooses_nearest_monitor_for_gap_points() {
    let layout = DesktopMonitorLayout::new(vec![
        monitor(bounds(0, 0, 100, 100), true),
        monitor(bounds(140, 0, 260, 160), false),
    ]);
    let monitor = layout.active_monitor(&relations(&layout, 130.0, 30.0));
    assert_eq!(monitor.map(|monitor| monitor.bounds.left), Some(140));
}

#[test]
fn clamp_window_position_switches_to_monitor_on_cursor_crossing() {
    let layout = side_by_side();
    let active = layout.active_monitor(&relations(&layout, 150.0, 40.0)).unwrap();
    let clamped = clamp(active.bounds, 95.0, 8.0, 32, 32);
    assert_eq!(Some(clamped), Some((100.0, 8.0)));
}

#[test]
fn clamp_window_position_handles_uneven_monitor_sizes() {
    let layout = DesktopMonitorLayout::new(vec![
        monitor(bounds(0, 0, 120, 120), true),
        monitor(bounds(120, -40, 360, 160), false),
    ]);
    let active = layout.active_monitor(&relations(&layout, 300.0, -10.0)).unwrap();
    let clamped = clamp(active.bounds, 340.0, -50.0, 48, 48);
    assert_eq!(Some(clamped), Some((312.0, -40.0)));
}

#[test]
fn layout_puts_primary_first_then_orders_by_edges() {
    let a = monitor(bounds(0, 0, 100, 100), false);
    let b = monitor(bounds(-100, 0, 0, 100), false);
    let c = monitor(bounds(500, 0, 600, 100), true);
    let d = monitor(bounds(0, -50, 100, 0), false);
    let layout = DesktopMonitorLayout::new(vec![a, b, c, d]);
    assert_eq!(layout.monitors().clone(), vec![c, b, d, a]);
    assert_eq!(layout.primary_monitor(), Some(c));
    assert_eq!(layout.first_monitor(), Some(c));
    let other = DesktopMonitorLayout::new(vec![d, c, a, b]);
    assert_eq!(other.monitors().clone(), layout.monitors().clone());
}

#[test]
fn layout_without_primary_or_monitors() {
    let a = monitor(bounds(0, 0, 100, 100), false);
    let layout = DesktopMonitorLayout::new(vec![a]);
    assert_eq!(layout.primary_monitor(), None);
    assert!(!layout.is_empty());
    let empty = DesktopMonitorLayout::new(Vec::new());
    assert!(empty.is_empty());
    assert_eq!(empty.active_monitor(&Vec::new()), None);
    assert_eq!(empty.initial_window_position(None, 10, 10), None);
    assert!(DesktopMonitorLayout::default().is_empty());
}

#[test]
fn nearest_monitor_ties_go_to_the_first_in_layout_order() {
    let layout = DesktopMonitorLayout::new(vec![
        monitor(bounds(0, 0, 100, 100), false),
        monitor(bounds(120, 0, 220, 100), true),
    ]);
    // The point (110, 50) is 10 pixels from both; the primary comes first.
    let active = layout.active_monitor(&relations(&layout, 110.0, 50.0)).unwrap();
    assert_eq!(active.bounds.left, 120);
}

#[test]
fn monitor_size_and_centering() {
    let b = bounds(-200, 10, 0, 110);
    assert_eq!(b.width(), 200);
    assert_eq!(b.height(), 100);
    assert_eq!(b.centered_window_position(64, 64), PixelPosition::new(-132, 28));
    // A window larger than the monitor sits at its corner.
    assert_eq!(b.centered_window_position(300, 300), PixelPosition::new(-200, 10));
    assert!(b.can_center(64, 64));
    assert!(!bounds(i32::MIN, 0, i32::MAX, 10).can_center(1, 1));
}

#[test]
fn limits_of_a_window_larger_than_the_monitor() {
    let b = bounds(10, 20, 40, 50);
    let (lo, hi) = b.window_position_limits(64, 64);
    assert_eq!(lo, PixelPosition::new(10, 20));
    assert_eq!(hi, PixelPosition::new(10, 20));
}

#[test]
fn bounds_from_origin_and_size() {
    let b = MonitorBounds::from_origin_and_size(-1920, 0, 1920, 1080);
    assert_eq!(b, bounds(-1920, 0, 0, 1080));
}

#[test]
fn cursor_backend_capabilities() {
    let caps = windows::platform_cursor_capabilities();
    assert_eq!(caps.backend_name, "windows-win32");
    assert!(caps.supports_global_cursor && caps.supports_native_monitor_bounds);
    let caps = linux::platform_cursor_capabilities();
    assert_eq!(caps.backend_name, "linux-x11-best-effort");
    assert!(caps.supports_global_cursor && !caps.supports_native_monitor_bounds);
    let caps = macos::platform_cursor_capabilities();
    assert_eq!(caps.backend_name, "macos-core-graphics");
    assert!(caps.supports_global_cursor && !caps.supports_native_monitor_bounds);
    let caps = unsupported::platform_cursor_capabilities();
    assert_eq!(caps.backend_name, "unsupported-platform");
    assert!(!caps.supports_global_cursor && !caps.supports_native_monitor_bounds);
}
