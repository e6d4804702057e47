//! Decision logic of a desktop cat that chases the mouse cursor.
pub mod assets;
pub mod audio;
pub mod behavior;
pub mod config;
pub mod platform;
pub mod state;

use vstd::prelude::*;

use crate::platform::cursor::{MonitorBounds, PixelPosition};

verus! {

/// Whether the keyboard or mouse shortcuts ask the application to quit:
/// the Escape key, or a right click on the cat itself.
pub fn should_exit_from_shortcuts(escape_pressed: bool, right_click_on_neko: bool) -> (exit: bool)
    ensures
        exit == (escape_pressed || right_click_on_neko),
{
    escape_pressed || right_click_on_neko
}

/// Where the cat's window starts: the position the monitor layout chose, if
/// it chose one; else centred on the monitor that the platform reports under
/// the cursor; else at (400, 200).
pub fn startup_window_position(
    from_layout: Option<PixelPosition>,
    cursor_monitor: Option<MonitorBounds>,
    window_width: i32,
    window_height: i32,
) -> (position: PixelPosition)
    requires
        from_layout is None ==> (cursor_monitor matches Some(b) ==> b.centering_fits(
            window_width as int,
            window_height as int,
        )),
    ensures
        from_layout matches Some(p) ==> position == p,
        from_layout is None ==> match cursor_monitor {
            Some(b) => (position.x as int, position.y as int) == b.centered(window_width as int, window_height as int),
            None => position.x == 400 && position.y == 200,
        },
{
    match from_layout {
        Some(p) => p,
        None => match cursor_monitor {
            Some(bounds) => bounds.centered_window_position(window_width, window_height),
            None => PixelPosition::new(400, 200),
        },
    }
}

} // verus!
