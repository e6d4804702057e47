//! The X11 cursor backend.
use vstd::prelude::*;

use super::cursor::PlatformCursorCapabilities;

verus! {

/// X11 reports the pointer anywhere on the root window, but not the monitor under a point.
pub fn platform_cursor_capabilities() -> (caps: PlatformCursorCapabilities)
    ensures
        caps.backend_name@ == "linux-x11-best-effort"@,
        caps.supports_global_cursor,
        !caps.supports_native_monitor_bounds,
{
    PlatformCursorCapabilities {
        backend_name: "linux-x11-best-effort",
        supports_global_cursor: true,
        supports_native_monitor_bounds: false,
    }
}

} // verus!
