//! The Core Graphics cursor backend.
use vstd::prelude::*;

use super::cursor::PlatformCursorCapabilities;

verus! {

/// Core Graphics reports the pointer anywhere on the desktop, but not the monitor under a point.
pub fn platform_cursor_capabilities() -> (caps: PlatformCursorCapabilities)
    ensures
        caps.backend_name@ == "macos-core-graphics"@,
        caps.supports_global_cursor,
        !caps.supports_native_monitor_bounds,
{
    PlatformCursorCapabilities {
        backend_name: "macos-core-graphics",
        supports_global_cursor: true,
        supports_native_monitor_bounds: false,
    }
}

} // verus!
