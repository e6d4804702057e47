//! The Win32 cursor backend.
use vstd::prelude::*;

use super::cursor::PlatformCursorCapabilities;

verus! {

/// Win32 reports the pointer anywhere on the desktop and the monitor nearest to a point.
pub fn platform_cursor_capabilities() -> (caps: PlatformCursorCapabilities)
    ensures
        caps.backend_name@ == "windows-win32"@,
        caps.supports_global_cursor,
        caps.supports_native_monitor_bounds,
{
    PlatformCursorCapabilities {
        backend_name: "windows-win32",
        supports_global_cursor: true,
        supports_native_monitor_bounds: true,
    }
}

} // verus!
