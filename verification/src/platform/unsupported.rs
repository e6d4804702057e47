//! The backend of platforms without global cursor support.
use vstd::prelude::*;

use super::cursor::PlatformCursorCapabilities;

verus! {

/// Neither the global pointer nor monitor bounds are available.
pub fn platform_cursor_capabilities() -> (caps: PlatformCursorCapabilities)
    ensures
        caps.backend_name@ == "unsupported-platform"@,
        !caps.supports_global_cursor,
        !caps.supports_native_monitor_bounds,
{
    PlatformCursorCapabilities {
        backend_name: "unsupported-platform",
        supports_global_cursor: false,
        supports_native_monitor_bounds: false,
    }
}

} // verus!
