use vstd::prelude::*;

verus! {

/// Side of the cat's window in logical pixels, before scaling; also the
/// Manhattan distance under which the cat considers the cursor caught.
pub const LOGICAL_WINDOW_SIZE: i32 = 32;

} // verus!
