//! Shared constants.

use vstd::prelude::*;

verus! {

/// Number of animation frames per cockroach.
pub const TOTAL_FRAMES: usize = 13;

/// Pre-rendered directions, spaced at 45-degree increments.
pub const ORIENTATION_COUNT: usize = 8;

} // verus!
