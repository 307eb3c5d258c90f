//! The shared world state available to every scene across the stack.

use vstd::prelude::*;

verus! {

/// Cross-scene shared state. The host runtime keeps the asset cache, raw
/// input state and entity dispatch on its own side of the boundary, and the
/// scenes here share nothing between each other yet, so this is an explicit
/// extension point rather than a bag of resources.
pub struct World {}

impl World {
    /// The shared world the shell constructs once at startup.
    pub fn new() -> World {
        World {  }
    }
}

} // verus!
