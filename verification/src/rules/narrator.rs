//! Smart storytelling module.

use vstd::prelude::*;

verus! {

/// A narrator tells of all episodes happening during the battle.
pub trait Narrator {
}

/// A narrator that does nothing.
#[derive(Debug, Clone, Copy, PartialEq, Eq, Structural)]
pub struct NopNarrator {
}

impl Narrator for NopNarrator {
}

/// A narrator to debug episodes.
#[derive(Debug, Clone, Copy, PartialEq, Eq, Structural)]
pub struct DebugNarrator {
}

impl Narrator for DebugNarrator {
}

} // verus!
