//! Flags for loading libraries.
use vstd::prelude::*;

verus! {

/// A set of library-loading flags, as a bit mask.
#[derive(Debug, Clone, Copy, PartialEq, Eq, Structural, Default)]
pub struct LoadFlags(u32);

impl View for LoadFlags {
    type V = u32;

    /// The bit mask.
    closed spec fn view(&self) -> u32 {
        self.0
    }
}

impl LoadFlags {
    /// No flags.
    pub fn new() -> (r: LoadFlags)
        ensures
            r@ == 0,
    {
        LoadFlags(0)
    }

    /// These flags together with `other`.
    pub fn with(self, other: LoadFlags) -> (r: LoadFlags)
        ensures
            r@ == self@ | other@,
    {
        LoadFlags(self.0 | other.0)
    }
}

} // verus!
