//! The options that govern one run of the sweeper.

use vstd::prelude::*;

verus! {

/// Options for a whole traversal. They are fixed before the first entry is
/// visited and are never changed while the sweeper runs.
#[derive(Clone, Copy, PartialEq, Eq, Structural, Debug)]
pub struct CleanOptions {
    /// Descend into subdirectories at all.
    pub recursive: bool,
    /// Emit entering/leaving/deletion trace reports.
    pub verbose: bool,
    /// Ask for interactive approval before each deletion.
    pub confirm: bool,
    /// Deepest level (the root is level 0) at which descent into a
    /// directory is still permitted; 0 means unlimited.
    pub max_depth: u32,
}

impl CleanOptions {
    /// The default configuration: not recursive, quiet, no confirmation,
    /// no depth limit.
    pub fn plain() -> (r: CleanOptions)
        ensures
            r == (CleanOptions { recursive: false, verbose: false, confirm: false, max_depth: 0u32 }),
    {
        CleanOptions { recursive: false, verbose: false, confirm: false, max_depth: 0 }
    }
}

} // verus!
