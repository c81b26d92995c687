//! File search by glob pattern: the tool's name and description.

use vstd::prelude::*;

verus! {

/// The Glob tool.
pub struct GlobTool;

impl GlobTool {
    pub fn new() -> (r: Self) {
        GlobTool
    }

    /// Name of the tool.
    pub fn name(&self) -> (r: &'static str)
        ensures
            r@ == "Glob"@,
    {
        "Glob"
    }

    /// Description of the tool.
    pub fn description(&self) -> (r: &'static str)
        ensures
            r@ == "Find files by glob pattern"@,
    {
        "Find files by glob pattern"
    }
}

} // verus!
