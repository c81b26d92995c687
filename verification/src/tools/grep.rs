//! File content search: the tool's name and description.

use vstd::prelude::*;

verus! {

/// The Grep tool.
pub struct GrepTool;

impl GrepTool {
    pub fn new() -> (r: Self) {
        GrepTool
    }

    /// Name of the tool.
    pub fn name(&self) -> (r: &'static str)
        ensures
            r@ == "Grep"@,
    {
        "Grep"
    }

    /// Description of the tool.
    pub fn description(&self) -> (r: &'static str)
        ensures
            r@ == "Search file contents using ripgrep"@,
    {
        "Search file contents using ripgrep"
    }
}

} // verus!
