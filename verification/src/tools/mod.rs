//! Tool implementations and the logic behind the tool executor.

pub mod acp_tool;
pub mod bash;
pub mod batch_tool;
pub mod browser;
pub mod container_tool;
pub mod cron_tool;
pub mod executor;
pub mod file;
pub mod glob;
pub mod grep;
pub mod image_tool;
pub mod interactive;
pub mod mcp;
pub mod moa_tool;
pub mod profile_tool;
pub mod sandbox_tool;
pub mod skin_tool;
pub mod task;
pub mod web;

use vstd::prelude::*;

verus! {

/// A tool that the assistant can call with string arguments.
pub trait Tool {
    /// Name under which the tool is offered.
    fn name(&self) -> &'static str;

    /// One-line description of the tool.
    fn description(&self) -> &'static str;

    /// Runs the tool; `Err` carries the failure message.
    fn execute(&self, args: &[String]) -> Result<String, String>;
}

} // verus!
