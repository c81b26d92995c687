//! Mixture of agents: the tool's name and description.

use vstd::prelude::*;

verus! {

/// The MixtureOfAgents tool.
pub struct MoATool;

impl MoATool {
    pub fn new() -> (r: Self) {
        MoATool
    }

    /// Name of the tool.
    pub fn name(&self) -> (r: &'static str)
        ensures
            r@ == "MixtureOfAgents"@,
    {
        "MixtureOfAgents"
    }

    /// Description of the tool.
    pub fn description(&self) -> (r: &'static str)
        ensures
            r@ == "Use multiple AI agents with different perspectives to analyze a problem, \
then synthesize their responses into a comprehensive answer. \
Best for: architecture review, debugging ambiguous failures, security reviews, \
design tradeoff analysis, root-cause exploration. \
Args: <prompt> [--agents <n>] [--model <model>]
Example: MixtureOfAgents('Review this architecture for scalability')
Example: MoA('Debug why the API returns 500 on POST /users')
Example: MoA('Security audit this authentication flow')"@,
    {
        "Use multiple AI agents with different perspectives to analyze a problem, \
then synthesize their responses into a comprehensive answer. \
Best for: architecture review, debugging ambiguous failures, security reviews, \
design tradeoff analysis, root-cause exploration. \
Args: <prompt> [--agents <n>] [--model <model>]
Example: MixtureOfAgents('Review this architecture for scalability')
Example: MoA('Debug why the API returns 500 on POST /users')
Example: MoA('Security audit this authentication flow')"
    }
}

} // verus!
