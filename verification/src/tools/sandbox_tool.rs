//! Sandboxed code execution: the tool's name and description.

use vstd::prelude::*;

verus! {

/// The Sandbox tool.
pub struct SandboxTool;

impl SandboxTool {
    pub fn new() -> (r: Self) {
        SandboxTool
    }

    /// Name of the tool.
    pub fn name(&self) -> (r: &'static str)
        ensures
            r@ == "Sandbox"@,
    {
        "Sandbox"
    }

    /// Description of the tool.
    pub fn description(&self) -> (r: &'static str)
        ensures
            r@ == "Execute code in a sandboxed environment with timeout and resource limits. \
Supports: python, python3, javascript, node, bash, ruby, php, rust, go. \
Use for validating generated code, testing snippets, running untrusted code safely. \
Args: <language> <code> [--timeout <seconds>] [--output-limit <chars>]
Example: Sandbox('python', 'print(1 + 2)')
Example: Sandbox('bash', 'echo hello')
Example: Sandbox('python3', '...', '60')"@,
    {
        "Execute code in a sandboxed environment with timeout and resource limits. \
Supports: python, python3, javascript, node, bash, ruby, php, rust, go. \
Use for validating generated code, testing snippets, running untrusted code safely. \
Args: <language> <code> [--timeout <seconds>] [--output-limit <chars>]
Example: Sandbox('python', 'print(1 + 2)')
Example: Sandbox('bash', 'echo hello')
Example: Sandbox('python3', '...', '60')"
    }
}

} // verus!
