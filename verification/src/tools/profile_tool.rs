//! Profile management: the tool's name and description.

use vstd::prelude::*;

verus! {

/// The Profile tool.
pub struct ProfileTool;

impl ProfileTool {
    pub fn new() -> (r: Self) {
        ProfileTool
    }

    /// Name of the tool.
    pub fn name(&self) -> (r: &'static str)
        ensures
            r@ == "Profile"@,
    {
        "Profile"
    }

    /// Description of the tool.
    pub fn description(&self) -> (r: &'static str)
        ensures
            r@ == "Manage isolated environments (profiles). Each profile has its own config, \
memory, skills, sessions, and credentials. \
Use for work/personal separation, project isolation, multi-tenant workflows. \
Args: <action> [profile_name]
  list                  - List all profiles
  create <name>         - Create a new profile
  switch <name>         - Switch to a profile (writes CODE_BUDDY_HOME)
  delete <name>         - Delete a profile
  current               - Show current active profile
Example: Profile('list')
Example: Profile('create', 'work-project-x')
Example: Profile('switch', 'personal')
Example: Profile('current')"@,
    {
        "Manage isolated environments (profiles). Each profile has its own config, \
memory, skills, sessions, and credentials. \
Use for work/personal separation, project isolation, multi-tenant workflows. \
Args: <action> [profile_name]
  list                  - List all profiles
  create <name>         - Create a new profile
  switch <name>         - Switch to a profile (writes CODE_BUDDY_HOME)
  delete <name>         - Delete a profile
  current               - Show current active profile
Example: Profile('list')
Example: Profile('create', 'work-project-x')
Example: Profile('switch', 'personal')
Example: Profile('current')"
    }
}

} // verus!
