//! CLI themes: the tool's name and description.

use vstd::prelude::*;

verus! {

/// The Skin tool.
pub struct SkinTool;

impl SkinTool {
    pub fn new() -> (r: Self) {
        SkinTool
    }

    /// Name of the tool.
    pub fn name(&self) -> (r: &'static str)
        ensures
            r@ == "Skin"@,
    {
        "Skin"
    }

    /// Description of the tool.
    pub fn description(&self) -> (r: &'static str)
        ensures
            r@ == "Manage CLI themes/skins. List available skins, apply a theme, or create custom ones. \
Built-in skins: default (gold/kawaii), ares (red/sci-fi), mono (monochrome), slate (dark). \
User skins stored in ~/.code-buddy/skins/\n\
Args: <action> [skin_name] [--colors <json>]
  list                  - List all available skins
  apply <name>         - Apply a skin by name
  create <name> <desc>  - Create a custom skin
  current              - Show current active skin
Example: Skin('list')
Example: Skin('apply', 'dracula')
Example: Skin('apply', 'monokai')"@,
    {
        "Manage CLI themes/skins. List available skins, apply a theme, or create custom ones. \
Built-in skins: default (gold/kawaii), ares (red/sci-fi), mono (monochrome), slate (dark). \
User skins stored in ~/.code-buddy/skins/\n\
Args: <action> [skin_name] [--colors <json>]
  list                  - List all available skins
  apply <name>         - Apply a skin by name
  create <name> <desc>  - Create a custom skin
  current              - Show current active skin
Example: Skin('list')
Example: Skin('apply', 'dracula')
Example: Skin('apply', 'monokai')"
    }
}

} // verus!
