//! Image generation: the tool's name and description.

use vstd::prelude::*;

verus! {

/// The ImageGenerate tool.
pub struct ImageTool;

impl ImageTool {
    pub fn new() -> (r: Self) {
        ImageTool
    }

    /// Name of the tool.
    pub fn name(&self) -> (r: &'static str)
        ensures
            r@ == "ImageGenerate"@,
    {
        "ImageGenerate"
    }

    /// Description of the tool.
    pub fn description(&self) -> (r: &'static str)
        ensures
            r@ == "Generate images using AI. \
Supports OpenAI DALL-E (default), Stability AI, Replicate. \
Use for architecture diagrams, UI mockups, banners, illustrations, concept art. \
Args: <prompt> [--provider <name>] [--width <px>] [--height <px>] [--steps <n>]
Example: ImageGenerate('A futuristic city at sunset')
Example: ImageGenerate('Clean architecture diagram with boxes and arrows', '--width 1024 --height 512')
Example: ImageGenerate('Dark mode dashboard UI', '--provider openai --width 1920 --height 1080')"@,
    {
        "Generate images using AI. \
Supports OpenAI DALL-E (default), Stability AI, Replicate. \
Use for architecture diagrams, UI mockups, banners, illustrations, concept art. \
Args: <prompt> [--provider <name>] [--width <px>] [--height <px>] [--steps <n>]
Example: ImageGenerate('A futuristic city at sunset')
Example: ImageGenerate('Clean architecture diagram with boxes and arrows', '--width 1024 --height 512')
Example: ImageGenerate('Dark mode dashboard UI', '--provider openai --width 1920 --height 1080')"
    }
}

} // verus!
