//! The `voice` command: voice mode control.

use vstd::prelude::*;
use crate::text::owned;

verus! {

/// The help text of the voice command.
pub open spec fn voice_help() -> Seq<char> {
    "# Voice Mode\n\nControl voice mode for audio responses.\n\n## Usage\n\n```\nvoice on           Enable voice mode\nvoice off          Disable voice mode\nvoice status       Check voice status\nvoice test         Test voice output\n```\n\n## Requirements\n\n- Working audio output\n- TTS engine installed\n"@
}

/// The status report of voice mode.
pub open spec fn voice_status_text() -> Seq<char> {
    "# Voice Status\n\n**Status:** Disabled\n**Engine:** auto\n**Speed:** 1.0x\n"@
}

/// What the voice command answers for its arguments.
pub open spec fn voice_reply(args: Seq<Seq<char>>) -> Seq<char> {
    if args.len() == 0 {
        voice_help()
    } else if args[0] == "on"@ || args[0] == "enable"@ {
        "Voice mode enabled.\n"@
    } else if args[0] == "off"@ || args[0] == "disable"@ {
        "Voice mode disabled.\n"@
    } else if args[0] == "status"@ {
        voice_status_text()
    } else if args[0] == "test"@ {
        "Voice test: \"Hello, I'm Code Buddy!\"\n"@
    } else {
        voice_help()
    }
}

/// Runs the voice command: turning voice mode on or off, its status, a
/// test line, or the help text.
pub fn run(args: &[String]) -> (r: Result<String, String>)
    ensures
        r matches Ok(t) && t@ == voice_reply(crate::text::views(args@)),
{
    if args.len() == 0 {
        return show_voice_help();
    }
    let a = args[0].as_str();
    proof {
        assert(crate::text::views(args@)[0] == a@);
    }
    if crate::text::str_eq(a, "on") || crate::text::str_eq(a, "enable") {
        enable_voice()
    } else if crate::text::str_eq(a, "off") || crate::text::str_eq(a, "disable") {
        disable_voice()
    } else if crate::text::str_eq(a, "status") {
        voice_status()
    } else if crate::text::str_eq(a, "test") {
        test_voice()
    } else {
        show_voice_help()
    }
}

fn show_voice_help() -> (r: Result<String, String>)
    ensures
        r matches Ok(t) && t@ == voice_help(),
{
    Ok(
        owned(
            "# Voice Mode\n\nControl voice mode for audio responses.\n\n## Usage\n\n```\nvoice on           Enable voice mode\nvoice off          Disable voice mode\nvoice status       Check voice status\nvoice test         Test voice output\n```\n\n## Requirements\n\n- Working audio output\n- TTS engine installed\n",
        ),
    )
}

fn enable_voice() -> (r: Result<String, String>)
    ensures
        r matches Ok(t) && t@ == "Voice mode enabled.\n"@,
{
    Ok(owned("Voice mode enabled.\n"))
}

fn disable_voice() -> (r: Result<String, String>)
    ensures
        r matches Ok(t) && t@ == "Voice mode disabled.\n"@,
{
    Ok(owned("Voice mode disabled.\n"))
}

/// The status report of voice mode.
pub fn voice_status() -> (r: Result<String, String>)
    ensures
        r matches Ok(t) && t@ == voice_status_text(),
{
    Ok(owned("# Voice Status\n\n**Status:** Disabled\n**Engine:** auto\n**Speed:** 1.0x\n"))
}

fn test_voice() -> (r: Result<String, String>)
    ensures
        r matches Ok(t) && t@ == "Voice test: \"Hello, I'm Code Buddy!\"\n"@,
{
    Ok(owned("Voice test: \"Hello, I'm Code Buddy!\"\n"))
}

} // verus!
