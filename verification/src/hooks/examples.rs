//! Example hook configurations.

use vstd::prelude::*;
use crate::hooks::{Hook, HookEvent};
use crate::text::owned;

verus! {

/// Commits every change after files are written.
pub fn git_auto_commit() -> (h: Hook)
    ensures
        h.id matches Some(i) && i@ == "git-auto-commit"@,
        h.event == HookEvent::AfterWrite,
        h.command@ == "git add -A && git commit -m 'Auto-commit from Code Buddy'"@,
        h.enabled && h.continue_on_failure && h.timeout == 30,
        h.working_dir is None && h.env is None,
        h.description matches Some(d) && d@ == "Auto-commit changes after writing files"@,
{
    Hook {
        id: Some(owned("git-auto-commit")),
        event: HookEvent::AfterWrite,
        command: owned("git add -A && git commit -m 'Auto-commit from Code Buddy'"),
        enabled: true,
        working_dir: None,
        env: None,
        timeout: 30,
        continue_on_failure: true,
        description: Some(owned("Auto-commit changes after writing files")),
    }
}

/// Runs clippy before changes are submitted.
pub fn lint_check() -> (h: Hook)
    ensures
        h.id matches Some(i) && i@ == "lint-check"@,
        h.event == HookEvent::BeforeSubmit,
        h.command@ == "cargo clippy --quiet"@,
        h.enabled && h.continue_on_failure && h.timeout == 60,
        h.working_dir is None && h.env is None,
        h.description matches Some(d) && d@ == "Run clippy before submitting changes"@,
{
    Hook {
        id: Some(owned("lint-check")),
        event: HookEvent::BeforeSubmit,
        command: owned("cargo clippy --quiet"),
        enabled: true,
        working_dir: None,
        env: None,
        timeout: 60,
        continue_on_failure: true,
        description: Some(owned("Run clippy before submitting changes")),
    }
}

/// Logs each command after it ran.
pub fn log_commands() -> (h: Hook)
    ensures
        h.id matches Some(i) && i@ == "log-commands"@,
        h.event == HookEvent::AfterCommand,
        h.command@ == "echo \"[{event}] {command} completed in {duration}ms\""@,
        h.enabled && h.continue_on_failure && h.timeout == 5,
        h.working_dir is None && h.env is None,
        h.description matches Some(d) && d@ == "Log executed commands"@,
{
    Hook {
        id: Some(owned("log-commands")),
        event: HookEvent::AfterCommand,
        command: owned("echo \"[{event}] {command} completed in {duration}ms\""),
        enabled: true,
        working_dir: None,
        env: None,
        timeout: 5,
        continue_on_failure: true,
        description: Some(owned("Log executed commands")),
    }
}

/// Reports errors as they occur.
pub fn error_notifier() -> (h: Hook)
    ensures
        h.id matches Some(i) && i@ == "error-notifier"@,
        h.event == HookEvent::OnError,
        h.command@ == "echo \"Error occurred: {error}\""@,
        h.enabled && h.continue_on_failure && h.timeout == 5,
        h.working_dir is None && h.env is None,
        h.description matches Some(d) && d@ == "Notify on errors"@,
{
    Hook {
        id: Some(owned("error-notifier")),
        event: HookEvent::OnError,
        command: owned("echo \"Error occurred: {error}\""),
        enabled: true,
        working_dir: None,
        env: None,
        timeout: 5,
        continue_on_failure: true,
        description: Some(owned("Notify on errors")),
    }
}

} // verus!
