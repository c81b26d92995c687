use code_buddy::hooks::{Hook, HookContext, HookEvent, HookResult, HooksManager};

fn hook(id: &str, event: HookEvent) -> Hook {
    Hook {
        id: Some(id.to_string()),
        event,
        command: "echo test".to_string(),
        enabled: true,
        working_dir: None,
        env: None,
        timeout: 0,
        continue_on_failure: false,
        description: None,
    }
}

#[test]
fn test_hook_event_parsing() {
    assert_eq!(HookEvent::from_str("before_write"), Some(HookEvent::BeforeWrite));
    assert_eq!(HookEvent::from_str("on_error"), Some(HookEvent::OnError));
    assert_eq!(HookEvent::from_str("unknown"), None);
}

#[test]
fn test_hook_event_str() {
    assert_eq!(HookEvent::BeforeWrite.as_str(), "before_write");
    assert_eq!(HookEvent::OnError.as_str(), "on_error");
}

#[test]
fn test_hooks_manager() {
    let mut manager = HooksManager::new();
    manager.add(hook("test1", HookEvent::BeforeWrite));
    assert!(manager.has_hooks(&HookEvent::BeforeWrite));
    assert!(!manager.has_hooks(&HookEvent::AfterWrite));
    assert_eq!(manager.get_hooks(&HookEvent::BeforeWrite).len(), 1);
}

#[test]
fn hook_event_names_round_trip() {
    for name in ["before_write", "after_write", "before_submit", "after_submit", "on_error", "on_compact", "before_command", "after_command", "on_start", "on_exit"] {
        let e = HookEvent::from_str(name).unwrap();
        assert_eq!(e.as_str(), name);
    }
}

#[test]
fn hooks_manager_remove_by_id() {
    let mut manager = HooksManager::new();
    manager.add(hook("a", HookEvent::BeforeWrite));
    manager.add(hook("b", HookEvent::BeforeWrite));
    assert!(manager.remove("a"));
    assert!(!manager.remove("a"));
    assert_eq!(manager.get_all_hooks().len(), 1);
}

#[test]
fn test_context_expand() {
    let ctx = HookContext::new("before_write", Some("/work".to_string()))
        .with_path("/path/to/file.txt")
        .with_tool("Write");
    assert_eq!(ctx.expand("{event}"), "before_write");
    assert_eq!(ctx.expand("{path}"), "/path/to/file.txt");
    assert_eq!(ctx.expand("{tool}"), "Write");
    assert_eq!(ctx.expand("{cwd}"), "/work");
}

fn outcome(success: bool, out: &str) -> HookResult {
    HookResult { success, stdout: out.to_string(), stderr: String::new(), exit_code: if success { 0 } else { 1 }, duration_ms: 0 }
}

#[test]
fn run_hooks_sync_stops_after_a_failure() {
    let mut first = hook("a", HookEvent::BeforeWrite);
    first.command = "first".to_string();
    let mut second = hook("b", HookEvent::BeforeWrite);
    second.command = "fail".to_string();
    let mut third = hook("c", HookEvent::BeforeWrite);
    third.command = "third".to_string();
    let mut manager = HooksManager::new();
    manager.add(first);
    manager.add(second);
    manager.add(third);
    manager.add(hook("d", HookEvent::AfterWrite));
    let ctx = HookContext::new("before_write", None);
    let run = |h: &Hook, cmd: &str, _dir: Option<String>| outcome(h.command != "fail", cmd);
    let results = manager.run_hooks_sync(&HookEvent::BeforeWrite, &ctx, run);
    assert_eq!(results.len(), 2);
    assert_eq!(results[0].stdout, "first");
    assert!(!results[1].success);
}

#[test]
fn run_hooks_sync_continues_when_allowed() {
    let mut bad = hook("a", HookEvent::OnError);
    bad.command = "fail".to_string();
    bad.continue_on_failure = true;
    let mut manager = HooksManager::new();
    manager.add(bad);
    let mut good = hook("b", HookEvent::OnError);
    good.command = "echo {event}".to_string();
    manager.add(good);
    let ctx = HookContext::new("on_error", Some("/w".to_string()));
    let results = manager.run_hooks_sync(&HookEvent::OnError, &ctx, |h: &Hook, cmd: &str, dir: Option<String>| {
        outcome(h.command != "fail", &format!("{} in {}", cmd, dir.unwrap_or_default()))
    });
    assert_eq!(results.len(), 2);
    assert!(!results[0].success);
    assert!(results[1].success);
    assert_eq!(results[1].stdout, "echo on_error in /w");
    assert!(manager.run_hooks_sync(&HookEvent::AfterCommand, &ctx, |_h: &Hook, _c: &str, _d: Option<String>| outcome(true, "")).is_empty());
}
