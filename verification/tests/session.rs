use code_buddy::memory::{context_query, SearchHit};
use code_buddy::mixture_of_agents::{agent_prompt, aggregation_prompt, stand_in_answer, tokens_used, MoAAgent};
use code_buddy::profiles::{check_archive_entry, format_profiles_list, Profile, ProfileManager};
use code_buddy::state::{default_tools, AppState, CompactionSettings};

fn settings(keep: usize, window: Option<usize>) -> CompactionSettings {
    CompactionSettings { conversation_window: window, auto_compact: true, compact_threshold: 85, compact_messages: keep }
}

#[test]
fn session_messages_hooks_and_tools() {
    let mut s = AppState::new(settings(20, None), "id".to_string(), None);
    assert_eq!(s.tools.len(), 8);
    assert_eq!(default_tools()[5].name, "Bash");
    s.add_message("user", "hello world!", "t0".to_string());
    assert_eq!(s.conversation_history.len(), 1);
    assert_eq!(s.estimate_context_tokens(), 3);
    s.add_hook("stop".to_string(), "echo".to_string());
    s.add_hook("start".to_string(), "x".to_string());
    s.add_hook("stop".to_string(), "y".to_string());
    s.remove_hook("stop");
    assert_eq!(s.hooks.len(), 1);
    assert_eq!(s.hooks[0].event, "start");
    s.set_session_id("other".to_string());
    assert_eq!(s.session_id, Some("other".to_string()));
    s.clear_history();
    assert!(s.conversation_history.is_empty());
}

#[test]
fn usage_and_compaction() {
    let mut s = AppState::new(settings(2, Some(10)), "id".to_string(), None);
    for i in 0..4 {
        s.add_message("user", &format!("message number {}", i), format!("t{}", i));
    }
    assert_eq!(s.estimate_context_tokens(), 16);
    assert_eq!(s.context_usage_percent(), 160);
    assert!(s.needs_compaction());
    let r = s.auto_compact_if_needed("now".to_string()).unwrap();
    assert_eq!(r.original_messages, 4);
    assert_eq!(r.compacted_messages, 3);
    assert_eq!(r.summary, "[Previous 2 messages summarized: message number 0... | message number 1...]");
    assert_eq!(s.conversation_history.len(), 3);
    assert_eq!(s.conversation_history[0].role, "system");
    assert_eq!(s.conversation_history[1].content, "message number 2");
    let again = s.compact("later".to_string());
    assert_eq!(again.compacted_messages, 3);
    assert_eq!(again.summary, "[Previous 1 messages summarized: [Previous 2 messages summarized: message number 0... | message number 1...]...]");
    let mut quiet = AppState::new(settings(5, None), "q".to_string(), None);
    quiet.add_message("user", "hi", "t".to_string());
    assert_eq!(quiet.compact("n".to_string()).summary, "No compaction needed - conversation already within limits");
    assert!(!quiet.needs_compaction());
    assert!(quiet.auto_compact_if_needed("n".to_string()).is_none());
}

#[test]
fn test_format_profiles_list() {
    let profiles = vec![Profile {
        name: "default".to_string(),
        home: "/tmp/default".to_string(),
        description: Some("Default profile".to_string()),
        created_at: "2026-01-01T00:00:00+00:00".to_string(),
        last_used: None,
    }];
    let output = format_profiles_list(&profiles, None);
    assert!(output.contains("Profiles"));
    assert!(output.contains("default"));
}

#[test]
fn profile_management() {
    let m = ProfileManager::new("/p", "/home/u/.code-buddy");
    assert_eq!(m.home_of("default"), "/home/u/.code-buddy");
    assert_eq!(m.home_of("work"), "/p/work");
    let listed = m.list(
        Some("t0".to_string()),
        &[("work".to_string(), "t1".to_string()), ("default".to_string(), "t2".to_string())],
    );
    assert_eq!(listed.len(), 2);
    assert_eq!(listed[1].home, "/p/work");
    let created = m.create("test-profile", Some("mine"), "now".to_string());
    assert_eq!(created.home, "/p/test-profile");
    assert_eq!(m.remove("default"), Err("Cannot remove default profile".to_string()));
    assert!(m.remove("remove-me").is_ok());
    assert_eq!(m.activate("activate-me", true), Ok("/p/activate-me".to_string()));
    assert_eq!(m.activate("ghost", false), Err("Profile 'ghost' does not exist".to_string()));
    assert_eq!(m.export("ghost", false), Err("Profile 'ghost' not found".to_string()));
    assert!(check_archive_entry("../x", "/p/x", "/p/work").is_err());
    assert!(check_archive_entry("a/b", "/p/work/a/b", "/p/work").is_ok());
    let listing = format_profiles_list(&listed, Some("work"));
    assert!(listing.contains("- **work** **(active)** - /p/work\n"));
    assert!(listing.ends_with("- `code-buddy profile remove <name>` - Remove profile\n"));
}

#[test]
fn memory_context_reports() {
    assert_eq!(context_query("q", &[], &[]), "# Context Query: q\n\nNo relevant context found.\n");
    let m = vec![SearchHit { key: "k".to_string(), id: 7, snippet: "s".to_string() }];
    let s = vec![SearchHit { key: "abc".to_string(), id: 0, snippet: "t".to_string() }];
    assert_eq!(
        context_query("q", &m, &s),
        "# Context Query: q\n\n## Relevant Memories\n\n- **[k](7)**: s\n\n## Relevant Sessions\n\n- **Session abc**: t\n\n"
    );
}

#[test]
fn ensemble_prompts() {
    let a = MoAAgent {
        name: "Critic".to_string(),
        model: "m".to_string(),
        provider: None,
        role: "You find flaws.".to_string(),
        prompt_template: None,
    };
    assert_eq!(agent_prompt(&a, "Is it sound?"), "You are Critic. You find flaws.:\n\nIs it sound?");
    let t = MoAAgent { prompt_template: Some("Q: {prompt} / {prompt}".to_string()), ..a };
    assert_eq!(agent_prompt(&t, "x"), "Q: x / x");
    assert_eq!(stand_in_answer(&t, &"y".repeat(60)), format!("[Critic] Response to: {}", "y".repeat(50)));
    let answers = vec![("A".to_string(), "one".to_string()), ("B".to_string(), "two".to_string())];
    assert_eq!(
        aggregation_prompt("What?", &answers),
        "Original question: What?\n\nResponses from different agents:\n\n[Agent 1 - A]:\none\n\n[Agent 2 - B]:\ntwo\n\n\nSynthesize the best aspects of each response into a comprehensive answer."
    );
    assert_eq!(tokens_used(&["12345678".to_string(), "abc".to_string()]), 2);
}

#[test]
fn test_profile_creation() {
    let manager = ProfileManager::new("/tmp/test-profile-creation", "/home/u/.code-buddy");
    let created = manager.create("test-profile", None, "2026-01-01T00:00:00+00:00".to_string());
    assert_eq!(created.name, "test-profile");
    assert_eq!(created.home, "/tmp/test-profile-creation/test-profile");
    let profiles = manager.list(None, &[("test-profile".to_string(), "t".to_string())]);
    assert!(profiles.iter().any(|p| p.name == "test-profile"));
}

#[test]
fn test_profile_removal() {
    let manager = ProfileManager::new("/tmp/test-profile-removal", "/home/u/.code-buddy");
    manager.create("remove-me", None, "now".to_string());
    let result = manager.remove("remove-me");
    assert!(result.is_ok());
}

#[test]
fn test_profile_activation() {
    let manager = ProfileManager::new("/tmp/test-profile-activation", "/home/u/.code-buddy");
    manager.create("activate-me", None, "now".to_string());
    let result = manager.activate("activate-me", true);
    assert!(result.is_ok());
    assert_eq!(result.unwrap(), "/tmp/test-profile-activation/activate-me");
}
