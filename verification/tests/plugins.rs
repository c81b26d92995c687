use code_buddy::plugins::{
    check_git_url, check_plugin_name, check_within, extract_plugin_name, get_builtin_plugins, git_clone_args,
    is_git_source, merge_hooks, parse_skill_file, plugins_dir_for_scope,
    HookConfig, HookDef, HookType, LoadedPlugin, PluginManifest, PluginRegistry, PluginScope, Skill,
};

fn manifest(name: &str, skills: Vec<Skill>, hooks: HookConfig) -> PluginManifest {
    PluginManifest {
        name: name.to_string(),
        version: "1.0".to_string(),
        description: String::new(),
        author: None,
        homepage: None,
        repository: None,
        license: None,
        keywords: vec![],
        dependencies: vec![],
        skills,
        hooks,
        mcp_servers: vec![],
        commands: vec![],
        agents: vec![],
    }
}

fn skill(name: &str) -> Skill {
    let mut s = Skill::default();
    s.name = name.to_string();
    s
}

fn hook(cmd: Option<&str>) -> HookDef {
    let mut h = HookDef::default();
    h.command = cmd.map(|c| c.to_string());
    h
}

#[test]
fn registry_collects_enabled_plugins() {
    let mut hooks = HookConfig::default();
    hooks.stop.push(hook(Some("a")));
    let plugins = vec![
        LoadedPlugin { manifest: manifest("one", vec![skill("s1")], hooks), path: "p1".to_string(), enabled: true, scope: PluginScope::User },
        LoadedPlugin { manifest: manifest("two", vec![skill("s2")], HookConfig::default()), path: "p2".to_string(), enabled: false, scope: PluginScope::Project },
        LoadedPlugin { manifest: manifest("one", vec![skill("s3")], HookConfig::default()), path: "p3".to_string(), enabled: true, scope: PluginScope::User },
    ];
    let reg = PluginRegistry::from_loaded(plugins);
    assert_eq!(reg.plugins.len(), 2);
    assert_eq!(reg.plugins[0].path, "p3");
    assert_eq!(reg.plugins[1].path, "p2");
    let names: Vec<&str> = reg.enabled_skills.iter().map(|s| s.name.as_str()).collect();
    assert_eq!(names, vec!["s3"]);
    assert!(reg.enabled_hooks.stop.is_empty());
    let all = reg.get_all_skills(vec![skill("dir")]);
    assert_eq!(all.len(), 2);
    assert_eq!(all[1].name, "dir");
    assert!(PluginRegistry::new().plugins.is_empty());
}

#[test]
fn hooks_merge_event_by_event() {
    let mut a = HookConfig::default();
    a.stop.push(hook(Some("x")));
    let mut b = HookConfig::default();
    b.stop.push(hook(Some("y")));
    b.setup.push(hook(None));
    merge_hooks(&mut a, &b);
    assert_eq!(a.stop.len(), 2);
    assert_eq!(a.stop[1].command, Some("y".to_string()));
    assert_eq!(a.setup.len(), 1);
    assert!(a.pre_tool_use.is_empty());
}

#[test]
fn skill_files() {
    let s = parse_skill_file("n", "");
    assert_eq!(s.description, "No description");
    let s = parse_skill_file("n", "First line\nmore");
    assert_eq!(s.description, "First line");
    assert!(s.user_invocable);
    let s = parse_skill_file(
        "review",
        "---\ndescription: Review code\nwhen_to_use: On PRs\nallowed-tools: [bash, read]\nuser-invocable: false\npaths: [\"src\"]\n---\nBody",
    );
    assert_eq!(s.name, "review");
    assert_eq!(s.description, "Review code");
    assert_eq!(s.when_to_use, Some("On PRs".to_string()));
    assert_eq!(s.allowed_tools, vec!["bash".to_string(), "read".to_string()]);
    assert!(!s.user_invocable);
    assert_eq!(s.paths, vec!["src".to_string()]);
    let s = parse_skill_file("x", "---\n---\nbody");
    assert_eq!(s.description, "---");
    let s = parse_skill_file("x", "---\nname: y\n---");
    assert_eq!(s.description, "No description");
    assert!(s.user_invocable);
}

#[test]
fn installing_checks() {
    assert_eq!(extract_plugin_name("https://github.com/a/tool.git/"), "tool");
    assert_eq!(extract_plugin_name("/local/dir"), "dir");
    assert_eq!(check_plugin_name("tool"), Ok(()));
    assert_eq!(
        check_plugin_name(".."),
        Err("Invalid plugin name '..': must not be empty or contain path traversal sequences".to_string())
    );
    assert!(check_plugin_name("").is_err());
    assert!(is_git_source("git@github.com:a/b"));
    assert!(!is_git_source("./local"));
    assert_eq!(check_git_url("https://x/y"), Ok(()));
    assert_eq!(
        check_git_url("https://x/y; rm -rf /"),
        Err("URL contains suspicious pattern ';': command injection attempt blocked".to_string())
    );
    assert_eq!(
        check_git_url("ftp://x"),
        Err("URL must use https://, http://, or git@ protocol. Got: ftp://x".to_string())
    );
    assert_eq!(git_clone_args("u", "d"), vec!["clone", "--depth", "1", "--", "u", "d"]);
    assert_eq!(check_within("t", "/p/t", "/p", "/"), Ok(()));
    assert!(check_within("t", "/etc/t", "/p", "/").is_err());
    assert_eq!(plugins_dir_for_scope(PluginScope::User, "/u", "/q"), Ok("/u".to_string()));
    assert_eq!(
        plugins_dir_for_scope(PluginScope::Local, "/u", "/q"),
        Err("Local scope plugins cannot be installed".to_string())
    );
    assert!(PluginRegistry::list_marketplace_plugins("any").unwrap().is_empty());
}

#[test]
fn manifest_validation() {
    let missing = PluginRegistry::validate_plugin(false, Err(String::new()));
    assert_eq!(missing[0].code, "manifest-not-found");
    let broken = PluginRegistry::validate_plugin(true, Err("bad".to_string()));
    assert_eq!(broken[0].message, "Failed to parse manifest: bad");
    let mut hooks = HookConfig::default();
    hooks.pre_tool_use.push(hook(None));
    hooks.session_start.push(hook(Some("ok")));
    let mut m = manifest("", vec![], hooks);
    m.version = String::new();
    let problems = PluginRegistry::validate_plugin(true, Ok(m));
    let messages: Vec<&str> = problems.iter().map(|p| p.message.as_str()).collect();
    assert_eq!(
        messages,
        vec!["Plugin name is required", "Plugin version is required", "Hook must have command, prompt, or url defined"]
    );
}

#[test]
fn builtin_plugin() {
    let ps = get_builtin_plugins("0.1.0");
    assert_eq!(ps.len(), 1);
    assert_eq!(ps[0].name, "builtin-default");
    assert_eq!(ps[0].skills[0].name, "help");
    assert_eq!(ps[0].hooks.session_start[0].hook_type, HookType::Command);
    assert_eq!(ps[0].hooks.session_start[0].command, Some("echo 'Code Buddy initialized'".to_string()));
}
