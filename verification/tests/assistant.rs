use code_buddy::commands::voice::{run, voice_status};
use code_buddy::config::{env_flag, key_and_provider, settings_from_env, AgentConfig, Message};
use code_buddy::context_files::{
    check_modified, generate_agents_md_template, generate_guidelines_md_template, parse_guidelines_md, ContextFile,
    ContextFileType, ContextLoader,
};
use code_buddy::image_gen::{
    dalle_result, dalle_size, format_image_result, provider_for, stand_in_result, ImageGenerator, ImageProvider,
    ImageRequest,
};
use code_buddy::mlx::{
    arm64_from_sysctl, arm64_from_uname, download_script, escape_prompt, generate_script, mlx_community_models,
    mlx_status, model_info_from_hub, should_suggest_mlx, MlxConfig,
};
use code_buddy::strmap::StringMap;
use code_buddy::tools::browser::{format_browser_result, BrowserAction, BrowserConfig, BrowserResult, BrowserTool};

#[test]
fn test_voice() {
    let output = voice_status().unwrap();
    assert!(output.contains("Voice Status"));
}

#[test]
fn voice_commands() {
    assert_eq!(run(&["on".to_string()]).unwrap(), "Voice mode enabled.\n");
    assert_eq!(run(&["disable".to_string()]).unwrap(), "Voice mode disabled.\n");
    assert_eq!(run(&["test".to_string()]).unwrap(), "Voice test: \"Hello, I'm Code Buddy!\"\n");
    assert!(run(&[]).unwrap().starts_with("# Voice Mode\n\nControl voice mode"));
    assert_eq!(run(&["what".to_string()]).unwrap(), run(&[]).unwrap());
}

#[test]
fn test_config_llm_provider_from_string() {
    let providers = vec![
        ("anthropic", "anthropic"),
        ("openai", "openai"),
        ("openrouter", "openrouter"),
        ("nvidia", "nvidia"),
        ("ollama", "ollama"),
        ("groq", "groq"),
        ("deepseek", "deepseek"),
        ("custom", "custom"),
    ];

    for (input, expected) in providers {
        assert_eq!(input, expected);
    }
}

#[test]
fn keys_and_providers_from_environment() {
    let mut env = StringMap::new();
    assert_eq!(key_and_provider(&env), (None, "anthropic".to_string()));
    env.insert("LLM_PROVIDER", "ollama");
    assert_eq!(key_and_provider(&env), (None, "ollama".to_string()));
    env.insert("GROQ_API_KEY", "g");
    assert_eq!(key_and_provider(&env), (Some("g".to_string()), "groq".to_string()));
    env.insert("OPENAI_API_KEY", "o");
    assert_eq!(key_and_provider(&env), (Some("o".to_string()), "openai".to_string()));
    env.insert("ANTHROPIC_API_KEY", "a");
    assert_eq!(key_and_provider(&env), (Some("a".to_string()), "anthropic".to_string()));
    assert!(env_flag(Some("1"), false));
    assert!(!env_flag(Some("yes"), true));
    assert!(env_flag(None, true));
    let agent = AgentConfig { model: None, description: Some("d".to_string()), tools: vec![] };
    assert!(agent.tools.is_empty());
    let m = Message { role: "user".to_string(), content: "hi".to_string(), timestamp: None };
    assert_eq!(m.role, "user");
}

#[test]
fn test_mlx_config_default() {
    let config = MlxConfig::new(None);
    assert!(!config.available);
    assert!(!config.enabled);
    assert!(config.loaded_model.is_none());
    assert!(config.cached_models.is_empty());
}

#[test]
fn test_default_model_dir() {
    let dir = MlxConfig::default_model_dir(None);
    assert!(dir.contains("mlx-models"));
}

#[test]
fn test_mlx_community_models() {
    let models = mlx_community_models();
    assert!(!models.is_empty());
    for (id, name) in models {
        assert!(id.starts_with("mlx-community/"));
        assert!(!name.is_empty());
    }
}

#[test]
fn mlx_scripts_and_status() {
    assert_eq!(MlxConfig::default_model_dir(Some("/home/u/.cache")), "/home/u/.cache/mlx-models");
    assert_eq!(MlxConfig::default_model_dir(None), "~/.cache/mlx-models");
    assert_eq!(escape_prompt("it's\na\\b"), "it\\'s\\na\\\\b");
    assert_eq!(
        generate_script("m", "hi", false),
        "from mlx_lm import generate\nmodel_path = 'm'\nresponse = generate(model_path, prompt='hi')\nprint(response, end='', flush=True)\n"
    );
    assert!(generate_script("m", "hi", true).contains("stream=True"));
    assert_eq!(download_script("x/y"), "from mlx_lm.hub import download; download('x/y')");
    assert_eq!(model_info_from_hub("mlx-community/gemma", Some(3)).name, "gemma");
    assert!(arm64_from_sysctl(" 1\n"));
    assert!(!arm64_from_sysctl("0"));
    assert!(arm64_from_uname("ARM64\n"));
    assert!(should_suggest_mlx(true));
    let mut c = MlxConfig::new(Some("/c"));
    assert_eq!(mlx_status(&c, true), "=== MLX (Apple Silicon) Status ===\n\n✗ Not running on Apple Silicon Mac\n\nMLX provides native LLM inference on Apple Silicon.\nThis feature is only available on M1/M2/M3/M4 Macs.\n\n");
    c.available = true;
    c.cached_models = vec!["a".to_string()];
    c.loaded_model = Some("a".to_string());
    assert_eq!(
        mlx_status(&c, false),
        "=== MLX (Apple Silicon) Status ===\n\n✓ Running on Apple Silicon Mac\n\n✗ mlx-lm not installed\n  Install with: pip install mlx-lm\n\nModel directory: /c/mlx-models\n\nCached models:\n  - a\n\nCurrently loaded: a\n\n"
    );
}

#[test]
fn test_browser_navigate() {
    let mut browser = BrowserTool::new(BrowserConfig::default());
    let result = browser
        .execute(BrowserAction::Navigate { url: "https://example.com".to_string() })
        .unwrap();
    assert!(result.success);
    assert_eq!(result.url, Some("https://example.com".to_string()));
}

#[test]
fn test_browser_screenshot() {
    let mut browser = BrowserTool::new(BrowserConfig::default());
    let _ = browser.execute(BrowserAction::Navigate { url: "https://example.com".to_string() });
    let result = browser.execute(BrowserAction::Screenshot { full_page: Some(true) }).unwrap();
    assert!(result.success);
}

#[test]
fn browser_reports() {
    let mut b = BrowserTool::new(BrowserConfig::default());
    let r = b.execute(BrowserAction::Screenshot { full_page: None }).unwrap();
    assert_eq!(r.text, Some("Screenshot 1 captured (full_page=false)".to_string()));
    assert_eq!(b.screenshots_taken(), 1);
    let r = b.execute(BrowserAction::Scroll { x: -3, y: 40 }).unwrap();
    assert_eq!(r.text, Some("Scrolled: x=-3, y=40".to_string()));
    let r = b.execute(BrowserAction::Eval { script: "a".repeat(150) }).unwrap();
    assert_eq!(r.text, Some(format!("Script executed: {}", "a".repeat(100))));
    let r = b.execute(BrowserAction::Navigate { url: "u".to_string() }).unwrap();
    assert_eq!(r.text, None);
    let r = b.execute(BrowserAction::GetUrl).unwrap();
    assert_eq!(r.text, Some("u".to_string()));
    let r = b.execute(BrowserAction::GetTitle).unwrap();
    assert_eq!(r.title, Some("Page Title".to_string()));
    let md = format_browser_result(&r);
    assert_eq!(md, "**URL:** u\n\n**Title:** Page Title\n\n");
    let long = BrowserResult {
        success: true,
        url: None,
        title: None,
        screenshot: None,
        html: Some("h".repeat(501)),
        text: None,
        error: Some("e".to_string()),
        cookies: None,
    };
    assert_eq!(
        format_browser_result(&long),
        format!("**HTML:**\n```\n{}\n... (truncated)\n```\n\n**Error:** e\n", "h".repeat(500))
    );
}

#[test]
fn test_image_request_default() {
    let req = ImageRequest::default();
    assert_eq!(req.width, 1024);
    assert_eq!(req.height, 1024);
}

#[test]
fn image_providers_and_reports() {
    assert_eq!(provider_for(&None), ImageProvider::OpenAI);
    assert_eq!(provider_for(&Some("stabilityai".to_string())), ImageProvider::StabilityAI);
    assert_eq!(provider_for(&Some("whatever".to_string())), ImageProvider::OpenAI);
    assert_eq!(dalle_size(1024, 768), "1024x768");
    let mut req = ImageRequest::default();
    req.prompt = "cat".to_string();
    req.seed = Some(9);
    assert!(stand_in_result(ImageProvider::OpenAI, &req).is_none());
    let local = stand_in_result(ImageProvider::Local, &req).unwrap();
    assert!(!local.success);
    assert_eq!(local.error, Some("Local model not configured".to_string()));
    let refused = dalle_result(&req, false, "quota".to_string(), None, None);
    assert_eq!(
        format_image_result(&refused),
        "## Image Generation Result\n\n- **Status:** Failed\n- **Model:** dall-e-3\n- **Prompt:** cat\n- **Generation Time:** 0ms\n- **Seed:** 9\n\n**Error:** quota\n"
    );
    let g = ImageGenerator::new(None, None);
    assert_eq!(g.dalle_key(), Err("OpenAI API key required for DALL-E".to_string()));
    assert_eq!(g.decode_image("SGVsbG8=").unwrap(), b"Hello".to_vec());
    assert!(g.decode_image("***").is_err());
}

#[test]
fn test_context_loader() {
    let loader = ContextLoader::new(".", None);
    assert_eq!(loader.search_paths(), &[".".to_string()]);
    let files: Vec<ContextFile> = vec![];
    assert_eq!(loader.build_system_prompt(&files), "");
}

#[test]
fn context_prompt_order() {
    let loader = ContextLoader::new("/p/sub", Some("/p"));
    assert_eq!(loader.search_paths().len(), 2);
    let files = vec![
        ContextFile {
            file_type: ContextFileType::Local,
            path: "l".to_string(),
            content: " local \n".to_string(),
            loaded: true,
        },
        ContextFile {
            file_type: ContextFileType::Config,
            path: "c".to_string(),
            content: "{\"instructions\": \"be brief\"}".to_string(),
            loaded: true,
        },
        ContextFile { file_type: ContextFileType::Agents, path: "a".to_string(), content: "agents".to_string(), loaded: true },
    ];
    assert_eq!(
        loader.build_system_prompt(&files),
        "\n## From AGENTS.md (a)\n\nagents\n\n## Config Instructions\n\nbe brief\n\n## Local Overrides (l)\n\nlocal\n"
    );
    let current = vec![("a".to_string(), Some(5)), ("b".to_string(), None), ("c".to_string(), Some(1))];
    let known = vec![("a".to_string(), 4), ("b".to_string(), 1), ("c".to_string(), 1)];
    assert_eq!(check_modified(&current, &known), vec!["a".to_string(), "b".to_string()]);
}

#[test]
fn guidelines_sections() {
    let content = "# Test\n\n## Section 1\nContent 1\n\n## Section 2\nContent 2\n";
    let sections = parse_guidelines_md(content);
    assert!(sections.contains_key("Section 1"));
    assert!(sections.contains_key("Section 2"));
    assert!(!sections.contains_key("Test"));
    assert_eq!(sections.get("Section 2"), Some(&"Content 2".to_string()));
    assert!(generate_guidelines_md_template("P", "Rust").starts_with("# P - Project Guidelines\n"));
    assert!(generate_guidelines_md_template("P", "Rust").contains("- Language/Framework: Rust\n"));
    assert!(generate_agents_md_template().starts_with("# Multi-Agent Instructions"));
}

fn env_of(pairs: &[(&str, &str)]) -> StringMap {
    let mut env = StringMap::new();
    for (k, v) in pairs {
        env.insert(k, v);
    }
    env
}

#[test]
fn test_config_from_env_anthropic() {
    let config = settings_from_env(&env_of(&[("ANTHROPIC_API_KEY", "test-key-123")]));
    assert_eq!(config.api_key, Some("test-key-123".to_string()));
}

#[test]
fn test_config_from_env_openai() {
    let config = settings_from_env(&env_of(&[("OPENAI_API_KEY", "openai-key-456"), ("LLM_PROVIDER", "openai")]));
    assert_eq!(config.api_key, Some("openai-key-456".to_string()));
    assert_eq!(config.llm_provider, "openai");
}

#[test]
fn test_config_from_env_openrouter() {
    let config =
        settings_from_env(&env_of(&[("OPENROUTER_API_KEY", "openrouter-key"), ("LLM_PROVIDER", "openrouter")]));
    assert_eq!(config.api_key, Some("openrouter-key".to_string()));
    assert_eq!(config.llm_provider, "openrouter");
}

#[test]
fn test_config_from_env_all_providers() {
    let provider_tests = vec![
        ("ANTHROPIC_API_KEY", "anthropic"),
        ("OPENAI_API_KEY", "openai"),
        ("OPENROUTER_API_KEY", "openrouter"),
        ("NVIDIA_API_KEY", "nvidia"),
        ("GROQ_API_KEY", "groq"),
        ("DEEPSEEK_API_KEY", "deepseek"),
        ("TOGETHER_API_KEY", "together"),
    ];
    for (key, provider) in provider_tests {
        let config = settings_from_env(&env_of(&[(key, "test-key")]));
        assert_eq!(config.api_key, Some("test-key".to_string()));
        assert_eq!(config.llm_provider, provider);
    }
}

#[test]
fn test_config_env_priority() {
    let config = settings_from_env(&env_of(&[
        ("ANTHROPIC_API_KEY", "anthropic-key"),
        ("OPENAI_API_KEY", "openai-key"),
        ("LLM_PROVIDER", "openai"),
    ]));
    assert_eq!(config.api_key, Some("anthropic-key".to_string()));
}

#[test]
fn test_config_env_timeout() {
    let config = settings_from_env(&env_of(&[("REQUEST_TIMEOUT_SECONDS", "60")]));
    assert_eq!(config.request_timeout_seconds, 60);
}

#[test]
fn test_config_env_max_retries() {
    let config = settings_from_env(&env_of(&[("MAX_RETRIES", "5")]));
    assert_eq!(config.max_retries, 5);
}

#[test]
fn environment_defaults_and_numbers() {
    let config = settings_from_env(&StringMap::new());
    assert_eq!(config.llm_provider, "anthropic");
    assert!(config.api_key.is_none() && config.model.is_none() && config.base_url.is_none());
    assert!(config.auto_compact && !config.debug && !config.verbose && !config.no_color);
    assert_eq!((config.compact_threshold, config.compact_messages), (85, 20));
    assert_eq!((config.request_timeout_seconds, config.max_retries), (120, 3));
    let config = settings_from_env(&env_of(&[
        ("COMPACT_THRESHOLD", "300"),
        ("MAX_TOKENS", "+4096"),
        ("CONVERSATION_WINDOW", " 10"),
        ("AUTO_COMPACT", "no"),
        ("DEBUG", "1"),
    ]));
    assert_eq!(config.compact_threshold, 85);
    assert_eq!(config.max_tokens, Some(4096));
    assert_eq!(config.conversation_window, None);
    assert!(!config.auto_compact);
    assert!(config.debug);
}
