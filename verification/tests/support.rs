use code_buddy::dirs::{cache_dir, config_dir, display_home, join_path, mcp_dir};
use code_buddy::prompt_cache::{CacheBlockType, CacheBudget, PromptCache};
use code_buddy::skin_engine::{ansi_reset, built_in_skins, format_with_skin, hex_to_ansi, list_skins, load_skin, skin_or_default};
use code_buddy::text::parse_uint;
use code_buddy::utils::model::MultiProvider;
use code_buddy::utils::path::{find_project_root, is_path_allowed, join_paths, normalize_path, validate_path, validate_path_within_cwd};

#[test]
fn test_extract_and_cache() {
    let mut cache = PromptCache::new(1000);
    let content = "Some content <!-- cache --> cached content";
    let (cleaned, _ids) = cache.extract_and_cache(content);
    assert!(cleaned.contains("<!-- cache -->"));
}

#[test]
fn extract_and_cache_caches_each_marker() {
    let mut cache = PromptCache::new(1000);
    let (cleaned, ids) = cache.extract_and_cache("A <!-- cache --> B [CACHE] C");
    assert_eq!(cleaned, "A <!-- cache -->");
    assert_eq!(ids.len(), 1);
    assert_eq!(cache.block_count(), 1);
    let (cleaned, ids) = cache.extract_and_cache("no markers here");
    assert_eq!(cleaned, "no markers here");
    assert!(ids.is_empty());
}

#[test]
fn cache_hits_and_eviction() {
    let mut cache = PromptCache::new(200);
    let id = cache.cache_block(CacheBlockType::SystemPrompt, "Content 1", 100);
    assert_eq!(cache.get(&id).unwrap().hit_count, 1);
    assert_eq!(cache.get(&id).unwrap().hit_count, 2);
    cache.cache_block(CacheBlockType::Memory, "Content 2", 100);
    cache.cache_block(CacheBlockType::Skills, "Content 3", 100);
    assert!(cache.block_count() <= 2);
    cache.invalidate_type(&CacheBlockType::Skills);
    assert!(cache.block_count() <= 1);
    cache.clear();
    assert_eq!(cache.block_count(), 0);
    assert_eq!(cache.used_tokens(), 0);
    assert!(cache.get("missing").is_none());
}

#[test]
fn budget_saturates() {
    let mut b = CacheBudget::new(100);
    b.add(150);
    assert_eq!(b.remaining(), 0);
    b.add(usize::MAX);
    assert_eq!(b.used_tokens, usize::MAX);
}

#[test]
fn test_hex_to_ansi() {
    let result = hex_to_ansi("#FF0000");
    assert!(result.contains("255"));
}

#[test]
fn hex_colours_exactly() {
    assert_eq!(hex_to_ansi("#1E3A5F"), "\x1b[38;2;30;58;95m");
    assert_eq!(hex_to_ansi("##ff00zz"), "\x1b[38;2;255;0;0m");
    assert_eq!(hex_to_ansi("#FFF"), "");
    assert_eq!(ansi_reset(), "\x1b[0m");
}

#[test]
fn skins_and_fallback() {
    let skins = built_in_skins();
    let names: Vec<&str> = skins.iter().map(|s| s.name.as_str()).collect();
    assert_eq!(names, vec!["default", "ares", "mono", "slate"]);
    assert_eq!(skins[1].branding.agent_name, "ARES");
    assert_eq!(skins[1].tool_prefix, "⚔");
    assert_eq!(skins[0].colors.banner_border, "#FFD700");
    assert_eq!(skins[3].spinner.thinking_verbs.len(), 6);
    assert!(skins[2].spinner.wings.is_none());
    assert_eq!(skin_or_default("ares").name, "ares");
    assert_eq!(skin_or_default("nonexistent").name, "default");
    let s = skin_or_default("mono");
    assert_eq!(format_with_skin(&s, "x", "error"), "\x1b[38;2;255;102;102mx\x1b[0m");
    let listing = list_skins(&["mine".to_string()]);
    assert!(listing.contains("- **mine** (user-installed)\n"));
}

#[test]
fn directories_under_home() {
    assert_eq!(config_dir(Some("/h/.code-buddy")), Some("/h/.code-buddy/config".to_string()));
    assert_eq!(cache_dir(Some("/h/")), Some("/h/cache".to_string()));
    assert_eq!(mcp_dir(None), None);
    assert_eq!(join_path("", "x"), "x");
    assert_eq!(display_home(None), "~/.code-buddy");
}

#[test]
fn paths_resolve_dots() {
    assert_eq!(normalize_path("/a/./b/../c"), "/a/c");
    assert_eq!(normalize_path("a/b/../../.."), "");
    assert_eq!(normalize_path("./x//y/"), "x/y");
    assert_eq!(normalize_path("/.."), "");
    assert!(is_path_allowed("/work/src/../lib.rs", &["/work".to_string()]));
    assert!(!is_path_allowed("/work/../etc", &["/work".to_string()]));
    assert!(!is_path_allowed("/workspace", &["/work".to_string()]));
}

#[test]
fn providers_lookups() {
    let mp = MultiProvider::new(None, "model-a", "model-b:free", "bedrock-model", "vertex-model");
    assert_eq!(mp.list().len(), 14);
    assert_eq!(mp.get("groq").unwrap().default_model, "llama-3.1-8b-instant");
    assert_eq!(mp.get("azure").unwrap().base_url, "https://<resource>.openai.azure.com");
    let free: Vec<&str> = mp.list_free_providers().iter().map(|p| p.name.as_str()).collect();
    assert_eq!(free, vec!["openrouter", "nvidia", "groq"]);
    assert!(mp.get("nope").is_none());
    assert_eq!(mp.get("bedrock").unwrap().default_model, "bedrock-model");
    assert_eq!(mp.get("vertex").unwrap().default_model, "vertex-model");
    assert_eq!(mp.get("anthropic").unwrap().default_model, "model-a");
}

#[test]
fn unsigned_numbers_as_std_reads_them() {
    assert_eq!(parse_uint("42", 100), Some(42));
    assert_eq!(parse_uint("+7", 100), Some(7));
    assert_eq!(parse_uint("101", 100), None);
    assert_eq!(parse_uint("", 100), None);
    assert_eq!(parse_uint("+", 100), None);
    assert_eq!(parse_uint("-1", 100), None);
    assert_eq!(parse_uint("18446744073709551615", u64::MAX), Some(u64::MAX));
    assert_eq!(parse_uint("18446744073709551616", u64::MAX), None);
}

#[test]
fn test_cache_basic() {
    let mut cache = PromptCache::new(1000);
    let id = cache.cache_block(CacheBlockType::SystemPrompt, "Test content", 100);
    assert!(!id.is_empty());

    let block = cache.get(&id);
    assert!(block.is_some());
    assert_eq!(block.unwrap().hit_count, 1);
}

#[test]
fn test_cache_eviction() {
    let mut cache = PromptCache::new(200);
    cache.cache_block(CacheBlockType::SystemPrompt, "Content 1", 100);
    cache.cache_block(CacheBlockType::Memory, "Content 2", 100);
    cache.cache_block(CacheBlockType::Skills, "Content 3", 100);

    assert!(cache.block_count() <= 2);
}

#[test]
fn test_stats() {
    let mut cache = PromptCache::new(1000);
    cache.cache_block(CacheBlockType::SystemPrompt, "Test", 100);

    let stats = cache.stats();
    assert!(stats.total_blocks >= 1);
    assert!(stats.total_tokens >= 100);
}

#[test]
fn test_invalidate_type() {
    let mut cache = PromptCache::new(1000);
    cache.cache_block(CacheBlockType::SystemPrompt, "System", 100);
    cache.cache_block(CacheBlockType::Memory, "Memory", 100);

    cache.invalidate_type(&CacheBlockType::SystemPrompt);

    let stats = cache.stats();
    assert!(stats.total_blocks <= 1);
}

#[test]
fn test_clear_cache() {
    let mut cache = PromptCache::new(1000);
    cache.cache_block(CacheBlockType::SystemPrompt, "Test", 100);
    cache.cache_block(CacheBlockType::Memory, "Test", 100);

    cache.clear();

    let stats = cache.stats();
    assert_eq!(stats.total_blocks, 0);
    assert_eq!(stats.total_tokens, 0);
}

#[test]
fn test_multiple_gets_increment_hit_count() {
    let mut cache = PromptCache::new(1000);
    let id = cache.cache_block(CacheBlockType::SystemPrompt, "Test", 100);

    cache.get(&id);
    cache.get(&id);
    cache.get(&id);

    let block = cache.get(&id).unwrap();
    assert_eq!(block.hit_count, 4);
}

#[test]
fn cache_figures_by_type() {
    let mut cache = PromptCache::new(1000);
    cache.cache_block(CacheBlockType::Memory, "a", 30);
    cache.cache_block(CacheBlockType::SystemPrompt, "b", 10);
    cache.cache_block(CacheBlockType::Memory, "c", 5);
    let stats = cache.stats();
    assert_eq!(stats.total_blocks, 3);
    assert_eq!(stats.total_tokens, 45);
    assert_eq!(stats.max_tokens, 1000);
    assert_eq!(stats.remaining, 955);
    assert_eq!(stats.by_type, vec![("SystemPrompt".to_string(), 10), ("Memory".to_string(), 35)]);
    assert_eq!(stats.total_hits, 0);
}

#[test]
fn test_load_default_skin() {
    let skin = load_skin("default", None);
    assert_eq!(skin.name, "default");
}

#[test]
fn test_load_ares_skin() {
    let skin = load_skin("ares", None);
    assert_eq!(skin.name, "ares");
}

#[test]
fn test_skin_fallback() {
    let skin = load_skin("nonexistent", None);
    assert_eq!(skin.name, "default");
}

#[test]
fn user_skin_comes_first() {
    let mut mine = skin_or_default("mono");
    mine.name = "ares".to_string();
    mine.description = "mine".to_string();
    let skin = load_skin("ares", Some(mine));
    assert_eq!(skin.description, "mine");
}

#[test]
fn paths_stay_in_working_directory() {
    assert_eq!(join_paths("/w", "a/b"), "/w/a/b");
    assert_eq!(join_paths("/w", "/etc"), "/etc");
    assert_eq!(validate_path_within_cwd("new/../x.txt", "/w", None, "/w"), Ok("/w/x.txt".to_string()));
    assert_eq!(validate_path_within_cwd("/../../x", "/w", None, "/w"), Err(
        "Path '/../../x' resolves to '/x' which is outside the current directory. Directory traversal is not allowed."
            .to_string()
    ));
    assert_eq!(validate_path_within_cwd("f", "/w", Some("/w/f"), "/w"), Ok("/w/f".to_string()));
    assert!(validate_path_within_cwd("../ab/f", "/tmp/a", None, "/tmp/a").is_err());
    assert!(validate_path_within_cwd("../../../etc", "/tmp/a", None, "/tmp/a").is_err());
    assert_eq!(validate_path_within_cwd(".", "/tmp/a", None, "/tmp/a"), Ok("/tmp/a".to_string()));
    assert_eq!(validate_path("src/a.rs", "/w", None, "/w"), Ok("/w/src/a.rs".to_string()));
    assert_eq!(validate_path("a", "/w", Some("/wx/a"), "/w"), Err("Access denied: path 'a' is outside the current directory".to_string()));
}

#[test]
fn test_build_cached_message() {
    let cache = PromptCache::new(1000);
    let msg = cache.build_cached_message(CacheBlockType::SystemPrompt);
    let value: serde_json::Value = serde_json::from_str(&msg).unwrap();
    assert!(value.is_array() || value.is_object());
}

#[test]
fn cached_message_names_ephemeral_control() {
    let mut cache = PromptCache::new(1000);
    assert_eq!(cache.build_cached_message(CacheBlockType::Memory), "[]");
    cache.cache_block(CacheBlockType::Memory, "remember this", 10);
    let msg = cache.build_cached_message(CacheBlockType::Memory);
    let value: serde_json::Value = serde_json::from_str(&msg).unwrap();
    assert_eq!(value[0]["type"], "cache_control");
    assert_eq!(value[0]["control"]["type"], "ephemeral");
    assert_eq!(cache.build_cached_message(CacheBlockType::Tools), "[]");
}

#[test]
fn project_root_is_the_nearest_marked_ancestor() {
    let present = |p: &str| p == "/home/u/proj/Cargo.toml" || p == "/home/.git";
    assert_eq!(find_project_root("/home/u/proj/src/bin", present), Some("/home/u/proj".to_string()));
    assert_eq!(find_project_root("/home/u", present), Some("/home".to_string()));
    assert_eq!(find_project_root("/srv/data", present), None);
    assert_eq!(find_project_root("/srv", |p: &str| p == "/.project-root"), Some("/".to_string()));
}

#[test]
fn extracted_block_is_context_files() {
    let mut cache = PromptCache::new(1000);
    let (s, ids) = cache.extract_and_cache("Some content <!-- cache --> cached content");
    assert_eq!(s, "Some content <!-- cache -->");
    assert_eq!(ids.len(), 1);
    let block = cache.get(&ids[0]).unwrap();
    assert_eq!(block.block_type, CacheBlockType::ContextFiles);
    assert_eq!(block.content, "cached content");
    assert_eq!(block.tokens, 3);
}
