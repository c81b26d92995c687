use code_buddy::skills_hub::{
    check_resolved, extract_frontmatter, format_hub_catalog, hub_skill_url, internal_ip, parse_frontmatter,
    skill_name_from_url, validate_url, CatalogEntry, InstalledSkill, IpAddress, SkillMetadata, SkillsHub,
};

fn skill(name: &str, description: &str, metadata: Option<&str>) -> InstalledSkill {
    InstalledSkill {
        path: format!("/skills/{}/SKILL.md", name),
        metadata: SkillMetadata {
            name: name.to_string(),
            description: description.to_string(),
            version: None,
            license: None,
            platforms: None,
            prerequisites: None,
            compatibility: None,
            metadata: metadata.map(|m| m.to_string()),
        },
        content: format!("body of {}", name),
        installed_at: "t".to_string(),
    }
}

#[test]
fn test_frontmatter_extraction() {
    let content = r#"---
name: test-skill
description: A test skill
---

# Test Skill

Some content here.
"#;
    let (fm, body) = extract_frontmatter(content);
    assert!(!fm.is_empty());
    assert!(body.contains("Test Skill"));
}

#[test]
fn test_parse_frontmatter() {
    let fm = r#"---
name: test-skill
description: A test skill
version: 1.0.0
---"#;
    let meta = parse_frontmatter(fm).unwrap();
    assert_eq!(meta.name, "test-skill");
    assert_eq!(meta.description, "A test skill");
    assert_eq!(meta.version, Some("1.0.0".to_string()));
}

#[test]
fn frontmatter_exactly() {
    let (fm, body) = extract_frontmatter("---\nname: x\n---\n\n  text  \n");
    assert_eq!(fm, "\nname: x\n---");
    assert_eq!(body, "text");
    let (fm, body) = extract_frontmatter("no front matter");
    assert_eq!(fm, "");
    assert_eq!(body, "no front matter");
    let (fm, body) = extract_frontmatter("---unclosed");
    assert_eq!(fm, "");
    assert_eq!(body, "---unclosed");
    let meta = parse_frontmatter("---\nplatforms: [\"linux\", macos]\nlicense: MIT\n").unwrap();
    assert_eq!(meta.name, "unknown");
    assert_eq!(meta.platforms, Some(vec!["[\"linux".to_string(), "macos".to_string()]));
    assert_eq!(meta.license, Some("MIT".to_string()));
    let meta = parse_frontmatter("---\nplatforms:[a, \"b\"]\n").unwrap();
    assert_eq!(meta.platforms, Some(vec!["a".to_string(), "b".to_string()]));
    assert_eq!(parse_frontmatter("").unwrap().name, "unknown");
}

#[test]
fn hub_registry() {
    let mut hub = SkillsHub::new("/skills");
    hub.register(skill("git", "Git helpers", Some("{\"hermes\":{\"category\":\"dev\"}}")));
    hub.register(skill("docs", "Write DOCS", None));
    hub.register(skill("lint", "Lint code", Some("{\"hermes\":{\"category\":\"dev\"}}")));
    hub.register(skill("git", "Git tools", Some("{\"hermes\":{\"category\":\"dev\"}}")));
    assert_eq!(hub.list().len(), 3);
    assert_eq!(hub.get("git").unwrap().metadata.description, "Git tools");
    assert_eq!(hub.get_content("docs"), Some("body of docs".to_string()));
    assert!(hub.get("nope").is_none());
    let found: Vec<&str> = hub.search("DOC").iter().map(|s| s.metadata.name.as_str()).collect();
    assert_eq!(found, vec!["docs"]);
    assert_eq!(
        hub.format_list(),
        "# Available Skills\n\n## dev\n\n- **git** - Git tools\n- **lint** - Lint code\n\n## general\n\n- **docs** - Write DOCS\n\n"
    );
    let removed = hub.uninstall("lint").unwrap();
    assert_eq!(removed.path, "/skills/lint/SKILL.md");
    assert!(hub.uninstall("lint").is_none());
    assert_eq!(hub.list().len(), 2);
}

#[test]
fn hub_addresses() {
    assert_eq!(skill_name_from_url("https://x.io/a/b/review.md"), "review");
    assert_eq!(skill_name_from_url("plain"), "plain");
    assert_eq!(hub_skill_url("lint"), "https://agentskills.io/skills/lint/SKILL.md");
    assert_eq!(validate_url("https://example.com/x"), Ok(Some("example.com:80".to_string())));
    assert_eq!(validate_url("http://example.com:8080/x"), Ok(Some("example.com:8080".to_string())));
    assert_eq!(
        validate_url("ftp://example.com/x"),
        Err("URL scheme 'ftp' is not allowed (only https/http permitted)".to_string())
    );
    assert!(validate_url("not a url").is_err());
    assert!(internal_ip(&IpAddress::V4(192, 168, 1, 1)));
    assert!(internal_ip(&IpAddress::V4(172, 20, 0, 1)));
    assert!(!internal_ip(&IpAddress::V4(172, 32, 0, 1)));
    assert!(internal_ip(&IpAddress::V6([0, 0, 0, 0, 0, 0, 0, 1])));
    assert!(!internal_ip(&IpAddress::V6([0x2001, 0xdb8, 0, 0, 0, 0, 0, 1])));
    assert_eq!(
        check_resolved("h", &[(IpAddress::V4(8, 8, 8, 8), "8.8.8.8".to_string()), (IpAddress::V4(127, 0, 0, 1), "127.0.0.1".to_string())]),
        Err("URL host 'h' resolves to internal IP range (127.0.0.1), which is not permitted".to_string())
    );
    assert_eq!(check_resolved("h", &[(IpAddress::V4(8, 8, 8, 8), "8.8.8.8".to_string())]), Ok(()));
}

#[test]
fn hub_catalog() {
    let entries = vec![
        CatalogEntry { name: Some("a".to_string()), description: Some("d".to_string()), category: None, downloads: Some(5) },
        CatalogEntry { name: None, description: None, category: Some("c".to_string()), downloads: None },
    ];
    assert_eq!(
        format_hub_catalog(&entries),
        "# Skills Hub - Available Skills\n\nBrowse and install skills from [agentskills.io](https://agentskills.io)\n\n- **a** (general) - d [5 downloads]\n- **unknown** (c) -  [0 downloads]\n\nInstall with: `/skills install <name>`\n"
    );
    let many: Vec<CatalogEntry> =
        (0..60).map(|i| CatalogEntry { name: Some(i.to_string()), description: None, category: None, downloads: None }).collect();
    assert_eq!(format_hub_catalog(&many).matches("- **").count(), 50);
}
