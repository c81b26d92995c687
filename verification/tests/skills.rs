use code_buddy::skills::{builtin_skills, format_skills_list, parse_skill_from_md, Skill, SkillCategory, SkillsManager};

#[test]
fn test_builtin_skills() {
    let skills = builtin_skills();
    assert!(!skills.is_empty());
    assert!(skills.iter().any(|s| s.id == "simplify"));
    assert!(skills.iter().any(|s| s.id == "review"));
    assert!(skills.iter().any(|s| s.id == "tdd"));
}

#[test]
fn test_skills_manager() {
    let manager = SkillsManager::new();
    assert!(manager.get("simplify").is_some());
    assert!(manager.search("debug").len() > 0);
    assert_eq!(manager.get_by_category(&SkillCategory::Code).len(), 2);
}

#[test]
fn test_skill_toggle() {
    let mut manager = SkillsManager::new();
    assert!(manager.set_enabled("simplify", false));
    assert!(!manager.get("simplify").unwrap().enabled);
    assert!(manager.set_enabled("simplify", true));
}

#[test]
fn toggled_skill_is_not_enabled_and_unknown_is_refused() {
    let mut manager = SkillsManager::new();
    let before = manager.get_enabled().len();
    assert!(manager.set_enabled("Debug", false));
    assert_eq!(manager.get_enabled().len(), before - 1);
    assert!(!manager.set_enabled("nope", false));
}

#[test]
fn search_is_case_insensitive() {
    let manager = SkillsManager::new();
    let hits: Vec<String> = manager.search("SECURITY").iter().map(|s| s.id.clone()).collect();
    assert!(hits.contains(&"security".to_string()));
}

#[test]
fn skill_from_markdown() {
    let s = parse_skill_from_md("deploy", "# Deploy\n\nShips the\nbuild.\n\n## Steps\n1. go");
    assert_eq!(s.id, "deploy");
    assert_eq!(s.description, "Ships the build.");
    assert_eq!(s.category, SkillCategory::Custom);
    assert!(s.enabled);
}

#[test]
fn skills_listing_groups_by_first_category() {
    let a = Skill::new("a", "A", "first", SkillCategory::Test);
    let b = Skill::new("b", "B", "second", SkillCategory::Code);
    let c = Skill::new("c", "C", "third", SkillCategory::Test);
    let md = format_skills_list(&[&a, &b, &c]);
    assert_eq!(
        md,
        "# Available Skills\n\n## Testing\n\n- `/A` - first\n- `/C` - third\n\n## Code Quality\n\n- `/B` - second\n\n"
    );
}
