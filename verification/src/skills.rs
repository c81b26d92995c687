//! Skills: modular capabilities invoked by slash commands, the built-in
//! set, and a manager that finds, filters and toggles them.

use vstd::prelude::*;
use crate::text::{
    contains_seq, first_index, join, lemma_first_index, lines, lines_of, lowercase_of, owned, push_str,
    starts_with, str_contains, str_eq, str_starts_with, to_lowercase, trim, trim_str, views,
};

verus! {

/// Category of a skill.
#[derive(Clone, Copy, Debug, PartialEq, Eq, Structural)]
pub enum SkillCategory {
    Workflow,
    Code,
    Debug,
    Test,
    Security,
    DevOps,
    Database,
    Documentation,
    Custom,
}

/// Lower-case name of a category.
pub open spec fn category_name(c: SkillCategory) -> Seq<char> {
    match c {
        SkillCategory::Workflow => "workflow"@,
        SkillCategory::Code => "code"@,
        SkillCategory::Debug => "debug"@,
        SkillCategory::Test => "test"@,
        SkillCategory::Security => "security"@,
        SkillCategory::DevOps => "devops"@,
        SkillCategory::Database => "database"@,
        SkillCategory::Documentation => "documentation"@,
        SkillCategory::Custom => "custom"@,
    }
}

/// Heading of a category in a skills listing.
pub open spec fn category_label(c: SkillCategory) -> Seq<char> {
    match c {
        SkillCategory::Workflow => "Workflow"@,
        SkillCategory::Code => "Code Quality"@,
        SkillCategory::Debug => "Debugging"@,
        SkillCategory::Test => "Testing"@,
        SkillCategory::Security => "Security"@,
        SkillCategory::DevOps => "DevOps"@,
        SkillCategory::Database => "Database"@,
        SkillCategory::Documentation => "Documentation"@,
        SkillCategory::Custom => "Custom"@,
    }
}

impl SkillCategory {
    /// Lower-case name of the category.
    pub fn as_str(&self) -> (r: &'static str)
        ensures
            r@ == category_name(*self),
    {
        match self {
            SkillCategory::Workflow => "workflow",
            SkillCategory::Code => "code",
            SkillCategory::Debug => "debug",
            SkillCategory::Test => "test",
            SkillCategory::Security => "security",
            SkillCategory::DevOps => "devops",
            SkillCategory::Database => "database",
            SkillCategory::Documentation => "documentation",
            SkillCategory::Custom => "custom",
        }
    }

    /// Heading of the category in a skills listing.
    pub fn label(&self) -> (r: &'static str)
        ensures
            r@ == category_label(*self),
    {
        match self {
            SkillCategory::Workflow => "Workflow",
            SkillCategory::Code => "Code Quality",
            SkillCategory::Debug => "Debugging",
            SkillCategory::Test => "Testing",
            SkillCategory::Security => "Security",
            SkillCategory::DevOps => "DevOps",
            SkillCategory::Database => "Database",
            SkillCategory::Documentation => "Documentation",
            SkillCategory::Custom => "Custom",
        }
    }
}

/// A skill.
pub struct Skill {
    pub id: String,
    pub name: String,
    pub description: String,
    pub category: SkillCategory,
    pub instructions: String,
    pub tools: Vec<String>,
    pub enabled: bool,
}

/// Views of a list of string slices.
pub open spec fn str_views(v: Seq<&str>) -> Seq<Seq<char>> {
    v.map_values(|s: &str| s@)
}

impl Clone for Skill {
    fn clone(&self) -> (r: Self)
        ensures
            r.id == self.id && r.name == self.name && r.description == self.description,
            r.category == self.category && r.instructions == self.instructions,
            r.tools@ == self.tools@ && r.enabled == self.enabled,
    {
        Skill {
            id: self.id.clone(),
            name: self.name.clone(),
            description: self.description.clone(),
            category: self.category,
            instructions: self.instructions.clone(),
            tools: crate::text::clone_strings(self.tools.as_slice()),
            enabled: self.enabled,
        }
    }
}

impl Skill {
    /// An enabled skill with no instructions and no tools.
    pub fn new(id: &str, name: &str, description: &str, category: SkillCategory) -> (r: Self)
        ensures
            r.id@ == id@ && r.name@ == name@ && r.description@ == description@,
            r.category == category,
            r.instructions@ == Seq::<char>::empty(),
            r.tools@.len() == 0,
            r.enabled,
    {
        Skill {
            id: owned(id),
            name: owned(name),
            description: owned(description),
            category,
            instructions: String::new(),
            tools: Vec::new(),
            enabled: true,
        }
    }

    /// The skill with these instructions.
    pub fn with_instructions(self, instructions: &str) -> (r: Self)
        ensures
            r.instructions@ == instructions@,
            r.id == self.id && r.name == self.name && r.description == self.description,
            r.category == self.category && r.tools == self.tools && r.enabled == self.enabled,
    {
        let mut s = self;
        s.instructions = owned(instructions);
        s
    }

    /// The skill with these tools.
    pub fn with_tools(self, tools: Vec<&str>) -> (r: Self)
        ensures
            crate::text::views(r.tools@) == str_views(tools@),
            r.id == self.id && r.name == self.name && r.description == self.description,
            r.category == self.category && r.instructions == self.instructions,
            r.enabled == self.enabled,
    {
        let mut s = self;
        let mut v: Vec<String> = Vec::new();
        let mut i: usize = 0;
        while i < tools.len()
            invariant
                i <= tools@.len(),
                crate::text::views(v@) == str_views(tools@).subrange(0, i as int),
            decreases tools.len() - i,
        {
            let ghost before = v@;
            v.push(owned(tools[i]));
            assert(crate::text::views(v@) =~= crate::text::views(before).push(tools@[i as int]@));
            i = i + 1;
        }
        assert(str_views(tools@).subrange(0, tools@.len() as int) =~= str_views(tools@));
        s.tools = v;
        s
    }
}

/// Ids of the built-in skills, in order; each skill's name is its id
/// capitalised.
pub open spec fn builtin_ids() -> Seq<Seq<char>> {
    seq![
        "simplify"@, "review"@, "tdd"@, "debug"@, "batch"@, "security"@, "devops"@, "database"@, "docs"@, "remember"@, "loop"@, "verify"@, "schedule"@,
    ]
}

/// Names of the built-in skills, in order.
pub open spec fn builtin_names() -> Seq<Seq<char>> {
    seq![
        "Simplify"@, "Review"@, "TDD"@, "Debug"@, "Batch"@, "Security"@, "DevOps"@, "Database"@, "Docs"@, "Remember"@, "Loop"@, "Verify"@, "Schedule"@,
    ]
}

/// Descriptions of the built-in skills, in order.
pub open spec fn builtin_descriptions() -> Seq<Seq<char>> {
    seq![
        "Review code for quality, reuse, and efficiency"@,
        "Full code review with comprehensive checklist"@,
        "Test-driven development workflow"@,
        "Systematic debugging assistance"@,
        "Execute parallel tasks across codebase"@,
        "Security analysis and hardening"@,
        "CI/CD and deployment assistance"@,
        "Database design and query assistance"@,
        "Documentation generation and improvement"@,
        "Save information to memory for later recall"@,
        "Run a command or task on a recurring interval"@,
        "Verify code correctness and test coverage"@,
        "Schedule agents to run at specific times"@,
    ]
}

/// Categories of the built-in skills, in order.
pub open spec fn builtin_categories() -> Seq<SkillCategory> {
    seq![
        SkillCategory::Code, SkillCategory::Code, SkillCategory::Test, SkillCategory::Debug, SkillCategory::Workflow, SkillCategory::Security, SkillCategory::DevOps, SkillCategory::Database, SkillCategory::Documentation, SkillCategory::Workflow, SkillCategory::Workflow, SkillCategory::Test, SkillCategory::Workflow,
    ]
}

/// Tools of the built-in skills, in order.
pub open spec fn builtin_tools() -> Seq<Seq<Seq<char>>> {
    seq![
        seq!["Read"@, "Grep"@, "Glob"@],
        seq!["Read"@, "Bash"@, "Grep"@],
        seq!["Read"@, "Write"@, "Bash"@],
        seq!["Read"@, "Bash"@, "Grep"@],
        seq!["Read"@, "Write"@, "Edit"@, "Bash"@],
        seq!["Read"@, "Grep"@, "Bash"@],
        seq!["Read"@, "Write"@, "Bash"@, "Glob"@],
        seq!["Read"@, "Write"@, "Bash"@],
        seq!["Read"@, "Write"@, "Glob"@],
        seq!["Read"@, "Write"@],
        seq!["Bash"@, "Read"@],
        seq!["Bash"@, "Read"@, "Glob"@],
        seq!["Bash"@, "Read"@],
    ]
}

/// `s` is built-in skill number `i`.
pub open spec fn is_builtin(s: Skill, i: int) -> bool {
    &&& s.id@ == builtin_ids()[i]
    &&& s.name@ == builtin_names()[i]
    &&& s.description@ == builtin_descriptions()[i]
    &&& s.category == builtin_categories()[i]
    &&& crate::text::views(s.tools@) == builtin_tools()[i]
    &&& s.instructions@.len() > 0
    &&& s.enabled
}

fn builtin_simplify() -> (s: Skill)
    ensures
        is_builtin(s, 0),
{
    let instructions = r#"# /simplify - Code Quality Review

Review code for:
1. **Code Reuse** - Identify duplicated patterns that could be refactored
2. **Quality Issues** - Find potential bugs, anti-patterns, and code smells
3. **Efficiency** - Suggest performance improvements

## How to Use
/simplify             - Review all changed files
/simplify <file>     - Review specific file
/simplify <dir>      - Review directory"#;
    proof {
        reveal_strlit(r#"# /simplify - Code Quality Review

Review code for:
1. **Code Reuse** - Identify duplicated patterns that could be refactored
2. **Quality Issues** - Find potential bugs, anti-patterns, and code smells
3. **Efficiency** - Suggest performance improvements

## How to Use
/simplify             - Review all changed files
/simplify <file>     - Review specific file
/simplify <dir>      - Review directory"#);
    }
    let tools = vec!["Read", "Grep", "Glob"];
    proof {
        assert(str_views(tools@) =~= seq!["Read"@, "Grep"@, "Glob"@]);
    }
    Skill::new("simplify", "Simplify", "Review code for quality, reuse, and efficiency", SkillCategory::Code).with_instructions(
        instructions,
    ).with_tools(tools)
}

fn builtin_review() -> (s: Skill)
    ensures
        is_builtin(s, 1),
{
    let instructions = r#"# /review - Full Code Review

## Review Checklist
- [ ] Correctness - Does the code work as intended?
- [ ] Security - Any security vulnerabilities?
- [ ] Performance - Any bottlenecks?
- [ ] Maintainability - Is the code easy to understand?
- [ ] Testing - Adequate test coverage?
- [ ] Documentation - Is the code documented?
- [ ] Error Handling - Are errors handled properly?
- [ ] Edge Cases - Are boundary conditions handled?

## Usage
/review changes     - Review git changes
/review all         - Full codebase review
/review <file>      - Review specific file"#;
    proof {
        reveal_strlit(r#"# /review - Full Code Review

## Review Checklist
- [ ] Correctness - Does the code work as intended?
- [ ] Security - Any security vulnerabilities?
- [ ] Performance - Any bottlenecks?
- [ ] Maintainability - Is the code easy to understand?
- [ ] Testing - Adequate test coverage?
- [ ] Documentation - Is the code documented?
- [ ] Error Handling - Are errors handled properly?
- [ ] Edge Cases - Are boundary conditions handled?

## Usage
/review changes     - Review git changes
/review all         - Full codebase review
/review <file>      - Review specific file"#);
    }
    let tools = vec!["Read", "Bash", "Grep"];
    proof {
        assert(str_views(tools@) =~= seq!["Read"@, "Bash"@, "Grep"@]);
    }
    Skill::new("review", "Review", "Full code review with comprehensive checklist", SkillCategory::Code).with_instructions(
        instructions,
    ).with_tools(tools)
}

fn builtin_tdd() -> (s: Skill)
    ensures
        is_builtin(s, 2),
{
    let instructions = r#"# /tdd - Test-Driven Development

Follow the TDD cycle:
1. **Red** - Write a failing test
2. **Green** - Write minimal code to pass
3. **Refactor** - Improve code while keeping tests passing

## Workflow
1. Write failing test: /tdd red <test description>
2. Make it pass: /tdd green
3. Refactor: /tdd refactor

## Example
```
/tdd red "should add two numbers"
# Write: fn test_add_two_numbers() { assert_eq!(add(2, 2), 4); }
/tdd green
# Write: fn add(a: i32, b: i32) -> i32 { a + b }
/tdd refactor
# Improve: Add documentation, handle edge cases
```"#;
    proof {
        reveal_strlit(r#"# /tdd - Test-Driven Development

Follow the TDD cycle:
1. **Red** - Write a failing test
2. **Green** - Write minimal code to pass
3. **Refactor** - Improve code while keeping tests passing

## Workflow
1. Write failing test: /tdd red <test description>
2. Make it pass: /tdd green
3. Refactor: /tdd refactor

## Example
```
/tdd red "should add two numbers"
# Write: fn test_add_two_numbers() { assert_eq!(add(2, 2), 4); }
/tdd green
# Write: fn add(a: i32, b: i32) -> i32 { a + b }
/tdd refactor
# Improve: Add documentation, handle edge cases
```"#);
    }
    let tools = vec!["Read", "Write", "Bash"];
    proof {
        assert(str_views(tools@) =~= seq!["Read"@, "Write"@, "Bash"@]);
    }
    Skill::new("tdd", "TDD", "Test-driven development workflow", SkillCategory::Test).with_instructions(
        instructions,
    ).with_tools(tools)
}

fn builtin_debug() -> (s: Skill)
    ensures
        is_builtin(s, 3),
{
    let instructions = r#"# /debug - Debug Assistant

## Debugging Process
1. **Understand** - What's the expected behavior?
2. **Reproduce** - Can you reproduce the bug consistently?
3. **Hypothesize** - What's causing the bug?
4. **Test** - Verify your hypothesis
5. **Fix** - Implement the fix
6. **Verify** - Ensure the bug is fixed

## Commands
/debug analyze <error>     - Analyze error message
/debug trace <function>    - Add tracing to function
/debug test <scenario>     - Write test for bug scenario"#;
    proof {
        reveal_strlit(r#"# /debug - Debug Assistant

## Debugging Process
1. **Understand** - What's the expected behavior?
2. **Reproduce** - Can you reproduce the bug consistently?
3. **Hypothesize** - What's causing the bug?
4. **Test** - Verify your hypothesis
5. **Fix** - Implement the fix
6. **Verify** - Ensure the bug is fixed

## Commands
/debug analyze <error>     - Analyze error message
/debug trace <function>    - Add tracing to function
/debug test <scenario>     - Write test for bug scenario"#);
    }
    let tools = vec!["Read", "Bash", "Grep"];
    proof {
        assert(str_views(tools@) =~= seq!["Read"@, "Bash"@, "Grep"@]);
    }
    Skill::new("debug", "Debug", "Systematic debugging assistance", SkillCategory::Debug).with_instructions(
        instructions,
    ).with_tools(tools)
}

fn builtin_batch() -> (s: Skill)
    ensures
        is_builtin(s, 4),
{
    let instructions = r#"# /batch - Batch Operations

Execute operations across multiple files or components.

## Usage
/batch refactor <pattern> <replacement>
  - Refactor all matching patterns

/batch test <pattern>
  - Run tests matching pattern

/batch update <files>
  - Update multiple files

## Example
/batch refactor "console.log" "logger.info"
  - Replace all console.log with logger.info"#;
    proof {
        reveal_strlit(r#"# /batch - Batch Operations

Execute operations across multiple files or components.

## Usage
/batch refactor <pattern> <replacement>
  - Refactor all matching patterns

/batch test <pattern>
  - Run tests matching pattern

/batch update <files>
  - Update multiple files

## Example
/batch refactor "console.log" "logger.info"
  - Replace all console.log with logger.info"#);
    }
    let tools = vec!["Read", "Write", "Edit", "Bash"];
    proof {
        assert(str_views(tools@) =~= seq!["Read"@, "Write"@, "Edit"@, "Bash"@]);
    }
    Skill::new("batch", "Batch", "Execute parallel tasks across codebase", SkillCategory::Workflow).with_instructions(
        instructions,
    ).with_tools(tools)
}

fn builtin_security() -> (s: Skill)
    ensures
        is_builtin(s, 5),
{
    let instructions = r#"# /security - Security Analysis

## Security Checklist
- [ ] SQL Injection - Are queries parameterized?
- [ ] XSS - Is user input sanitized?
- [ ] Authentication - Is auth properly implemented?
- [ ] Authorization - Are permissions checked?
- [ ] Secrets - Are secrets in environment/config?
- [ ] Dependencies - Are there known vulnerabilities?

## Commands
/security scan        - Scan for common vulnerabilities
/security audit       - Full security audit
/security fix <type>  - Fix specific vulnerability type"#;
    proof {
        reveal_strlit(r#"# /security - Security Analysis

## Security Checklist
- [ ] SQL Injection - Are queries parameterized?
- [ ] XSS - Is user input sanitized?
- [ ] Authentication - Is auth properly implemented?
- [ ] Authorization - Are permissions checked?
- [ ] Secrets - Are secrets in environment/config?
- [ ] Dependencies - Are there known vulnerabilities?

## Commands
/security scan        - Scan for common vulnerabilities
/security audit       - Full security audit
/security fix <type>  - Fix specific vulnerability type"#);
    }
    let tools = vec!["Read", "Grep", "Bash"];
    proof {
        assert(str_views(tools@) =~= seq!["Read"@, "Grep"@, "Bash"@]);
    }
    Skill::new("security", "Security", "Security analysis and hardening", SkillCategory::Security).with_instructions(
        instructions,
    ).with_tools(tools)
}

fn builtin_devops() -> (s: Skill)
    ensures
        is_builtin(s, 6),
{
    let instructions = r#"# /devops - DevOps Helper

## Capabilities
- Docker configuration
- CI/CD pipeline setup
- Kubernetes manifests
- Monitoring and logging
- Deployment strategies

## Commands
/devops docker <action>  - Docker operations
/devops ci <action>      - CI/CD setup
/devops k8s <action>     - Kubernetes operations
/devops deploy <target>   - Deploy to target"#;
    proof {
        reveal_strlit(r#"# /devops - DevOps Helper

## Capabilities
- Docker configuration
- CI/CD pipeline setup
- Kubernetes manifests
- Monitoring and logging
- Deployment strategies

## Commands
/devops docker <action>  - Docker operations
/devops ci <action>      - CI/CD setup
/devops k8s <action>     - Kubernetes operations
/devops deploy <target>   - Deploy to target"#);
    }
    let tools = vec!["Read", "Write", "Bash", "Glob"];
    proof {
        assert(str_views(tools@) =~= seq!["Read"@, "Write"@, "Bash"@, "Glob"@]);
    }
    Skill::new("devops", "DevOps", "CI/CD and deployment assistance", SkillCategory::DevOps).with_instructions(
        instructions,
    ).with_tools(tools)
}

fn builtin_database() -> (s: Skill)
    ensures
        is_builtin(s, 7),
{
    let instructions = r#"# /database - Database Helper

## Capabilities
- Schema design
- Query optimization
- Migration scripts
- ORM configuration

## Commands
/database design <spec>   - Design schema
/database migrate <old> <new>  - Generate migration
/database optimize <query> - Optimize query
/database seed <schema>   - Generate seed data"#;
    proof {
        reveal_strlit(r#"# /database - Database Helper

## Capabilities
- Schema design
- Query optimization
- Migration scripts
- ORM configuration

## Commands
/database design <spec>   - Design schema
/database migrate <old> <new>  - Generate migration
/database optimize <query> - Optimize query
/database seed <schema>   - Generate seed data"#);
    }
    let tools = vec!["Read", "Write", "Bash"];
    proof {
        assert(str_views(tools@) =~= seq!["Read"@, "Write"@, "Bash"@]);
    }
    Skill::new("database", "Database", "Database design and query assistance", SkillCategory::Database).with_instructions(
        instructions,
    ).with_tools(tools)
}

fn builtin_docs() -> (s: Skill)
    ensures
        is_builtin(s, 8),
{
    let instructions = r#"# /docs - Documentation Helper

## Capabilities
- API documentation
- README files
- Code comments
- Change logs

## Commands
/docs api <file>      - Generate API docs
/docs readme <project> - Generate README
/docs changelog       - Generate changelog
/docs comments        - Improve code comments"#;
    proof {
        reveal_strlit(r#"# /docs - Documentation Helper

## Capabilities
- API documentation
- README files
- Code comments
- Change logs

## Commands
/docs api <file>      - Generate API docs
/docs readme <project> - Generate README
/docs changelog       - Generate changelog
/docs comments        - Improve code comments"#);
    }
    let tools = vec!["Read", "Write", "Glob"];
    proof {
        assert(str_views(tools@) =~= seq!["Read"@, "Write"@, "Glob"@]);
    }
    Skill::new("docs", "Docs", "Documentation generation and improvement", SkillCategory::Documentation).with_instructions(
        instructions,
    ).with_tools(tools)
}

fn builtin_remember() -> (s: Skill)
    ensures
        is_builtin(s, 9),
{
    let instructions = r#"# /remember - Persistent Memory

Save information to memory that persists across sessions.

## Usage
/remember <text>         - Save text to memory
/remember list            - List all memories
/remember search <query>  - Search memories
/remember delete <id>     - Delete a memory

## Examples
/remember API endpoint is https://api.example.com
/remember Project uses PostgreSQL 15
/remember list

## Notes
- Memories persist across sessions
- Search by keyword to find related information
- Use clear names for easy recall"#;
    proof {
        reveal_strlit(r#"# /remember - Persistent Memory

Save information to memory that persists across sessions.

## Usage
/remember <text>         - Save text to memory
/remember list            - List all memories
/remember search <query>  - Search memories
/remember delete <id>     - Delete a memory

## Examples
/remember API endpoint is https://api.example.com
/remember Project uses PostgreSQL 15
/remember list

## Notes
- Memories persist across sessions
- Search by keyword to find related information
- Use clear names for easy recall"#);
    }
    let tools = vec!["Read", "Write"];
    proof {
        assert(str_views(tools@) =~= seq!["Read"@, "Write"@]);
    }
    Skill::new("remember", "Remember", "Save information to memory for later recall", SkillCategory::Workflow).with_instructions(
        instructions,
    ).with_tools(tools)
}

fn builtin_loop() -> (s: Skill)
    ensures
        is_builtin(s, 10),
{
    let instructions = r#"# /loop - Recurring Task Loop

Run a task or command on a recurring interval.

## Usage
/loop <interval> <command>  - Run command every interval
/loop status               - Show running loops
/loop stop <id>           - Stop a loop

## Intervals
- 5m, 10m, 30m - Minutes
- 1h, 2h, 6h   - Hours
- daily         - Once per day

## Examples
/loop 5m /status           - Check status every 5 minutes
/loop 1h /health-check     - Health check every hour
/loop daily /backup         - Daily backup

## Notes
- Loops run in the background
- Use /loop stop to cancel
- Maximum 5 concurrent loops"#;
    proof {
        reveal_strlit(r#"# /loop - Recurring Task Loop

Run a task or command on a recurring interval.

## Usage
/loop <interval> <command>  - Run command every interval
/loop status               - Show running loops
/loop stop <id>           - Stop a loop

## Intervals
- 5m, 10m, 30m - Minutes
- 1h, 2h, 6h   - Hours
- daily         - Once per day

## Examples
/loop 5m /status           - Check status every 5 minutes
/loop 1h /health-check     - Health check every hour
/loop daily /backup         - Daily backup

## Notes
- Loops run in the background
- Use /loop stop to cancel
- Maximum 5 concurrent loops"#);
    }
    let tools = vec!["Bash", "Read"];
    proof {
        assert(str_views(tools@) =~= seq!["Bash"@, "Read"@]);
    }
    Skill::new("loop", "Loop", "Run a command or task on a recurring interval", SkillCategory::Workflow).with_instructions(
        instructions,
    ).with_tools(tools)
}

fn builtin_verify() -> (s: Skill)
    ensures
        is_builtin(s, 11),
{
    let instructions = r#"# /verify - Code Verification

Verify code changes are correct and well-tested.

## Usage
/verify                   - Verify all changes
/verify <file>           - Verify specific file
/verify tests           - Run and verify tests
/verify coverage        - Check test coverage

## Checklist
- [ ] Code compiles without errors
- [ ] Tests pass
- [ ] No regression in existing functionality
- [ ] Code follows style guidelines
- [ ] Documentation updated if needed

## Examples
/verify src/main.rs
/verify tests
/verify coverage"#;
    proof {
        reveal_strlit(r#"# /verify - Code Verification

Verify code changes are correct and well-tested.

## Usage
/verify                   - Verify all changes
/verify <file>           - Verify specific file
/verify tests           - Run and verify tests
/verify coverage        - Check test coverage

## Checklist
- [ ] Code compiles without errors
- [ ] Tests pass
- [ ] No regression in existing functionality
- [ ] Code follows style guidelines
- [ ] Documentation updated if needed

## Examples
/verify src/main.rs
/verify tests
/verify coverage"#);
    }
    let tools = vec!["Bash", "Read", "Glob"];
    proof {
        assert(str_views(tools@) =~= seq!["Bash"@, "Read"@, "Glob"@]);
    }
    Skill::new("verify", "Verify", "Verify code correctness and test coverage", SkillCategory::Test).with_instructions(
        instructions,
    ).with_tools(tools)
}

fn builtin_schedule() -> (s: Skill)
    ensures
        is_builtin(s, 12),
{
    let instructions = r#"# /schedule - Schedule Remote Agents

Schedule agents to execute tasks at specific times.

## Usage
/schedule <time> <task>   - Schedule a task
/schedule list             - List scheduled tasks
/schedule cancel <id>      - Cancel scheduled task

## Examples
/schedule "tomorrow 9am" Run tests
/schedule "every monday" Generate report
/schedule "in 2 hours" Deploy staging

## Notes
- Times are in local timezone
- Tasks run even if you're not present
- Results saved to log file"#;
    proof {
        reveal_strlit(r#"# /schedule - Schedule Remote Agents

Schedule agents to execute tasks at specific times.

## Usage
/schedule <time> <task>   - Schedule a task
/schedule list             - List scheduled tasks
/schedule cancel <id>      - Cancel scheduled task

## Examples
/schedule "tomorrow 9am" Run tests
/schedule "every monday" Generate report
/schedule "in 2 hours" Deploy staging

## Notes
- Times are in local timezone
- Tasks run even if you're not present
- Results saved to log file"#);
    }
    let tools = vec!["Bash", "Read"];
    proof {
        assert(str_views(tools@) =~= seq!["Bash"@, "Read"@]);
    }
    Skill::new("schedule", "Schedule", "Schedule agents to run at specific times", SkillCategory::Workflow).with_instructions(
        instructions,
    ).with_tools(tools)
}

/// The built-in skills.
pub fn builtin_skills() -> (r: Vec<Skill>)
    ensures
        r@.len() == 13,
        forall|i: int| 0 <= i < 13 ==> is_builtin(#[trigger] r@[i], i),
{
    let mut v: Vec<Skill> = Vec::new();
    v.push(builtin_simplify());
    v.push(builtin_review());
    v.push(builtin_tdd());
    v.push(builtin_debug());
    v.push(builtin_batch());
    v.push(builtin_security());
    v.push(builtin_devops());
    v.push(builtin_database());
    v.push(builtin_docs());
    v.push(builtin_remember());
    v.push(builtin_loop());
    v.push(builtin_verify());
    v.push(builtin_schedule());
    v
}


/// The skills manager: the built-in skills and any loaded ones.
pub struct SkillsManager {
    skills: Vec<Skill>,
}

/// Whether a skill answers to `name`, by name or by id.
pub open spec fn answers_to(name: Seq<char>) -> spec_fn(Skill) -> bool {
    |s: Skill| s.name@ == name || s.id@ == name
}

/// The skills of `ss` for which `p` holds, in order.
pub open spec fn skills_where(ss: Seq<Skill>, p: spec_fn(Skill) -> bool) -> Seq<Skill>
    decreases ss.len(),
{
    if ss.len() == 0 {
        Seq::empty()
    } else {
        let rest = skills_where(ss.drop_last(), p);
        if p(ss.last()) {
            rest.push(ss.last())
        } else {
            rest
        }
    }
}

/// Whether a skill is enabled.
pub open spec fn is_enabled() -> spec_fn(Skill) -> bool {
    |s: Skill| s.enabled
}

/// Whether a skill is in category `c`.
pub open spec fn in_category(c: SkillCategory) -> spec_fn(Skill) -> bool {
    |s: Skill| s.category == c
}

/// Whether a skill matches the lower-cased query `q`: in its lower-cased
/// name or description, or in its category's name.
pub open spec fn matches_query(q: Seq<char>) -> spec_fn(Skill) -> bool {
    |s: Skill| contains_seq(lowercase_of(s.name@), q) || contains_seq(lowercase_of(s.description@), q)
        || contains_seq(category_name(s.category), q)
}

/// `r` holds references to the skills of `ss` for which `p` holds, in order.
pub open spec fn refs_where(r: Seq<&Skill>, ss: Seq<Skill>, p: spec_fn(Skill) -> bool) -> bool {
    r.len() == skills_where(ss, p).len() && forall|i: int|
        0 <= i < r.len() ==> *r[i] == #[trigger] skills_where(ss, p)[i]
}

fn collect_where<'a>(ss: &'a Vec<Skill>, p: Ghost<spec_fn(Skill) -> bool>, keep: &Vec<bool>) -> (r: Vec<&'a Skill>)
    requires
        keep@.len() == ss@.len(),
        forall|i: int| 0 <= i < ss@.len() ==> keep@[i] == (p@)(#[trigger] ss@[i]),
    ensures
        refs_where(r@, ss@, p@),
{
    let mut r: Vec<&Skill> = Vec::new();
    let mut i: usize = 0;
    while i < ss.len()
        invariant
            i <= ss@.len(),
            keep@.len() == ss@.len(),
            forall|k: int| 0 <= k < ss@.len() ==> keep@[k] == (p@)(#[trigger] ss@[k]),
            refs_where(r@, ss@.subrange(0, i as int), p@),
        decreases ss.len() - i,
    {
        proof {
            let pre = ss@.subrange(0, i + 1);
            assert(pre.drop_last() =~= ss@.subrange(0, i as int));
            assert(pre.last() == ss@[i as int]);
        }
        if keep[i] {
            r.push(&ss[i]);
        }
        i = i + 1;
    }
    assert(ss@.subrange(0, ss@.len() as int) =~= ss@);
    r
}

impl SkillsManager {
    /// The skills it holds.
    pub closed spec fn skills_spec(&self) -> Seq<Skill> {
        self.skills@
    }

    /// A manager holding the built-in skills.
    pub fn new() -> (r: Self)
        ensures
            r.skills_spec().len() == 13,
            forall|i: int| 0 <= i < 13 ==> is_builtin(#[trigger] r.skills_spec()[i], i),
    {
        SkillsManager { skills: builtin_skills() }
    }

    /// Adds a skill after the others.
    pub fn add(&mut self, skill: Skill)
        ensures
            final(self).skills_spec() == old(self).skills_spec().push(skill),
    {
        self.skills.push(skill);
    }

    /// Every skill, in order.
    pub fn get_all(&self) -> (r: &[Skill])
        ensures
            r@ == self.skills_spec(),
    {
        self.skills.as_slice()
    }

    /// The enabled skills, in order.
    pub fn get_enabled(&self) -> (r: Vec<&Skill>)
        ensures
            refs_where(r@, self.skills_spec(), is_enabled()),
    {
        let mut keep: Vec<bool> = Vec::new();
        let mut i: usize = 0;
        while i < self.skills.len()
            invariant
                i <= self.skills@.len(),
                keep@.len() == i,
                forall|k: int| 0 <= k < i ==> keep@[k] == (is_enabled())(#[trigger] self.skills@[k]),
            decreases self.skills.len() - i,
        {
            keep.push(self.skills[i].enabled);
            i = i + 1;
        }
        collect_where(&self.skills, Ghost(is_enabled()), &keep)
    }

    /// The first skill whose name or id is `name`.
    pub fn get(&self, name: &str) -> (r: Option<&Skill>)
        ensures
            match first_index(self.skills_spec(), answers_to(name@), 0) {
                Some(i) => r == Some(&self.skills_spec()[i]),
                None => r is None,
            },
    {
        let mut i: usize = 0;
        while i < self.skills.len()
            invariant
                i <= self.skills@.len(),
                first_index(self.skills@, answers_to(name@), 0) == first_index(
                    self.skills@,
                    answers_to(name@),
                    i as int,
                ),
            decreases self.skills.len() - i,
        {
            if str_eq(self.skills[i].name.as_str(), name) || str_eq(self.skills[i].id.as_str(), name) {
                return Some(&self.skills[i]);
            }
            i = i + 1;
        }
        None
    }

    /// The skills in `category`, in order.
    pub fn get_by_category(&self, category: &SkillCategory) -> (r: Vec<&Skill>)
        ensures
            refs_where(r@, self.skills_spec(), in_category(*category)),
    {
        let mut keep: Vec<bool> = Vec::new();
        let mut i: usize = 0;
        while i < self.skills.len()
            invariant
                i <= self.skills@.len(),
                keep@.len() == i,
                forall|k: int|
                    0 <= k < i ==> keep@[k] == (in_category(*category))(#[trigger] self.skills@[k]),
            decreases self.skills.len() - i,
        {
            keep.push(self.skills[i].category == *category);
            i = i + 1;
        }
        collect_where(&self.skills, Ghost(in_category(*category)), &keep)
    }

    /// The skills whose lower-cased name or description, or whose category,
    /// contains the lower-cased query, in order.
    pub fn search(&self, query: &str) -> (r: Vec<&Skill>)
        ensures
            refs_where(r@, self.skills_spec(), matches_query(lowercase_of(query@))),
    {
        let q = to_lowercase(query);
        let mut keep: Vec<bool> = Vec::new();
        let mut i: usize = 0;
        while i < self.skills.len()
            invariant
                i <= self.skills@.len(),
                q@ == lowercase_of(query@),
                keep@.len() == i,
                forall|k: int|
                    0 <= k < i ==> keep@[k] == (matches_query(q@))(#[trigger] self.skills@[k]),
            decreases self.skills.len() - i,
        {
            let s = &self.skills[i];
            let n = to_lowercase(s.name.as_str());
            let d = to_lowercase(s.description.as_str());
            let hit = str_contains(n.as_str(), q.as_str()) || str_contains(d.as_str(), q.as_str())
                || str_contains(s.category.as_str(), q.as_str());
            keep.push(hit);
            i = i + 1;
        }
        collect_where(&self.skills, Ghost(matches_query(q@)), &keep)
    }

    /// Enables or disables the first skill whose name or id is `name`;
    /// `false` when there is none.
    pub fn set_enabled(&mut self, name: &str, enabled: bool) -> (r: bool)
        ensures
            match first_index(old(self).skills_spec(), answers_to(name@), 0) {
                Some(i) => {
                    &&& r
                    &&& final(self).skills_spec() == old(self).skills_spec().update(
                        i,
                        Skill { enabled, ..old(self).skills_spec()[i] },
                    )
                },
                None => !r && final(self).skills_spec() == old(self).skills_spec(),
            },
            r == exists|j: int|
                0 <= j < old(self).skills_spec().len() && ((#[trigger] old(self).skills_spec()[j]).name@ == name@
                    || old(self).skills_spec()[j].id@ == name@),
            final(self).skills_spec().len() == old(self).skills_spec().len(),
            r ==> exists|k: int|
                {
                    &&& 0 <= k < old(self).skills_spec().len()
                    &&& answers_to(name@)(#[trigger] old(self).skills_spec()[k])
                    &&& forall|j: int| 0 <= j < k ==> !answers_to(name@)(old(self).skills_spec()[j])
                    &&& final(self).skills_spec()[k].enabled == enabled
                    &&& final(self).skills_spec()[k] == (Skill { enabled, ..old(self).skills_spec()[k] })
                    &&& forall|j: int|
                        0 <= j < old(self).skills_spec().len() && j != k ==> final(self).skills_spec()[j]
                            == old(self).skills_spec()[j]
                },
            !r ==> final(self).skills_spec() == old(self).skills_spec(),
    {
        let mut i: usize = 0;
        while i < self.skills.len()
            invariant
                i <= self.skills@.len(),
                self.skills@ == old(self).skills@,
                first_index(self.skills@, answers_to(name@), 0) == first_index(
                    self.skills@,
                    answers_to(name@),
                    i as int,
                ),
            decreases self.skills.len() - i,
        {
            if str_eq(self.skills[i].name.as_str(), name) || str_eq(self.skills[i].id.as_str(), name) {
                let ghost before = self.skills@;
                let mut sk = self.skills.remove(i);
                sk.enabled = enabled;
                self.skills.insert(i, sk);
                assert(self.skills@ =~= before.update(i as int, Skill { enabled, ..before[i as int] }));
                proof {
                    crate::text::lemma_first_index(before, answers_to(name@), 0);
                    assert(answers_to(name@)(before[i as int]));
                }
                return true;
            }
            i = i + 1;
        }
        proof {
            crate::text::lemma_first_index(self.skills@, answers_to(name@), 0);
            assert forall|j: int| 0 <= j < self.skills@.len() implies !((#[trigger] self.skills@[j]).name@ == name@
                || self.skills@[j].id@ == name@) by {
                assert(!answers_to(name@)(self.skills@[j]));
            }
        }
        false
    }
}

/// Enabling or disabling a skill is what a later lookup by the same name
/// reports.
pub proof fn lemma_toggle_then_get(before: Seq<Skill>, after: Seq<Skill>, name: Seq<char>, enabled: bool, i: int)
    requires
        first_index(before, answers_to(name), 0) == Some(i),
        after == before.update(i, Skill { enabled, ..before[i] }),
    ensures
        first_index(after, answers_to(name), 0) == Some(i),
        after[i].enabled == enabled,
{
    lemma_first_index(before, answers_to(name), 0);
    assert forall|j: int| 0 <= j < i implies !(answers_to(name))(after[j]) by {
        assert(after[j] == before[j]);
        assert(!(answers_to(name))(before[j]));
    }
    lemma_first_index_found(after, answers_to(name), i);
}

/// An index where `p` first holds is what `first_index` finds.
pub proof fn lemma_first_index_found<T>(s: Seq<T>, p: spec_fn(T) -> bool, i: int)
    requires
        0 <= i < s.len(),
        p(s[i]),
        forall|j: int| 0 <= j < i ==> !p(s[j]),
    ensures
        first_index(s, p, 0) == Some(i),
{
    lemma_first_index_from(s, p, 0, i);
}

proof fn lemma_first_index_from<T>(s: Seq<T>, p: spec_fn(T) -> bool, k: int, i: int)
    requires
        0 <= k <= i < s.len(),
        p(s[i]),
        forall|j: int| k <= j < i ==> !p(s[j]),
    ensures
        first_index(s, p, k) == Some(i),
    decreases i - k,
{
    if k < i {
        lemma_first_index_from(s, p, k + 1, i);
    }
}


/// From line `i` on, the first line that does not start with `#`.
pub open spec fn past_headings(ls: Seq<Seq<char>>, i: int) -> int
    decreases ls.len() - i,
{
    if 0 <= i < ls.len() && starts_with(ls[i], "#"@) {
        past_headings(ls, i + 1)
    } else {
        i
    }
}

/// From line `i` on, the first line that is not blank.
pub open spec fn past_blanks(ls: Seq<Seq<char>>, i: int) -> int
    decreases ls.len() - i,
{
    if 0 <= i < ls.len() && trim(ls[i]).len() == 0 {
        past_blanks(ls, i + 1)
    } else {
        i
    }
}

/// From line `i` on, the lines up to the next heading or blank line.
pub open spec fn paragraph(ls: Seq<Seq<char>>, i: int) -> Seq<Seq<char>>
    decreases ls.len() - i,
{
    if 0 <= i < ls.len() && !starts_with(ls[i], "#"@) && trim(ls[i]).len() != 0 {
        seq![ls[i]] + paragraph(ls, i + 1)
    } else {
        Seq::empty()
    }
}

/// The description of a skill file: its first paragraph after the leading
/// headings and blank lines, joined by spaces and trimmed.
pub open spec fn md_description(content: Seq<char>) -> Seq<char> {
    let ls = lines(content);
    trim(join(paragraph(ls, past_blanks(ls, past_headings(ls, 0))), " "@))
}

/// A custom skill read from a Markdown file whose stem is `name`: named and
/// identified by the stem, described by the file's first paragraph, with
/// the whole file as its instructions.
pub fn parse_skill_from_md(name: &str, content: &str) -> (r: Skill)
    ensures
        r.id@ == name@ && r.name@ == name@,
        r.description@ == md_description(content@),
        r.category == SkillCategory::Custom,
        r.instructions@ == content@,
        r.tools@.len() == 0,
        r.enabled,
{
    let ls = lines_of(content);
    let ghost lv = views(ls@);
    let mut i: usize = 0;
    while i < ls.len() && str_starts_with(ls[i].as_str(), "#")
        invariant
            i <= ls@.len(),
            lv == views(ls@),
            past_headings(lv, 0) == past_headings(lv, i as int),
        decreases ls.len() - i,
    {
        i = i + 1;
    }
    let mut j: usize = i;
    while j < ls.len() && trim_str(ls[j].as_str()).as_str().is_empty()
        invariant
            i <= j <= ls@.len(),
            lv == views(ls@),
            past_headings(lv, 0) == i,
            past_blanks(lv, i as int) == past_blanks(lv, j as int),
        decreases ls.len() - j,
    {
        j = j + 1;
    }
    let mut para: Vec<String> = Vec::new();
    let mut k: usize = j;
    while k < ls.len() && !str_starts_with(ls[k].as_str(), "#") && !trim_str(ls[k].as_str()).as_str().is_empty()
        invariant
            j <= k <= ls@.len(),
            lv == views(ls@),
            past_blanks(lv, past_headings(lv, 0)) == j,
            views(para@) + paragraph(lv, k as int) == paragraph(lv, j as int),
        decreases ls.len() - k,
    {
        let ghost before = para@;
        para.push(ls[k].clone());
        assert(views(para@) =~= views(before).push(lv[k as int]));
        assert(paragraph(lv, k as int) =~= seq![lv[k as int]] + paragraph(lv, k + 1));
        assert(views(para@) + paragraph(lv, k + 1) =~= views(before) + paragraph(lv, k as int));
        k = k + 1;
    }
    assert(paragraph(lv, k as int) =~= Seq::<Seq<char>>::empty());
    assert(views(para@) =~= paragraph(lv, j as int));
    let joined = crate::tools::executor::join_strings(para.as_slice(), " ");
    let description = trim_str(joined.as_str());
    Skill::new(name, name, description.as_str(), SkillCategory::Custom).with_instructions(content)
}

/// Skill `i` is the first of its category in `ss`.
pub open spec fn first_of_category(ss: Seq<Skill>, i: int) -> bool {
    forall|j: int| 0 <= j < i ==> ss[j].category != ss[i].category
}

/// The listing lines of skills, one per skill.
pub open spec fn skill_lines(ss: Seq<Skill>) -> Seq<char>
    decreases ss.len(),
{
    if ss.len() == 0 {
        Seq::empty()
    } else {
        skill_lines(ss.drop_last()) + "- `/"@ + ss.last().name@ + "` - "@ + ss.last().description@
            + "\n"@
    }
}

/// The listing block of category `c`: a heading and the lines of its
/// skills, in order.
pub open spec fn category_block(ss: Seq<Skill>, c: SkillCategory) -> Seq<char> {
    "## "@ + category_label(c) + "\n\n"@ + skill_lines(skills_where(ss, in_category(c))) + "\n"@
}

/// The blocks of the categories that first appear among the first `n`
/// skills, in that order.
pub open spec fn category_blocks(ss: Seq<Skill>, n: int) -> Seq<char>
    decreases n,
{
    if n <= 0 {
        Seq::empty()
    } else {
        category_blocks(ss, n - 1) + if first_of_category(ss, n - 1) {
            category_block(ss, ss[n - 1].category)
        } else {
            Seq::empty()
        }
    }
}

/// The Markdown listing of `ss`, grouped by category.
pub open spec fn skills_markdown(ss: Seq<Skill>) -> Seq<char> {
    "# Available Skills\n\n"@ + category_blocks(ss, ss.len() as int)
}

/// Views of a list of skill references.
pub open spec fn deref_skills(v: Seq<&Skill>) -> Seq<Skill> {
    v.map_values(|s: &Skill| *s)
}

fn push_category_block(md: &mut String, skills: &[&Skill], c: SkillCategory)
    ensures
        final(md)@ == old(md)@ + category_block(deref_skills(skills@), c),
{
    let ghost ss = deref_skills(skills@);
    push_str(md, "## ");
    push_str(md, c.label());
    push_str(md, "\n\n");
    let ghost start = md@;
    let mut i: usize = 0;
    while i < skills.len()
        invariant
            i <= skills@.len(),
            ss == deref_skills(skills@),
            md@ == start + skill_lines(skills_where(ss.subrange(0, i as int), in_category(c))),
        decreases skills.len() - i,
    {
        proof {
            let pre = ss.subrange(0, i + 1);
            assert(pre.drop_last() =~= ss.subrange(0, i as int));
            assert(pre.last() == ss[i as int]);
        }
        let sk = skills[i];
        if sk.category == c {
            let ghost before = md@;
            push_str(md, "- `/");
            push_str(md, sk.name.as_str());
            push_str(md, "` - ");
            push_str(md, sk.description.as_str());
            push_str(md, "\n");
            proof {
                let w = skills_where(ss.subrange(0, i + 1), in_category(c));
                assert(w.drop_last() == skills_where(ss.subrange(0, i as int), in_category(c)));
                assert(md@ =~= start + skill_lines(w));
            }
        }
        i = i + 1;
    }
    assert(ss.subrange(0, skills@.len() as int) =~= ss);
    push_str(md, "\n");
}

/// Formats skills as Markdown, grouped by category; the categories come in
/// the order in which they first appear.
pub fn format_skills_list(skills: &[&Skill]) -> (r: String)
    ensures
        r@ == skills_markdown(deref_skills(skills@)),
{
    let ghost ss = deref_skills(skills@);
    let mut md = owned("# Available Skills\n\n");
    let mut i: usize = 0;
    while i < skills.len()
        invariant
            i <= skills@.len(),
            ss == deref_skills(skills@),
            md@ == "# Available Skills\n\n"@ + category_blocks(ss, i as int),
        decreases skills.len() - i,
    {
        let c = skills[i].category;
        let mut seen = false;
        let mut j: usize = 0;
        while j < i
            invariant
                j <= i < skills@.len(),
                ss == deref_skills(skills@),
                c == ss[i as int].category,
                seen == exists|k: int| 0 <= k < j && ss[k].category == c,
            decreases i - j,
        {
            assert(ss[j as int] == *skills@[j as int]);
            if skills[j].category == c {
                seen = true;
            }
            proof {
                if !seen {
                    assert forall|k: int| 0 <= k < j + 1 implies ss[k].category != c by {
                        if k < j {
                        }
                    }
                }
            }
            j = j + 1;
        }
        proof {
            if seen {
                let k = choose|k: int| 0 <= k < i && ss[k].category == c;
                assert(!first_of_category(ss, i as int));
            } else {
                assert(first_of_category(ss, i as int));
            }
        }
        if !seen {
            push_category_block(&mut md, skills, c);
        }
        proof {
            assert(md@ =~= "# Available Skills\n\n"@ + category_blocks(ss, i + 1));
        }
        i = i + 1;
    }
    md
}

} // verus!
