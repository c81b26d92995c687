//! Plugins: their manifests (skills, hooks, MCP servers, commands,
//! agents), the registry of loaded plugins and what the enabled ones
//! contribute, skill files, the built-in plugin, and the checks made on a
//! plugin before it is installed. Reading directories, parsing manifest
//! files, cloning repositories and copying files happen at the caller.

use vstd::prelude::*;
use crate::strmap::StringMap;
use crate::text::{
    clone_opt, clone_strings, contains_seq, lines, lines_of, lowercase_of, opt_view, owned, push_str,
    split_char, split_on, starts_with, str_contains, str_eq, str_starts_with, strip_prefix_all, strip_prefixes,
    to_lowercase, trim, trim_end_char, trim_str, views,
};

verus! {

// ---------------------------------------------------------------------------
// Manifest
// ---------------------------------------------------------------------------

/// Who wrote a plugin.
pub struct PluginAuthor {
    pub name: String,
    pub email: Option<String>,
}

/// How a hook runs.
#[derive(Clone, Copy, Debug, PartialEq, Eq, Structural)]
pub enum HookType {
    Command,
    Prompt,
    Agent,
    Http,
}

/// A hook a plugin declares.
pub struct HookDef {
    pub hook_type: HookType,
    pub command: Option<String>,
    pub prompt: Option<String>,
    pub matcher: Option<String>,
    pub if_cond: Option<String>,
    pub timeout: Option<u64>,
    pub async_exec: bool,
    pub url: Option<String>,
    pub headers: Option<StringMap>,
    pub allowed_env_vars: Vec<String>,
    pub model: Option<String>,
}

/// A hook as values.
#[verifier::ext_equal]
pub struct HookDefView {
    pub hook_type: HookType,
    pub command: Option<Seq<char>>,
    pub prompt: Option<Seq<char>>,
    pub matcher: Option<Seq<char>>,
    pub if_cond: Option<Seq<char>>,
    pub timeout: Option<u64>,
    pub async_exec: bool,
    pub url: Option<Seq<char>>,
    pub headers: Option<Seq<(Seq<char>, Seq<char>)>>,
    pub allowed_env_vars: Seq<Seq<char>>,
    pub model: Option<Seq<char>>,
}

impl View for HookDef {
    type V = HookDefView;

    open spec fn view(&self) -> HookDefView {
        HookDefView {
            hook_type: self.hook_type,
            command: opt_view(self.command),
            prompt: opt_view(self.prompt),
            matcher: opt_view(self.matcher),
            if_cond: opt_view(self.if_cond),
            timeout: self.timeout,
            async_exec: self.async_exec,
            url: opt_view(self.url),
            headers: match self.headers {
                Some(h) => Some(h.entries_spec()),
                None => None,
            },
            allowed_env_vars: views(self.allowed_env_vars@),
            model: opt_view(self.model),
        }
    }
}

impl Clone for HookDef {
    fn clone(&self) -> (r: Self)
        ensures
            r@ == self@,
    {
        HookDef {
            hook_type: self.hook_type,
            command: clone_opt(&self.command),
            prompt: clone_opt(&self.prompt),
            matcher: clone_opt(&self.matcher),
            if_cond: clone_opt(&self.if_cond),
            timeout: self.timeout,
            async_exec: self.async_exec,
            url: clone_opt(&self.url),
            headers: match &self.headers {
                Some(h) => Some(h.clone()),
                None => None,
            },
            allowed_env_vars: clone_strings(self.allowed_env_vars.as_slice()),
            model: clone_opt(&self.model),
        }
    }
}

impl Default for HookDef {
    /// A command hook with nothing set.
    fn default() -> (r: Self)
        ensures
            r.hook_type == HookType::Command,
            r.command is None && r.prompt is None && r.matcher is None && r.if_cond is None,
            r.timeout is None && !r.async_exec && r.url is None && r.headers is None,
            r.allowed_env_vars@.len() == 0 && r.model is None,
    {
        HookDef {
            hook_type: HookType::Command,
            command: None,
            prompt: None,
            matcher: None,
            if_cond: None,
            timeout: None,
            async_exec: false,
            url: None,
            headers: None,
            allowed_env_vars: Vec::new(),
            model: None,
        }
    }
}

/// Hooks as values.
pub open spec fn hook_views(hs: Seq<HookDef>) -> Seq<HookDefView> {
    hs.map_values(|h: HookDef| h@)
}

/// The hooks a plugin declares, by the event they answer.
pub struct HookConfig {
    pub pre_tool_use: Vec<HookDef>,
    pub post_tool_use: Vec<HookDef>,
    pub post_tool_use_failure: Vec<HookDef>,
    pub permission_denied: Vec<HookDef>,
    pub permission_request: Vec<HookDef>,
    pub user_prompt_submit: Vec<HookDef>,
    pub session_start: Vec<HookDef>,
    pub session_end: Vec<HookDef>,
    pub stop: Vec<HookDef>,
    pub pre_compact: Vec<HookDef>,
    pub post_compact: Vec<HookDef>,
    pub file_changed: Vec<HookDef>,
    pub cwd_changed: Vec<HookDef>,
    pub setup: Vec<HookDef>,
    pub task_created: Vec<HookDef>,
    pub task_completed: Vec<HookDef>,
}

/// The hook lists of a configuration, as values, in declaration order.
pub open spec fn hook_lists(c: HookConfig) -> Seq<Seq<HookDefView>> {
    seq![
        hook_views(c.pre_tool_use@),
        hook_views(c.post_tool_use@),
        hook_views(c.post_tool_use_failure@),
        hook_views(c.permission_denied@),
        hook_views(c.permission_request@),
        hook_views(c.user_prompt_submit@),
        hook_views(c.session_start@),
        hook_views(c.session_end@),
        hook_views(c.stop@),
        hook_views(c.pre_compact@),
        hook_views(c.post_compact@),
        hook_views(c.file_changed@),
        hook_views(c.cwd_changed@),
        hook_views(c.setup@),
        hook_views(c.task_created@),
        hook_views(c.task_completed@),
    ]
}

impl Default for HookConfig {
    /// No hooks.
    fn default() -> (r: Self)
        ensures
            forall|i: int| 0 <= i < 16 ==> (#[trigger] hook_lists(r)[i]).len() == 0,
    {
        let r = HookConfig {
            pre_tool_use: Vec::new(),
            post_tool_use: Vec::new(),
            post_tool_use_failure: Vec::new(),
            permission_denied: Vec::new(),
            permission_request: Vec::new(),
            user_prompt_submit: Vec::new(),
            session_start: Vec::new(),
            session_end: Vec::new(),
            stop: Vec::new(),
            pre_compact: Vec::new(),
            post_compact: Vec::new(),
            file_changed: Vec::new(),
            cwd_changed: Vec::new(),
            setup: Vec::new(),
            task_created: Vec::new(),
            task_completed: Vec::new(),
        };
        r
    }
}

fn extend_hooks(target: &mut Vec<HookDef>, source: &Vec<HookDef>)
    ensures
        hook_views(final(target)@) == hook_views(old(target)@) + hook_views(source@),
{
    let ghost start = hook_views(target@);
    let mut i: usize = 0;
    while i < source.len()
        invariant
            i <= source@.len(),
            hook_views(target@) == start + hook_views(source@).subrange(0, i as int),
        decreases source.len() - i,
    {
        let h = source[i].clone();
        let ghost before = hook_views(target@);
        target.push(h);
        assert(hook_views(target@) =~= before.push(source@[i as int]@));
        assert(hook_views(source@).subrange(0, i + 1) =~= hook_views(source@).subrange(0, i as int).push(
            source@[i as int]@,
        ));
        i = i + 1;
    }
    assert(hook_views(source@).subrange(0, source@.len() as int) =~= hook_views(source@));
}

/// Adds the hooks of `source` after those of `target`, event by event.
pub fn merge_hooks(target: &mut HookConfig, source: &HookConfig)
    ensures
        forall|i: int|
            0 <= i < 16 ==> #[trigger] hook_lists(*final(target))[i] == hook_lists(*old(target))[i]
                + hook_lists(*source)[i],
{
    extend_hooks(&mut target.pre_tool_use, &source.pre_tool_use);
    extend_hooks(&mut target.post_tool_use, &source.post_tool_use);
    extend_hooks(&mut target.post_tool_use_failure, &source.post_tool_use_failure);
    extend_hooks(&mut target.permission_denied, &source.permission_denied);
    extend_hooks(&mut target.permission_request, &source.permission_request);
    extend_hooks(&mut target.user_prompt_submit, &source.user_prompt_submit);
    extend_hooks(&mut target.session_start, &source.session_start);
    extend_hooks(&mut target.session_end, &source.session_end);
    extend_hooks(&mut target.stop, &source.stop);
    extend_hooks(&mut target.pre_compact, &source.pre_compact);
    extend_hooks(&mut target.post_compact, &source.post_compact);
    extend_hooks(&mut target.file_changed, &source.file_changed);
    extend_hooks(&mut target.cwd_changed, &source.cwd_changed);
    extend_hooks(&mut target.setup, &source.setup);
    extend_hooks(&mut target.task_created, &source.task_created);
    extend_hooks(&mut target.task_completed, &source.task_completed);
}

/// An MCP server a plugin declares.
pub struct McpServerConfig {
    pub server_type: String,
    pub command: Option<String>,
    pub args: Vec<String>,
    pub env: StringMap,
    pub url: Option<String>,
}

/// A command a plugin declares.
pub struct CommandDef {
    pub name: String,
    pub description: String,
    pub allowed_tools: Vec<String>,
    pub argument_hint: Option<String>,
    pub user_invocable: bool,
}

/// An agent a plugin declares.
pub struct AgentDef {
    pub name: String,
    pub description: String,
    pub tools: Vec<String>,
    pub instructions: String,
}

/// An argument of a skill.
pub struct SkillArgument {
    pub name: String,
    pub description: Option<String>,
    pub required: bool,
    pub default: Option<String>,
}

/// An argument of a skill, as values.
#[verifier::ext_equal]
pub struct SkillArgumentView {
    pub name: Seq<char>,
    pub description: Option<Seq<char>>,
    pub required: bool,
    pub default: Option<Seq<char>>,
}

impl View for SkillArgument {
    type V = SkillArgumentView;

    open spec fn view(&self) -> SkillArgumentView {
        SkillArgumentView {
            name: self.name@,
            description: opt_view(self.description),
            required: self.required,
            default: opt_view(self.default),
        }
    }
}

impl Clone for SkillArgument {
    fn clone(&self) -> (r: Self)
        ensures
            r@ == self@,
    {
        SkillArgument {
            name: self.name.clone(),
            description: clone_opt(&self.description),
            required: self.required,
            default: clone_opt(&self.default),
        }
    }
}

/// A slash command that expands to text.
pub struct Skill {
    pub name: String,
    pub description: String,
    pub when_to_use: Option<String>,
    pub allowed_tools: Vec<String>,
    pub argument_hint: Option<String>,
    pub arguments: Vec<SkillArgument>,
    pub model: Option<String>,
    pub user_invocable: bool,
    pub context: Option<String>,
    pub agent: Option<String>,
    pub effort: Option<String>,
    pub paths: Vec<String>,
}

/// A skill as values.
#[verifier::ext_equal]
pub struct SkillView {
    pub name: Seq<char>,
    pub description: Seq<char>,
    pub when_to_use: Option<Seq<char>>,
    pub allowed_tools: Seq<Seq<char>>,
    pub argument_hint: Option<Seq<char>>,
    pub arguments: Seq<SkillArgumentView>,
    pub model: Option<Seq<char>>,
    pub user_invocable: bool,
    pub context: Option<Seq<char>>,
    pub agent: Option<Seq<char>>,
    pub effort: Option<Seq<char>>,
    pub paths: Seq<Seq<char>>,
}

impl View for Skill {
    type V = SkillView;

    open spec fn view(&self) -> SkillView {
        SkillView {
            name: self.name@,
            description: self.description@,
            when_to_use: opt_view(self.when_to_use),
            allowed_tools: views(self.allowed_tools@),
            argument_hint: opt_view(self.argument_hint),
            arguments: self.arguments@.map_values(|a: SkillArgument| a@),
            model: opt_view(self.model),
            user_invocable: self.user_invocable,
            context: opt_view(self.context),
            agent: opt_view(self.agent),
            effort: opt_view(self.effort),
            paths: views(self.paths@),
        }
    }
}

fn clone_arguments(v: &Vec<SkillArgument>) -> (r: Vec<SkillArgument>)
    ensures
        r@.map_values(|a: SkillArgument| a@) == v@.map_values(|a: SkillArgument| a@),
{
    let mut r: Vec<SkillArgument> = Vec::new();
    let mut i: usize = 0;
    while i < v.len()
        invariant
            i <= v@.len(),
            r@.map_values(|a: SkillArgument| a@) == v@.subrange(0, i as int).map_values(|a: SkillArgument| a@),
        decreases v.len() - i,
    {
        let a = v[i].clone();
        let ghost before = r@.map_values(|a: SkillArgument| a@);
        r.push(a);
        assert(r@.map_values(|a: SkillArgument| a@) =~= before.push(v@[i as int]@));
        assert(v@.subrange(0, i + 1).map_values(|a: SkillArgument| a@) =~= v@.subrange(0, i as int).map_values(
            |a: SkillArgument| a@,
        ).push(v@[i as int]@));
        i = i + 1;
    }
    assert(v@.subrange(0, v@.len() as int) =~= v@);
    r
}

impl Clone for Skill {
    fn clone(&self) -> (r: Self)
        ensures
            r@ == self@,
    {
        Skill {
            name: self.name.clone(),
            description: self.description.clone(),
            when_to_use: clone_opt(&self.when_to_use),
            allowed_tools: clone_strings(self.allowed_tools.as_slice()),
            argument_hint: clone_opt(&self.argument_hint),
            arguments: clone_arguments(&self.arguments),
            model: clone_opt(&self.model),
            user_invocable: self.user_invocable,
            context: clone_opt(&self.context),
            agent: clone_opt(&self.agent),
            effort: clone_opt(&self.effort),
            paths: clone_strings(self.paths.as_slice()),
        }
    }
}

/// A skill with only a name and a description, invocable by the user.
pub open spec fn plain_skill(name: Seq<char>, description: Seq<char>) -> SkillView {
    SkillView {
        name,
        description,
        when_to_use: None,
        allowed_tools: Seq::empty(),
        argument_hint: None,
        arguments: Seq::empty(),
        model: None,
        user_invocable: true,
        context: None,
        agent: None,
        effort: None,
        paths: Seq::empty(),
    }
}

impl Default for Skill {
    /// A nameless skill, invocable by the user.
    fn default() -> (r: Self)
        ensures
            r@ == plain_skill(Seq::empty(), Seq::empty()),
    {
        let r = Skill {
            name: String::new(),
            description: String::new(),
            when_to_use: None,
            allowed_tools: Vec::new(),
            argument_hint: None,
            arguments: Vec::new(),
            model: None,
            user_invocable: true,
            context: None,
            agent: None,
            effort: None,
            paths: Vec::new(),
        };
        assert(r@ =~= plain_skill(Seq::empty(), Seq::empty()));
        r
    }
}

/// Skills as values.
pub open spec fn skill_views(ss: Seq<Skill>) -> Seq<SkillView> {
    ss.map_values(|s: Skill| s@)
}

/// What a plugin's manifest declares.
pub struct PluginManifest {
    pub name: String,
    pub version: String,
    pub description: String,
    pub author: Option<PluginAuthor>,
    pub homepage: Option<String>,
    pub repository: Option<String>,
    pub license: Option<String>,
    pub keywords: Vec<String>,
    pub dependencies: Vec<String>,
    pub skills: Vec<Skill>,
    pub hooks: HookConfig,
    pub mcp_servers: Vec<(String, McpServerConfig)>,
    pub commands: Vec<CommandDef>,
    pub agents: Vec<AgentDef>,
}

/// A hook declared by a plugin's own tools.
pub struct Hook {
    pub name: String,
    pub command: String,
    pub enabled: bool,
    pub if_expr: Option<String>,
    pub async_exec: bool,
    pub timeout: Option<u64>,
}

/// A tool a plugin provides.
pub struct Tool {
    pub name: String,
    pub description: String,
}

/// Where a plugin is installed for.
#[derive(Clone, Copy, Debug, PartialEq, Eq, Structural)]
pub enum PluginScope {
    User,
    Project,
    Local,
}

impl Default for PluginScope {
    fn default() -> (r: Self)
        ensures
            r == PluginScope::User,
    {
        PluginScope::User
    }
}

/// A plugin that was loaded.
pub struct LoadedPlugin {
    pub manifest: PluginManifest,
    pub path: String,
    pub enabled: bool,
    pub scope: PluginScope,
}

// ---------------------------------------------------------------------------
// Registry
// ---------------------------------------------------------------------------

/// The skills that the enabled plugins among `ps` contribute, in order.
pub open spec fn enabled_skills_of(ps: Seq<LoadedPlugin>) -> Seq<SkillView>
    decreases ps.len(),
{
    if ps.len() == 0 {
        Seq::empty()
    } else {
        enabled_skills_of(ps.drop_last()) + if ps.last().enabled {
            skill_views(ps.last().manifest.skills@)
        } else {
            Seq::empty()
        }
    }
}

/// The hooks of list `i` that the enabled plugins among `ps` contribute,
/// in order.
pub open spec fn enabled_hooks_of(ps: Seq<LoadedPlugin>, i: int) -> Seq<HookDefView>
    decreases ps.len(),
{
    if ps.len() == 0 {
        Seq::empty()
    } else {
        enabled_hooks_of(ps.drop_last(), i) + if ps.last().enabled {
            hook_lists(ps.last().manifest.hooks)[i]
        } else {
            Seq::empty()
        }
    }
}

/// Whether a plugin is named `name`.
pub open spec fn plugin_named(name: Seq<char>) -> spec_fn(LoadedPlugin) -> bool {
    |p: LoadedPlugin| p.manifest.name@ == name
}

/// `ps` with `p` added: `p` replaces the first plugin of its name, else it
/// comes last.
pub open spec fn with_plugin(ps: Seq<LoadedPlugin>, p: LoadedPlugin) -> Seq<LoadedPlugin> {
    match crate::text::first_index(ps, plugin_named(p.manifest.name@), 0) {
        Some(i) => ps.update(i, p),
        None => ps.push(p),
    }
}

/// The plugins of a registry into which `ps` were added in order.
pub open spec fn registry_plugins(ps: Seq<LoadedPlugin>) -> Seq<LoadedPlugin>
    decreases ps.len(),
{
    if ps.len() == 0 {
        Seq::empty()
    } else {
        with_plugin(registry_plugins(ps.drop_last()), ps.last())
    }
}

/// The loaded plugins, one per name, and what the enabled ones contribute.
pub struct PluginRegistry {
    pub plugins: Vec<LoadedPlugin>,
    pub enabled_skills: Vec<Skill>,
    pub enabled_hooks: HookConfig,
}

impl PluginRegistry {
    /// No plugins, skills or hooks.
    pub fn new() -> (r: Self)
        ensures
            r.plugins@.len() == 0,
            r.enabled_skills@.len() == 0,
            forall|i: int| 0 <= i < 16 ==> (#[trigger] hook_lists(r.enabled_hooks)[i]).len() == 0,
    {
        PluginRegistry { plugins: Vec::new(), enabled_skills: Vec::new(), enabled_hooks: HookConfig::default() }
    }

    /// Adds a loaded plugin: it replaces a plugin of the same name, else it
    /// comes last.
    pub fn insert(&mut self, plugin: LoadedPlugin)
        ensures
            match crate::text::first_index(old(self).plugins@, plugin_named(plugin.manifest.name@), 0) {
                Some(i) => final(self).plugins@ == old(self).plugins@.update(i, plugin),
                None => final(self).plugins@ == old(self).plugins@.push(plugin),
            },
            final(self).enabled_skills@ == old(self).enabled_skills@,
            final(self).enabled_hooks == old(self).enabled_hooks,
    {
        proof {
            crate::text::lemma_first_index(self.plugins@, plugin_named(plugin.manifest.name@), 0);
        }
        let mut i: usize = 0;
        while i < self.plugins.len()
            invariant
                i <= self.plugins@.len(),
                self.plugins@ == old(self).plugins@,
                self.enabled_skills@ == old(self).enabled_skills@,
                self.enabled_hooks == old(self).enabled_hooks,
                crate::text::first_index(self.plugins@, plugin_named(plugin.manifest.name@), 0)
                    == crate::text::first_index(self.plugins@, plugin_named(plugin.manifest.name@), i as int),
            decreases self.plugins.len() - i,
        {
            if str_eq(self.plugins[i].manifest.name.as_str(), plugin.manifest.name.as_str()) {
                self.plugins.set(i, plugin);
                return;
            }
            i = i + 1;
        }
        self.plugins.push(plugin);
    }

    /// Adds what the enabled plugins contribute, plugin by plugin in order:
    /// their skills, and their hooks event by event.
    pub fn aggregate(&mut self)
        ensures
            final(self).plugins@ == old(self).plugins@,
            skill_views(final(self).enabled_skills@) == skill_views(old(self).enabled_skills@)
                + enabled_skills_of(old(self).plugins@),
            forall|i: int|
                0 <= i < 16 ==> #[trigger] hook_lists(final(self).enabled_hooks)[i] == hook_lists(
                    old(self).enabled_hooks,
                )[i] + enabled_hooks_of(old(self).plugins@, i),
    {
        let ghost skills0 = skill_views(self.enabled_skills@);
        let ghost hooks0 = hook_lists(self.enabled_hooks);
        let mut k: usize = 0;
        while k < self.plugins.len()
            invariant
                k <= self.plugins@.len(),
                self.plugins@ == old(self).plugins@,
                skill_views(self.enabled_skills@) == skills0 + enabled_skills_of(self.plugins@.subrange(0, k as int)),
                hooks0 == hook_lists(old(self).enabled_hooks),
                forall|i: int|
                    0 <= i < 16 ==> #[trigger] hook_lists(self.enabled_hooks)[i] == hooks0[i] + enabled_hooks_of(
                        self.plugins@.subrange(0, k as int),
                        i,
                    ),
            decreases self.plugins.len() - k,
        {
            proof {
                let pre = self.plugins@.subrange(0, k + 1);
                assert(pre.drop_last() =~= self.plugins@.subrange(0, k as int));
                assert(pre.last() == self.plugins@[k as int]);
            }
            if self.plugins[k].enabled {
                let mut j: usize = 0;
                let ghost base = skill_views(self.enabled_skills@);
                let ghost hk = self.enabled_hooks;
                while j < self.plugins[k].manifest.skills.len()
                    invariant
                        k < self.plugins@.len(),
                        self.plugins@ == old(self).plugins@,
                        self.enabled_hooks == hk,
                        j <= self.plugins@[k as int].manifest.skills@.len(),
                        skill_views(self.enabled_skills@) == base + skill_views(
                            self.plugins@[k as int].manifest.skills@,
                        ).subrange(0, j as int),
                    decreases self.plugins@[k as int].manifest.skills@.len() - j,
                {
                    let sk = self.plugins[k].manifest.skills[j].clone();
                    let ghost before = skill_views(self.enabled_skills@);
                    self.enabled_skills.push(sk);
                    proof {
                        let all = skill_views(self.plugins@[k as int].manifest.skills@);
                        assert(skill_views(self.enabled_skills@) =~= before.push(all[j as int]));
                        assert(all.subrange(0, j + 1) =~= all.subrange(0, j as int).push(all[j as int]));
                    }
                    j = j + 1;
                }
                proof {
                    let all = skill_views(self.plugins@[k as int].manifest.skills@);
                    assert(all.subrange(0, all.len() as int) =~= all);
                }
                let ghost hb = hook_lists(self.enabled_hooks);
                merge_hooks(&mut self.enabled_hooks, &self.plugins[k].manifest.hooks);
                proof {
                    assert forall|i: int| 0 <= i < 16 implies #[trigger] hook_lists(self.enabled_hooks)[i]
                        == hooks0[i] + enabled_hooks_of(self.plugins@.subrange(0, k + 1), i) by {
                        assert(hook_lists(self.enabled_hooks)[i] == hb[i] + hook_lists(
                            self.plugins@[k as int].manifest.hooks,
                        )[i]);
                    }
                }
            } else {
                proof {
                    assert(skill_views(self.enabled_skills@) =~= skills0 + enabled_skills_of(
                        self.plugins@.subrange(0, k + 1),
                    ));
                    assert forall|i: int| 0 <= i < 16 implies #[trigger] hook_lists(self.enabled_hooks)[i]
                        == hooks0[i] + enabled_hooks_of(self.plugins@.subrange(0, k + 1), i) by {
                        assert(enabled_hooks_of(self.plugins@.subrange(0, k + 1), i) =~= enabled_hooks_of(
                            self.plugins@.subrange(0, k as int),
                            i,
                        ) + Seq::<HookDefView>::empty());
                    }
                }
            }
            k = k + 1;
        }
        assert(self.plugins@.subrange(0, self.plugins@.len() as int) =~= self.plugins@);
    }

    /// The registry of these plugins: one per name (a later plugin of a
    /// name replaces an earlier one in its place), with what the enabled
    /// ones contribute.
    pub fn from_loaded(plugins: Vec<LoadedPlugin>) -> (r: Self)
        ensures
            r.plugins@ == registry_plugins(plugins@),
            skill_views(r.enabled_skills@) == enabled_skills_of(r.plugins@),
            forall|i: int| 0 <= i < 16 ==> #[trigger] hook_lists(r.enabled_hooks)[i] == enabled_hooks_of(r.plugins@, i),
    {
        let mut reg = PluginRegistry::new();
        let ghost all = plugins@;
        let mut ps = plugins;
        let ghost mut k: int = 0;
        assert(all.subrange(0, 0) =~= Seq::<LoadedPlugin>::empty());
        assert(all.subrange(0, all.len() as int) =~= all);
        while ps.len() > 0
            invariant
                0 <= k <= all.len(),
                ps@ == all.subrange(k, all.len() as int),
                reg.plugins@ == registry_plugins(all.subrange(0, k)),
                reg.enabled_skills@.len() == 0,
                forall|i: int| 0 <= i < 16 ==> (#[trigger] hook_lists(reg.enabled_hooks)[i]).len() == 0,
            decreases ps.len(),
        {
            let p = ps.remove(0);
            proof {
                assert(p == all[k]);
                assert(all.subrange(0, k + 1).drop_last() =~= all.subrange(0, k));
                assert(all.subrange(0, k + 1).last() == p);
            }
            reg.insert(p);
            proof {
                k = k + 1;
                assert(ps@ =~= all.subrange(k, all.len() as int));
            }
        }
        assert(all.subrange(0, k) =~= all);
        let ghost h0 = hook_lists(reg.enabled_hooks);
        reg.aggregate();
        proof {
            assert(skill_views(Seq::<Skill>::empty()) =~= Seq::<SkillView>::empty());
            assert forall|i: int| 0 <= i < 16 implies #[trigger] hook_lists(reg.enabled_hooks)[i] == enabled_hooks_of(
                reg.plugins@,
                i,
            ) by {
                assert(h0[i].len() == 0);
                assert(h0[i] + enabled_hooks_of(reg.plugins@, i) =~= enabled_hooks_of(reg.plugins@, i));
            }
        }
        reg
    }

    /// The skills of the enabled plugins, then the skills found in the
    /// skills directory (`dir_skills`).
    pub fn get_all_skills(&self, dir_skills: Vec<Skill>) -> (r: Vec<Skill>)
        ensures
            skill_views(r@) == skill_views(self.enabled_skills@) + skill_views(dir_skills@),
    {
        let mut r: Vec<Skill> = Vec::new();
        let mut i: usize = 0;
        while i < self.enabled_skills.len()
            invariant
                i <= self.enabled_skills@.len(),
                skill_views(r@) == skill_views(self.enabled_skills@).subrange(0, i as int),
            decreases self.enabled_skills.len() - i,
        {
            let ghost before = skill_views(r@);
            r.push(self.enabled_skills[i].clone());
            assert(skill_views(r@) =~= before.push(self.enabled_skills@[i as int]@));
            assert(skill_views(self.enabled_skills@).subrange(0, i + 1) =~= skill_views(self.enabled_skills@).subrange(
                0,
                i as int,
            ).push(self.enabled_skills@[i as int]@));
            i = i + 1;
        }
        assert(skill_views(self.enabled_skills@).subrange(0, self.enabled_skills@.len() as int) =~= skill_views(
            self.enabled_skills@,
        ));
        let ghost mid = skill_views(r@);
        let mut rest = dir_skills;
        let ghost all = rest@;
        assert(all.len() <= usize::MAX) by {
            assert(rest.len() <= usize::MAX);
        }
        let mut j: usize = 0;
        while rest.len() > 0
            invariant
                all.len() <= usize::MAX,
                j + rest@.len() == all.len(),
                rest@ == all.subrange(j as int, all.len() as int),
                skill_views(r@) == mid + skill_views(all.subrange(0, j as int)),
            decreases rest.len(),
        {
            let s = rest.remove(0);
            proof {
                assert(s == all[j as int]);
                assert(rest@ =~= all.subrange(j + 1, all.len() as int));
            }
            let ghost before = skill_views(r@);
            r.push(s);
            proof {
                assert(skill_views(r@) =~= before.push(all[j as int]@));
                assert(skill_views(all.subrange(0, j + 1)) =~= skill_views(all.subrange(0, j as int)).push(
                    all[j as int]@,
                ));
            }
            j = j + 1;
        }
        assert(all.subrange(0, all.len() as int) =~= all);
        r
    }
}

// ---------------------------------------------------------------------------
// Skill files
// ---------------------------------------------------------------------------

/// The strings of a YAML list, if `text` parses as one.
pub uninterp spec fn yaml_string_list(text: Seq<char>) -> Option<Seq<Seq<char>>>;

/// `serde_yaml::from_str::<Vec<String>>(text)`, when it succeeds.
#[verifier::external_body]
fn parse_yaml_list(text: &str) -> (r: Option<Vec<String>>)
    ensures
        match r {
            Some(v) => yaml_string_list(text@) == Some(views(v@)),
            None => yaml_string_list(text@) is None,
        },
{
    serde_yaml::from_str::<Vec<String>>(text).ok()
}

/// Where the front matter of a skill file's lines ends: the first `---`
/// line after the first, or 0 when there is none.
pub open spec fn front_end(ls: Seq<Seq<char>>) -> int {
    match crate::text::first_index(ls, |l: Seq<char>| l == "---"@, 1) {
        Some(i) => i,
        None => 0,
    }
}

/// The first line of `fm` that starts with `key`.
pub open spec fn line_with(fm: Seq<Seq<char>>, key: Seq<char>) -> Option<Seq<char>> {
    match crate::text::first_index(fm, |l: Seq<char>| starts_with(l, key), 0) {
        Some(i) => Some(fm[i]),
        None => None,
    }
}

/// The trimmed value after `key` on the first line that has it.
pub open spec fn key_value(fm: Seq<Seq<char>>, key: Seq<char>) -> Option<Seq<char>> {
    match line_with(fm, key) {
        Some(l) => Some(trim(strip_prefix_all(l, key))),
        None => None,
    }
}

/// The YAML list after `key` on the first line that has it; empty when
/// there is none or it does not parse.
pub open spec fn key_list(fm: Seq<Seq<char>>, key: Seq<char>) -> Seq<Seq<char>> {
    match line_with(fm, key) {
        Some(l) => match yaml_string_list(strip_prefix_all(l, key)) {
            Some(v) => v,
            None => Seq::empty(),
        },
        None => Seq::empty(),
    }
}

/// The skill a skill file makes. With front matter (a first `---` line
/// and a closing one after at least one line) its keys give the
/// description (else `No description`), when to use it, the allowed tools,
/// the argument hint, whether the user can invoke it (`true` unless the
/// key says otherwise) and its paths. Without, the first line is the
/// description; an empty file has `No description`.
pub open spec fn parsed_skill(name: Seq<char>, content: Seq<char>) -> SkillView {
    let ls = lines(content);
    if ls.len() == 0 {
        plain_skill(name, "No description"@)
    } else if ls[0] == "---"@ && front_end(ls) > 1 {
        let fm = ls.subrange(1, front_end(ls));
        SkillView {
            description: match key_value(fm, "description:"@) {
                Some(d) => d,
                None => "No description"@,
            },
            when_to_use: key_value(fm, "when_to_use:"@),
            allowed_tools: key_list(fm, "allowed-tools:"@),
            argument_hint: key_value(fm, "argument-hint:"@),
            user_invocable: match key_value(fm, "user-invocable:"@) {
                Some(v) => v == "true"@,
                None => true,
            },
            paths: key_list(fm, "paths:"@),
            ..plain_skill(name, Seq::empty())
        }
    } else {
        plain_skill(name, ls[0])
    }
}

fn find_line_with(fm: &[String], key: &str) -> (r: Option<usize>)
    ensures
        match r {
            Some(i) => i < fm@.len() && line_with(views(fm@), key@) == Some(fm@[i as int]@),
            None => line_with(views(fm@), key@) is None,
        },
{
    proof {
        crate::text::lemma_first_index(views(fm@), |l: Seq<char>| starts_with(l, key@), 0);
    }
    let mut i: usize = 0;
    while i < fm.len()
        invariant
            i <= fm@.len(),
            crate::text::first_index(views(fm@), |l: Seq<char>| starts_with(l, key@), 0) == crate::text::first_index(
                views(fm@),
                |l: Seq<char>| starts_with(l, key@),
                i as int,
            ),
        decreases fm.len() - i,
    {
        assert(views(fm@)[i as int] == fm@[i as int]@);
        if str_starts_with(fm[i].as_str(), key) {
            return Some(i);
        }
        i = i + 1;
    }
    None
}

fn value_of(fm: &[String], key: &str) -> (r: Option<String>)
    requires
        key@.len() > 0,
    ensures
        opt_view(r) == key_value(views(fm@), key@),
{
    match find_line_with(fm, key) {
        Some(i) => {
            let v = strip_prefixes(fm[i].as_str(), key);
            Some(trim_str(v.as_str()))
        },
        None => None,
    }
}

fn list_of(fm: &[String], key: &str) -> (r: Vec<String>)
    requires
        key@.len() > 0,
    ensures
        views(r@) == key_list(views(fm@), key@),
{
    match find_line_with(fm, key) {
        Some(i) => {
            let v = strip_prefixes(fm[i].as_str(), key);
            match parse_yaml_list(v.as_str()) {
                Some(l) => l,
                None => {
                    let e: Vec<String> = Vec::new();
                    assert(views(e@) =~= Seq::<Seq<char>>::empty());
                    e
                },
            }
        },
        None => {
            let e: Vec<String> = Vec::new();
            assert(views(e@) =~= Seq::<Seq<char>>::empty());
            e
        },
    }
}

fn closing_line(ls: &Vec<String>) -> (r: usize)
    ensures
        r == front_end(views(ls@)),
        r < ls@.len() || r == 0,
{
    proof {
        crate::text::lemma_first_index(views(ls@), |l: Seq<char>| l == "---"@, 1);
    }
    let mut i: usize = 1;
    while i < ls.len()
        invariant
            1 <= i,
            crate::text::first_index(views(ls@), |l: Seq<char>| l == "---"@, 1) == crate::text::first_index(
                views(ls@),
                |l: Seq<char>| l == "---"@,
                i as int,
            ),
        decreases ls.len() - i,
    {
        assert(views(ls@)[i as int] == ls@[i as int]@);
        if str_eq(ls[i].as_str(), "---") {
            return i;
        }
        i = i + 1;
    }
    0
}

fn skill_named(name: &str, description: String) -> (r: Skill)
    ensures
        r@ == plain_skill(name@, description@),
{
    let mut s = Skill::default();
    s.name = owned(name);
    s.description = description;
    assert(s@ =~= plain_skill(name@, description@));
    s
}

/// The skill that the file `content` of skill `name` makes.
pub fn parse_skill_file(name: &str, content: &str) -> (r: Skill)
    ensures
        r@ == parsed_skill(name@, content@),
{
    proof {
        reveal_strlit("description:");
        reveal_strlit("when_to_use:");
        reveal_strlit("allowed-tools:");
        reveal_strlit("argument-hint:");
        reveal_strlit("user-invocable:");
        reveal_strlit("paths:");
    }
    let ls = lines_of(content);
    if ls.len() == 0 {
        return skill_named(name, owned("No description"));
    }
    assert(views(ls@)[0] == ls@[0]@);
    if str_eq(ls[0].as_str(), "---") {
        let end = closing_line(&ls);
        if end > 1 {
            let mut fm: Vec<String> = Vec::new();
            let mut i: usize = 1;
            while i < end
                invariant
                    1 <= i <= end < ls@.len(),
                    views(fm@) == views(ls@).subrange(1, i as int),
                decreases end - i,
            {
                let ghost before = views(fm@);
                fm.push(ls[i].clone());
                assert(views(fm@) =~= before.push(ls@[i as int]@));
                assert(views(ls@).subrange(1, i + 1) =~= views(ls@).subrange(1, i as int).push(ls@[i as int]@));
                i = i + 1;
            }
            let mut s = skill_named(name, owned(""));
            s.description = match value_of(fm.as_slice(), "description:") {
                Some(d) => d,
                None => owned("No description"),
            };
            s.when_to_use = value_of(fm.as_slice(), "when_to_use:");
            s.allowed_tools = list_of(fm.as_slice(), "allowed-tools:");
            s.argument_hint = value_of(fm.as_slice(), "argument-hint:");
            s.user_invocable = match value_of(fm.as_slice(), "user-invocable:") {
                Some(v) => str_eq(v.as_str(), "true"),
                None => true,
            };
            s.paths = list_of(fm.as_slice(), "paths:");
            proof {
                reveal_strlit("");
                assert(""@ =~= Seq::<char>::empty());
            }
            assert(s@ =~= parsed_skill(name@, content@));
            return s;
        }
    }
    skill_named(name, ls[0].clone())
}

// ---------------------------------------------------------------------------
// Installing
// ---------------------------------------------------------------------------

/// The name a plugin is installed under: the last part of its source,
/// trailing slashes and `.git`s removed.
pub open spec fn plugin_name_of(source: Seq<char>) -> Seq<char> {
    strip_git_suffix(split_char(trim_end_char(source, '/'), '/').last())
}

/// `s` without every trailing `.git`.
pub open spec fn strip_git_suffix(s: Seq<char>) -> Seq<char>
    decreases s.len(),
{
    if s.len() >= 4 && s.subrange(s.len() - 4, s.len() as int) == ".git"@ {
        strip_git_suffix(s.subrange(0, s.len() - 4))
    } else {
        s
    }
}

fn strip_git(last: &str) -> (r: String)
    ensures
        r@ == strip_git_suffix(last@),
{
    proof {
        reveal_strlit(".git");
    }
    let v = crate::text::chars_of(last);
    let mut n: usize = v.len();
    assert(v@.subrange(0, v@.len() as int) =~= v@);
    while n >= 4 && v[n - 4] == '.' && v[n - 3] == 'g' && v[n - 2] == 'i' && v[n - 1] == 't'
        invariant
            n <= v@.len(),
            v@ == last@,
            ".git"@ == seq!['.', 'g', 'i', 't'],
            strip_git_suffix(last@) == strip_git_suffix(v@.subrange(0, n as int)),
        decreases n,
    {
        proof {
            let t = v@.subrange(0, n as int);
            assert(t.subrange(t.len() - 4, t.len() as int) =~= ".git"@);
            assert(t.subrange(0, t.len() - 4) =~= v@.subrange(0, n - 4));
        }
        n = n - 4;
    }
    proof {
        let t = v@.subrange(0, n as int);
        if t.len() >= 4 && t.subrange(t.len() - 4, t.len() as int) == ".git"@ {
            assert(t.subrange(t.len() - 4, t.len() as int)[0] == v@[n - 4]);
            assert(t.subrange(t.len() - 4, t.len() as int)[1] == v@[n - 3]);
            assert(t.subrange(t.len() - 4, t.len() as int)[2] == v@[n - 2]);
            assert(t.subrange(t.len() - 4, t.len() as int)[3] == v@[n - 1]);
        }
    }
    let mut out: Vec<char> = Vec::new();
    let mut i: usize = 0;
    while i < n
        invariant
            i <= n <= v@.len(),
            out@ == v@.subrange(0, i as int),
        decreases n - i,
    {
        out.push(v[i]);
        i = i + 1;
    }
    crate::text::string_of(out.as_slice())
}

/// The name a plugin from `source` is installed under.
pub fn extract_plugin_name(source: &str) -> (r: String)
    ensures
        r@ == plugin_name_of(source@),
{
    proof {
        reveal_strlit(".git");
    }
    let trimmed = crate::text::strip_trailing(source, '/');
    let parts = split_on(trimmed.as_str(), '/');
    assert(views(parts@).len() == parts@.len());
    assert(views(parts@).last() == parts@[parts@.len() - 1]@);
    let last = parts[parts.len() - 1].as_str();
    strip_git(last)
}

/// A plugin name that could reach outside the plugins directory: empty,
/// or holding `..`, `/` or `\`.
pub open spec fn bad_plugin_name(name: Seq<char>) -> bool {
    name.len() == 0 || contains_seq(name, ".."@) || contains_seq(name, "/"@) || contains_seq(name, "\\"@)
}

/// Refuses a plugin name that could reach outside the plugins directory.
pub fn check_plugin_name(name: &str) -> (r: Result<(), String>)
    ensures
        bad_plugin_name(name@) ==> (r matches Err(e) && e@ == "Invalid plugin name '"@ + name@
            + "': must not be empty or contain path traversal sequences"@),
        !bad_plugin_name(name@) ==> r is Ok,
{
    if name.is_empty() || str_contains(name, "..") || str_contains(name, "/") || str_contains(name, "\\") {
        let mut m = owned("Invalid plugin name '");
        push_str(&mut m, name);
        push_str(&mut m, "': must not be empty or contain path traversal sequences");
        return Err(m);
    }
    Ok(())
}

/// Refuses an installation whose resolved destination is not inside the
/// resolved plugins directory (`sep` is the path separator).
pub fn check_within(name: &str, dest: &str, plugins_dir: &str, sep: &str) -> (r: Result<(), String>)
    ensures
        starts_with(dest@, plugins_dir@ + sep@) ==> r is Ok,
        !starts_with(dest@, plugins_dir@ + sep@) ==> (r matches Err(e) && e@
            == "Plugin installation would escape the plugins directory: '"@ + name@ + "' resolves to '"@
            + dest@ + "'"@),
{
    let mut prefix = owned(plugins_dir);
    push_str(&mut prefix, sep);
    if str_starts_with(dest, prefix.as_str()) {
        Ok(())
    } else {
        let mut m = owned("Plugin installation would escape the plugins directory: '");
        push_str(&mut m, name);
        push_str(&mut m, "' resolves to '");
        push_str(&mut m, dest);
        push_str(&mut m, "'");
        Err(m)
    }
}

/// A source that is fetched with git: one that starts with `http` or
/// `git@`, or names github.com.
pub open spec fn is_git_source_spec(source: Seq<char>) -> bool {
    starts_with(source, "http"@) || starts_with(source, "git@"@) || contains_seq(source, "github.com"@)
}

/// Whether a source is fetched with git.
pub fn is_git_source(source: &str) -> (b: bool)
    ensures
        b == is_git_source_spec(source@),
{
    str_starts_with(source, "http") || str_starts_with(source, "git@") || str_contains(source, "github.com")
}

/// The patterns that a git address may not hold, in the order they are
/// checked.
pub open spec fn suspicious_patterns() -> Seq<Seq<char>> {
    seq!["&&"@, "||"@, ";"@, "|"@, "`"@, "$("@, "$("@]
}

/// Why a git address is refused: the first suspicious pattern it holds,
/// else a scheme other than `https://`, `http://` or `git@`.
pub open spec fn git_url_error(url: Seq<char>) -> Option<Seq<char>> {
    match crate::text::first_index(suspicious_patterns(), |p: Seq<char>| contains_seq(url, p), 0) {
        Some(i) => Some(
            "URL contains suspicious pattern '"@ + suspicious_patterns()[i]
                + "': command injection attempt blocked"@,
        ),
        None => {
            let l = lowercase_of(url);
            if starts_with(l, "https://"@) || starts_with(l, "http://"@) || starts_with(l, "git@"@) {
                None
            } else {
                Some("URL must use https://, http://, or git@ protocol. Got: "@ + url)
            }
        },
    }
}

fn suspicious_pattern(i: usize) -> (r: &'static str)
    requires
        i < 7,
    ensures
        r@ == suspicious_patterns()[i as int],
{
    if i == 0 {
        "&&"
    } else if i == 1 {
        "||"
    } else if i == 2 {
        ";"
    } else if i == 3 {
        "|"
    } else if i == 4 {
        "`"
    } else {
        "$("
    }
}

/// Checks a git address before it is cloned.
pub fn check_git_url(url: &str) -> (r: Result<(), String>)
    ensures
        match git_url_error(url@) {
            Some(e) => r matches Err(m) && m@ == e,
            None => r is Ok,
        },
{
    proof {
        crate::text::lemma_first_index(suspicious_patterns(), |p: Seq<char>| contains_seq(url@, p), 0);
    }
    let mut i: usize = 0;
    while i < 7
        invariant
            i <= 7,
            crate::text::first_index(suspicious_patterns(), |p: Seq<char>| contains_seq(url@, p), 0)
                == crate::text::first_index(suspicious_patterns(), |p: Seq<char>| contains_seq(url@, p), i as int),
        decreases 7 - i,
    {
        let p = suspicious_pattern(i);
        if str_contains(url, p) {
            let mut m = owned("URL contains suspicious pattern '");
            push_str(&mut m, p);
            push_str(&mut m, "': command injection attempt blocked");
            return Err(m);
        }
        i = i + 1;
    }
    let l = to_lowercase(url);
    if !(str_starts_with(l.as_str(), "https://") || str_starts_with(l.as_str(), "http://") || str_starts_with(
        l.as_str(),
        "git@",
    )) {
        let mut m = owned("URL must use https://, http://, or git@ protocol. Got: ");
        push_str(&mut m, url);
        return Err(m);
    }
    Ok(())
}

/// The `git` arguments that clone `url` into `dest`.
pub fn git_clone_args(url: &str, dest: &str) -> (r: Vec<String>)
    ensures
        views(r@) == seq!["clone"@, "--depth"@, "1"@, "--"@, url@, dest@],
{
    let r = vec![owned("clone"), owned("--depth"), owned("1"), owned("--"), owned(url), owned(dest)];
    assert(views(r@) =~= seq!["clone"@, "--depth"@, "1"@, "--"@, url@, dest@]);
    r
}

/// The directory plugins of a scope are installed in, under the user's
/// configuration directory or the project; local plugins are not
/// installed.
pub fn plugins_dir_for_scope(scope: PluginScope, user_plugins_dir: &str, project_plugins_dir: &str) -> (r: Result<String, String>)
    ensures
        scope == PluginScope::User ==> (r matches Ok(d) && d@ == user_plugins_dir@),
        scope == PluginScope::Project ==> (r matches Ok(d) && d@ == project_plugins_dir@),
        scope == PluginScope::Local ==> (r matches Err(e) && e@ == "Local scope plugins cannot be installed"@),
{
    match scope {
        PluginScope::User => Ok(owned(user_plugins_dir)),
        PluginScope::Project => Ok(owned(project_plugins_dir)),
        PluginScope::Local => Err(owned("Local scope plugins cannot be installed")),
    }
}

// ---------------------------------------------------------------------------
// Validation, marketplace, built-in plugins
// ---------------------------------------------------------------------------

/// A problem found in a plugin.
pub struct PluginValidationError {
    pub code: String,
    pub message: String,
}

/// A plugin offered by a marketplace.
pub struct MarketplacePlugin {
    pub name: String,
    pub version: String,
    pub description: String,
    pub author: Option<String>,
    pub downloads: u64,
}

/// The problems of a plugin as (code, message) pairs: no manifest file;
/// else a manifest that does not parse; else a missing name or version,
/// and each pre-tool, post-tool or session-start hook with neither a
/// command, a prompt nor an address.
pub open spec fn manifest_problems(found: bool, parsed: Result<PluginManifest, String>) -> Seq<(Seq<char>, Seq<char>)> {
    if !found {
        seq![("manifest-not-found"@, "No plugin.json or plugin.toml manifest found"@)]
    } else {
        match parsed {
            Err(e) => seq![("manifest-parse-error"@, "Failed to parse manifest: "@ + e@)],
            Ok(m) => (if m.name@.len() == 0 {
                seq![("manifest-validation-error"@, "Plugin name is required"@)]
            } else {
                Seq::empty()
            }) + (if m.version@.len() == 0 {
                seq![("manifest-validation-error"@, "Plugin version is required"@)]
            } else {
                Seq::empty()
            }) + hook_problems(m.hooks.pre_tool_use@ + m.hooks.post_tool_use@ + m.hooks.session_start@),
        }
    }
}

/// One problem per hook that has neither a command, a prompt nor an
/// address.
pub open spec fn hook_problems(hs: Seq<HookDef>) -> Seq<(Seq<char>, Seq<char>)>
    decreases hs.len(),
{
    if hs.len() == 0 {
        Seq::empty()
    } else {
        let h = hs.last();
        hook_problems(hs.drop_last()) + if h.command is None && h.prompt is None && h.url is None {
            seq![("manifest-validation-error"@, "Hook must have command, prompt, or url defined"@)]
        } else {
            Seq::empty()
        }
    }
}

/// Problems as values.
pub open spec fn problem_views(v: Seq<PluginValidationError>) -> Seq<(Seq<char>, Seq<char>)> {
    v.map_values(|e: PluginValidationError| (e.code@, e.message@))
}

fn problem(out: &mut Vec<PluginValidationError>, code: &str, message: String)
    ensures
        problem_views(final(out)@) == problem_views(old(out)@).push((code@, message@)),
{
    let ghost before = problem_views(out@);
    out.push(PluginValidationError { code: owned(code), message });
    assert(problem_views(out@) =~= before.push((code@, message@)));
}

fn check_hooks(out: &mut Vec<PluginValidationError>, hs: &Vec<HookDef>)
    ensures
        problem_views(final(out)@) == problem_views(old(out)@) + hook_problems(hs@),
{
    let ghost start = problem_views(out@);
    let mut i: usize = 0;
    while i < hs.len()
        invariant
            i <= hs@.len(),
            problem_views(out@) == start + hook_problems(hs@.subrange(0, i as int)),
        decreases hs.len() - i,
    {
        proof {
            let pre = hs@.subrange(0, i + 1);
            assert(pre.drop_last() =~= hs@.subrange(0, i as int));
            assert(pre.last() == hs@[i as int]);
        }
        let h = &hs[i];
        if h.command.is_none() && h.prompt.is_none() && h.url.is_none() {
            problem(out, "manifest-validation-error", owned("Hook must have command, prompt, or url defined"));
        }
        i = i + 1;
    }
    assert(hs@.subrange(0, hs@.len() as int) =~= hs@);
}

proof fn lemma_hook_problems_append(a: Seq<HookDef>, b: Seq<HookDef>)
    ensures
        hook_problems(a + b) == hook_problems(a) + hook_problems(b),
    decreases b.len(),
{
    if b.len() == 0 {
        assert(a + b =~= a);
    } else {
        lemma_hook_problems_append(a, b.drop_last());
        assert((a + b).drop_last() =~= a + b.drop_last());
    }
}

impl PluginRegistry {
    /// The problems of a plugin; `found` is whether a manifest file exists,
    /// `parsed` what reading it gave.
    pub fn validate_plugin(found: bool, parsed: Result<PluginManifest, String>) -> (r: Vec<PluginValidationError>)
        ensures
            problem_views(r@) == manifest_problems(found, parsed),
    {
        let mut out: Vec<PluginValidationError> = Vec::new();
        if !found {
            problem(&mut out, "manifest-not-found", owned("No plugin.json or plugin.toml manifest found"));
            return out;
        }
        match parsed {
            Err(e) => {
                let mut m = owned("Failed to parse manifest: ");
                push_str(&mut m, e.as_str());
                problem(&mut out, "manifest-parse-error", m);
                out
            },
            Ok(m) => {
                if m.name.as_str().is_empty() {
                    problem(&mut out, "manifest-validation-error", owned("Plugin name is required"));
                }
                if m.version.as_str().is_empty() {
                    problem(&mut out, "manifest-validation-error", owned("Plugin version is required"));
                }
                check_hooks(&mut out, &m.hooks.pre_tool_use);
                check_hooks(&mut out, &m.hooks.post_tool_use);
                check_hooks(&mut out, &m.hooks.session_start);
                proof {
                    lemma_hook_problems_append(m.hooks.pre_tool_use@, m.hooks.post_tool_use@);
                    lemma_hook_problems_append(m.hooks.pre_tool_use@ + m.hooks.post_tool_use@, m.hooks.session_start@);
                    assert(problem_views(out@) =~= manifest_problems(found, Ok::<PluginManifest, String>(m)));
                }
                out
            },
        }
    }
}

impl PluginRegistry {
    /// The plugins a marketplace offers: none are fetched yet.
    pub fn list_marketplace_plugins(marketplace: &str) -> (r: Result<Vec<MarketplacePlugin>, String>)
        ensures
            r matches Ok(v) && v@.len() == 0,
    {
        Ok(Vec::new())
    }
}

/// A plugin that ships with the assistant.
pub struct BuiltinPlugin {
    pub name: &'static str,
    pub description: &'static str,
    pub version: &'static str,
    pub skills: Vec<Skill>,
    pub hooks: HookConfig,
}

fn skill_for(name: &str, description: &str, when: &str) -> (r: Skill)
    ensures
        r@ == (SkillView { when_to_use: Some(when@), ..plain_skill(name@, description@) }),
{
    let mut s = skill_named(name, owned(description));
    s.when_to_use = Some(owned(when));
    s
}

/// The built-in plugins: the default one, at the assistant's `version`,
/// with the help and debug skills and a hook that greets each session.
pub fn get_builtin_plugins(version: &'static str) -> (r: Vec<BuiltinPlugin>)
    ensures
        r@.len() == 1,
        r@[0].name@ == "builtin-default"@,
        r@[0].description@ == "Default skills and hooks for Code Buddy"@,
        r@[0].version@ == version@,
        skill_views(r@[0].skills@) == seq![
            (SkillView {
                when_to_use: Some("When you need help understanding how to use Code Buddy"@),
                ..plain_skill("help"@, "Get help with Code Buddy"@)
            }),
            (SkillView {
                when_to_use: Some("When you need to troubleshoot issues"@),
                ..plain_skill("debug"@, "Enable debug mode"@)
            }),
        ],
        r@[0].hooks.session_start@.len() == 1,
        r@[0].hooks.session_start@[0].hook_type == HookType::Command,
        opt_view(r@[0].hooks.session_start@[0].command) == Some("echo 'Code Buddy initialized'"@),
        forall|i: int| 0 <= i < 16 && i != 6 ==> (#[trigger] hook_lists(r@[0].hooks)[i]).len() == 0,
{
    let help = skill_for("help", "Get help with Code Buddy", "When you need help understanding how to use Code Buddy");
    let debug = skill_for("debug", "Enable debug mode", "When you need to troubleshoot issues");
    let skills = vec![help, debug];
    let mut greet = HookDef::default();
    greet.command = Some(owned("echo 'Code Buddy initialized'"));
    let mut hooks = HookConfig::default();
    assert(hook_lists(hooks)[6].len() == 0);
    let ghost h0 = hook_lists(hooks);
    hooks.session_start.push(greet);
    proof {
        assert(hook_views(hooks.session_start@).len() == 1);
        assert forall|i: int| 0 <= i < 16 && i != 6 implies (#[trigger] hook_lists(hooks)[i]).len() == 0 by {
            assert(h0[i].len() == 0);
            assert(hook_lists(hooks)[i] == h0[i]);
        }
    }
    let p = BuiltinPlugin {
        name: "builtin-default",
        description: "Default skills and hooks for Code Buddy",
        version,
        skills,
        hooks,
    };
    assert(skill_views(p.skills@) =~= seq![
        SkillView {
            when_to_use: Some("When you need help understanding how to use Code Buddy"@),
            ..plain_skill("help"@, "Get help with Code Buddy"@)
        },
        SkillView {
            when_to_use: Some("When you need to troubleshoot issues"@),
            ..plain_skill("debug"@, "Enable debug mode"@)
        },
    ]);
    let r = vec![p];
    assert(r@[0].hooks.session_start@.len() == 1);
    r
}

} // verus!
