//! Hooks: user commands run at points of the assistant's lifecycle.
//!
//! A hook names an event (`before_write`, `after_write`, `before_submit`,
//! `after_submit`, `on_error`, `on_compact`, `before_command`,
//! `after_command`, `on_start`, `on_exit`) and a command; the command's
//! `{event}`, `{path}`, `{tool}`, `{command}`, `{error}` and `{cwd}` are
//! filled in from the context before it runs. Running the command happens
//! outside this crate; this module decides which hooks run and in what order.

pub mod examples;

use vstd::prelude::*;
use crate::strmap::StringMap;
use crate::text::{contains_seq, occurs_at, owned, replace_all, replace_str, starts_with, str_eq};

verus! {

/// Hook event types.
#[derive(Clone, Copy, Debug, PartialEq, Eq, Structural)]
pub enum HookEvent {
    /// Before writing or modifying files
    BeforeWrite,
    /// After writing or modifying files
    AfterWrite,
    /// Before submitting tool results
    BeforeSubmit,
    /// After submitting tool results
    AfterSubmit,
    /// When an error occurs
    OnError,
    /// When context is compacted
    OnCompact,
    /// Before running a command
    BeforeCommand,
    /// After running a command
    AfterCommand,
    /// On session start
    OnStart,
    /// On session end
    OnExit,
}

/// Configuration name of an event.
pub open spec fn event_name(e: HookEvent) -> Seq<char> {
    match e {
        HookEvent::BeforeWrite => "before_write"@,
        HookEvent::AfterWrite => "after_write"@,
        HookEvent::BeforeSubmit => "before_submit"@,
        HookEvent::AfterSubmit => "after_submit"@,
        HookEvent::OnError => "on_error"@,
        HookEvent::OnCompact => "on_compact"@,
        HookEvent::BeforeCommand => "before_command"@,
        HookEvent::AfterCommand => "after_command"@,
        HookEvent::OnStart => "on_start"@,
        HookEvent::OnExit => "on_exit"@,
    }
}

/// The event that a configuration name denotes.
pub open spec fn event_of_name(s: Seq<char>) -> Option<HookEvent> {
    if s == "before_write"@ {
        Some(HookEvent::BeforeWrite)
    } else if s == "after_write"@ {
        Some(HookEvent::AfterWrite)
    } else if s == "before_submit"@ {
        Some(HookEvent::BeforeSubmit)
    } else if s == "after_submit"@ {
        Some(HookEvent::AfterSubmit)
    } else if s == "on_error"@ {
        Some(HookEvent::OnError)
    } else if s == "on_compact"@ {
        Some(HookEvent::OnCompact)
    } else if s == "before_command"@ {
        Some(HookEvent::BeforeCommand)
    } else if s == "after_command"@ {
        Some(HookEvent::AfterCommand)
    } else if s == "on_start"@ {
        Some(HookEvent::OnStart)
    } else if s == "on_exit"@ {
        Some(HookEvent::OnExit)
    } else {
        None
    }
}

impl HookEvent {
    /// Configuration name of the event.
    pub fn as_str(&self) -> (r: &'static str)
        ensures
            r@ == event_name(*self),
    {
        match self {
            HookEvent::BeforeWrite => "before_write",
            HookEvent::AfterWrite => "after_write",
            HookEvent::BeforeSubmit => "before_submit",
            HookEvent::AfterSubmit => "after_submit",
            HookEvent::OnError => "on_error",
            HookEvent::OnCompact => "on_compact",
            HookEvent::BeforeCommand => "before_command",
            HookEvent::AfterCommand => "after_command",
            HookEvent::OnStart => "on_start",
            HookEvent::OnExit => "on_exit",
        }
    }

    /// The event named `s`, if any.
    pub fn from_str(s: &str) -> (r: Option<Self>)
        ensures
            r == event_of_name(s@),
    {
        proof {
            reveal_strlit("before_write");
            reveal_strlit("after_write");
            reveal_strlit("before_submit");
            reveal_strlit("after_submit");
            reveal_strlit("on_error");
            reveal_strlit("on_compact");
            reveal_strlit("before_command");
            reveal_strlit("after_command");
            reveal_strlit("on_start");
            reveal_strlit("on_exit");
        }
        if str_eq(s, "before_write") {
            Some(HookEvent::BeforeWrite)
        } else if str_eq(s, "after_write") {
            Some(HookEvent::AfterWrite)
        } else if str_eq(s, "before_submit") {
            Some(HookEvent::BeforeSubmit)
        } else if str_eq(s, "after_submit") {
            Some(HookEvent::AfterSubmit)
        } else if str_eq(s, "on_error") {
            Some(HookEvent::OnError)
        } else if str_eq(s, "on_compact") {
            Some(HookEvent::OnCompact)
        } else if str_eq(s, "before_command") {
            Some(HookEvent::BeforeCommand)
        } else if str_eq(s, "after_command") {
            Some(HookEvent::AfterCommand)
        } else if str_eq(s, "on_start") {
            Some(HookEvent::OnStart)
        } else if str_eq(s, "on_exit") {
            Some(HookEvent::OnExit)
        } else {
            None
        }
    }
}

/// Every event is found again from its name.
pub proof fn lemma_event_name_roundtrip(e: HookEvent)
    ensures
        event_of_name(event_name(e)) == Some(e),
{
    reveal_strlit("before_write");
    reveal_strlit("after_write");
    reveal_strlit("before_submit");
    reveal_strlit("after_submit");
    reveal_strlit("on_error");
    reveal_strlit("on_compact");
    reveal_strlit("before_command");
    reveal_strlit("after_command");
    reveal_strlit("on_start");
    reveal_strlit("on_exit");
    match e {
        HookEvent::BeforeWrite => {
        },
        HookEvent::AfterWrite => {
            assert("after_write"@.len() != "before_write"@.len());
        },
        HookEvent::BeforeSubmit => {
            assert("before_submit"@.len() != "before_write"@.len());
            assert("before_submit"@.len() != "after_write"@.len());
        },
        HookEvent::AfterSubmit => {
            assert("after_submit"@[0] != "before_write"@[0]);
            assert("after_submit"@.len() != "after_write"@.len());
            assert("after_submit"@.len() != "before_submit"@.len());
        },
        HookEvent::OnError => {
            assert("on_error"@.len() != "before_write"@.len());
            assert("on_error"@.len() != "after_write"@.len());
            assert("on_error"@.len() != "before_submit"@.len());
            assert("on_error"@.len() != "after_submit"@.len());
        },
        HookEvent::OnCompact => {
            assert("on_compact"@.len() != "before_write"@.len());
            assert("on_compact"@.len() != "after_write"@.len());
            assert("on_compact"@.len() != "before_submit"@.len());
            assert("on_compact"@.len() != "after_submit"@.len());
            assert("on_compact"@.len() != "on_error"@.len());
        },
        HookEvent::BeforeCommand => {
            assert("before_command"@.len() != "before_write"@.len());
            assert("before_command"@.len() != "after_write"@.len());
            assert("before_command"@.len() != "before_submit"@.len());
            assert("before_command"@.len() != "after_submit"@.len());
            assert("before_command"@.len() != "on_error"@.len());
            assert("before_command"@.len() != "on_compact"@.len());
        },
        HookEvent::AfterCommand => {
            assert("after_command"@.len() != "before_write"@.len());
            assert("after_command"@.len() != "after_write"@.len());
            assert("after_command"@[0] != "before_submit"@[0]);
            assert("after_command"@.len() != "after_submit"@.len());
            assert("after_command"@.len() != "on_error"@.len());
            assert("after_command"@.len() != "on_compact"@.len());
            assert("after_command"@.len() != "before_command"@.len());
        },
        HookEvent::OnStart => {
            assert("on_start"@.len() != "before_write"@.len());
            assert("on_start"@.len() != "after_write"@.len());
            assert("on_start"@.len() != "before_submit"@.len());
            assert("on_start"@.len() != "after_submit"@.len());
            assert("on_start"@[3] != "on_error"@[3]);
            assert("on_start"@.len() != "on_compact"@.len());
            assert("on_start"@.len() != "before_command"@.len());
            assert("on_start"@.len() != "after_command"@.len());
        },
        HookEvent::OnExit => {
            assert("on_exit"@.len() != "before_write"@.len());
            assert("on_exit"@.len() != "after_write"@.len());
            assert("on_exit"@.len() != "before_submit"@.len());
            assert("on_exit"@.len() != "after_submit"@.len());
            assert("on_exit"@.len() != "on_error"@.len());
            assert("on_exit"@.len() != "on_compact"@.len());
            assert("on_exit"@.len() != "before_command"@.len());
            assert("on_exit"@.len() != "after_command"@.len());
            assert("on_exit"@.len() != "on_start"@.len());
        },
    }
}

/// A name denotes an event only when it is that event's name.
pub proof fn lemma_event_of_name_sound(s: Seq<char>)
    ensures
        event_of_name(s) matches Some(e) ==> event_name(e) == s,
{
}

/// Distinct events have distinct names.
pub proof fn lemma_event_name_injective(a: HookEvent, b: HookEvent)
    ensures
        event_name(a) == event_name(b) ==> a == b,
{
    lemma_event_name_roundtrip(a);
    lemma_event_name_roundtrip(b);
}

/// A hook definition.
pub struct Hook {
    /// Unique identifier.
    pub id: Option<String>,
    /// Event that triggers this hook.
    pub event: HookEvent,
    /// Command to execute.
    pub command: String,
    /// Whether the hook is enabled.
    pub enabled: bool,
    /// Working directory for the command.
    pub working_dir: Option<String>,
    /// Environment variables to pass.
    pub env: Option<StringMap>,
    /// Timeout in seconds (0 = no timeout).
    pub timeout: u64,
    /// Continue with the next hook when this one fails.
    pub continue_on_failure: bool,
    /// Description for the hook.
    pub description: Option<String>,
}

/// Result of running a hook.
pub struct HookResult {
    pub success: bool,
    pub stdout: String,
    pub stderr: String,
    pub exit_code: i32,
    pub duration_ms: u64,
}

/// The id of the hook is `id`.
pub open spec fn has_id(h: Hook, id: Seq<char>) -> bool {
    h.id matches Some(x) && x@ == id
}

/// The hooks of `hs` that are enabled and belong to `event`, in order.
pub open spec fn hooks_for(hs: Seq<Hook>, event: HookEvent) -> Seq<Hook>
    decreases hs.len(),
{
    if hs.len() == 0 {
        Seq::empty()
    } else if hs.last().event == event && hs.last().enabled {
        hooks_for(hs.drop_last(), event).push(hs.last())
    } else {
        hooks_for(hs.drop_last(), event)
    }
}

/// The hooks of `hs` whose id is not `id`, in order.
pub open spec fn without_id(hs: Seq<Hook>, id: Seq<char>) -> Seq<Hook>
    decreases hs.len(),
{
    if hs.len() == 0 {
        Seq::empty()
    } else if has_id(hs.last(), id) {
        without_id(hs.drop_last(), id)
    } else {
        without_id(hs.drop_last(), id).push(hs.last())
    }
}

/// Registry of hooks.
pub struct HooksManager {
    hooks: Vec<Hook>,
}

impl HooksManager {
    /// The registered hooks, in order.
    pub closed spec fn hooks_spec(&self) -> Seq<Hook> {
        self.hooks@
    }

    /// A manager with no hooks.
    pub fn new() -> (r: Self)
        ensures
            r.hooks_spec().len() == 0,
    {
        HooksManager { hooks: Vec::new() }
    }

    /// A manager holding `hooks`, in order.
    pub fn from_hooks(hooks: Vec<Hook>) -> (r: Self)
        ensures
            r.hooks_spec() == hooks@,
    {
        HooksManager { hooks }
    }

    /// Registers `hook` after the others.
    pub fn add(&mut self, hook: Hook)
        ensures
            final(self).hooks_spec() == old(self).hooks_spec().push(hook),
    {
        self.hooks.push(hook);
    }

    /// Removes every hook with id `id`; true when one was removed.
    pub fn remove(&mut self, id: &str) -> (r: bool)
        ensures
            final(self).hooks_spec() == without_id(old(self).hooks_spec(), id@),
            r == (final(self).hooks_spec().len() < old(self).hooks_spec().len()),
    {
        let mut kept: Vec<Hook> = Vec::new();
        let mut old_hooks: Vec<Hook> = Vec::new();
        std::mem::swap(&mut old_hooks, &mut self.hooks);
        let ghost all = old_hooks@;
        let n = old_hooks.len();
        let mut i: usize = 0;
        while old_hooks.len() > 0
            invariant
                old_hooks@.len() + i == n,
                n == all.len(),
                old_hooks@ == all.subrange(i as int, n as int),
                kept@ == without_id(all.subrange(0, i as int), id@),
            decreases old_hooks.len(),
        {
            let h = old_hooks.remove(0);
            assert(all.subrange(0, i + 1).drop_last() =~= all.subrange(0, i as int));
            assert(all.subrange(0, i + 1).last() == h);
            let matches = match &h.id {
                Some(x) => str_eq(x.as_str(), id),
                None => false,
            };
            if !matches {
                kept.push(h);
            }
            i = i + 1;
            assert(old_hooks@ =~= all.subrange(i as int, n as int));
        }
        assert(all.subrange(0, n as int) =~= all);
        proof {
            lemma_without_id_len(all, id@);
        }
        let removed = kept.len() < n;
        self.hooks = kept;
        removed
    }

    /// Enabled hooks of `event`, in registration order.
    pub fn get_hooks(&self, event: &HookEvent) -> (r: Vec<&Hook>)
        ensures
            r@.map_values(|h: &Hook| *h) == hooks_for(self.hooks_spec(), *event),
    {
        let mut r: Vec<&Hook> = Vec::new();
        let mut i: usize = 0;
        while i < self.hooks.len()
            invariant
                i <= self.hooks@.len(),
                r@.map_values(|h: &Hook| *h) == hooks_for(self.hooks@.subrange(0, i as int), *event),
            decreases self.hooks.len() - i,
        {
            assert(self.hooks@.subrange(0, i + 1).drop_last() =~= self.hooks@.subrange(0, i as int));
            assert(self.hooks@.subrange(0, i + 1).last() == self.hooks@[i as int]);
            let h = &self.hooks[i];
            if h.event == *event && h.enabled {
                let ghost before = r@;
                r.push(h);
                assert(r@.map_values(|h: &Hook| *h) =~= before.map_values(|h: &Hook| *h).push(*h));
            }
            i = i + 1;
        }
        assert(self.hooks@.subrange(0, i as int) =~= self.hooks@);
        r
    }

    /// All hooks, in registration order.
    pub fn get_all_hooks(&self) -> (r: &[Hook])
        ensures
            r@ == self.hooks_spec(),
    {
        self.hooks.as_slice()
    }

    /// Some enabled hook belongs to `event`.
    pub fn has_hooks(&self, event: &HookEvent) -> (r: bool)
        ensures
            r == (hooks_for(self.hooks_spec(), *event).len() > 0),
    {
        let hs = self.get_hooks(event);
        hs.len() > 0
    }
}

proof fn lemma_without_id_len(hs: Seq<Hook>, id: Seq<char>)
    ensures
        without_id(hs, id).len() <= hs.len(),
        without_id(hs, id).len() == hs.len() <==> forall|i: int| 0 <= i < hs.len() ==> !has_id(hs[i], id),
    decreases hs.len(),
{
    if hs.len() > 0 {
        lemma_without_id_len(hs.drop_last(), id);
        if without_id(hs, id).len() == hs.len() {
            assert forall|i: int| 0 <= i < hs.len() implies !has_id(hs[i], id) by {
                if i < hs.len() - 1 {
                    assert(hs.drop_last()[i] == hs[i]);
                }
            }
        }
        if forall|i: int| 0 <= i < hs.len() ==> !has_id(hs[i], id) {
            assert forall|i: int| 0 <= i < hs.drop_last().len() implies !has_id(hs.drop_last()[i], id) by {
                assert(hs.drop_last()[i] == hs[i]);
            }
            assert(!has_id(hs[hs.len() - 1], id));
        }
    }
}

/// A hook run stops the rest when it failed and its hook does not continue
/// on failure.
pub fn stops_after(result_success: bool, hook: &Hook) -> (r: bool)
    ensures
        r == (!result_success && !hook.continue_on_failure),
{
    !result_success && !hook.continue_on_failure
}

/// The directory a hook runs in: its own directory expanded in the
/// context, else the context's directory.
pub open spec fn hook_dir(c: HookContext, h: Hook) -> Option<Seq<char>> {
    match h.working_dir {
        Some(d) => Some(expand_spec(c, d@)),
        None => crate::text::opt_view(c.cwd),
    }
}

/// `res` is a result of running hook `h` with `run`, handed the hook, its
/// command expanded in context `c` and the directory to run it in.
pub open spec fn ran_hook<F: Fn(&Hook, &str, Option<String>) -> HookResult>(
    run: F,
    c: HookContext,
    h: Hook,
    res: HookResult,
) -> bool {
    exists|cmd: &str, dir: Option<String>|
        cmd@ == expand_spec(c, h.command@) && crate::text::opt_view(dir) == hook_dir(c, h) && #[trigger] run.ensures(
            (&h, cmd, dir),
            res,
        )
}

impl HooksManager {
    /// Runs the enabled hooks of `event` in order, collecting their results,
    /// and stops after the first failure of a hook that does not continue on
    /// failure. `run` runs one hook: it gets the hook, its command expanded
    /// in `context`, and the directory to run it in.
    pub fn run_hooks_sync<F: Fn(&Hook, &str, Option<String>) -> HookResult>(
        &self,
        event: &HookEvent,
        context: &HookContext,
        run: F,
    ) -> (r: Vec<HookResult>)
        requires
            forall|h: &Hook, cmd: &str, dir: Option<String>| #[trigger] run.requires((h, cmd, dir)),
        ensures
            r@.len() <= hooks_for(self.hooks_spec(), *event).len(),
            forall|i: int|
                0 <= i < r@.len() ==> ran_hook(run, *context, hooks_for(self.hooks_spec(), *event)[i], #[trigger] r@[i]),
            forall|i: int|
                0 <= i < r@.len() - 1 ==> !(!(#[trigger] r@[i]).success
                    && !hooks_for(self.hooks_spec(), *event)[i].continue_on_failure),
            r@.len() < hooks_for(self.hooks_spec(), *event).len() ==> r@.len() > 0 && !r@.last().success
                && !hooks_for(self.hooks_spec(), *event)[r@.len() - 1].continue_on_failure,
    {
        let hooks = self.get_hooks(event);
        let ghost hs = hooks_for(self.hooks_spec(), *event);
        assert(forall|k: int| 0 <= k < hooks@.len() ==> *hooks@[k] == hs[k]) by {
            assert forall|k: int| 0 <= k < hooks@.len() implies *hooks@[k] == hs[k] by {
                assert(hooks@.map_values(|h: &Hook| *h)[k] == *hooks@[k]);
            }
        }
        let mut results: Vec<HookResult> = Vec::new();
        let mut i: usize = 0;
        while i < hooks.len()
            invariant
                i <= hooks@.len(),
                hs == hooks_for(self.hooks_spec(), *event),
                hooks@.len() == hs.len(),
                forall|k: int| 0 <= k < hooks@.len() ==> *hooks@[k] == hs[k],
                forall|h: &Hook, cmd: &str, dir: Option<String>| #[trigger] run.requires((h, cmd, dir)),
                results@.len() == i,
                forall|k: int| 0 <= k < i ==> ran_hook(run, *context, hs[k], #[trigger] results@[k]),
                forall|k: int| 0 <= k < i ==> !(!(#[trigger] results@[k]).success && !hs[k].continue_on_failure),
            decreases hooks.len() - i,
        {
            let h = hooks[i];
            let cmd = context.expand(h.command.as_str());
            let dir = context.working_dir_for(h);
            let res = run(h, cmd.as_str(), dir);
            proof {
                assert(crate::text::opt_view(dir) == hook_dir(*context, *h));
                assert(ran_hook(run, *context, hs[i as int], res));
            }
            let stop = stops_after(res.success, h);
            results.push(res);
            if stop {
                return results;
            }
            i = i + 1;
        }
        results
    }
}

/// Context passed to hooks.
pub struct HookContext {
    /// Event type.
    pub event: String,
    /// File path (for write hooks).
    pub path: Option<String>,
    /// Tool name (for tool hooks).
    pub tool: Option<String>,
    /// Command (for command hooks).
    pub command: Option<String>,
    /// Error message (for error hooks).
    pub error: Option<String>,
    /// Session id.
    pub session_id: Option<String>,
    /// Current working directory.
    pub cwd: Option<String>,
    /// Additional metadata.
    pub metadata: Option<StringMap>,
}

/// `s` with `{name}` replaced by `v` when there is a value.
pub open spec fn fill(s: Seq<char>, name: Seq<char>, v: Option<String>) -> Seq<char> {
    match v {
        Some(x) => replace_all(s, name, x@),
        None => s,
    }
}

/// What `expand` makes of `template` in context `c`.
pub open spec fn expand_spec(c: HookContext, template: Seq<char>) -> Seq<char> {
    fill(
        fill(
            fill(
                fill(
                    fill(replace_all(template, "{event}"@, c.event@), "{path}"@, c.path),
                    "{tool}"@,
                    c.tool,
                ),
                "{command}"@,
                c.command,
            ),
            "{error}"@,
            c.error,
        ),
        "{cwd}"@,
        c.cwd,
    )
}

fn fill_opt(s: String, name: &str, v: &Option<String>) -> (r: String)
    requires
        name@.len() > 0,
    ensures
        r@ == fill(s@, name@, *v),
{
    match v {
        Some(x) => replace_str(s.as_str(), name, x.as_str()),
        None => s,
    }
}

impl HookContext {
    /// A context for `event` in working directory `cwd`, with nothing else set.
    pub fn new(event: &str, cwd: Option<String>) -> (r: Self)
        ensures
            r.event@ == event@,
            r.cwd == cwd,
            r.path is None && r.tool is None && r.command is None,
            r.error is None && r.session_id is None && r.metadata is None,
    {
        HookContext {
            event: owned(event),
            path: None,
            tool: None,
            command: None,
            error: None,
            session_id: None,
            cwd,
            metadata: None,
        }
    }

    /// Sets the file path.
    pub fn with_path(self, path: &str) -> (r: Self)
        ensures
            r == (HookContext { path: r.path, ..self }),
            r.path matches Some(p) && p@ == path@,
    {
        HookContext { path: Some(owned(path)), ..self }
    }

    /// Sets the tool name.
    pub fn with_tool(self, tool: &str) -> (r: Self)
        ensures
            r == (HookContext { tool: r.tool, ..self }),
            r.tool matches Some(t) && t@ == tool@,
    {
        HookContext { tool: Some(owned(tool)), ..self }
    }

    /// Sets the command.
    pub fn with_command(self, cmd: &str) -> (r: Self)
        ensures
            r == (HookContext { command: r.command, ..self }),
            r.command matches Some(c) && c@ == cmd@,
    {
        HookContext { command: Some(owned(cmd)), ..self }
    }

    /// Sets the error message.
    pub fn with_error(self, err: &str) -> (r: Self)
        ensures
            r == (HookContext { error: r.error, ..self }),
            r.error matches Some(e) && e@ == err@,
    {
        HookContext { error: Some(owned(err)), ..self }
    }

    /// Sets the session id.
    pub fn with_session(self, session: &str) -> (r: Self)
        ensures
            r == (HookContext { session_id: r.session_id, ..self }),
            r.session_id matches Some(s) && s@ == session@,
    {
        HookContext { session_id: Some(owned(session)), ..self }
    }

    /// Adds `key = value` to the metadata.
    pub fn with_metadata(self, key: &str, value: &str) -> (r: Self)
        ensures
            r == (HookContext { metadata: r.metadata, ..self }),
            r.metadata matches Some(m) && m.map_spec() == (match self.metadata {
                Some(old) => old.map_spec(),
                None => Map::<Seq<char>, Seq<char>>::empty(),
            }).insert(key@, value@),
    {
        let mut s = self;
        let mut m = match s.metadata {
            Some(m) => m,
            None => StringMap::new(),
        };
        m.insert(key, value);
        HookContext { metadata: Some(m), ..s }
    }

    /// `template` with `{event}`, `{path}`, `{tool}`, `{command}`, `{error}`
    /// and `{cwd}` replaced by the context's values; placeholders without a
    /// value stay.
    pub fn expand(&self, template: &str) -> (r: String)
        ensures
            r@ == expand_spec(*self, template@),
    {
        proof {
            reveal_strlit("{event}");
            reveal_strlit("{path}");
            reveal_strlit("{tool}");
            reveal_strlit("{command}");
            reveal_strlit("{error}");
            reveal_strlit("{cwd}");
        }
        let r = replace_str(template, "{event}", self.event.as_str());
        let r = fill_opt(r, "{path}", &self.path);
        let r = fill_opt(r, "{tool}", &self.tool);
        let r = fill_opt(r, "{command}", &self.command);
        let r = fill_opt(r, "{error}", &self.error);
        fill_opt(r, "{cwd}", &self.cwd)
    }

    /// Working directory of a hook run: its own directory expanded in this
    /// context, else the context's directory.
    pub fn working_dir_for(&self, hook: &Hook) -> (r: Option<String>)
        ensures
            match hook.working_dir {
                Some(d) => r matches Some(x) && x@ == expand_spec(*self, d@),
                None => r == self.cwd,
            },
    {
        match &hook.working_dir {
            Some(d) => Some(self.expand(d.as_str())),
            None => match &self.cwd {
                Some(c) => Some(c.clone()),
                None => None,
            },
        }
    }
}


/// `v`, or `d` when there is none.
pub open spec fn value_or(v: Option<String>, d: Seq<char>) -> Seq<char> {
    match v {
        Some(x) => x@,
        None => d,
    }
}

/// `v` holds none of the placeholders.
pub open spec fn free_of_placeholders(v: Seq<char>) -> bool {
    &&& !contains_seq(v, "{event}"@)
    &&& !contains_seq(v, "{path}"@)
    &&& !contains_seq(v, "{tool}"@)
    &&& !contains_seq(v, "{command}"@)
    &&& !contains_seq(v, "{error}"@)
    &&& !contains_seq(v, "{cwd}"@)
}

proof fn lemma_replace_absent(s: Seq<char>, p: Seq<char>, r: Seq<char>)
    requires
        p.len() > 0,
        !contains_seq(s, p),
    ensures
        replace_all(s, p, r) == s,
    decreases s.len(),
{
    if s.len() >= p.len() {
        if starts_with(s, p) {
            assert(occurs_at(s, p, 0));
        } else {
            let t = s.drop_first();
            assert(!contains_seq(t, p)) by {
                if contains_seq(t, p) {
                    let i = choose|i: int| occurs_at(t, p, i);
                    assert(s.subrange(i + 1, i + 1 + p.len()) =~= t.subrange(i, i + p.len()));
                    assert(occurs_at(s, p, i + 1));
                }
            }
            lemma_replace_absent(t, p, r);
            assert(s =~= seq![s[0]] + t);
        }
    }
}

proof fn lemma_replace_step(s: Seq<char>, p: Seq<char>, r: Seq<char>)
    requires
        p.len() > 0,
    ensures
        !contains_seq(s, p) ==> replace_all(s, p, r) == s,
        s == p ==> replace_all(s, p, r) == r,
{
    if !contains_seq(s, p) {
        lemma_replace_absent(s, p, r);
    }
    if s == p {
        assert(s.subrange(0, p.len() as int) =~= p);
        let rest = s.subrange(p.len() as int, s.len() as int);
        assert(rest.len() == 0);
        assert(replace_all(rest, p, r) == rest);
        assert(r + rest =~= r);
    }
}

proof fn lemma_fill_step(s: Seq<char>, name: Seq<char>, v: Option<String>)
    requires
        name.len() > 0,
    ensures
        !contains_seq(s, name) ==> fill(s, name, v) == s,
        s == name ==> fill(s, name, v) == value_or(v, name),
{
    match v {
        Some(x) => lemma_replace_step(s, name, x@),
        None => {},
    }
}

proof fn lemma_brace_word_not_in(s: Seq<char>, p: Seq<char>, k: int)
    requires
        0 < k < s.len(),
        k < p.len(),
        p[0] == '{',
        s[k] != p[k],
        forall|i: int| 0 < i < s.len() ==> s[i] != '{',
    ensures
        !contains_seq(s, p),
{
    if contains_seq(s, p) {
        let i = choose|i: int| occurs_at(s, p, i);
        assert(s.subrange(i, i + p.len())[0] == p[0]);
        assert(s[i] == '{');
        assert(s.subrange(0, p.len() as int)[k] == p[k]);
    }
}

proof fn lemma_placeholders_distinct()
    ensures
        !contains_seq("{event}"@, "{path}"@),
        !contains_seq("{event}"@, "{tool}"@),
        !contains_seq("{event}"@, "{command}"@),
        !contains_seq("{event}"@, "{error}"@),
        !contains_seq("{event}"@, "{cwd}"@),
        !contains_seq("{path}"@, "{event}"@),
        !contains_seq("{path}"@, "{tool}"@),
        !contains_seq("{path}"@, "{command}"@),
        !contains_seq("{path}"@, "{error}"@),
        !contains_seq("{path}"@, "{cwd}"@),
        !contains_seq("{tool}"@, "{event}"@),
        !contains_seq("{tool}"@, "{path}"@),
        !contains_seq("{tool}"@, "{command}"@),
        !contains_seq("{tool}"@, "{error}"@),
        !contains_seq("{tool}"@, "{cwd}"@),
        !contains_seq("{command}"@, "{event}"@),
        !contains_seq("{command}"@, "{path}"@),
        !contains_seq("{command}"@, "{tool}"@),
        !contains_seq("{command}"@, "{error}"@),
        !contains_seq("{command}"@, "{cwd}"@),
        !contains_seq("{error}"@, "{event}"@),
        !contains_seq("{error}"@, "{path}"@),
        !contains_seq("{error}"@, "{tool}"@),
        !contains_seq("{error}"@, "{command}"@),
        !contains_seq("{error}"@, "{cwd}"@),
        !contains_seq("{cwd}"@, "{event}"@),
        !contains_seq("{cwd}"@, "{path}"@),
        !contains_seq("{cwd}"@, "{tool}"@),
        !contains_seq("{cwd}"@, "{command}"@),
        !contains_seq("{cwd}"@, "{error}"@),
{
    reveal_strlit("{event}");
    reveal_strlit("{path}");
    reveal_strlit("{tool}");
    reveal_strlit("{command}");
    reveal_strlit("{error}");
    reveal_strlit("{cwd}");
    lemma_brace_word_not_in("{event}"@, "{path}"@, 1);
    lemma_brace_word_not_in("{event}"@, "{tool}"@, 1);
    lemma_brace_word_not_in("{event}"@, "{command}"@, 1);
    lemma_brace_word_not_in("{event}"@, "{error}"@, 2);
    lemma_brace_word_not_in("{event}"@, "{cwd}"@, 1);
    lemma_brace_word_not_in("{path}"@, "{event}"@, 1);
    lemma_brace_word_not_in("{path}"@, "{tool}"@, 1);
    lemma_brace_word_not_in("{path}"@, "{command}"@, 1);
    lemma_brace_word_not_in("{path}"@, "{error}"@, 1);
    lemma_brace_word_not_in("{path}"@, "{cwd}"@, 1);
    lemma_brace_word_not_in("{tool}"@, "{event}"@, 1);
    lemma_brace_word_not_in("{tool}"@, "{path}"@, 1);
    lemma_brace_word_not_in("{tool}"@, "{command}"@, 1);
    lemma_brace_word_not_in("{tool}"@, "{error}"@, 1);
    lemma_brace_word_not_in("{tool}"@, "{cwd}"@, 1);
    lemma_brace_word_not_in("{command}"@, "{event}"@, 1);
    lemma_brace_word_not_in("{command}"@, "{path}"@, 1);
    lemma_brace_word_not_in("{command}"@, "{tool}"@, 1);
    lemma_brace_word_not_in("{command}"@, "{error}"@, 1);
    lemma_brace_word_not_in("{command}"@, "{cwd}"@, 2);
    lemma_brace_word_not_in("{error}"@, "{event}"@, 2);
    lemma_brace_word_not_in("{error}"@, "{path}"@, 1);
    lemma_brace_word_not_in("{error}"@, "{tool}"@, 1);
    lemma_brace_word_not_in("{error}"@, "{command}"@, 1);
    lemma_brace_word_not_in("{error}"@, "{cwd}"@, 1);
    lemma_brace_word_not_in("{cwd}"@, "{event}"@, 1);
    lemma_brace_word_not_in("{cwd}"@, "{path}"@, 1);
    lemma_brace_word_not_in("{cwd}"@, "{tool}"@, 1);
    lemma_brace_word_not_in("{cwd}"@, "{command}"@, 2);
    lemma_brace_word_not_in("{cwd}"@, "{error}"@, 1);
}

/// Each placeholder is filled with its own value from the context: expanding
/// `{event}` gives the event, and expanding `{path}`, `{tool}`,
/// `{command}`, `{error}` or `{cwd}` gives that value when the context has
/// one and leaves the placeholder as it is when it has none (given values
/// that hold no placeholders themselves).
pub proof fn lemma_expand_fills_own_value(c: HookContext)
    requires
        free_of_placeholders(c.event@),
        c.path matches Some(v) ==> free_of_placeholders(v@),
        c.tool matches Some(v) ==> free_of_placeholders(v@),
        c.command matches Some(v) ==> free_of_placeholders(v@),
        c.error matches Some(v) ==> free_of_placeholders(v@),
        c.cwd matches Some(v) ==> free_of_placeholders(v@),
    ensures
        expand_spec(c, "{event}"@) == c.event@,
        expand_spec(c, "{path}"@) == value_or(c.path, "{path}"@),
        expand_spec(c, "{tool}"@) == value_or(c.tool, "{tool}"@),
        expand_spec(c, "{command}"@) == value_or(c.command, "{command}"@),
        expand_spec(c, "{error}"@) == value_or(c.error, "{error}"@),
        expand_spec(c, "{cwd}"@) == value_or(c.cwd, "{cwd}"@),
{
    lemma_placeholders_distinct();
    reveal_strlit("{event}");
    reveal_strlit("{path}");
    reveal_strlit("{tool}");
    reveal_strlit("{command}");
    reveal_strlit("{error}");
    reveal_strlit("{cwd}");
    lemma_replace_step("{event}"@, "{event}"@, c.event@);
    lemma_fill_step(c.event@, "{path}"@, c.path);
    lemma_fill_step(c.event@, "{tool}"@, c.tool);
    lemma_fill_step(c.event@, "{command}"@, c.command);
    lemma_fill_step(c.event@, "{error}"@, c.error);
    lemma_fill_step(c.event@, "{cwd}"@, c.cwd);
    lemma_replace_step("{path}"@, "{event}"@, c.event@);
    lemma_fill_step("{path}"@, "{path}"@, c.path);
    lemma_fill_step(value_or(c.path, "{path}"@), "{tool}"@, c.tool);
    lemma_fill_step(value_or(c.path, "{path}"@), "{command}"@, c.command);
    lemma_fill_step(value_or(c.path, "{path}"@), "{error}"@, c.error);
    lemma_fill_step(value_or(c.path, "{path}"@), "{cwd}"@, c.cwd);
    lemma_replace_step("{tool}"@, "{event}"@, c.event@);
    lemma_fill_step("{tool}"@, "{path}"@, c.path);
    lemma_fill_step("{tool}"@, "{tool}"@, c.tool);
    lemma_fill_step(value_or(c.tool, "{tool}"@), "{command}"@, c.command);
    lemma_fill_step(value_or(c.tool, "{tool}"@), "{error}"@, c.error);
    lemma_fill_step(value_or(c.tool, "{tool}"@), "{cwd}"@, c.cwd);
    lemma_replace_step("{command}"@, "{event}"@, c.event@);
    lemma_fill_step("{command}"@, "{path}"@, c.path);
    lemma_fill_step("{command}"@, "{tool}"@, c.tool);
    lemma_fill_step("{command}"@, "{command}"@, c.command);
    lemma_fill_step(value_or(c.command, "{command}"@), "{error}"@, c.error);
    lemma_fill_step(value_or(c.command, "{command}"@), "{cwd}"@, c.cwd);
    lemma_replace_step("{error}"@, "{event}"@, c.event@);
    lemma_fill_step("{error}"@, "{path}"@, c.path);
    lemma_fill_step("{error}"@, "{tool}"@, c.tool);
    lemma_fill_step("{error}"@, "{command}"@, c.command);
    lemma_fill_step("{error}"@, "{error}"@, c.error);
    lemma_fill_step(value_or(c.error, "{error}"@), "{cwd}"@, c.cwd);
    lemma_replace_step("{cwd}"@, "{event}"@, c.event@);
    lemma_fill_step("{cwd}"@, "{path}"@, c.path);
    lemma_fill_step("{cwd}"@, "{tool}"@, c.tool);
    lemma_fill_step("{cwd}"@, "{command}"@, c.command);
    lemma_fill_step("{cwd}"@, "{error}"@, c.error);
    lemma_fill_step("{cwd}"@, "{cwd}"@, c.cwd);
}

} // verus!
