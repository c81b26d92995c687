//! Application state: the conversation, hooks and tools of a session, the
//! estimate of how full the context window is, and compaction of a long
//! conversation into a summary and its most recent messages.

use vstd::prelude::*;
use crate::plugins::PluginRegistry;
use crate::strmap::StringMap;
use crate::text::{byte_len, join, owned, push_str, str_eq, u64_to_decimal, decimal, utf8_len, views};

verus! {

/// A message of the conversation; its time is RFC 3339 text in UTC.
pub struct ConversationMessage {
    pub role: String,
    pub content: String,
    pub timestamp: String,
}

/// A hook run on an event.
pub struct Hook {
    pub event: String,
    pub command: String,
    pub enabled: bool,
}

/// A tool offered to the model.
pub struct Tool {
    pub name: String,
    pub description: String,
    pub enabled: bool,
}

/// Where the session works.
pub struct ContextData {
    pub current_directory: Option<String>,
    pub allowed_directories: Vec<String>,
    pub project_root: Option<String>,
    pub session_metadata: StringMap,
}

impl Default for ContextData {
    fn default() -> (r: Self)
        ensures
            r.current_directory is None && r.project_root is None,
            r.allowed_directories@.len() == 0,
            r.session_metadata.entries_spec().len() == 0,
    {
        ContextData {
            current_directory: None,
            allowed_directories: Vec::new(),
            project_root: None,
            session_metadata: StringMap::new(),
        }
    }
}

/// The settings that compaction reads.
pub struct CompactionSettings {
    /// The context window in tokens; 200000 when unset.
    pub conversation_window: Option<usize>,
    pub auto_compact: bool,
    /// The percentage of the window at which to compact.
    pub compact_threshold: u8,
    /// The messages kept after compaction.
    pub compact_messages: usize,
}

/// What a compaction did.
pub struct CompactionResult {
    pub original_messages: usize,
    pub compacted_messages: usize,
    pub summary: String,
    pub timestamp: String,
}

/// The state of a session.
pub struct AppState {
    pub settings: CompactionSettings,
    pub session_id: Option<String>,
    pub conversation_history: Vec<ConversationMessage>,
    pub hooks: Vec<Hook>,
    pub tools: Vec<Tool>,
    pub context: ContextData,
    pub plugin_registry: Option<PluginRegistry>,
}

/// The tools a session starts with: name and description, all enabled.
pub open spec fn default_tool_list() -> Seq<(Seq<char>, Seq<char>)> {
    seq![
        ("Read"@, "Read files from the filesystem"@),
        ("Write"@, "Write files to the filesystem"@),
        ("Edit"@, "Edit files with line-based changes"@),
        ("Glob"@, "Find files by glob pattern"@),
        ("Grep"@, "Search file contents"@),
        ("Bash"@, "Execute shell commands"@),
        ("WebSearch"@, "Search the web"@),
        ("WebFetch"@, "Fetch web page content"@),
    ]
}

fn tool(name: &str, description: &str) -> (r: Tool)
    ensures
        r.name@ == name@ && r.description@ == description@ && r.enabled,
{
    Tool { name: owned(name), description: owned(description), enabled: true }
}

/// The tools a session starts with.
pub fn default_tools() -> (r: Vec<Tool>)
    ensures
        r@.len() == 8,
        forall|i: int|
            0 <= i < 8 ==> (#[trigger] r@[i]).name@ == default_tool_list()[i].0 && r@[i].description@
                == default_tool_list()[i].1 && r@[i].enabled,
{
    vec![
        tool("Read", "Read files from the filesystem"),
        tool("Write", "Write files to the filesystem"),
        tool("Edit", "Edit files with line-based changes"),
        tool("Glob", "Find files by glob pattern"),
        tool("Grep", "Search file contents"),
        tool("Bash", "Execute shell commands"),
        tool("WebSearch", "Search the web"),
        tool("WebFetch", "Fetch web page content"),
    ]
}

/// The bytes of the messages' contents.
pub open spec fn content_bytes(ms: Seq<ConversationMessage>) -> int
    decreases ms.len(),
{
    if ms.len() == 0 {
        0
    } else {
        content_bytes(ms.drop_last()) + utf8_len(ms.last().content@)
    }
}

/// The context window in tokens.
pub open spec fn window_of(s: CompactionSettings) -> int {
    match s.conversation_window {
        Some(w) => w as int,
        None => 200000,
    }
}

/// The conversation fits the arithmetic of the estimates: its bytes, and a
/// hundred times its tokens, fit a `usize`, and the window is not empty.
pub open spec fn estimable(s: AppState) -> bool {
    &&& content_bytes(s.conversation_history@) <= usize::MAX
    &&& (content_bytes(s.conversation_history@) / 4) * 100 <= usize::MAX
    &&& window_of(s.settings) > 0
}

/// The share of the window the conversation fills, in percent, as the
/// `u8` it is kept in (wrapping past 255).
pub open spec fn usage_percent(s: AppState) -> int {
    (((content_bytes(s.conversation_history@) / 4) * 100) / window_of(s.settings)) % 256
}

/// A message's content cut to its first 100 characters, then `...`.
pub open spec fn preview(m: ConversationMessage) -> Seq<char> {
    (if m.content@.len() > 100 {
        m.content@.subrange(0, 100)
    } else {
        m.content@
    }) + "..."@
}

/// The summary of a compaction that drops the older messages `dropped`:
/// their number and a preview of each.
pub open spec fn compaction_summary(dropped: Seq<ConversationMessage>) -> Seq<char> {
    "[Previous "@ + decimal(dropped.len()) + " messages summarized: "@ + join(
        dropped.map_values(|m: ConversationMessage| preview(m)),
        " | "@,
    ) + "]"@
}

proof fn lemma_bytes_prefix(ms: Seq<ConversationMessage>, k: int)
    requires
        0 <= k <= ms.len(),
    ensures
        content_bytes(ms.subrange(0, k)) <= content_bytes(ms),
    decreases ms.len() - k,
{
    if k < ms.len() {
        lemma_bytes_prefix(ms, k + 1);
        assert(ms.subrange(0, k + 1).drop_last() =~= ms.subrange(0, k));
    } else {
        assert(ms.subrange(0, k) =~= ms);
    }
}

fn take_chars(s: &str, n: usize) -> (r: String)
    ensures
        r@ == (if s@.len() > n { s@.subrange(0, n as int) } else { s@ }),
{
    let v = crate::text::chars_of(s);
    let m = if v.len() > n { n } else { v.len() };
    let mut out: Vec<char> = Vec::new();
    let mut i: usize = 0;
    while i < m
        invariant
            i <= m <= v@.len(),
            out@ == v@.subrange(0, i as int),
        decreases m - i,
    {
        out.push(v[i]);
        i = i + 1;
    }
    if v.len() <= n {
        assert(v@.subrange(0, m as int) =~= v@);
    }
    crate::text::string_of(out.as_slice())
}

/// `after` and `r` are what compacting `before` at `now` gives: the
/// conversation shrinks to a summary and the most recent messages when it is
/// longer than the messages to keep, and nothing else changes.
pub open spec fn compacted(before: AppState, after: AppState, now: String, r: CompactionResult) -> bool {
    &&& after == (AppState { conversation_history: after.conversation_history, ..before })
    &&& (r.original_messages == before.conversation_history@.len())
    &&& (r.timestamp == now)
    &&& (before.conversation_history@.len() <= before.settings.compact_messages ==> {
        &&& after.conversation_history@ == before.conversation_history@
        &&& r.compacted_messages == before.conversation_history@.len()
        &&& r.summary@ == "No compaction needed - conversation already within limits"@
    })
    &&& (before.conversation_history@.len() > before.settings.compact_messages ==> {
        let n = before.conversation_history@.len();
        let k = before.settings.compact_messages;
        let kept = before.conversation_history@.subrange(n - k, n as int);
        &&& r.summary@ == compaction_summary(before.conversation_history@.subrange(0, n - k))
        &&& after.conversation_history@.len() == k + 1
        &&& after.conversation_history@.subrange(1, k + 1) == kept
        &&& after.conversation_history@[0].role@ == "system"@
        &&& after.conversation_history@[0].content@ == r.summary@
        &&& after.conversation_history@[0].timestamp == now
        &&& r.compacted_messages == k + 1
    })
}

impl AppState {
    /// A session with these settings: the given id, no messages or hooks,
    /// the default tools, an empty context, and the plugins loaded.
    pub fn new(settings: CompactionSettings, session_id: String, plugin_registry: Option<PluginRegistry>) -> (r: Self)
        ensures
            r.settings == settings,
            r.session_id == Some(session_id),
            r.conversation_history@.len() == 0,
            r.hooks@.len() == 0,
            r.tools@.len() == 8,
            r.plugin_registry == plugin_registry,
    {
        AppState {
            settings,
            session_id: Some(session_id),
            conversation_history: Vec::new(),
            hooks: Vec::new(),
            tools: default_tools(),
            context: ContextData::default(),
            plugin_registry,
        }
    }

    /// Appends a message sent at `timestamp`.
    pub fn add_message(&mut self, role: &str, content: &str, timestamp: String)
        ensures
            final(self).conversation_history@.len() == old(self).conversation_history@.len() + 1,
            final(self).conversation_history@.drop_last() == old(self).conversation_history@,
            final(self).conversation_history@.last().role@ == role@,
            final(self).conversation_history@.last().content@ == content@,
            final(self).conversation_history@.last().timestamp == timestamp,
            *final(self) == (AppState { conversation_history: final(self).conversation_history, ..*old(self) }),
    {
        let ghost before = self.conversation_history@;
        self.conversation_history.push(
            ConversationMessage { role: owned(role), content: owned(content), timestamp },
        );
        assert(self.conversation_history@.drop_last() =~= before);
    }

    /// Sets the session id.
    pub fn set_session_id(&mut self, id: String)
        ensures
            *final(self) == (AppState { session_id: Some(id), ..*old(self) }),
    {
        self.session_id = Some(id);
    }

    /// Forgets the conversation.
    pub fn clear_history(&mut self)
        ensures
            final(self).conversation_history@.len() == 0,
            *final(self) == (AppState { conversation_history: final(self).conversation_history, ..*old(self) }),
    {
        self.conversation_history = Vec::new();
    }

    /// Adds an enabled hook for `event`.
    pub fn add_hook(&mut self, event: String, command: String)
        ensures
            final(self).hooks@.len() == old(self).hooks@.len() + 1,
            final(self).hooks@.drop_last() == old(self).hooks@,
            final(self).hooks@.last() == (Hook { event, command, enabled: true }),
            *final(self) == (AppState { hooks: final(self).hooks, ..*old(self) }),
    {
        let ghost before = self.hooks@;
        self.hooks.push(Hook { event, command, enabled: true });
        assert(self.hooks@.drop_last() =~= before);
    }

    /// Removes every hook for `event`.
    pub fn remove_hook(&mut self, event: &str)
        ensures
            final(self).hooks@ == old(self).hooks@.filter(|h: Hook| h.event@ != event@),
            *final(self) == (AppState { hooks: final(self).hooks, ..*old(self) }),
    {
        let mut rest: Vec<Hook> = Vec::new();
        std::mem::swap(&mut rest, &mut self.hooks);
        let ghost all = rest@;
        let ghost n = rest@.len();
        assert(n <= usize::MAX) by {
            assert(rest.len() <= usize::MAX);
        }
        let mut i: usize = 0;
        assert(all.subrange(0, 0).filter(|h: Hook| h.event@ != event@) =~= Seq::<Hook>::empty());
        while rest.len() > 0
            invariant
                *self == (AppState { hooks: self.hooks, ..*old(self) }),
                n == all.len(),
                n <= usize::MAX,
                i + rest@.len() == n,
                rest@ == all.subrange(i as int, n as int),
                self.hooks@ == all.subrange(0, i as int).filter(|h: Hook| h.event@ != event@),
            decreases rest.len(),
        {
            let h = rest.remove(0);
            proof {
                assert(h == all[i as int]);
                assert(all.subrange(0, i + 1).drop_last() =~= all.subrange(0, i as int));
                assert(rest@ =~= all.subrange(i + 1, n as int));
                reveal(Seq::filter);
            }
            if !str_eq(h.event.as_str(), event) {
                self.hooks.push(h);
            }
            i = i + 1;
        }
        assert(all.subrange(0, n as int) =~= all);
    }

    /// The estimated size of the conversation in tokens: a quarter of the
    /// bytes of its messages.
    pub fn estimate_context_tokens(&self) -> (n: usize)
        requires
            content_bytes(self.conversation_history@) <= usize::MAX,
        ensures
            n == content_bytes(self.conversation_history@) / 4,
    {
        let ghost ms = self.conversation_history@;
        let mut total: usize = 0;
        let mut i: usize = 0;
        while i < self.conversation_history.len()
            invariant
                i <= ms.len(),
                ms == self.conversation_history@,
                content_bytes(ms) <= usize::MAX,
                total == content_bytes(ms.subrange(0, i as int)),
            decreases self.conversation_history.len() - i,
        {
            proof {
                let pre = ms.subrange(0, i + 1);
                assert(pre.drop_last() =~= ms.subrange(0, i as int));
                lemma_bytes_prefix(ms, i + 1);
            }
            total = total + byte_len(self.conversation_history[i].content.as_str());
            i = i + 1;
        }
        assert(ms.subrange(0, ms.len() as int) =~= ms);
        total / 4
    }

    /// The share of the context window the conversation fills, in percent.
    pub fn context_usage_percent(&self) -> (p: u8)
        requires
            estimable(*self),
        ensures
            p == usage_percent(*self),
    {
        let window: usize = match self.settings.conversation_window {
            Some(w) => w,
            None => 200000,
        };
        let usage = (self.estimate_context_tokens() * 100) / window;
        proof {
            assert(usage % 256 == (usage as u8)) by (bit_vector);
        }
        usage as u8
    }

    /// Whether the conversation should be compacted: automatic compaction
    /// is on and the usage reached the threshold.
    pub fn needs_compaction(&self) -> (b: bool)
        requires
            estimable(*self),
        ensures
            b == (self.settings.auto_compact && usage_percent(*self) >= self.settings.compact_threshold),
    {
        if !self.settings.auto_compact {
            return false;
        }
        self.context_usage_percent() >= self.settings.compact_threshold
    }

    /// Compacts a conversation longer than the messages to keep: the most
    /// recent ones stay, after a system message that summarises the
    /// compaction (`now` is its time and the result's).
    pub fn compact(&mut self, now: String) -> (r: CompactionResult)
        ensures
            compacted(*old(self), *final(self), now, r),
    {
        let n = self.conversation_history.len();
        let k = self.settings.compact_messages;
        if n <= k {
            return CompactionResult {
                original_messages: n,
                compacted_messages: n,
                summary: owned("No compaction needed - conversation already within limits"),
                timestamp: now,
            };
        }
        let ghost old_h = self.conversation_history@;
        let drop = n - k;
        let mut previews: Vec<String> = Vec::new();
        let mut i: usize = 0;
        while i < drop
            invariant
                0 <= i <= drop,
                n == old_h.len(),
                drop == n - k,
                self.conversation_history@ == old_h,
                views(previews@) == old_h.subrange(0, i as int).map_values(
                    |m: ConversationMessage| preview(m),
                ),
            decreases drop - i,
        {
            let mut p = take_chars(self.conversation_history[i].content.as_str(), 100);
            push_str(&mut p, "...");
            let ghost before = views(previews@);
            previews.push(p);
            proof {
                assert(views(previews@) =~= before.push(preview(old_h[i as int])));
                assert(old_h.subrange(0, i + 1).map_values(|m: ConversationMessage| preview(m))
                    =~= old_h.subrange(0, i as int).map_values(|m: ConversationMessage| preview(m)).push(
                    preview(old_h[i as int]),
                ));
            }
            i = i + 1;
        }
        let mut summary = owned("[Previous ");
        let d = u64_to_decimal(drop as u64);
        push_str(&mut summary, d.as_str());
        push_str(&mut summary, " messages summarized: ");
        let joined = crate::tools::executor::join_strings(previews.as_slice(), " | ");
        push_str(&mut summary, joined.as_str());
        push_str(&mut summary, "]");
        let mut rest = Vec::new();
        std::mem::swap(&mut rest, &mut self.conversation_history);
        let mut kept = rest.split_off(drop);
        proof {
            assert(kept@ =~= old_h.subrange(drop as int, n as int));
        }
        kept.insert(
            0,
            ConversationMessage { role: owned("system"), content: summary.clone(), timestamp: now.clone() },
        );
        proof {
            assert(kept@.subrange(1, k + 1) =~= old_h.subrange(drop as int, n as int));
        }
        self.conversation_history = kept;
        CompactionResult { original_messages: n, compacted_messages: k + 1, summary, timestamp: now }
    }

    /// Compacts when compaction is needed.
    pub fn auto_compact_if_needed(&mut self, now: String) -> (r: Option<CompactionResult>)
        requires
            estimable(*old(self)),
        ensures
            (old(self).settings.auto_compact && usage_percent(*old(self)) >= old(self).settings.compact_threshold)
                ==> (r matches Some(c) && compacted(*old(self), *final(self), now, c)),
            !(old(self).settings.auto_compact && usage_percent(*old(self)) >= old(self).settings.compact_threshold)
                ==> (r is None && *final(self) == *old(self)),
    {
        if self.needs_compaction() {
            Some(self.compact(now))
        } else {
            None
        }
    }
}

} // verus!
