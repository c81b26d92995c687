//! Streaming responses: the events a response stream yields, a parser that
//! follows the braces of JSON objects as text arrives and reports the
//! objects that parse and the tool calls in them, and the reading of
//! server-sent-event lines. JSON values are carried as their text.

use vstd::prelude::*;
use crate::text::{chars_of, opt_view, owned, push_char, push_str, starts_with, str_eq, str_starts_with, string_of, utf8_len};

verus! {

/// What a stream yields.
pub enum StreamingEvent {
    /// Text received.
    Text { content: String },
    /// A JSON object found in the text (as its text), complete or partial.
    Json { data: String, partial: bool },
    /// A tool call, with its arguments as JSON text.
    ToolCall { name: String, arguments: String },
    /// Token counts.
    Usage { prompt_tokens: u32, completion_tokens: u32, total_tokens: u32 },
    /// The end of the response.
    Done { stop_reason: Option<String> },
    /// An error.
    Error { message: String },
    /// Progress.
    Progress { current: u32, total: Option<u32>, message: Option<String> },
}

/// An event as values.
pub enum EventView {
    Text(Seq<char>),
    Json(Seq<char>, bool),
    ToolCall(Seq<char>, Seq<char>),
    Usage(u32, u32, u32),
    Done(Option<Seq<char>>),
    Error(Seq<char>),
    Progress(u32, Option<u32>, Option<Seq<char>>),
}

impl View for StreamingEvent {
    type V = EventView;

    open spec fn view(&self) -> EventView {
        match self {
            StreamingEvent::Text { content } => EventView::Text(content@),
            StreamingEvent::Json { data, partial } => EventView::Json(data@, *partial),
            StreamingEvent::ToolCall { name, arguments } => EventView::ToolCall(name@, arguments@),
            StreamingEvent::Usage { prompt_tokens, completion_tokens, total_tokens } => EventView::Usage(
                *prompt_tokens,
                *completion_tokens,
                *total_tokens,
            ),
            StreamingEvent::Done { stop_reason } => EventView::Done(opt_view(*stop_reason)),
            StreamingEvent::Error { message } => EventView::Error(message@),
            StreamingEvent::Progress { current, total, message } => EventView::Progress(
                *current,
                *total,
                opt_view(*message),
            ),
        }
    }
}

/// Events as values.
pub open spec fn event_views(v: Seq<StreamingEvent>) -> Seq<EventView> {
    v.map_values(|e: StreamingEvent| e@)
}

/// What the parser looks for. A callback for each event stays with the
/// caller.
pub struct StreamingConfig {
    pub detect_json: bool,
    pub extract_tools: bool,
    /// The size of an unfinished object, in bytes, from which a partial
    /// object is tried.
    pub json_min_size: usize,
    pub collect_content: bool,
}

impl Default for StreamingConfig {
    fn default() -> (r: Self)
        ensures
            r.detect_json && r.extract_tools && r.json_min_size == 10 && r.collect_content,
    {
        StreamingConfig { detect_json: true, extract_tools: true, json_min_size: 10, collect_content: true }
    }
}

// ---------------------------------------------------------------------------
// JSON, through serde_json
// ---------------------------------------------------------------------------

/// `text` parses as JSON.
pub uninterp spec fn json_valid(text: Seq<char>) -> bool;

/// The string at `pointer` (RFC 6901) in the JSON `text`, if it parses
/// and holds one there.
pub uninterp spec fn json_str_at(text: Seq<char>, pointer: Seq<char>) -> Option<Seq<char>>;

/// The value at `pointer` in the JSON `text`, written back as JSON, if it
/// parses and holds a value there.
pub uninterp spec fn json_text_at(text: Seq<char>, pointer: Seq<char>) -> Option<Seq<char>>;

/// The length of the array at `pointer` in the JSON `text`, if it parses
/// and holds an array there.
pub uninterp spec fn json_len_at(text: Seq<char>, pointer: Seq<char>) -> Option<nat>;

/// The unsigned number at `pointer` in the JSON `text`, if it parses and
/// holds one there that fits a `u64`.
pub uninterp spec fn json_u64_at(text: Seq<char>, pointer: Seq<char>) -> Option<u64>;

/// `serde_json::from_str::<Value>(text)` succeeds.
#[verifier::external_body]
fn is_json(text: &str) -> (b: bool)
    ensures
        b == json_valid(text@),
{
    serde_json::from_str::<serde_json::Value>(text).is_ok()
}

/// `Value::pointer(pointer)` of the parsed `text`, then `as_str`.
#[verifier::external_body]
fn str_at(text: &str, pointer: &str) -> (r: Option<String>)
    ensures
        opt_view(r) == json_str_at(text@, pointer@),
{
    match serde_json::from_str::<serde_json::Value>(text) {
        Ok(v) => match v.pointer(pointer) {
            Some(x) => match x.as_str() {
                Some(s) => Some(s.to_string()),
                None => None,
            },
            None => None,
        },
        Err(_) => None,
    }
}

/// `Value::pointer(pointer)` of the parsed `text`, written with
/// `to_string`.
#[verifier::external_body]
fn text_at(text: &str, pointer: &str) -> (r: Option<String>)
    ensures
        opt_view(r) == json_text_at(text@, pointer@),
{
    match serde_json::from_str::<serde_json::Value>(text) {
        Ok(v) => match v.pointer(pointer) {
            Some(x) => Some(x.to_string()),
            None => None,
        },
        Err(_) => None,
    }
}

/// `Value::pointer(pointer)` of the parsed `text`, then `as_array` and its
/// length.
#[verifier::external_body]
fn len_at(text: &str, pointer: &str) -> (r: Option<usize>)
    ensures
        match r {
            Some(n) => json_len_at(text@, pointer@) == Some(n as nat),
            None => json_len_at(text@, pointer@) is None,
        },
{
    match serde_json::from_str::<serde_json::Value>(text) {
        Ok(v) => match v.pointer(pointer) {
            Some(x) => match x.as_array() {
                Some(a) => Some(a.len()),
                None => None,
            },
            None => None,
        },
        Err(_) => None,
    }
}

/// `Value::pointer(pointer)` of the parsed `text`, then `as_u64`.
#[verifier::external_body]
fn u64_at(text: &str, pointer: &str) -> (r: Option<u64>)
    ensures
        r == json_u64_at(text@, pointer@),
{
    match serde_json::from_str::<serde_json::Value>(text) {
        Ok(v) => match v.pointer(pointer) {
            Some(x) => x.as_u64(),
            None => None,
        },
        Err(_) => None,
    }
}

// ---------------------------------------------------------------------------
// Tool calls
// ---------------------------------------------------------------------------

/// The pointer to field `field` of item `i` of the `content` array.
pub open spec fn content_pointer(i: nat, field: Seq<char>) -> Seq<char> {
    "/content/"@ + crate::text::decimal(i) + "/"@ + field
}

/// The first item, from `i` on, of the `content` array (of `n` items)
/// whose type is `tool_use`.
pub open spec fn first_tool_use(text: Seq<char>, i: nat, n: nat) -> Option<nat>
    decreases n - i,
{
    if i >= n {
        None
    } else if json_str_at(text, content_pointer(i, "type"@)) == Some("tool_use"@) {
        Some(i)
    } else {
        first_tool_use(text, i + 1, n)
    }
}

/// The tool call a JSON object holds, as (name, arguments): the first of
/// its `tool_calls`, else the first `tool_use` item of its `content`; a
/// missing name is `unknown` and missing arguments `null`.
pub open spec fn tool_call_of(text: Seq<char>) -> Option<(Seq<char>, Seq<char>)> {
    if json_len_at(text, "/tool_calls"@) matches Some(n) && n > 0 {
        Some(
            (
                match json_str_at(text, "/tool_calls/0/function/name"@) {
                    Some(s) => s,
                    None => "unknown"@,
                },
                match json_text_at(text, "/tool_calls/0/function/arguments"@) {
                    Some(a) => a,
                    None => "null"@,
                },
            ),
        )
    } else {
        match json_len_at(text, "/content"@) {
            Some(n) => match first_tool_use(text, 0, n) {
                Some(i) => Some(
                    (
                        match json_str_at(text, content_pointer(i, "name"@)) {
                            Some(s) => s,
                            None => "unknown"@,
                        },
                        match json_text_at(text, content_pointer(i, "input"@)) {
                            Some(a) => a,
                            None => "null"@,
                        },
                    ),
                ),
                None => None,
            },
            None => None,
        }
    }
}

/// The `content` item at index `i` of the JSON `text` has type `tool_use`.
pub open spec fn is_tool_use_item(text: Seq<char>, i: nat) -> bool {
    json_str_at(text, content_pointer(i, "type"@)) == Some("tool_use"@)
}

proof fn lemma_first_tool_use_from(text: Seq<char>, i: nat, n: nat)
    ensures
        match first_tool_use(text, i, n) {
            Some(k) => {
                &&& i <= k < n
                &&& is_tool_use_item(text, k)
                &&& forall|j: nat| i <= j < k ==> !#[trigger] is_tool_use_item(text, j)
            },
            None => forall|j: nat| i <= j < n ==> !#[trigger] is_tool_use_item(text, j),
        },
    decreases n - i,
{
    if i < n && !is_tool_use_item(text, i) {
        lemma_first_tool_use_from(text, i + 1, n);
    }
}

/// Without `tool_calls`, the tool call of a JSON object is its first
/// `content` item of type `tool_use`, counting from item 0: that item's name
/// (else `unknown`) and input (else `null`). With no such item there is
/// none.
pub proof fn lemma_tool_use_is_first_item(text: Seq<char>, n: nat)
    requires
        !(json_len_at(text, "/tool_calls"@) matches Some(m) && m > 0),
        json_len_at(text, "/content"@) == Some(n),
    ensures
        forall|k: nat|
            k < n && #[trigger] is_tool_use_item(text, k) && (forall|j: nat|
                j < k ==> !#[trigger] is_tool_use_item(text, j)) ==> tool_call_of(text) == Some(
                (
                    match json_str_at(text, content_pointer(k, "name"@)) {
                        Some(s) => s,
                        None => "unknown"@,
                    },
                    match json_text_at(text, content_pointer(k, "input"@)) {
                        Some(a) => a,
                        None => "null"@,
                    },
                ),
            ),
        (forall|j: nat| j < n ==> !#[trigger] is_tool_use_item(text, j)) ==> tool_call_of(text) is None,
{
    lemma_first_tool_use_from(text, 0, n);
    assert forall|k: nat|
        k < n && #[trigger] is_tool_use_item(text, k) && (forall|j: nat|
            j < k ==> !#[trigger] is_tool_use_item(text, j)) implies first_tool_use(text, 0, n) == Some(k) by {
        match first_tool_use(text, 0, n) {
            Some(f) => {
                if f < k {
                    assert(!is_tool_use_item(text, f));
                } else if f > k {
                    assert(!is_tool_use_item(text, k));
                }
            },
            None => {
                assert(!is_tool_use_item(text, k));
            },
        }
    }
}

fn content_ptr(i: usize, field: &str) -> (r: String)
    ensures
        r@ == content_pointer(i as nat, field@),
{
    let mut p = owned("/content/");
    let d = crate::text::u64_to_decimal(i as u64);
    push_str(&mut p, d.as_str());
    push_str(&mut p, "/");
    push_str(&mut p, field);
    p
}

fn or_default(v: Option<String>, d: &str) -> (r: String)
    ensures
        r@ == (match v {
            Some(s) => s@,
            None => d@,
        }),
{
    match v {
        Some(s) => s,
        None => owned(d),
    }
}

/// The tool call the JSON object `json` holds, if any.
pub fn extract_tool_call(json: &str) -> (r: Option<StreamingEvent>)
    ensures
        match tool_call_of(json@) {
            Some((n, a)) => r matches Some(e) && e@ == EventView::ToolCall(n, a),
            None => r is None,
        },
{
    match len_at(json, "/tool_calls") {
        Some(n) => {
            if n > 0 {
                let name = or_default(str_at(json, "/tool_calls/0/function/name"), "unknown");
                let arguments = or_default(text_at(json, "/tool_calls/0/function/arguments"), "null");
                return Some(StreamingEvent::ToolCall { name, arguments });
            }
        },
        None => {},
    }
    match len_at(json, "/content") {
        Some(n) => {
            let mut i: usize = 0;
            while i < n
                invariant
                    i <= n,
                    !(json_len_at(json@, "/tool_calls"@) matches Some(m) && m > 0),
                    json_len_at(json@, "/content"@) == Some(n as nat),
                    first_tool_use(json@, 0, n as nat) == first_tool_use(json@, i as nat, n as nat),
                decreases n - i,
            {
                let tp = content_ptr(i, "type");
                let is_use = match str_at(json, tp.as_str()) {
                    Some(t) => str_eq(t.as_str(), "tool_use"),
                    None => false,
                };
                if is_use {
                    let np = content_ptr(i, "name");
                    let ip = content_ptr(i, "input");
                    let name = or_default(str_at(json, np.as_str()), "unknown");
                    let arguments = or_default(text_at(json, ip.as_str()), "null");
                    return Some(StreamingEvent::ToolCall { name, arguments });
                }
                i = i + 1;
            }
            None
        },
        None => None,
    }
}

// ---------------------------------------------------------------------------
// The parser
// ---------------------------------------------------------------------------

/// The parser's state as values: the text buffered, the content collected,
/// and where it is in a JSON object: its depth, whether it is inside one,
/// and where in the content the object began.
pub struct ParserView {
    pub buffer: Seq<char>,
    pub content: Seq<char>,
    pub depth: nat,
    pub in_json: bool,
    pub start: nat,
}

/// The events of an object that just closed, its text being `text`: the
/// object, when it parses, then the tool call in it when tools are
/// extracted.
pub open spec fn closed_events(cfg: StreamingConfig, text: Seq<char>) -> Seq<EventView> {
    if json_valid(text) {
        seq![EventView::Json(text, false)] + if cfg.extract_tools {
            match tool_call_of(text) {
                Some((n, a)) => seq![EventView::ToolCall(n, a)],
                None => Seq::empty(),
            }
        } else {
            Seq::empty()
        }
    } else {
        Seq::empty()
    }
}

/// The content from where the current object began.
pub open spec fn object_text(st: ParserView) -> Seq<char> {
    st.content.subrange(st.start as int, st.content.len() as int)
}

/// One character more: braces move the object depth when objects are
/// detected, and a closing brace back at depth 0 ends the object, whose
/// text is the content since it began with that brace; the character is
/// buffered, and collected when content is.
pub open spec fn step(cfg: StreamingConfig, st: ParserView, ch: char) -> (ParserView, Seq<EventView>) {
    let (st1, evs) = if !cfg.detect_json {
        (st, Seq::<EventView>::empty())
    } else if ch == '{' && !st.in_json {
        (ParserView { in_json: true, start: st.content.len(), depth: 1, ..st }, Seq::<EventView>::empty())
    } else if st.in_json && ch == '{' {
        (ParserView { depth: st.depth + 1, ..st }, Seq::<EventView>::empty())
    } else if st.in_json && ch == '}' {
        if st.depth == 1 {
            (ParserView { depth: 0, in_json: false, ..st }, closed_events(cfg, object_text(st).push('}')))
        } else {
            (ParserView { depth: (st.depth - 1) as nat, ..st }, Seq::<EventView>::empty())
        }
    } else {
        (st, Seq::<EventView>::empty())
    };
    (
        ParserView {
            buffer: st1.buffer.push(ch),
            content: if cfg.collect_content { st1.content.push(ch) } else { st1.content },
            ..st1
        },
        evs,
    )
}

/// The state and events after the characters `cs`.
pub open spec fn run(cfg: StreamingConfig, st: ParserView, cs: Seq<char>) -> (ParserView, Seq<EventView>)
    decreases cs.len(),
{
    if cs.len() == 0 {
        (st, Seq::empty())
    } else {
        let (s1, e1) = run(cfg, st, cs.drop_last());
        let (s2, e2) = step(cfg, s1, cs.last());
        (s2, e1 + e2)
    }
}

/// At the end of a chunk, inside an object whose content since it began
/// is at least the minimum size in bytes: that content, when it starts
/// like JSON and parses, as a partial object.
pub open spec fn partial_events(cfg: StreamingConfig, st: ParserView) -> Seq<EventView> {
    let t = object_text(st);
    if st.in_json && utf8_len(st.content) >= utf8_len(st.content.subrange(0, st.start as int)) + cfg.json_min_size
        && (starts_with(t, "{"@) || starts_with(t, "["@)) && json_valid(t) {
        seq![EventView::Json(t, true)]
    } else {
        Seq::empty()
    }
}

/// Follows the JSON objects in streamed text.
pub struct StreamingParser {
    config: StreamingConfig,
    buffer: String,
    full_content: String,
    json_depth: usize,
    in_json: bool,
    json_start: usize,
}

impl StreamingParser {
    /// The parser's state is consistent: inside an object it is at least
    /// one level deep and the object began within the content; outside it
    /// is at depth 0.
    pub closed spec fn wf(&self) -> bool {
        &&& self.in_json ==> self.json_depth >= 1
        &&& self.in_json ==> self.json_start <= self.full_content@.len()
        &&& !self.in_json ==> self.json_depth == 0
    }

    /// The parser's state.
    pub closed spec fn state(&self) -> ParserView {
        ParserView {
            buffer: self.buffer@,
            content: self.full_content@,
            depth: self.json_depth as nat,
            in_json: self.in_json,
            start: self.json_start as nat,
        }
    }

    /// Its settings.
    pub closed spec fn config_spec(&self) -> StreamingConfig {
        self.config
    }

    /// A parser with these settings, outside any object, with nothing
    /// buffered or collected.
    pub fn new(config: StreamingConfig) -> (r: Self)
        ensures
            r.state().buffer.len() == 0 && r.state().content.len() == 0,
            r.state().depth == 0 && !r.state().in_json,
            r.config_spec() == config,
            r.wf(),
    {
        StreamingParser {
            config,
            buffer: String::new(),
            full_content: String::new(),
            json_depth: 0,
            in_json: false,
            json_start: 0,
        }
    }

    /// How deep in nested objects the parser is.
    pub fn json_depth(&self) -> (n: usize)
        ensures
            n == self.state().depth,
    {
        self.json_depth
    }

    fn object_string(&self) -> (r: String)
        requires
            self.json_start <= self.full_content@.len(),
        ensures
            r@ == object_text(self.state()),
    {
        let v = chars_of(self.full_content.as_str());
        let mut out: Vec<char> = Vec::new();
        let mut i: usize = self.json_start;
        while i < v.len()
            invariant
                self.json_start <= i <= v@.len(),
                v@ == self.full_content@,
                out@ == v@.subrange(self.json_start as int, i as int),
            decreases v.len() - i,
        {
            out.push(v[i]);
            i = i + 1;
        }
        string_of(out.as_slice())
    }

    fn step_char(&mut self, ch: char, events: &mut Vec<StreamingEvent>)
        requires
            old(self).json_depth < usize::MAX,
            old(self).wf(),
        ensures
            final(self).wf(),
            final(self).state() == step(old(self).config, old(self).state(), ch).0,
            event_views(final(events)@) == event_views(old(events)@) + step(old(self).config, old(self).state(), ch).1,
            final(self).config == old(self).config,
    {
        let ghost before = event_views(events@);
        if self.config.detect_json {
            if ch == '{' && !self.in_json {
                self.in_json = true;
                self.json_start = crate::text::chars_of(self.full_content.as_str()).len();
                self.json_depth = 1;
            } else if self.in_json {
                if ch == '{' {
                    self.json_depth = self.json_depth + 1;
                } else if ch == '}' {
                    self.json_depth = self.json_depth - 1;
                    if self.json_depth == 0 {
                        let mut text = self.object_string();
                        push_char(&mut text, '}');
                        if is_json(text.as_str()) {
                            events.push(StreamingEvent::Json { data: text.clone(), partial: false });
                            if self.config.extract_tools {
                                match extract_tool_call(text.as_str()) {
                                    Some(e) => events.push(e),
                                    None => {},
                                }
                            }
                        }
                        self.in_json = false;
                    }
                }
            }
        }
        push_char(&mut self.buffer, ch);
        if self.config.collect_content {
            push_char(&mut self.full_content, ch);
        }
        assert(event_views(events@) =~= before + step(old(self).config, old(self).state(), ch).1);
    }

    /// Reads a chunk of text: its characters in turn, then, inside an
    /// object, the partial object when there is one.
    pub fn process_chunk(&mut self, chunk: &str) -> (r: Vec<StreamingEvent>)
        requires
            old(self).wf(),
            old(self).state().depth + chunk@.len() < usize::MAX,
        ensures
            final(self).wf(),
            final(self).state() == run(old(self).config_spec(), old(self).state(), chunk@).0,
            final(self).config_spec() == old(self).config_spec(),
            event_views(r@) == run(old(self).config_spec(), old(self).state(), chunk@).1 + partial_events(
                old(self).config_spec(),
                final(self).state(),
            ),
    {
        let cs = chars_of(chunk);
        let ghost st0 = self.state();
        let ghost cfg = self.config;
        let mut events: Vec<StreamingEvent> = Vec::new();
        let mut i: usize = 0;
        while i < cs.len()
            invariant
                i <= cs@.len(),
                cs@ == chunk@,
                cfg == self.config,
                self.state() == run(cfg, st0, cs@.subrange(0, i as int)).0,
                event_views(events@) == run(cfg, st0, cs@.subrange(0, i as int)).1,
                self.json_depth <= st0.depth + i,
                st0.depth + cs@.len() < usize::MAX,
                self.wf(),
            decreases cs.len() - i,
        {
            proof {
                let pre = cs@.subrange(0, i + 1);
                assert(pre.drop_last() =~= cs@.subrange(0, i as int));
                assert(pre.last() == cs@[i as int]);
            }
            self.step_char(cs[i], &mut events);
            i = i + 1;
        }
        assert(cs@.subrange(0, cs@.len() as int) =~= cs@);
        if self.in_json {
            let total = crate::text::byte_len(self.full_content.as_str());
            let v = chars_of(self.full_content.as_str());
            let mut head: Vec<char> = Vec::new();
            let mut k: usize = 0;
            while k < self.json_start
                invariant
                    k <= self.json_start <= v@.len(),
                    v@ == self.full_content@,
                    head@ == v@.subrange(0, k as int),
                decreases self.json_start - k,
            {
                head.push(v[k]);
                k = k + 1;
            }
            let head_s = string_of(head.as_slice());
            let before = crate::text::byte_len(head_s.as_str());
            proof {
                crate::text::lemma_utf8_len_prefix_le(self.full_content@, self.json_start as int);
            }
            if total - before >= self.config.json_min_size {
                let t = self.object_string();
                if (str_starts_with(t.as_str(), "{") || str_starts_with(t.as_str(), "[")) && is_json(t.as_str()) {
                    let ghost b = event_views(events@);
                    events.push(StreamingEvent::Json { data: t, partial: true });
                    assert(event_views(events@) =~= b + partial_events(cfg, self.state()));
                    return events;
                }
            }
        }
        assert(event_views(events@) =~= event_views(events@) + partial_events(cfg, self.state()));
        events
    }

    /// The content collected.
    pub fn get_content(&self) -> (r: &str)
        ensures
            r@ == self.state().content,
    {
        self.full_content.as_str()
    }

    /// The text buffered.
    pub fn get_buffer(&self) -> (r: &str)
        ensures
            r@ == self.state().buffer,
    {
        self.buffer.as_str()
    }

    /// Empties the buffer.
    pub fn clear_buffer(&mut self)
        ensures
            final(self).state() == (ParserView { buffer: Seq::empty(), ..old(self).state() }),
            final(self).config_spec() == old(self).config_spec(),
            old(self).wf() ==> final(self).wf(),
    {
        self.buffer = String::new();
        assert(self.buffer@ =~= Seq::<char>::empty());
    }

    /// Forgets the buffer, the content and any object being read.
    pub fn reset(&mut self)
        ensures
            final(self).state().buffer.len() == 0 && final(self).state().content.len() == 0,
            final(self).state().depth == 0 && !final(self).state().in_json,
            final(self).config_spec() == old(self).config_spec(),
            final(self).wf(),
    {
        self.buffer = String::new();
        self.full_content = String::new();
        self.json_depth = 0;
        self.in_json = false;
        self.json_start = 0;
    }
}

/// The data of a server-sent-event line: what follows `data: `.
pub open spec fn sse_data(line: Seq<char>) -> Option<Seq<char>> {
    if starts_with(line, "data: "@) {
        Some(line.subrange(6, line.len() as int))
    } else {
        None
    }
}

/// The low 32 bits of a count (`as u32`).
pub open spec fn low32(x: u64) -> u32 {
    (x % 0x1_0000_0000) as u32
}

/// A count in the usage object, 0 when missing.
pub open spec fn usage_count(d: Seq<char>, ptr: Seq<char>) -> u32 {
    match json_u64_at(d, ptr) {
        Some(x) => low32(x),
        None => 0,
    }
}

/// The events of a JSON data line after its text: its tool call when tools
/// are extracted, its token usage when it has a usage entry, and its end
/// when it gives a finish reason.
pub open spec fn data_events(cfg: StreamingConfig, d: Seq<char>) -> Seq<EventView> {
    (if cfg.extract_tools {
        match tool_call_of(d) {
            Some((n, a)) => seq![EventView::ToolCall(n, a)],
            None => Seq::empty(),
        }
    } else {
        Seq::empty()
    }) + (if json_text_at(d, "/usage"@) is Some {
        seq![
            EventView::Usage(
                usage_count(d, "/usage/prompt_tokens"@),
                usage_count(d, "/usage/completion_tokens"@),
                usage_count(d, "/usage/total_tokens"@),
            ),
        ]
    } else {
        Seq::empty()
    }) + match json_str_at(d, "/choices/0/finish_reason"@) {
        Some(r) => seq![EventView::Done(Some(r))],
        None => Seq::empty(),
    }
}

fn count_at(d: &str, ptr: &str) -> (r: u32)
    ensures
        r == usage_count(d@, ptr@),
{
    match u64_at(d, ptr) {
        Some(x) => {
            let r = x as u32;
            assert(r == low32(x)) by (bit_vector)
                requires
                    r == x as u32,
            ;
            r
        },
        None => 0,
    }
}

impl StreamingParser {
    /// Reads one server-sent-event line. `data: [DONE]` ends the
    /// response; other data that parses as JSON gives the text of its
    /// first choice's delta (read as a chunk), then its tool call, usage
    /// and finish reason. Other lines give nothing. A text so long that the
    /// object depth could not be counted with it is not read.
    pub fn process_sse_line(&mut self, line: &str) -> (r: Vec<StreamingEvent>)
        requires
            old(self).wf(),
        ensures
            final(self).wf(),
            final(self).config_spec() == old(self).config_spec(),
            match sse_data(line@) {
                None => r@.len() == 0 && final(self).state() == old(self).state(),
                Some(d) => if d == "[DONE]"@ {
                    event_views(r@) == seq![EventView::Done(None)] && final(self).state() == old(self).state()
                } else if !json_valid(d) {
                    r@.len() == 0 && final(self).state() == old(self).state()
                } else {
                    match json_str_at(d, "/choices/0/delta/content"@) {
                        Some(c) => if old(self).state().depth + c.len() < usize::MAX {
                            &&& final(self).state() == run(old(self).config_spec(), old(self).state(), c).0
                            &&& event_views(r@) == run(old(self).config_spec(), old(self).state(), c).1
                                + partial_events(old(self).config_spec(), final(self).state()) + data_events(
                                old(self).config_spec(),
                                d,
                            )
                        } else {
                            final(self).state() == old(self).state() && event_views(r@) == data_events(
                                old(self).config_spec(),
                                d,
                            )
                        },
                        None => final(self).state() == old(self).state() && event_views(r@) == data_events(
                            old(self).config_spec(),
                            d,
                        ),
                    }
                },
            },
    {
        let mut events: Vec<StreamingEvent> = Vec::new();
        if !str_starts_with(line, "data: ") {
            return events;
        }
        proof {
            reveal_strlit("data: ");
        }
        let v = chars_of(line);
        let mut dv: Vec<char> = Vec::new();
        let mut i: usize = 6;
        while i < v.len()
            invariant
                6 <= i <= v@.len(),
                v@ == line@,
                dv@ == v@.subrange(6, i as int),
            decreases v.len() - i,
        {
            dv.push(v[i]);
            i = i + 1;
        }
        let data = string_of(dv.as_slice());
        if str_eq(data.as_str(), "[DONE]") {
            events.push(StreamingEvent::Done { stop_reason: None });
            assert(event_views(events@) =~= seq![EventView::Done(None)]);
            return events;
        }
        if !is_json(data.as_str()) {
            return events;
        }
        match str_at(data.as_str(), "/choices/0/delta/content") {
            Some(c) => {
                let n = chars_of(c.as_str()).len();
                if self.json_depth < usize::MAX - n {
                    events = self.process_chunk(c.as_str());
                }
            },
            None => {},
        }
        let ghost head = event_views(events@);
        if self.config.extract_tools {
            match extract_tool_call(data.as_str()) {
                Some(e) => events.push(e),
                None => {},
            }
        }
        match text_at(data.as_str(), "/usage") {
            Some(_) => {
                let p = count_at(data.as_str(), "/usage/prompt_tokens");
                let c = count_at(data.as_str(), "/usage/completion_tokens");
                let t = count_at(data.as_str(), "/usage/total_tokens");
                events.push(StreamingEvent::Usage { prompt_tokens: p, completion_tokens: c, total_tokens: t });
            },
            None => {},
        }
        match str_at(data.as_str(), "/choices/0/finish_reason") {
            Some(r) => events.push(StreamingEvent::Done { stop_reason: Some(r) }),
            None => {},
        }
        assert(event_views(events@) =~= head + data_events(self.config, data@));
        events
    }
}

} // verus!
