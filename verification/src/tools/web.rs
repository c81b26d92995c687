//! Web fetch and search: their requests and results, the Markdown reports
//! made of them, and what a search answer yields.

use vstd::prelude::*;
use crate::strmap::StringMap;
use crate::text::{
    byte_prefix, can_truncate_bytes, chars_of, decimal, first_occurrence, longer_than_bytes, owned,
    push_str, string_of, take_bytes, trim, u64_to_decimal, utf8_len, byte_len,
};
use crate::tools::Tool;

verus! {

/// From index `i` on, the first index of `c` in `s`.
pub open spec fn next_char(s: Seq<char>, c: char, i: int) -> Option<int>
    decreases s.len() - i,
{
    if i < 0 || i >= s.len() {
        None
    } else if s[i] == c {
        Some(i)
    } else {
        next_char(s, c, i + 1)
    }
}

/// `s` from index `i` on, with every tag removed: a `<`, at least one
/// character, and the first `>` after them (the pattern `<[^>]+>`).
pub open spec fn strip_tags_from(s: Seq<char>, i: int) -> Seq<char>
    decreases s.len() - i,
{
    if i < 0 || i >= s.len() {
        Seq::empty()
    } else if s[i] == '<' && next_char(s, '>', i + 1) is Some && next_char(s, '>', i + 1)->0 >= i
        + 2 {
        proof {
            lemma_next_char_bounds(s, '>', i + 1);
        }
        strip_tags_from(s, next_char(s, '>', i + 1)->0 + 1)
    } else {
        seq![s[i]] + strip_tags_from(s, i + 1)
    }
}

/// `s` with every tag removed.
pub open spec fn strip_tags(s: Seq<char>) -> Seq<char> {
    strip_tags_from(s, 0)
}

fn find_char(v: &Vec<char>, c: char, from: usize) -> (r: Option<usize>)
    ensures
        match next_char(v@, c, from as int) {
            Some(j) => r == Some(j as usize),
            None => r is None,
        },
{
    let mut i = from;
    while i < v.len()
        invariant
            from <= i,
            next_char(v@, c, from as int) == next_char(v@, c, i as int),
        decreases v.len() - i,
    {
        if v[i] == c {
            return Some(i);
        }
        i = i + 1;
    }
    None
}

/// The index that `next_char` finds holds `c` and lies in range.
pub proof fn lemma_next_char_bounds(s: Seq<char>, c: char, i: int)
    ensures
        next_char(s, c, i) matches Some(j) ==> i <= j < s.len() && s[j] == c,
    decreases s.len() - i,
{
    if 0 <= i < s.len() && s[i] != c {
        lemma_next_char_bounds(s, c, i + 1);
    }
}

/// `html` with its tags removed.
pub fn strip_html(html: &str) -> (r: String)
    ensures
        r@ == strip_tags(html@),
{
    let v = chars_of(html);
    let mut out: Vec<char> = Vec::new();
    let mut i: usize = 0;
    while i < v.len()
        invariant
            v@ == html@,
            i <= v.len(),
            out@ + strip_tags_from(v@, i as int) == strip_tags(v@),
        decreases v.len() - i,
    {
        let mut skipped = false;
        if v[i] == '<' {
            proof {
                lemma_next_char_bounds(v@, '>', i + 1);
            }
            match find_char(&v, '>', i + 1) {
                Some(j) => {
                    if j >= i + 2 {
                        i = j + 1;
                        skipped = true;
                    }
                },
                None => {},
            }
        }
        if !skipped {
            let ghost before = out@;
            out.push(v[i]);
            proof {
                assert(strip_tags_from(v@, i as int) =~= seq![v@[i as int]] + strip_tags_from(v@, i + 1));
                assert(out@ + strip_tags_from(v@, i + 1) =~= before + strip_tags_from(v@, i as int));
            }
            i = i + 1;
        }
    }
    string_of(out.as_slice())
}

/// A web fetch request.
pub struct WebFetchRequest {
    pub url: String,
    pub prompt: Option<String>,
}

/// What a web fetch returned.
pub struct WebFetchResult {
    pub url: String,
    pub title: Option<String>,
    pub content: String,
    pub status_code: u16,
    pub headers: StringMap,
}

impl WebFetchResult {
    /// A result for `url`: no title, empty content, status 200, no headers.
    pub fn new(url: &str) -> (r: Self)
        ensures
            r.url@ == url@,
            r.title is None,
            r.content@ == Seq::<char>::empty(),
            r.status_code == 200,
            r.headers.entries_spec().len() == 0,
    {
        WebFetchResult {
            url: owned(url),
            title: None,
            content: String::new(),
            status_code: 200,
            headers: StringMap::new(),
        }
    }

    /// The result with this content.
    pub fn with_content(self, content: &str) -> (r: Self)
        ensures
            r.content@ == content@,
            r.url == self.url && r.title == self.title && r.status_code == self.status_code,
            r.headers == self.headers,
    {
        let mut s = self;
        s.content = owned(content);
        s
    }

    /// The result with this title.
    pub fn with_title(self, title: &str) -> (r: Self)
        ensures
            r.title matches Some(t) && t@ == title@,
            r.url == self.url && r.content == self.content && r.status_code == self.status_code,
            r.headers == self.headers,
    {
        let mut s = self;
        s.title = Some(owned(title));
        s
    }

    /// The result with this status code.
    pub fn with_status(self, code: u16) -> (r: Self)
        ensures
            r.status_code == code,
            r.url == self.url && r.content == self.content && r.title == self.title,
            r.headers == self.headers,
    {
        let mut s = self;
        s.status_code = code;
        s
    }
}

/// A web search request.
pub struct WebSearchRequest {
    pub query: String,
    pub limit: Option<usize>,
    pub safe_search: bool,
}

impl WebSearchRequest {
    /// A request for `query`: ten results, safe search on.
    pub fn new(query: &str) -> (r: Self)
        ensures
            r.query@ == query@,
            r.limit == Some(10usize),
            r.safe_search,
    {
        WebSearchRequest { query: owned(query), limit: Some(10), safe_search: true }
    }

    /// The request with this limit.
    pub fn with_limit(self, limit: usize) -> (r: Self)
        ensures
            r.limit == Some(limit),
            r.query == self.query && r.safe_search == self.safe_search,
    {
        let mut s = self;
        s.limit = Some(limit);
        s
    }

    /// The request with safe search off.
    pub fn disable_safe_search(self) -> (r: Self)
        ensures
            !r.safe_search,
            r.query == self.query && r.limit == self.limit,
    {
        let mut s = self;
        s.safe_search = false;
        s
    }
}

/// One search result.
pub struct WebSearchResult {
    pub title: String,
    pub url: String,
    pub snippet: String,
    pub source: Option<String>,
}

impl WebSearchResult {
    /// A result with no source.
    pub fn new(title: &str, url: &str, snippet: &str) -> (r: Self)
        ensures
            r.title@ == title@ && r.url@ == url@ && r.snippet@ == snippet@,
            r.source is None,
    {
        WebSearchResult { title: owned(title), url: owned(url), snippet: owned(snippet), source: None }
    }
}

/// The results of a search.
pub struct WebSearchResponse {
    pub query: String,
    pub results: Vec<WebSearchResult>,
    pub total: usize,
}

impl WebSearchResponse {
    /// No results yet for `query`.
    pub fn new(query: &str) -> (r: Self)
        ensures
            r.query@ == query@,
            r.results@.len() == 0,
            r.total == 0,
    {
        WebSearchResponse { query: owned(query), results: Vec::new(), total: 0 }
    }

    /// Adds a result after the others and counts it.
    pub fn add_result(&mut self, result: WebSearchResult)
        requires
            old(self).total < usize::MAX,
        ensures
            final(self).results@ == old(self).results@.push(result),
            final(self).total == old(self).total + 1,
            final(self).query == old(self).query,
    {
        self.total = self.total + 1;
        self.results.push(result);
    }
}

/// The Markdown entry of search result number `n` (from 1).
pub open spec fn result_entry(n: nat, r: WebSearchResult) -> Seq<char> {
    decimal(n) + ". **"@ + r.title@ + "**\n   "@ + r.snippet@ + "\n   "@ + r.url@ + "\n\n"@
}

/// The entries of the first `k` results.
pub open spec fn result_entries(rs: Seq<WebSearchResult>, k: int) -> Seq<char>
    decreases k,
{
    if k <= 0 {
        Seq::empty()
    } else {
        result_entries(rs, k - 1) + result_entry(k as nat, rs[k - 1])
    }
}

/// The Markdown report of a search.
pub open spec fn search_markdown(r: WebSearchResponse) -> Seq<char> {
    "# Web Search: "@ + r.query@ + "\n\n"@ + if r.results@.len() == 0 {
        "No results found.\n"@
    } else {
        "Found "@ + decimal(r.total as nat) + " results:\n\n"@ + result_entries(
            r.results@,
            r.results@.len() as int,
        )
    }
}

/// Formats search results as Markdown.
pub fn format_search_results(response: &WebSearchResponse) -> (r: String)
    ensures
        r@ == search_markdown(*response),
{
    let mut md = owned("# Web Search: ");
    push_str(&mut md, response.query.as_str());
    push_str(&mut md, "\n\n");
    let ghost head = md@;
    if response.results.len() == 0 {
        push_str(&mut md, "No results found.\n");
        return md;
    }
    push_str(&mut md, "Found ");
    let t = u64_to_decimal(response.total as u64);
    push_str(&mut md, t.as_str());
    push_str(&mut md, " results:\n\n");
    let ghost start = md@;
    let mut i: usize = 0;
    while i < response.results.len()
        invariant
            i <= response.results@.len(),
            md@ == start + result_entries(response.results@, i as int),
        decreases response.results.len() - i,
    {
        let r = &response.results[i];
        let n = u64_to_decimal((i as u64) + 1);
        push_str(&mut md, n.as_str());
        push_str(&mut md, ". **");
        push_str(&mut md, r.title.as_str());
        push_str(&mut md, "**\n   ");
        push_str(&mut md, r.snippet.as_str());
        push_str(&mut md, "\n   ");
        push_str(&mut md, r.url.as_str());
        push_str(&mut md, "\n\n");
        proof {
            assert(md@ =~= start + result_entries(response.results@, i + 1));
        }
        i = i + 1;
    }
    md
}

/// What a fetch report shows of the content, before tags are removed: all
/// of it, or its first 10000 bytes, `...` and a note of its length.
pub open spec fn shown_content(c: Seq<char>) -> Seq<char> {
    if utf8_len(c) > 10000 {
        byte_prefix(c, 10000) + "...\n\n[Content truncated - "@ + decimal(utf8_len(c)) + " chars total]"@
    } else {
        c
    }
}

/// The Markdown report of a fetch.
pub open spec fn fetch_markdown(r: WebFetchResult, prompt: Option<Seq<char>>) -> Seq<char> {
    "# Web Fetch: "@ + r.url@ + "\n\n"@ + (match r.title {
        Some(t) => "**Title:** "@ + t@ + "\n\n"@,
        None => Seq::empty(),
    }) + "**Status:** "@ + decimal(r.status_code as nat) + "\n\n"@ + (match prompt {
        Some(p) => "**Prompt:** "@ + p + "\n\n"@,
        None => Seq::empty(),
    }) + "## Content\n\n"@ + strip_tags(shown_content(r.content@)) + "\n"@
}

/// Formats a fetch result as Markdown, with the content cut to 10000 bytes
/// and its tags removed.
pub fn format_fetch_result(result: &WebFetchResult, prompt: Option<&str>) -> (r: String)
    requires
        can_truncate_bytes(result.content@, 10000),
    ensures
        r@ == fetch_markdown(*result, crate::cron::str_opt_view(prompt)),
{
    let mut md = owned("# Web Fetch: ");
    push_str(&mut md, result.url.as_str());
    push_str(&mut md, "\n\n");
    if let Some(t) = &result.title {
        push_str(&mut md, "**Title:** ");
        push_str(&mut md, t.as_str());
        push_str(&mut md, "\n\n");
    }
    push_str(&mut md, "**Status:** ");
    let code = u64_to_decimal(result.status_code as u64);
    push_str(&mut md, code.as_str());
    push_str(&mut md, "\n\n");
    if let Some(p) = prompt {
        push_str(&mut md, "**Prompt:** ");
        push_str(&mut md, p);
        push_str(&mut md, "\n\n");
    }
    let content = if longer_than_bytes(result.content.as_str(), 10000) {
        let (mut c, _) = take_bytes(result.content.as_str(), 10000);
        push_str(&mut c, "...\n\n[Content truncated - ");
        let n = u64_to_decimal(byte_len(result.content.as_str()) as u64);
        push_str(&mut c, n.as_str());
        push_str(&mut c, " chars total]");
        c
    } else {
        result.content.clone()
    };
    let text = strip_html(content.as_str());
    push_str(&mut md, "## Content\n\n");
    push_str(&mut md, text.as_str());
    push_str(&mut md, "\n");
    md
}


/// One related topic of a search answer: its text and address, where the
/// answer has them as strings.
pub struct RelatedTopic {
    pub text: Option<String>,
    pub url: Option<String>,
}

/// The parts of a search service's answer that a search reads.
pub struct SearchAnswer {
    pub related_topics: Option<Vec<RelatedTopic>>,
    pub abstract_text: Option<String>,
    pub abstract_url: Option<String>,
    pub heading: Option<String>,
}

/// The text before the first ` - ` (all of it when there is none).
pub open spec fn before_dash(t: Seq<char>) -> Seq<char> {
    match first_occurrence(t, " - "@) {
        Some(i) => t.subrange(0, i),
        None => t,
    }
}

fn text_before_dash(t: &str) -> (r: String)
    ensures
        r@ == before_dash(t@),
{
    let v = chars_of(t);
    let pat = chars_of(" - ");
    proof {
        crate::text::lemma_first_occurrence(v@, pat@);
    }
    match crate::text::find(v.as_slice(), pat.as_slice()) {
        Some(i) => {
            let mut out: Vec<char> = Vec::new();
            let mut k: usize = 0;
            while k < i
                invariant
                    k <= i <= v@.len(),
                    out@ == v@.subrange(0, k as int),
                decreases i - k,
            {
                out.push(v[k]);
                k = k + 1;
            }
            string_of(out.as_slice())
        },
        None => owned(t),
    }
}

/// The results that the first `n` related topics give: each topic with both
/// text and address becomes a result titled by its text before ` - `.
pub open spec fn topic_results(ts: Seq<RelatedTopic>, n: int) -> Seq<(Seq<char>, Seq<char>, Seq<char>)>
    decreases n,
{
    if n <= 0 {
        Seq::empty()
    } else {
        let rest = topic_results(ts, n - 1);
        match (ts[n - 1].text, ts[n - 1].url) {
            (Some(t), Some(u)) => rest.push((before_dash(t@), u@, t@)),
            _ => rest,
        }
    }
}

/// The results a search answer gives, as (title, address, snippet): the
/// first `limit` related topics, then the abstract when it has text and an
/// address, titled by the heading or else the query.
pub open spec fn answer_results(a: SearchAnswer, query: Seq<char>, limit: int) -> Seq<(Seq<char>, Seq<char>, Seq<char>)> {
    let topics = match a.related_topics {
        Some(ts) => topic_results(ts@, if ts@.len() < limit { ts@.len() as int } else { limit }),
        None => Seq::empty(),
    };
    match (a.abstract_text, a.abstract_url) {
        (Some(t), Some(u)) => if t@.len() > 0 {
            topics.push(
                (
                    match a.heading {
                        Some(h) => h@,
                        None => query,
                    },
                    u@,
                    t@,
                ),
            )
        } else {
            topics
        },
        _ => topics,
    }
}

/// `r` lists these (title, address, snippet) triples, with no sources.
pub open spec fn lists_results(r: Seq<WebSearchResult>, xs: Seq<(Seq<char>, Seq<char>, Seq<char>)>) -> bool {
    r.len() == xs.len() && forall|i: int|
        0 <= i < xs.len() ==> (#[trigger] r[i]).title@ == xs[i].0 && r[i].url@ == xs[i].1
            && r[i].snippet@ == xs[i].2 && r[i].source is None
}

/// The search response that a service's answer gives for `query`.
pub fn search_response_from(query: &str, answer: &SearchAnswer, limit: usize) -> (r: WebSearchResponse)
    requires
        limit < usize::MAX,
    ensures
        r.query@ == query@,
        lists_results(r.results@, answer_results(*answer, query@, limit as int)),
        r.total == r.results@.len(),
{
    let mut resp = WebSearchResponse::new(query);
    if let Some(ts) = &answer.related_topics {
        let n = if ts.len() < limit {
            ts.len()
        } else {
            limit
        };
        let mut i: usize = 0;
        while i < n
            invariant
                i <= n <= ts@.len(),
                resp.query@ == query@,
                n <= limit < usize::MAX,
                resp.total == resp.results@.len(),
                resp.results@.len() <= i,
                lists_results(resp.results@, topic_results(ts@, i as int)),
            decreases n - i,
        {
            match (&ts[i].text, &ts[i].url) {
                (Some(t), Some(u)) => {
                    let title = text_before_dash(t.as_str());
                    let ghost before = resp.results@;
                    resp.add_result(WebSearchResult::new(title.as_str(), u.as_str(), t.as_str()));
                    proof {
                        let xs = topic_results(ts@, i + 1);
                        assert(xs == topic_results(ts@, i as int).push((before_dash(t@), u@, t@)));
                        assert forall|k: int| 0 <= k < xs.len() implies (#[trigger] resp.results@[k]).title@
                            == xs[k].0 && resp.results@[k].url@ == xs[k].1 && resp.results@[k].snippet@
                            == xs[k].2 && resp.results@[k].source is None by {
                            if k < before.len() {
                                assert(resp.results@[k] == before[k]);
                            }
                        }
                    }
                },
                _ => {},
            }
            i = i + 1;
        }
    }
    match (&answer.abstract_text, &answer.abstract_url) {
        (Some(t), Some(u)) => {
            if !t.as_str().is_empty() {
                let title = match &answer.heading {
                    Some(h) => h.as_str(),
                    None => query,
                };
                let ghost before = resp.results@;
                resp.add_result(WebSearchResult::new(title, u.as_str(), t.as_str()));
                proof {
                    let xs = answer_results(*answer, query@, limit as int);
                    assert forall|k: int| 0 <= k < xs.len() implies (#[trigger] resp.results@[k]).title@
                        == xs[k].0 && resp.results@[k].url@ == xs[k].1 && resp.results@[k].snippet@
                        == xs[k].2 && resp.results@[k].source is None by {
                        if k < before.len() {
                            assert(resp.results@[k] == before[k]);
                        }
                    }
                }
            }
        },
        _ => {},
    }
    resp
}


/// The web search tool; searching itself needs an async caller.
pub struct WebSearchTool;

impl WebSearchTool {
    pub fn new() -> (r: Self) {
        WebSearchTool
    }
}

impl Tool for WebSearchTool {
    fn name(&self) -> (r: &'static str)
        ensures
            r@ == "WebSearch"@,
    {
        "WebSearch"
    }

    fn description(&self) -> (r: &'static str)
        ensures
            r@ == "Search the web for information"@,
    {
        "Search the web for information"
    }

    fn execute(&self, args: &[String]) -> (r: Result<String, String>)
        ensures
            r is Ok,
            args@.len() == 0 ==> r->Ok_0@ == "Usage: WebSearch <query>"@,
            args@.len() > 0 ==> r->Ok_0@ == "WebSearch requires async context. Use: search_web(\""@
                + args@[0]@ + "\", 10).await"@,
    {
        if args.len() == 0 {
            return Ok(owned("Usage: WebSearch <query>"));
        }
        let mut m = owned("WebSearch requires async context. Use: search_web(\"");
        push_str(&mut m, args[0].as_str());
        push_str(&mut m, "\", 10).await");
        Ok(m)
    }
}

/// The web fetch tool; fetching itself needs an async caller.
pub struct WebFetchTool;

impl WebFetchTool {
    pub fn new() -> (r: Self) {
        WebFetchTool
    }
}

impl Tool for WebFetchTool {
    fn name(&self) -> (r: &'static str)
        ensures
            r@ == "WebFetch"@,
    {
        "WebFetch"
    }

    fn description(&self) -> (r: &'static str)
        ensures
            r@ == "Fetch web page content"@,
    {
        "Fetch web page content"
    }

    fn execute(&self, args: &[String]) -> (r: Result<String, String>)
        ensures
            r is Ok,
            args@.len() == 0 ==> r->Ok_0@ == "Usage: WebFetch <url>"@,
            args@.len() > 0 ==> r->Ok_0@ == "WebFetch requires async context. Use: fetch_web(\""@
                + args@[0]@ + "\").await"@,
    {
        if args.len() == 0 {
            return Ok(owned("Usage: WebFetch <url>"));
        }
        let mut m = owned("WebFetch requires async context. Use: fetch_web(\"");
        push_str(&mut m, args[0].as_str());
        push_str(&mut m, "\").await");
        Ok(m)
    }
}

} // verus!
