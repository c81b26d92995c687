//! Prompt caching: blocks of prompt text cached under random ids, a token
//! budget with eviction of the least used blocks, and cache markers cut out
//! of content.

use vstd::prelude::*;
use crate::text::{
    chars_of, first_occurrence, owned, push_str, str_eq, string_of, trim, trim_str, utf8_len,
    byte_len,
};

verus! {

/// A cached block of prompt text.
pub struct CachedBlock {
    pub id: String,
    pub content: String,
    pub block_type: CacheBlockType,
    pub tokens: usize,
    pub created_at: String,
    pub hit_count: u32,
    pub last_used: String,
}

/// What a cached block holds.
#[derive(Clone, Copy, Debug, PartialEq, Eq, Structural)]
pub enum CacheBlockType {
    SystemPrompt,
    Memory,
    Skills,
    ContextFiles,
    History,
    Tools,
}

/// The token budget of a cache.
pub struct CacheBudget {
    pub total_tokens: usize,
    pub used_tokens: usize,
    pub max_tokens: usize,
}

/// `a - b`, or 0 when `b` is larger (`saturating_sub`).
pub open spec fn sat_sub(a: int, b: int) -> int {
    if a >= b {
        a - b
    } else {
        0
    }
}

/// Tokens of all blocks.
pub open spec fn sum_tokens(bs: Seq<CachedBlock>) -> int
    decreases bs.len(),
{
    if bs.len() == 0 {
        0
    } else {
        sum_tokens(bs.drop_last()) + bs.last().tokens
    }
}

/// From index `i` on, the first block with the fewest hits, `best` being the
/// best so far.
pub open spec fn least_hit_from(bs: Seq<CachedBlock>, i: int, best: int) -> int
    decreases bs.len() - i,
{
    if i < 0 || i >= bs.len() {
        best
    } else if bs[i].hit_count < bs[best].hit_count {
        least_hit_from(bs, i + 1, i)
    } else {
        least_hit_from(bs, i + 1, best)
    }
}

/// The first block with the fewest hits.
pub open spec fn least_hit(bs: Seq<CachedBlock>) -> int {
    least_hit_from(bs, 1, 0)
}

/// The blocks left when blocks are evicted, fewest hits first (earlier
/// blocks first among equals), while the used tokens less those freed so
/// far stay above `target`.
pub open spec fn evict_spec(bs: Seq<CachedBlock>, used: int, freed: int, target: int) -> Seq<CachedBlock>
    decreases bs.len(),
{
    if bs.len() == 0 || sat_sub(used, freed) <= target {
        bs
    } else {
        let m = least_hit(bs);
        if 0 <= m < bs.len() {
            evict_spec(bs.remove(m), used, freed + bs[m].tokens, target)
        } else {
            bs
        }
    }
}

proof fn lemma_least_hit_from(bs: Seq<CachedBlock>, i: int, best: int)
    requires
        0 <= best < bs.len(),
        best < i || i >= bs.len(),
        0 <= i,
    ensures
        0 <= least_hit_from(bs, i, best) < bs.len(),
    decreases bs.len() - i,
{
    if i < bs.len() {
        if bs[i].hit_count < bs[best].hit_count {
            lemma_least_hit_from(bs, i + 1, i);
        } else {
            lemma_least_hit_from(bs, i + 1, best);
        }
    }
}

/// Removing a block takes its tokens off the sum.
pub proof fn lemma_sum_remove(bs: Seq<CachedBlock>, m: int)
    requires
        0 <= m < bs.len(),
    ensures
        sum_tokens(bs.remove(m)) + bs[m].tokens == sum_tokens(bs),
    decreases bs.len(),
{
    if m == bs.len() - 1 {
        assert(bs.remove(m) =~= bs.drop_last());
    } else {
        lemma_sum_remove(bs.drop_last(), m);
        assert(bs.remove(m).drop_last() =~= bs.drop_last().remove(m));
        assert(bs.remove(m).last() == bs.last());
    }
}

proof fn lemma_sum_nonneg(bs: Seq<CachedBlock>)
    ensures
        sum_tokens(bs) >= 0,
    decreases bs.len(),
{
    if bs.len() > 0 {
        lemma_sum_nonneg(bs.drop_last());
    }
}

fn least_hit_index(bs: &Vec<CachedBlock>) -> (m: usize)
    requires
        bs@.len() > 0,
    ensures
        m == least_hit(bs@),
        m < bs@.len(),
{
    let mut best: usize = 0;
    let mut i: usize = 1;
    proof {
        lemma_least_hit_from(bs@, 1, 0);
    }
    while i < bs.len()
        invariant
            1 <= i <= bs@.len(),
            best < i,
            least_hit(bs@) == least_hit_from(bs@, i as int, best as int),
        decreases bs.len() - i,
    {
        if bs[i].hit_count < bs[best].hit_count {
            best = i;
        }
        i = i + 1;
    }
    best
}

fn total_tokens_of(bs: &Vec<CachedBlock>) -> (n: usize)
    requires
        sum_tokens(bs@) <= usize::MAX,
    ensures
        n == sum_tokens(bs@),
{
    let mut n: usize = 0;
    let mut i: usize = 0;
    while i < bs.len()
        invariant
            i <= bs@.len(),
            sum_tokens(bs@) <= usize::MAX,
            n == sum_tokens(bs@.subrange(0, i as int)),
        decreases bs.len() - i,
    {
        proof {
            let pre = bs@.subrange(0, i + 1);
            assert(pre.drop_last() =~= bs@.subrange(0, i as int));
            lemma_sum_prefix_le(bs@, i + 1);
        }
        n = n + bs[i].tokens;
        i = i + 1;
    }
    assert(bs@.subrange(0, bs@.len() as int) =~= bs@);
    n
}

/// A prefix holds no more tokens than the whole.
pub proof fn lemma_sum_prefix_le(bs: Seq<CachedBlock>, k: int)
    requires
        0 <= k <= bs.len(),
    ensures
        sum_tokens(bs.subrange(0, k)) <= sum_tokens(bs),
    decreases bs.len() - k,
{
    if k < bs.len() {
        lemma_sum_prefix_le(bs, k + 1);
        assert(bs.subrange(0, k + 1).drop_last() =~= bs.subrange(0, k));
    } else {
        assert(bs.subrange(0, k) =~= bs);
    }
}

impl CacheBudget {
    /// A budget of `max_tokens` with nothing used.
    pub fn new(max_tokens: usize) -> (r: Self)
        ensures
            r.total_tokens == 0 && r.used_tokens == 0 && r.max_tokens == max_tokens,
    {
        CacheBudget { total_tokens: 0, used_tokens: 0, max_tokens }
    }

    /// Tokens left, never below zero.
    pub fn remaining(&self) -> (r: usize)
        ensures
            r == sat_sub(self.max_tokens as int, self.used_tokens as int),
    {
        self.max_tokens.saturating_sub(self.used_tokens)
    }

    /// Counts `tokens` more as used, stopping at the largest `usize`.
    pub fn add(&mut self, tokens: usize)
        ensures
            final(self).used_tokens == (if old(self).used_tokens + tokens > usize::MAX {
                usize::MAX as int
            } else {
                old(self).used_tokens + tokens
            }),
            final(self).max_tokens == old(self).max_tokens,
            final(self).total_tokens == old(self).total_tokens,
    {
        self.used_tokens = self.used_tokens.saturating_add(tokens);
    }

    /// Evicts blocks, fewest hits first, while the used tokens less those
    /// freed stay above `target_tokens`; then takes the tokens of the blocks
    /// that remain off the used count.
    pub fn evict_least_used(&mut self, blocks: &mut Vec<CachedBlock>, target_tokens: usize)
        requires
            sum_tokens(old(blocks)@) <= usize::MAX,
        ensures
            final(blocks)@ == evict_spec(old(blocks)@, old(self).used_tokens as int, 0, target_tokens as int),
            final(self).used_tokens == sat_sub(old(self).used_tokens as int, sum_tokens(final(blocks)@)),
            final(self).max_tokens == old(self).max_tokens,
            final(self).total_tokens == old(self).total_tokens,
    {
        let ghost orig = blocks@;
        let mut freed: usize = 0;
        proof {
            lemma_sum_nonneg(blocks@);
        }
        while blocks.len() > 0 && self.used_tokens.saturating_sub(freed) > target_tokens
            invariant
                evict_spec(orig, self.used_tokens as int, 0, target_tokens as int) == evict_spec(
                    blocks@,
                    self.used_tokens as int,
                    freed as int,
                    target_tokens as int,
                ),
                freed + sum_tokens(blocks@) <= sum_tokens(orig),
                sum_tokens(orig) <= usize::MAX,
                sum_tokens(blocks@) >= 0,
            decreases blocks.len(),
        {
            let m = least_hit_index(blocks);
            proof {
                lemma_sum_remove(blocks@, m as int);
                lemma_sum_nonneg(blocks@.remove(m as int));
            }
            freed = freed + blocks[m].tokens;
            blocks.remove(m);
        }
        proof {
            lemma_sum_prefix_le(blocks@, 0);
        }
        let left = total_tokens_of(blocks);
        self.used_tokens = self.used_tokens.saturating_sub(left);
    }
}


/// A character of the URL-safe alphabet that ids are drawn from.
pub open spec fn is_id_char(c: char) -> bool {
    c == '_' || c == '-' || ('0' <= c <= '9') || ('a' <= c <= 'z') || ('A' <= c <= 'Z')
}

/// `nanoid::format` with the default random source and the URL-safe
/// alphabet: a random id of `size` characters of that alphabet. It loops
/// forever for size 0 and computes `8 * size`, so sizes are kept small.
#[verifier::external_body]
pub(crate) fn random_id(size: usize) -> (r: String)
    requires
        0 < size <= 64,
    ensures
        r@.len() == size,
        forall|i: int| 0 <= i < size ==> is_id_char(#[trigger] r@[i]),
{
    nanoid::format(nanoid::rngs::default, &nanoid::alphabet::SAFE, size)
}

/// The time now in UTC, as RFC 3339.
#[verifier::external_body]
pub(crate) fn utc_now_rfc3339() -> (r: String)
{
    chrono::Utc::now().to_rfc3339()
}

/// The cache: blocks kept in the order they were added, a token budget.
pub struct PromptCache {
    blocks: Vec<CachedBlock>,
    budget: CacheBudget,
}

/// Whether a block has id `id`.
pub open spec fn block_has_id(id: Seq<char>) -> spec_fn(CachedBlock) -> bool {
    |b: CachedBlock| b.id@ == id
}

/// The markers that cut cached text out of content, in the order they are
/// tried.
pub open spec fn cache_markers() -> Seq<Seq<char>> {
    seq!["<!-- cache -->"@, "[CACHE]"@, "<cache>"@]
}

/// The text after the first `m` in `s`, up to the next `m` or the end (the
/// second part of `s.split(m)`).
pub open spec fn after_marker(s: Seq<char>, m: Seq<char>, i: int) -> Seq<char> {
    let from = i + m.len();
    match crate::text::first_occurrence_from(s, m, from) {
        Some(j) => s.subrange(from, j),
        None => s.subrange(from, s.len() as int),
    }
}

/// `s` cut at its first `m`: the text before it trimmed, a space and `m`;
/// `s` itself when `m` does not occur.
pub open spec fn cut_at_marker(s: Seq<char>, m: Seq<char>) -> Seq<char> {
    match first_occurrence(s, m) {
        Some(i) => trim(s.subrange(0, i)) + " "@ + m,
        None => s,
    }
}

/// The content left after each marker in turn has been cut, after the
/// first `k` markers.
pub open spec fn cleaned_after(s: Seq<char>, k: int) -> Seq<char>
    decreases k,
{
    if k <= 0 {
        s
    } else {
        cut_at_marker(cleaned_after(s, k - 1), cache_markers()[k - 1])
    }
}

/// How many of the first `k` markers cut something.
pub open spec fn markers_hit(s: Seq<char>, k: int) -> nat
    decreases k,
{
    if k <= 0 {
        0
    } else {
        markers_hit(s, k - 1) + if first_occurrence(cleaned_after(s, k - 1), cache_markers()[k - 1]) is Some {
            1nat
        } else {
            0nat
        }
    }
}

/// A rough token count: a quarter of the bytes.
pub open spec fn estimate_tokens_spec(t: Seq<char>) -> int {
    utf8_len(t) as int / 4
}

fn estimate_tokens(text: &str) -> (n: usize)
    ensures
        n == estimate_tokens_spec(text@),
{
    byte_len(text) / 4
}

fn subrange_string(v: &Vec<char>, a: usize, b: usize) -> (r: String)
    requires
        a <= b <= v@.len(),
    ensures
        r@ == v@.subrange(a as int, b as int),
{
    let mut out: Vec<char> = Vec::new();
    let mut i = a;
    while i < b
        invariant
            a <= i <= b <= v@.len(),
            out@ == v@.subrange(a as int, i as int),
        decreases b - i,
    {
        out.push(v[i]);
        i = i + 1;
    }
    string_of(out.as_slice())
}

impl PromptCache {
    /// The blocks, in the order they were added.
    pub closed spec fn blocks_spec(&self) -> Seq<CachedBlock> {
        self.blocks@
    }

    /// Tokens counted as used.
    pub closed spec fn used_spec(&self) -> int {
        self.budget.used_tokens as int
    }

    /// Tokens allowed.
    pub closed spec fn max_spec(&self) -> int {
        self.budget.max_tokens as int
    }

    /// An empty cache of `max_tokens`.
    pub fn new(max_tokens: usize) -> (r: Self)
        ensures
            r.blocks_spec().len() == 0,
            r.used_spec() == 0,
            r.max_spec() == max_tokens,
    {
        PromptCache { blocks: Vec::new(), budget: CacheBudget::new(max_tokens) }
    }

    /// Number of blocks.
    pub fn block_count(&self) -> (n: usize)
        ensures
            n == self.blocks_spec().len(),
    {
        self.blocks.len()
    }

    /// Tokens counted as used.
    pub fn used_tokens(&self) -> (n: usize)
        ensures
            n == self.used_spec(),
    {
        self.budget.used_tokens
    }

    /// Caches `content` under a fresh random id and returns the id. When the
    /// budget has less room than `tokens`, blocks are evicted first, fewest
    /// hits first, down to `tokens`.
    pub fn cache_block(&mut self, block_type: CacheBlockType, content: &str, tokens: usize) -> (id: String)
        requires
            sum_tokens(old(self).blocks_spec()) <= usize::MAX,
        ensures
            id@.len() == 12,
            final(self).max_spec() == old(self).max_spec(),
            sum_tokens(final(self).blocks_spec()) <= sum_tokens(old(self).blocks_spec()) + tokens,
            cached_step(old(self).blocks_spec(), old(self).used_spec(), final(self).blocks_spec(), final(self).used_spec(), old(self).max_spec(), id@, content@, block_type, tokens as int),
    {
        let id = random_id(12);
        let now = utc_now_rfc3339();
        if self.budget.remaining() < tokens {
            self.budget.evict_least_used(&mut self.blocks, tokens);
        }
        let block = CachedBlock {
            id: id.clone(),
            content: owned(content),
            block_type,
            tokens,
            created_at: now.clone(),
            hit_count: 0,
            last_used: now,
        };
        self.budget.add(tokens);
        let ghost kept = self.blocks@;
        proof {
            lemma_evict_sum_le(old(self).blocks@, old(self).budget.used_tokens as int, 0, tokens as int);
            lemma_sum_nonneg(kept);
        }
        match find_block(&self.blocks, id.as_str()) {
            Some(i) => {
                proof {
                    lemma_sum_remove(kept, i as int);
                    lemma_sum_remove(kept.update(i as int, block), i as int);
                    assert(kept.update(i as int, block).remove(i as int) =~= kept.remove(i as int));
                }
                self.blocks.set(i, block);
                assert(self.blocks@ =~= kept.update(i as int, self.blocks@[i as int]));
            },
            None => {
                self.blocks.push(block);
                assert(self.blocks@.drop_last() =~= kept);
                assert(self.blocks@ =~= kept.push(self.blocks@.last()));
            },
        }
        id
    }

    /// The first block with id `id`, after counting a hit on it.
    pub fn get(&mut self, id: &str) -> (r: Option<&CachedBlock>)
        requires
            first_index_of_block(old(self).blocks_spec(), id@) matches Some(i) ==> old(self).blocks_spec()[i].hit_count < u32::MAX,
        ensures
            match first_index_of_block(old(self).blocks_spec(), id@) {
                Some(i) => {
                    &&& final(self).blocks_spec().len() == old(self).blocks_spec().len()
                    &&& final(self).blocks_spec() == old(self).blocks_spec().update(i, final(self).blocks_spec()[i])
                    &&& final(self).blocks_spec()[i] == CachedBlock {
                        hit_count: (old(self).blocks_spec()[i].hit_count + 1) as u32,
                        last_used: final(self).blocks_spec()[i].last_used,
                        ..old(self).blocks_spec()[i]
                    }
                    &&& r == Some(&final(self).blocks_spec()[i])
                },
                None => r is None && final(self).blocks_spec() == old(self).blocks_spec(),
            },
            final(self).used_spec() == old(self).used_spec(),
            final(self).max_spec() == old(self).max_spec(),
    {
        match find_block(&self.blocks, id) {
            Some(i) => {
                let ghost before = self.blocks@;
                let mut b = self.blocks.remove(i);
                b.hit_count = b.hit_count + 1;
                b.last_used = utc_now_rfc3339();
                self.blocks.insert(i, b);
                assert(self.blocks@ =~= before.update(i as int, self.blocks@[i as int]));
                Some(&self.blocks[i])
            },
            None => None,
        }
    }

    /// Cuts the cache markers out of `content`, in turn: for each marker
    /// that occurs, the text after it (up to its next occurrence) is cached
    /// as context, trimmed, and the content becomes the trimmed text before
    /// it, a space and the marker. Returns the content left and the ids of
    /// the cached blocks.
    pub fn extract_and_cache(&mut self, content: &str) -> (r: (String, Vec<String>))
        requires
            sum_tokens(old(self).blocks_spec()) + 3 * (content@.len() + 3) <= usize::MAX,
        ensures
            r.0@ == cleaned_after(content@, 3),
            r.1@.len() == markers_hit(content@, 3),
            forall|i: int| 0 <= i < r.1@.len() ==> (#[trigger] r.1@[i])@.len() == 12,
            final(self).max_spec() == old(self).max_spec(),
            r.1@.len() == 0 ==> final(self).blocks_spec() == old(self).blocks_spec() && final(self).used_spec()
                == old(self).used_spec(),
            hit_sections(content@, 3).len() == r.1@.len(),
            exists|states: Seq<(Seq<CachedBlock>, int)>|
                {
                    &&& states.len() == r.1@.len() + 1
                    &&& states[0] == (old(self).blocks_spec(), old(self).used_spec())
                    &&& states.last() == (final(self).blocks_spec(), final(self).used_spec())
                    &&& forall|i: int|
                        0 <= i < r.1@.len() ==> cached_step(
                            states[i].0,
                            states[i].1,
                            states[i + 1].0,
                            states[i + 1].1,
                            old(self).max_spec(),
                            (#[trigger] r.1@[i])@,
                            hit_sections(content@, 3)[i],
                            CacheBlockType::ContextFiles,
                            estimate_tokens_spec(hit_sections(content@, 3)[i]),
                        )
                },
    {
        let mut cleaned = owned(content);
        let mut ids: Vec<String> = Vec::new();
        let markers: [&str; 3] = ["<!-- cache -->", "[CACHE]", "<cache>"];
        proof {
            reveal_strlit("<!-- cache -->");
            reveal_strlit("[CACHE]");
            reveal_strlit("<cache>");
            assert(markers@.map_values(|m: &str| m@) =~= cache_markers());
        }
        let mut k: usize = 0;
        let ghost mut states: Seq<(Seq<CachedBlock>, int)> = seq![(self.blocks_spec(), self.used_spec())];
        while k < 3
            invariant
                k <= 3,
                markers@.map_values(|m: &str| m@) == cache_markers(),
                cleaned@ == cleaned_after(content@, k as int),
                ids@.len() == markers_hit(content@, k as int),
                forall|i: int| 0 <= i < ids@.len() ==> (#[trigger] ids@[i])@.len() == 12,
                sum_tokens(self.blocks_spec()) + (3 - k) * (content@.len() + 3) <= usize::MAX,
                self.max_spec() == old(self).max_spec(),
                ids@.len() == 0 ==> self.blocks_spec() == old(self).blocks_spec() && self.used_spec() == old(
                    self,
                ).used_spec(),
                hit_sections(content@, k as int).len() == ids@.len(),
                states.len() == ids@.len() + 1,
                states[0] == (old(self).blocks_spec(), old(self).used_spec()),
                states.last() == (self.blocks_spec(), self.used_spec()),
                forall|i: int|
                    0 <= i < ids@.len() ==> cached_step(
                        states[i].0,
                        states[i].1,
                        states[i + 1].0,
                        states[i + 1].1,
                        old(self).max_spec(),
                        (#[trigger] ids@[i])@,
                        hit_sections(content@, k as int)[i],
                        CacheBlockType::ContextFiles,
                        estimate_tokens_spec(hit_sections(content@, k as int)[i]),
                    ),
            decreases 3 - k,
        {
            let marker = markers[k];
            assert(marker@ == cache_markers()[k as int]);
            let cv = chars_of(cleaned.as_str());
            let mv = chars_of(marker);
            proof {
                crate::text::lemma_first_occurrence(cv@, mv@);
            }
            match crate::text::find(cv.as_slice(), mv.as_slice()) {
                Some(i) => {
                    assert(crate::text::occurs_at(cv@, mv@, i as int));
                    assert(cv@.len() <= usize::MAX) by {
                        assert(cv.len() <= usize::MAX);
                    }
                    let from = i + mv.len();
                    let end = match crate::text::find_from(cv.as_slice(), mv.as_slice(), from) {
                        Some(j) => {
                            proof {
                                lemma_first_occurrence_from_bounds(cv@, mv@, from as int);
                            }
                            j
                        },
                        None => cv.len(),
                    };
                    let part = subrange_string(&cv, from, end);
                    proof {
                        assert(part@ == after_marker(cv@, mv@, i as int));
                        lemma_cleaned_len(content@, k as int);
                        lemma_trim_len(part@);
                        lemma_utf8_len_le(trim(part@));
                        assert(utf8_len(trim(part@)) / 4 <= trim(part@).len());
                        assert(part@.len() <= cv@.len());
                    }
                    let cache_content = trim_str(part.as_str());
                    let tokens = estimate_tokens(cache_content.as_str());
                    let ghost before_sum = sum_tokens(self.blocks_spec());
                    let id = self.cache_block(CacheBlockType::ContextFiles, cache_content.as_str(), tokens);
                    proof {
                        let b = content@.len() + 3;
                        assert((3 - k) * b == (3 - (k + 1)) * b + b) by (nonlinear_arith);
                    }
                    proof {
                        let c = cleaned_after(content@, k as int);
                        assert(cv@ == c);
                        assert(first_occurrence(c, cache_markers()[k as int]) == Some(i as int));
                        assert(hit_sections(content@, k + 1) == hit_sections(content@, k as int).push(cache_content@));
                        states = states.push((self.blocks_spec(), self.used_spec()));
                    }
                    let ghost before_ids = ids@;
                    ids.push(id);
                    let before = subrange_string(&cv, 0, i);
                    let mut next = trim_str(before.as_str());
                    push_str(&mut next, " ");
                    push_str(&mut next, marker);
                    cleaned = next;
                    proof {
                        assert(cleaned@ == cut_at_marker(cleaned_after(content@, k as int), cache_markers()[k as int]));
                        assert forall|x: int| 0 <= x < ids@.len() implies (#[trigger] ids@[x])@.len() == 12 by {
                            if x < before_ids.len() {
                                assert(ids@[x] == before_ids[x]);
                            }
                        }
                    }
                },
                    None => {
                    proof {
                        let b = content@.len() + 3;
                        assert((3 - k) * b >= (3 - (k + 1)) * b) by (nonlinear_arith)
                            requires
                                b >= 0,
                        ;
                    }
                },
            }
            k = k + 1;
        }
        (cleaned, ids)
    }

    /// The cache-control message sent for blocks of type `block_type`, as
    /// JSON text: an empty array when no block of that type is cached, else
    /// one ephemeral cache-control entry.
    pub fn build_cached_message(&self, block_type: CacheBlockType) -> (r: String)
        ensures
            r@ == if exists|i: int| 0 <= i < self.blocks_spec().len() && #[trigger] self.blocks_spec()[i].block_type == block_type {
                "[{\"control\":{\"type\":\"ephemeral\"},\"type\":\"cache_control\"}]"@
            } else {
                "[]"@
            },
    {
        let mut i: usize = 0;
        while i < self.blocks.len()
            invariant
                i <= self.blocks@.len(),
                forall|k: int| 0 <= k < i ==> self.blocks@[k].block_type != block_type,
            decreases self.blocks.len() - i,
        {
            if self.blocks[i].block_type == block_type {
                return owned("[{\"control\":{\"type\":\"ephemeral\"},\"type\":\"cache_control\"}]");
            }
            i = i + 1;
        }
        owned("[]")
    }

    /// Drops every block of type `block_type` and counts the tokens of the
    /// rest as used.
    pub fn invalidate_type(&mut self, block_type: &CacheBlockType)
        requires
            sum_tokens(old(self).blocks_spec()) <= usize::MAX,
        ensures
            final(self).blocks_spec() == blocks_not_of(old(self).blocks_spec(), *block_type),
            final(self).used_spec() == sum_tokens(final(self).blocks_spec()),
            final(self).max_spec() == old(self).max_spec(),
    {
        let mut rest: Vec<CachedBlock> = Vec::new();
        std::mem::swap(&mut rest, &mut self.blocks);
        let ghost all = rest@;
        let ghost n = rest@.len();
        assert(n <= usize::MAX) by {
            assert(rest.len() <= usize::MAX);
        }
        let mut i: usize = 0;
        assert(all.subrange(0, 0) =~= Seq::<CachedBlock>::empty());
        while rest.len() > 0
            invariant
                n == all.len(),
                n <= usize::MAX,
                i + rest@.len() == n,
                rest@ == all.subrange(i as int, n as int),
                self.blocks@ == blocks_not_of(all.subrange(0, i as int), *block_type),
                self.budget == old(self).budget,
            decreases rest.len(),
        {
            let b = rest.remove(0);
            proof {
                assert(b == all[i as int]);
                assert(all.subrange(0, i + 1).drop_last() =~= all.subrange(0, i as int));
                assert(rest@ =~= all.subrange(i + 1, n as int));
            }
            if b.block_type != *block_type {
                self.blocks.push(b);
            }
            i = i + 1;
        }
        assert(all.subrange(0, n as int) =~= all);
        proof {
            lemma_not_of_le(all, *block_type);
        }
        self.budget.used_tokens = total_tokens_of(&self.blocks);
    }

    /// Drops every block; nothing is counted as used.
    pub fn clear(&mut self)
        ensures
            final(self).blocks_spec().len() == 0,
            final(self).used_spec() == 0,
            final(self).max_spec() == old(self).max_spec(),
    {
        self.blocks = Vec::new();
        self.budget.used_tokens = 0;
    }
}

/// The blocks of `bs` not of type `t`, in order.
pub open spec fn blocks_not_of(bs: Seq<CachedBlock>, t: CacheBlockType) -> Seq<CachedBlock>
    decreases bs.len(),
{
    if bs.len() == 0 {
        Seq::empty()
    } else {
        let rest = blocks_not_of(bs.drop_last(), t);
        if bs.last().block_type != t {
            rest.push(bs.last())
        } else {
            rest
        }
    }
}

proof fn lemma_not_of_le(bs: Seq<CachedBlock>, t: CacheBlockType)
    ensures
        sum_tokens(blocks_not_of(bs, t)) <= sum_tokens(bs),
    decreases bs.len(),
{
    if bs.len() > 0 {
        lemma_not_of_le(bs.drop_last(), t);
        let rest = blocks_not_of(bs.drop_last(), t);
        assert(rest.push(bs.last()).drop_last() =~= rest);
    }
}

/// `b` is a block just cached: this id, content, type and size, no hits.
pub open spec fn is_new_block(b: CachedBlock, id: Seq<char>, content: Seq<char>, t: CacheBlockType, tokens: int) -> bool {
    b.id@ == id && b.content@ == content && b.block_type == t && b.tokens == tokens && b.hit_count == 0
}

/// What caching one block does to the blocks `bs` and used tokens `used`
/// of a cache with room for `max` tokens, giving `bs2` and `used2`: when
/// the room left is less than `tokens`, blocks are evicted first; the new
/// block (`id`, `content`, type `t`, `tokens`, no hits) then replaces a
/// block of the same id or comes last, and its tokens are added to the
/// used ones (saturating).
pub open spec fn cached_step(bs: Seq<CachedBlock>, used: int, bs2: Seq<CachedBlock>, used2: int, max: int, id: Seq<char>, content: Seq<char>, t: CacheBlockType, tokens: int) -> bool {
    let evicting = sat_sub(max, used) < tokens;
    let kept = if evicting { evict_spec(bs, used, 0, tokens) } else { bs };
    let base = if evicting { sat_sub(used, sum_tokens(kept)) } else { used };
    &&& match first_index_of_block(kept, id) {
        Some(i) => bs2 == kept.update(i, bs2[i]) && is_new_block(bs2[i], id, content, t, tokens),
        None => bs2 == kept.push(bs2.last()) && is_new_block(bs2.last(), id, content, t, tokens),
    }
    &&& used2 == if base + tokens > usize::MAX { usize::MAX as int } else { base + tokens }
}

/// The sections that the markers which cut something cut out of `s`,
/// trimmed, in order, among the first `k` markers.
pub open spec fn hit_sections(s: Seq<char>, k: int) -> Seq<Seq<char>>
    decreases k,
{
    if k <= 0 {
        Seq::empty()
    } else {
        let c = cleaned_after(s, k - 1);
        let m = cache_markers()[k - 1];
        hit_sections(s, k - 1) + match first_occurrence(c, m) {
            Some(i) => seq![trim(after_marker(c, m, i))],
            None => Seq::empty(),
        }
    }
}



/// Index of the first block with id `id`.
pub open spec fn first_index_of_block(bs: Seq<CachedBlock>, id: Seq<char>) -> Option<int> {
    crate::text::first_index(bs, block_has_id(id), 0)
}

fn find_block(bs: &Vec<CachedBlock>, id: &str) -> (r: Option<usize>)
    ensures
        match r {
            Some(i) => first_index_of_block(bs@, id@) == Some(i as int) && i < bs@.len(),
            None => first_index_of_block(bs@, id@) is None,
        },
{
    let mut i: usize = 0;
    while i < bs.len()
        invariant
            i <= bs@.len(),
            first_index_of_block(bs@, id@) == crate::text::first_index(bs@, block_has_id(id@), i as int),
        decreases bs.len() - i,
    {
        if str_eq(bs[i].id.as_str(), id) {
            return Some(i);
        }
        i = i + 1;
    }
    None
}


proof fn lemma_least_hit_from_min(bs: Seq<CachedBlock>, i: int, best: int)
    requires
        0 <= best < bs.len(),
        best < i,
        forall|j: int| 0 <= j < i && j < bs.len() ==> bs[best].hit_count <= #[trigger] bs[j].hit_count,
        forall|j: int| 0 <= j < best ==> bs[best].hit_count < #[trigger] bs[j].hit_count,
    ensures
        0 <= least_hit_from(bs, i, best) < bs.len(),
        forall|j: int|
            0 <= j < bs.len() ==> bs[least_hit_from(bs, i, best)].hit_count <= #[trigger] bs[j].hit_count,
        forall|j: int|
            0 <= j < least_hit_from(bs, i, best) ==> bs[least_hit_from(bs, i, best)].hit_count
                < #[trigger] bs[j].hit_count,
    decreases bs.len() - i,
{
    if i < bs.len() {
        if bs[i].hit_count < bs[best].hit_count {
            lemma_least_hit_from_min(bs, i + 1, i);
        } else {
            lemma_least_hit_from_min(bs, i + 1, best);
        }
    }
}

/// The block picked for eviction has no more hits than any other block,
/// and every block before it has strictly more (the earliest of the least
/// used).
pub proof fn lemma_least_hit_min(bs: Seq<CachedBlock>)
    requires
        bs.len() > 0,
    ensures
        0 <= least_hit(bs) < bs.len(),
        forall|j: int| 0 <= j < bs.len() ==> bs[least_hit(bs)].hit_count <= #[trigger] bs[j].hit_count,
        forall|j: int| 0 <= j < least_hit(bs) ==> bs[least_hit(bs)].hit_count < #[trigger] bs[j].hit_count,
{
    lemma_least_hit_from_min(bs, 1, 0);
}

/// Every block left after eviction is one of the blocks before it.
pub proof fn lemma_evict_keeps_blocks(bs: Seq<CachedBlock>, used: int, freed: int, target: int)
    ensures
        forall|k: int|
            0 <= k < evict_spec(bs, used, freed, target).len() ==> bs.contains(
                #[trigger] evict_spec(bs, used, freed, target)[k],
            ),
    decreases bs.len(),
{
    if bs.len() > 0 && sat_sub(used, freed) > target {
        let m = least_hit(bs);
        if 0 <= m < bs.len() {
            lemma_evict_keeps_blocks(bs.remove(m), used, freed + bs[m].tokens, target);
            let r = evict_spec(bs, used, freed, target);
            let rest = bs.remove(m);
            assert(r == evict_spec(rest, used, freed + bs[m].tokens, target));
            assert forall|k: int| 0 <= k < r.len() implies bs.contains(#[trigger] r[k]) by {
                assert(rest.contains(r[k]));
                let j = choose|j: int| 0 <= j < rest.len() && rest[j] == r[k];
                if j < m {
                    assert(bs[j] == r[k]);
                } else {
                    assert(bs[j + 1] == r[k]);
                }
            }
        }
    }
}

/// When the cache is over its budget, the first block evicted is one with
/// the fewest hits: it has no more hits than any block that stays.
pub proof fn lemma_evict_least_used_first(bs: Seq<CachedBlock>, used: int, freed: int, target: int)
    requires
        bs.len() > 0,
        sat_sub(used, freed) > target,
    ensures
        0 <= least_hit(bs) < bs.len(),
        evict_spec(bs, used, freed, target) == evict_spec(
            bs.remove(least_hit(bs)),
            used,
            freed + bs[least_hit(bs)].tokens,
            target,
        ),
        forall|k: int|
            0 <= k < evict_spec(bs, used, freed, target).len() ==> bs[least_hit(bs)].hit_count
                <= (#[trigger] evict_spec(bs, used, freed, target)[k]).hit_count,
{
    lemma_least_hit_min(bs);
    let m = least_hit(bs);
    let r = evict_spec(bs, used, freed, target);
    lemma_evict_keeps_blocks(bs, used, freed, target);
    assert forall|k: int| 0 <= k < r.len() implies bs[m].hit_count <= (#[trigger] r[k]).hit_count by {
        assert(bs.contains(r[k]));
        let j = choose|j: int| 0 <= j < bs.len() && bs[j] == r[k];
        assert(bs[m].hit_count <= bs[j].hit_count);
    }
}

/// Eviction never adds tokens.
pub proof fn lemma_evict_sum_le(bs: Seq<CachedBlock>, used: int, freed: int, target: int)
    ensures
        sum_tokens(evict_spec(bs, used, freed, target)) <= sum_tokens(bs),
    decreases bs.len(),
{
    if bs.len() > 0 && sat_sub(used, freed) > target {
        let m = least_hit(bs);
        if 0 <= m < bs.len() {
            lemma_evict_sum_le(bs.remove(m), used, freed + bs[m].tokens, target);
            lemma_sum_remove(bs, m);
        }
    }
}

proof fn lemma_first_occurrence_from_bounds(s: Seq<char>, p: Seq<char>, from: int)
    ensures
        crate::text::first_occurrence_from(s, p, from) matches Some(j) ==> from <= j && j + p.len()
            <= s.len(),
    decreases s.len() + 1 - from,
{
    if !(from < 0 || from > s.len() || from + p.len() > s.len()) && !crate::text::occurs_at(s, p, from) {
        lemma_first_occurrence_from_bounds(s, p, from + 1);
    }
}

proof fn lemma_trim_start_len(s: Seq<char>)
    ensures
        crate::text::trim_start(s).len() <= s.len(),
    decreases s.len(),
{
    if s.len() > 0 && crate::text::is_ws(s[0]) {
        lemma_trim_start_len(s.drop_first());
    }
}

proof fn lemma_trim_end_len(s: Seq<char>)
    ensures
        crate::text::trim_end(s).len() <= s.len(),
    decreases s.len(),
{
    if s.len() > 0 && crate::text::is_ws(s.last()) {
        lemma_trim_end_len(s.drop_last());
    }
}

/// Trimming never lengthens.
pub proof fn lemma_trim_len(s: Seq<char>)
    ensures
        trim(s).len() <= s.len(),
{
    lemma_trim_start_len(s);
    lemma_trim_end_len(crate::text::trim_start(s));
}

/// A character takes at most four bytes.
pub proof fn lemma_utf8_len_le(s: Seq<char>)
    ensures
        utf8_len(s) <= 4 * s.len(),
    decreases s.len(),
{
    if s.len() > 0 {
        lemma_utf8_len_le(s.drop_first());
    }
}

/// Each cut adds at most one character.
proof fn lemma_cleaned_len(s: Seq<char>, k: int)
    requires
        0 <= k <= 3,
    ensures
        cleaned_after(s, k).len() <= s.len() + k,
    decreases k,
{
    if k > 0 {
        lemma_cleaned_len(s, k - 1);
        let c = cleaned_after(s, k - 1);
        let m = cache_markers()[k - 1];
        reveal_strlit(" ");
        crate::text::lemma_first_occurrence(c, m);
        if let Some(i) = first_occurrence(c, m) {
            lemma_trim_len(c.subrange(0, i));
        }
    }
}

impl CacheBlockType {
    /// The variant's name, as `Debug` writes it.
    pub fn debug_name(&self) -> (r: &'static str)
        ensures
            r@ == block_type_label(*self),
    {
        match self {
            CacheBlockType::SystemPrompt => "SystemPrompt",
            CacheBlockType::Memory => "Memory",
            CacheBlockType::Skills => "Skills",
            CacheBlockType::ContextFiles => "ContextFiles",
            CacheBlockType::History => "History",
            CacheBlockType::Tools => "Tools",
        }
    }
}

/// The name of a block type.
pub open spec fn block_type_label(t: CacheBlockType) -> Seq<char> {
    match t {
        CacheBlockType::SystemPrompt => "SystemPrompt"@,
        CacheBlockType::Memory => "Memory"@,
        CacheBlockType::Skills => "Skills"@,
        CacheBlockType::ContextFiles => "ContextFiles"@,
        CacheBlockType::History => "History"@,
        CacheBlockType::Tools => "Tools"@,
    }
}

/// The block types, in the order they are declared.
pub open spec fn all_block_types() -> Seq<CacheBlockType> {
    seq![
        CacheBlockType::SystemPrompt,
        CacheBlockType::Memory,
        CacheBlockType::Skills,
        CacheBlockType::ContextFiles,
        CacheBlockType::History,
        CacheBlockType::Tools,
    ]
}

/// Some block is of type `t`.
pub open spec fn has_type(bs: Seq<CachedBlock>, t: CacheBlockType) -> bool {
    exists|i: int| 0 <= i < bs.len() && #[trigger] bs[i].block_type == t
}

/// Tokens of the blocks of type `t`.
pub open spec fn tokens_of_type(bs: Seq<CachedBlock>, t: CacheBlockType) -> int
    decreases bs.len(),
{
    if bs.len() == 0 {
        0
    } else {
        tokens_of_type(bs.drop_last(), t) + if bs.last().block_type == t {
            bs.last().tokens as int
        } else {
            0
        }
    }
}

/// Hits of all blocks.
pub open spec fn sum_hits(bs: Seq<CachedBlock>) -> int
    decreases bs.len(),
{
    if bs.len() == 0 {
        0
    } else {
        sum_hits(bs.drop_last()) + bs.last().hit_count
    }
}

/// For each of the first `k` block types that some block has, in order,
/// its name and the tokens of its blocks.
pub open spec fn tokens_by_type(bs: Seq<CachedBlock>, k: int) -> Seq<(Seq<char>, int)>
    decreases k,
{
    if k <= 0 {
        Seq::empty()
    } else {
        let t = all_block_types()[k - 1];
        tokens_by_type(bs, k - 1) + if has_type(bs, t) {
            seq![(block_type_label(t), tokens_of_type(bs, t))]
        } else {
            Seq::empty()
        }
    }
}

/// Figures of a cache. The mean number of hits per block is the caller's
/// to work out from `total_hits` and `total_blocks`.
pub struct CacheStats {
    pub total_blocks: usize,
    pub total_tokens: usize,
    pub max_tokens: usize,
    pub remaining: usize,
    /// For each block type that some block has, in declaration order, its
    /// name and the tokens of its blocks.
    pub by_type: Vec<(String, usize)>,
    /// Hits of all blocks, at most `u64::MAX`.
    pub total_hits: u64,
}

/// The pairs' names and numbers.
pub open spec fn named_counts(v: Seq<(String, usize)>) -> Seq<(Seq<char>, int)> {
    v.map_values(|p: (String, usize)| (p.0@, p.1 as int))
}

proof fn lemma_type_tokens_le(bs: Seq<CachedBlock>, t: CacheBlockType)
    ensures
        0 <= tokens_of_type(bs, t) <= sum_tokens(bs),
    decreases bs.len(),
{
    if bs.len() > 0 {
        lemma_type_tokens_le(bs.drop_last(), t);
    }
}

fn type_usage(bs: &Vec<CachedBlock>, t: CacheBlockType) -> (r: (bool, usize))
    requires
        sum_tokens(bs@) <= usize::MAX,
    ensures
        r.0 == has_type(bs@, t),
        r.1 == tokens_of_type(bs@, t),
{
    let mut found = false;
    let mut n: usize = 0;
    let mut i: usize = 0;
    while i < bs.len()
        invariant
            i <= bs@.len(),
            sum_tokens(bs@) <= usize::MAX,
            found == has_type(bs@.subrange(0, i as int), t),
            n == tokens_of_type(bs@.subrange(0, i as int), t),
        decreases bs.len() - i,
    {
        proof {
            let pre = bs@.subrange(0, i + 1);
            assert(pre.drop_last() =~= bs@.subrange(0, i as int));
            lemma_sum_prefix_le(bs@, i + 1);
            lemma_type_tokens_le(pre, t);
            if has_type(bs@.subrange(0, i as int), t) {
                let j = choose|j: int| 0 <= j < i && #[trigger] bs@.subrange(0, i as int)[j].block_type == t;
                assert(pre[j].block_type == t);
            }
            if has_type(pre, t) && bs@[i as int].block_type != t {
                let j = choose|j: int| 0 <= j < i + 1 && #[trigger] pre[j].block_type == t;
                assert(bs@.subrange(0, i as int)[j].block_type == t);
            }
            if bs@[i as int].block_type == t {
                assert(pre[i as int].block_type == t);
            }
        }
        if bs[i].block_type == t {
            found = true;
            n = n + bs[i].tokens;
        }
        i = i + 1;
    }
    assert(bs@.subrange(0, bs@.len() as int) =~= bs@);
    (found, n)
}

fn hits_of(bs: &Vec<CachedBlock>) -> (n: u64)
    ensures
        n == (if sum_hits(bs@) <= u64::MAX { sum_hits(bs@) } else { u64::MAX as int }),
{
    let mut n: u64 = 0;
    let mut i: usize = 0;
    while i < bs.len()
        invariant
            i <= bs@.len(),
            n == (if sum_hits(bs@.subrange(0, i as int)) <= u64::MAX {
                sum_hits(bs@.subrange(0, i as int))
            } else {
                u64::MAX as int
            }),
            sum_hits(bs@.subrange(0, i as int)) >= 0,
        decreases bs.len() - i,
    {
        proof {
            let pre = bs@.subrange(0, i + 1);
            assert(pre.drop_last() =~= bs@.subrange(0, i as int));
        }
        n = n.saturating_add(bs[i].hit_count as u64);
        i = i + 1;
    }
    assert(bs@.subrange(0, bs@.len() as int) =~= bs@);
    n
}

fn block_type_at(k: usize) -> (t: CacheBlockType)
    requires
        k < 6,
    ensures
        t == all_block_types()[k as int],
{
    if k == 0 {
        CacheBlockType::SystemPrompt
    } else if k == 1 {
        CacheBlockType::Memory
    } else if k == 2 {
        CacheBlockType::Skills
    } else if k == 3 {
        CacheBlockType::ContextFiles
    } else if k == 4 {
        CacheBlockType::History
    } else {
        CacheBlockType::Tools
    }
}

impl PromptCache {
    /// The cache's figures.
    pub fn stats(&self) -> (r: CacheStats)
        requires
            sum_tokens(self.blocks_spec()) <= usize::MAX,
        ensures
            r.total_blocks == self.blocks_spec().len(),
            r.total_tokens == sum_tokens(self.blocks_spec()),
            r.max_tokens == self.max_spec(),
            r.remaining == sat_sub(self.max_spec(), self.used_spec()),
            named_counts(r.by_type@) == tokens_by_type(self.blocks_spec(), 6),
            r.total_hits == (if sum_hits(self.blocks_spec()) <= u64::MAX {
                sum_hits(self.blocks_spec())
            } else {
                u64::MAX as int
            }),
    {
        let mut by_type: Vec<(String, usize)> = Vec::new();
        let mut k: usize = 0;
        while k < 6
            invariant
                k <= 6,
                sum_tokens(self.blocks@) <= usize::MAX,
                named_counts(by_type@) == tokens_by_type(self.blocks@, k as int),
            decreases 6 - k,
        {
            let t = block_type_at(k);
            let (found, n) = type_usage(&self.blocks, t);
            if found {
                let ghost before = by_type@;
                by_type.push((owned(t.debug_name()), n));
                assert(named_counts(by_type@) =~= named_counts(before).push((block_type_label(t), n as int)));
            }
            k = k + 1;
        }
        CacheStats {
            total_blocks: self.blocks.len(),
            total_tokens: total_tokens_of(&self.blocks),
            max_tokens: self.budget.max_tokens,
            remaining: self.budget.remaining(),
            by_type,
            total_hits: hits_of(&self.blocks),
        }
    }
}

} // verus!
