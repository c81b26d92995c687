//! Memory: remembered entries and session contexts, and the report that
//! answers a context query from the memories and sessions a search found.
//! The store and its full-text search live at the caller.

use vstd::prelude::*;
use crate::text::{i64_to_decimal, owned, push_str, signed_decimal};

verus! {

/// A remembered entry.
pub struct MemoryEntry {
    pub id: i64,
    pub session_id: Option<String>,
    pub key: String,
    pub value: String,
    pub tags: Vec<String>,
    pub created_at: String,
    pub updated_at: String,
    pub importance: i32,
}

/// A session's context.
pub struct SessionContext {
    pub session_id: String,
    pub project: Option<String>,
    pub working_dir: Option<String>,
    pub started_at: String,
    pub message_count: i32,
}

/// A search hit: the key it is found under, its id and a snippet.
pub struct SearchHit {
    pub key: String,
    pub id: i64,
    pub snippet: String,
}

/// The lines of the memories found.
pub open spec fn memory_lines(hs: Seq<SearchHit>) -> Seq<char>
    decreases hs.len(),
{
    if hs.len() == 0 {
        Seq::empty()
    } else {
        let h = hs.last();
        memory_lines(hs.drop_last()) + "- **["@ + h.key@ + "]("@ + signed_decimal(h.id as int) + ")**: "@
            + h.snippet@ + "\n"@
    }
}

/// The lines of the sessions found.
pub open spec fn session_lines(hs: Seq<SearchHit>) -> Seq<char>
    decreases hs.len(),
{
    if hs.len() == 0 {
        Seq::empty()
    } else {
        let h = hs.last();
        session_lines(hs.drop_last()) + "- **Session "@ + h.key@ + "**: "@ + h.snippet@ + "\n"@
    }
}

/// The answer to a context query: the memories found, the sessions
/// found, or a note that nothing was.
pub open spec fn context_report(query: Seq<char>, memories: Seq<SearchHit>, sessions: Seq<SearchHit>) -> Seq<char> {
    "# Context Query: "@ + query + "\n\n"@ + (if memories.len() > 0 {
        "## Relevant Memories\n\n"@ + memory_lines(memories) + "\n"@
    } else {
        Seq::empty()
    }) + (if sessions.len() > 0 {
        "## Relevant Sessions\n\n"@ + session_lines(sessions) + "\n"@
    } else {
        Seq::empty()
    }) + (if memories.len() == 0 && sessions.len() == 0 {
        "No relevant context found.\n"@
    } else {
        Seq::empty()
    })
}

fn push_memories(md: &mut String, hs: &[SearchHit])
    ensures
        final(md)@ == old(md)@ + memory_lines(hs@),
{
    let ghost start = md@;
    let mut i: usize = 0;
    while i < hs.len()
        invariant
            i <= hs@.len(),
            md@ == start + memory_lines(hs@.subrange(0, i as int)),
        decreases hs.len() - i,
    {
        proof {
            let pre = hs@.subrange(0, i + 1);
            assert(pre.drop_last() =~= hs@.subrange(0, i as int));
            assert(pre.last() == hs@[i as int]);
        }
        push_str(md, "- **[");
        push_str(md, hs[i].key.as_str());
        push_str(md, "](");
        let d = i64_to_decimal(hs[i].id);
        push_str(md, d.as_str());
        push_str(md, ")**: ");
        push_str(md, hs[i].snippet.as_str());
        push_str(md, "\n");
        i = i + 1;
    }
    assert(hs@.subrange(0, hs@.len() as int) =~= hs@);
}

fn push_sessions(md: &mut String, hs: &[SearchHit])
    ensures
        final(md)@ == old(md)@ + session_lines(hs@),
{
    let ghost start = md@;
    let mut i: usize = 0;
    while i < hs.len()
        invariant
            i <= hs@.len(),
            md@ == start + session_lines(hs@.subrange(0, i as int)),
        decreases hs.len() - i,
    {
        proof {
            let pre = hs@.subrange(0, i + 1);
            assert(pre.drop_last() =~= hs@.subrange(0, i as int));
            assert(pre.last() == hs@[i as int]);
        }
        push_str(md, "- **Session ");
        push_str(md, hs[i].key.as_str());
        push_str(md, "**: ");
        push_str(md, hs[i].snippet.as_str());
        push_str(md, "\n");
        i = i + 1;
    }
    assert(hs@.subrange(0, hs@.len() as int) =~= hs@);
}

/// The answer to a context query, from the memories and sessions a search
/// found for it.
pub fn context_query(query: &str, memories: &[SearchHit], sessions: &[SearchHit]) -> (r: String)
    ensures
        r@ == context_report(query@, memories@, sessions@),
{
    let mut md = owned("# Context Query: ");
    push_str(&mut md, query);
    push_str(&mut md, "\n\n");
    if memories.len() > 0 {
        push_str(&mut md, "## Relevant Memories\n\n");
        push_memories(&mut md, memories);
        push_str(&mut md, "\n");
    }
    if sessions.len() > 0 {
        push_str(&mut md, "## Relevant Sessions\n\n");
        push_sessions(&mut md, sessions);
        push_str(&mut md, "\n");
    }
    if memories.len() == 0 && sessions.len() == 0 {
        push_str(&mut md, "No relevant context found.\n");
    }
    assert(md@ =~= context_report(query@, memories@, sessions@));
    md
}

} // verus!
