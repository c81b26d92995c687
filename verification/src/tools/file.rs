//! The file tools' own logic: which lines a read returns, what a write
//! reports and what an edit makes of a file. Reading, writing and checking
//! that a path stays inside the working directory happen at the caller.

use vstd::prelude::*;
use crate::text::{decimal, join, lines, lines_of, owned, parse_uint, parse_unsigned, push_str, utf8_len, views};
use crate::tools::executor::{edit_content, edit_spec, join_strings};

verus! {

/// The read tool.
pub struct FileRead;

/// The write tool.
pub struct FileWrite;

/// The edit tool.
pub struct FileEdit;

/// The argument at `i` read as a line count, if it is one.
pub open spec fn count_arg(args: Seq<Seq<char>>, i: int) -> Option<nat> {
    if i < args.len() {
        parse_unsigned(args[i], usize::MAX as nat)
    } else {
        None
    }
}

/// The lines a read returns: all lines from `offset` on, at most `limit`
/// of them, joined by newlines.
pub open spec fn read_selection(content: Seq<char>, limit: Option<nat>, offset: nat) -> Seq<char> {
    let ls = lines(content);
    let rest = if offset <= ls.len() {
        ls.subrange(offset as int, ls.len() as int)
    } else {
        Seq::empty()
    };
    let kept = match limit {
        Some(l) => if l <= rest.len() {
            rest.subrange(0, l as int)
        } else {
            rest
        },
        None => rest,
    };
    join(kept, "\n"@)
}

fn count_at(args: &[String], i: usize) -> (r: Option<usize>)
    ensures
        match count_arg(views(args@), i as int) {
            Some(v) => r == Some(v as usize),
            None => r is None,
        },
{
    if i < args.len() {
        match parse_uint(args[i].as_str(), usize::MAX as u64) {
            Some(v) => Some(v as usize),
            None => None,
        }
    } else {
        None
    }
}

impl FileRead {
    pub fn new() -> (r: Self) {
        FileRead
    }

    /// Name of the tool.
    pub fn name(&self) -> (r: &'static str)
        ensures
            r@ == "Read"@,
    {
        "Read"
    }

    /// Description of the tool.
    pub fn description(&self) -> (r: &'static str)
        ensures
            r@ == "Read files from the filesystem"@,
    {
        "Read files from the filesystem"
    }

    /// What a read of `content` returns for `args` (path, limit, offset):
    /// the lines from the offset (0 when absent or not a number) on, at
    /// most the limit of them when it is a number.
    pub fn select(&self, content: &str, args: &[String]) -> (r: String)
        ensures
            r@ == read_selection(
                content@,
                count_arg(views(args@), 1),
                match count_arg(views(args@), 2) {
                    Some(o) => o,
                    None => 0,
                },
            ),
    {
        let limit = count_at(args, 1);
        let offset = match count_at(args, 2) {
            Some(o) => o,
            None => 0,
        };
        let ls = lines_of(content);
        let ghost lv = views(ls@);
        let mut rest: Vec<String> = Vec::new();
        if offset <= ls.len() {
            let mut i = offset;
            while i < ls.len()
                invariant
                    offset <= i <= ls@.len(),
                    lv == views(ls@),
                    views(rest@) == lv.subrange(offset as int, i as int),
                decreases ls.len() - i,
            {
                let ghost before = rest@;
                rest.push(ls[i].clone());
                assert(views(rest@) =~= views(before).push(ls@[i as int]@));
                i = i + 1;
            }
        } else {
            assert(views(rest@) =~= Seq::<Seq<char>>::empty());
        }
        let n = match limit {
            Some(l) => if l <= rest.len() {
                l
            } else {
                rest.len()
            },
            None => rest.len(),
        };
        let mut kept: Vec<String> = Vec::new();
        let mut k: usize = 0;
        while k < n
            invariant
                k <= n <= rest@.len(),
                views(kept@) == views(rest@).subrange(0, k as int),
            decreases n - k,
        {
            let ghost before = kept@;
            kept.push(rest[k].clone());
            assert(views(kept@) =~= views(before).push(rest@[k as int]@));
            k = k + 1;
        }
        assert(views(rest@).subrange(0, views(rest@).len() as int) =~= views(rest@));
        join_strings(kept.as_slice(), "\n")
    }
}

impl FileWrite {
    pub fn new() -> (r: Self) {
        FileWrite
    }

    /// Name of the tool.
    pub fn name(&self) -> (r: &'static str)
        ensures
            r@ == "Write"@,
    {
        "Write"
    }

    /// Description of the tool.
    pub fn description(&self) -> (r: &'static str)
        ensures
            r@ == "Write/overwrite files"@,
    {
        "Write/overwrite files"
    }

    /// What a successful write of `content` to `path` reports.
    pub fn written(&self, path: &str, content: &str) -> (r: String)
        ensures
            r@ == "Written "@ + decimal(utf8_len(content@)) + " bytes to "@ + path@,
    {
        let mut m = owned("Written ");
        let n = crate::text::u64_to_decimal(crate::text::byte_len(content) as u64);
        push_str(&mut m, n.as_str());
        push_str(&mut m, " bytes to ");
        push_str(&mut m, path);
        m
    }
}

impl FileEdit {
    pub fn new() -> (r: Self) {
        FileEdit
    }

    /// Name of the tool.
    pub fn name(&self) -> (r: &'static str)
        ensures
            r@ == "Edit"@,
    {
        "Edit"
    }

    /// Description of the tool.
    pub fn description(&self) -> (r: &'static str)
        ensures
            r@ == "Edit files with line-based changes"@,
    {
        "Edit files with line-based changes"
    }

    /// The file after the edit: its first occurrence of `old_text` replaced
    /// by `new_text`, or the message when the text does not occur.
    pub fn apply(&self, content: &str, old_text: &str, new_text: &str) -> (r: Result<String, String>)
        ensures
            match edit_spec(content@, old_text@, new_text@) {
                Some(c) => r matches Ok(x) && x@ == c,
                None => r matches Err(e) && e@ == "Text not found in file: "@ + old_text@,
            },
    {
        match edit_content(content, old_text, new_text) {
            Some(c) => Ok(c),
            None => {
                let mut e = owned("Text not found in file: ");
                push_str(&mut e, old_text);
                Err(e)
            },
        }
    }
}

} // verus!
