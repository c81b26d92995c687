//! Tool executor: the checks and decisions behind the built-in file and shell
//! tools. Running processes and touching the filesystem happens outside; this
//! module validates what goes in and composes what comes back.

use vstd::prelude::*;
use vstd::utf8::{decode_utf8, encode_utf8, valid_utf8};
use crate::text::{str_eq, 
    byte_len, can_truncate_bytes, decimal, first_occurrence, longer_than_bytes, lines, lines_of, replace_all,
    replace_str, truncate_bytes, truncate_str, u64_to_decimal, utf8_len, chars_of, contains_chars, contains_seq, is_whitespace, is_ws, join, lowercase_of, match_at, owned,
    push_str, starts_with, str_contains, string_of, to_lowercase, trim, trim_str, views,
};

verus! {

/// Outcome of running a tool.
pub struct ToolResult {
    pub success: bool,
    pub output: String,
    pub error: Option<String>,
}

impl ToolResult {
    /// A successful result carrying `output`.
    pub fn success(output: String) -> (r: Self)
        ensures
            r.success,
            r.output@ == output@,
            r.error is None,
    {
        ToolResult { success: true, output, error: None }
    }

    /// A failed result carrying the message `msg`.
    pub fn error(msg: String) -> (r: Self)
        ensures
            !r.success,
            r.output@ == Seq::<char>::empty(),
            r.error matches Some(e) && e@ == msg@,
    {
        ToolResult { success: false, output: String::new(), error: Some(msg) }
    }

    /// Text handed back to the model: the output, or `Error: ` and the message.
    pub fn to_content(&self) -> (r: String)
        ensures
            self.success ==> r@ == self.output@,
            !self.success ==> r@ == "Error: "@ + match self.error {
                Some(e) => e@,
                None => "Unknown error"@,
            },
    {
        if self.success {
            self.output.clone()
        } else {
            let mut s = owned("Error: ");
            match &self.error {
                Some(e) => push_str(&mut s, e.as_str()),
                None => push_str(&mut s, "Unknown error"),
            }
            s
        }
    }
}

// ---------------------------------------------------------------------------
// Shell-like argument splitting
// ---------------------------------------------------------------------------

/// State of the quote-aware argument splitter.
pub struct Lexer {
    pub args: Seq<Seq<char>>,
    pub cur: Seq<char>,
    pub in_single: bool,
    pub in_double: bool,
    pub escaped: bool,
}

/// Character that a backslash escape stands for.
pub open spec fn escape_of(c: char) -> char {
    if c == 'n' {
        '\n'
    } else if c == 't' {
        '\t'
    } else if c == 'r' {
        '\r'
    } else {
        c
    }
}

/// One step of the splitter on character `c`.
pub open spec fn lex_step(st: Lexer, c: char) -> Lexer {
    if st.escaped {
        Lexer { cur: st.cur.push(escape_of(c)), escaped: false, ..st }
    } else if c == '\\' && !st.in_single {
        Lexer { escaped: true, ..st }
    } else if c == '\'' && !st.in_double {
        Lexer { in_single: !st.in_single, ..st }
    } else if c == '"' && !st.in_single {
        Lexer { in_double: !st.in_double, ..st }
    } else if is_ws(c) && !st.in_single && !st.in_double {
        if st.cur.len() > 0 {
            Lexer { args: st.args.push(st.cur), cur: Seq::empty(), ..st }
        } else {
            st
        }
    } else {
        Lexer { cur: st.cur.push(c), ..st }
    }
}

/// The splitter's state after the first `n` characters of `s`.
pub open spec fn lex_prefix(s: Seq<char>, n: int) -> Lexer
    decreases n,
{
    if n <= 0 {
        Lexer {
            args: Seq::empty(),
            cur: Seq::empty(),
            in_single: false,
            in_double: false,
            escaped: false,
        }
    } else {
        lex_step(lex_prefix(s, n - 1), s[n - 1])
    }
}

/// The words of `s`: split at unquoted whitespace, with single and double
/// quotes grouping and backslash escapes (`\n`, `\t`, `\r`) outside single
/// quotes.
pub open spec fn shell_words(s: Seq<char>) -> Seq<Seq<char>> {
    let st = lex_prefix(s, s.len() as int);
    if st.cur.len() > 0 {
        st.args.push(st.cur)
    } else {
        st.args
    }
}

fn escape_char(c: char) -> (r: char)
    ensures
        r == escape_of(c),
{
    if c == 'n' {
        '\n'
    } else if c == 't' {
        '\t'
    } else if c == 'r' {
        '\r'
    } else {
        c
    }
}

/// Splits a command line into program and arguments, respecting quotes and
/// escapes, without handing anything to a shell.
pub fn parse_command_args(input: &str) -> (r: (String, Vec<String>))
    ensures
        shell_words(input@).len() == 0 ==> r.0@ == Seq::<char>::empty() && r.1@.len() == 0,
        shell_words(input@).len() > 0 ==> r.0@ == shell_words(input@)[0] && views(r.1@)
            == shell_words(input@).drop_first(),
{
    let chars = chars_of(input);
    let mut args: Vec<String> = Vec::new();
    let mut cur: Vec<char> = Vec::new();
    let mut in_single = false;
    let mut in_double = false;
    let mut escaped = false;
    let mut i: usize = 0;
    while i < chars.len()
        invariant
            i <= chars.len(),
            chars@ == input@,
            ({
                let st = lex_prefix(input@, i as int);
                &&& views(args@) == st.args
                &&& cur@ == st.cur
                &&& in_single == st.in_single
                &&& in_double == st.in_double
                &&& escaped == st.escaped
            }),
        decreases chars.len() - i,
    {
        let c = chars[i];
        if escaped {
            cur.push(escape_char(c));
            escaped = false;
        } else if c == '\\' && !in_single {
            escaped = true;
        } else if c == '\'' && !in_double {
            in_single = !in_single;
        } else if c == '"' && !in_single {
            in_double = !in_double;
        } else if is_whitespace(c) && !in_single && !in_double {
            if cur.len() > 0 {
                let w = string_of(cur.as_slice());
                let ghost before = args@;
                args.push(w);
                proof {
                    assert(views(args@) =~= views(before).push(cur@));
                }
                cur = Vec::new();
            }
        } else {
            cur.push(c);
        }
        proof {
            assert(views(args@) =~= lex_prefix(input@, i + 1).args);
        }
        i = i + 1;
    }
    if cur.len() > 0 {
        let w = string_of(cur.as_slice());
        let ghost before = args@;
        args.push(w);
        proof {
            assert(views(args@) =~= views(before).push(cur@));
        }
    }
    let ghost words = shell_words(input@);
    proof {
        assert(views(args@) =~= words);
    }
    if args.len() == 0 {
        return (String::new(), Vec::new());
    }
    let program = args.remove(0);
    proof {
        assert(views(args@) =~= words.drop_first());
    }
    (program, args)
}


// ---------------------------------------------------------------------------
// Path file names
// ---------------------------------------------------------------------------

/// Index of the last `c` in `s`, or -1.
pub open spec fn last_index_of(s: Seq<char>, c: char) -> int
    decreases s.len(),
{
    if s.len() == 0 {
        -1
    } else if s.last() == c {
        s.len() - 1
    } else {
        last_index_of(s.drop_last(), c)
    }
}

pub proof fn lemma_last_index_of(s: Seq<char>, c: char)
    ensures
        -1 <= last_index_of(s, c) < s.len(),
        last_index_of(s, c) >= 0 ==> s[last_index_of(s, c)] == c,
        forall|j: int| last_index_of(s, c) < j < s.len() ==> s[j] != c,
    decreases s.len(),
{
    if s.len() > 0 && s.last() != c {
        lemma_last_index_of(s.drop_last(), c);
        assert forall|j: int| last_index_of(s, c) < j < s.len() implies s[j] != c by {
            if j < s.len() - 1 {
                assert(s[j] == s.drop_last()[j]);
            }
        }
    }
}

/// Last component of a `/`-separated path, as `Path::file_name` gives it:
/// empty and `.` components are skipped, and a final `..` has no file name.
pub open spec fn file_name_of(p: Seq<char>) -> Option<Seq<char>>
    decreases p.len(),
{
    let k = last_index_of(p, '/');
    let seg = p.subrange(k + 1, p.len() as int);
    if seg.len() == 0 || seg == seq!['.'] {
        if k < 0 {
            None
        } else {
            proof {
                lemma_last_index_of(p, '/');
            }
            file_name_of(p.subrange(0, k))
        }
    } else if seg == seq!['.', '.'] {
        None
    } else {
        Some(seg)
    }
}

fn last_slash_before(p: &[char], e: usize) -> (k: Option<usize>)
    requires
        e <= p.len(),
    ensures
        match k {
            Some(k) => last_index_of(p@.subrange(0, e as int), '/') == k && k < e,
            None => last_index_of(p@.subrange(0, e as int), '/') == -1,
        },
{
    let mut j = e;
    while j > 0
        invariant
            j <= e <= p.len(),
            last_index_of(p@.subrange(0, e as int), '/') == last_index_of(
                p@.subrange(0, j as int),
                '/',
            ),
        decreases j,
    {
        if p[j - 1] == '/' {
            return Some(j - 1);
        }
        assert(p@.subrange(0, j as int).drop_last() =~= p@.subrange(0, j - 1));
        j = j - 1;
    }
    None
}

/// The file name of a path (`Path::file_name`).
pub fn file_name(p: &[char]) -> (r: Option<Vec<char>>)
    ensures
        match r {
            Some(v) => file_name_of(p@) == Some(v@),
            None => file_name_of(p@) is None,
        },
{
    let mut e = p.len();
    assert(p@.subrange(0, e as int) =~= p@);
    loop
        invariant
            e <= p.len(),
            file_name_of(p@) == file_name_of(p@.subrange(0, e as int)),
        decreases e,
    {
        let ghost q = p@.subrange(0, e as int);
        let k = last_slash_before(p, e);
        let start: usize = match k {
            Some(k) => k + 1,
            None => 0,
        };
        proof {
            lemma_last_index_of(q, '/');
        }
        let mut seg: Vec<char> = Vec::new();
        let mut i = start;
        while i < e
            invariant
                start <= i <= e <= p.len(),
                seg@ == p@.subrange(start as int, i as int),
            decreases e - i,
        {
            seg.push(p[i]);
            i = i + 1;
        }
        assert(seg@ =~= q.subrange(start as int, q.len() as int));
        if seg.len() == 0 || (seg.len() == 1 && seg[0] == '.') {
            proof {
                if seg.len() == 1 {
                    assert(seg@ =~= seq!['.']);
                }
            }
            match k {
                None => {
                    return None;
                },
                Some(k) => {
                    assert(q.subrange(0, k as int) =~= p@.subrange(0, k as int));
                    e = k;
                },
            }
        } else if seg.len() == 2 && seg[0] == '.' && seg[1] == '.' {
            assert(seg@ =~= seq!['.', '.']);
            return None;
        } else {
            proof {
                assert(seg@ != seq!['.']) by {
                    if seg.len() == 1 {
                        assert(seg@[0] != '.');
                    }
                }
                assert(seg@ != seq!['.', '.']) by {
                    if seg.len() == 2 {
                        assert(seg@[0] != '.' || seg@[1] != '.');
                    }
                }
            }
            return Some(seg);
        }
    }
}

// ---------------------------------------------------------------------------
// The bash tool
// ---------------------------------------------------------------------------

/// Shells that the bash tool refuses to start.
pub open spec fn shell_names() -> Seq<Seq<char>> {
    seq!["sh"@, "bash"@, "zsh"@, "dash"@, "fish"@, "ash"@]
}

/// A lowercased program name that names a shell, or a shell followed by `-c`.
pub open spec fn is_shell_name(b: Seq<char>) -> bool {
    exists|i: int|
        0 <= i < shell_names().len() && (b == shell_names()[i] || starts_with(
            b,
            shell_names()[i] + "-c"@,
        ))
}

/// Lowercased file name of the program, or the whole program lowercased.
pub open spec fn program_basename(program: Seq<char>) -> Seq<char> {
    match file_name_of(program) {
        Some(n) => lowercase_of(n),
        None => lowercase_of(program),
    }
}

/// Command fragments that the bash tool refuses to run.
pub open spec fn dangerous_patterns() -> Seq<Seq<char>> {
    seq![
        "rm -rf /"@,
        "rm -rf /*"@,
        "rm -rf ."@,
        "dd if="@,
        ":(){:|:&};:"@,
        "mkfs"@,
        "fdisk"@,
        "badblocks -w"@,
    ]
}

/// The first pattern of `pats`, from index `i` on, that occurs in `s`.
pub open spec fn first_contained(s: Seq<char>, pats: Seq<Seq<char>>, i: int) -> Option<Seq<char>>
    decreases pats.len() - i,
{
    if i < 0 || i >= pats.len() {
        None
    } else if contains_seq(s, pats[i]) {
        Some(pats[i])
    } else {
        first_contained(s, pats, i + 1)
    }
}

/// Program and arguments that `bash` receives for `args`, before safety checks.
pub open spec fn bash_split(args: Seq<Seq<char>>) -> Result<(Seq<char>, Seq<Seq<char>>), Seq<char>> {
    if args.len() == 0 {
        Err("bash: command argument required"@)
    } else if args.len() == 1 {
        let input = trim(args[0]);
        if input.len() == 0 {
            Err("bash: command argument required"@)
        } else if shell_words(input).len() == 0 {
            Err("bash: could not parse command"@)
        } else {
            Ok((shell_words(input)[0], shell_words(input).drop_first()))
        }
    } else {
        Ok((args[0], args.drop_first()))
    }
}

/// What the bash tool decides for `args`: the program and arguments to run,
/// or the message it refuses with.
pub open spec fn bash_plan(args: Seq<Seq<char>>) -> Result<(Seq<char>, Seq<Seq<char>>), Seq<char>> {
    match bash_split(args) {
        Err(e) => Err(e),
        Ok((program, pargs)) => {
            if contains_seq(program, seq!['\0']) {
                Err("Blocked: Null byte in command not allowed"@)
            } else if is_shell_name(program_basename(program)) {
                Err("Blocked: Recursive shell invocation not allowed"@)
            } else {
                match first_contained(
                    program + " "@ + join(pargs, " "@),
                    dangerous_patterns(),
                    0,
                ) {
                    Some(p) => Err("Blocked: Dangerous command pattern detected ("@ + p + ")"@),
                    None => Ok((program, pargs)),
                }
            }
        },
    }
}

fn shell_name(i: usize) -> (r: &'static str)
    requires
        i < 6,
    ensures
        r@ == shell_names()[i as int],
{
    if i == 0 {
        "sh"
    } else if i == 1 {
        "bash"
    } else if i == 2 {
        "zsh"
    } else if i == 3 {
        "dash"
    } else if i == 4 {
        "fish"
    } else {
        "ash"
    }
}

fn dangerous_pattern(i: usize) -> (r: &'static str)
    requires
        i < 8,
    ensures
        r@ == dangerous_patterns()[i as int],
{
    if i == 0 {
        "rm -rf /"
    } else if i == 1 {
        "rm -rf /*"
    } else if i == 2 {
        "rm -rf ."
    } else if i == 3 {
        "dd if="
    } else if i == 4 {
        ":(){:|:&};:"
    } else if i == 5 {
        "mkfs"
    } else if i == 6 {
        "fdisk"
    } else {
        "badblocks -w"
    }
}

/// `b` names a shell or a shell followed by `-c`.
pub fn shell_name_blocked(b: &str) -> (r: bool)
    ensures
        r == is_shell_name(b@),
{
    let mut i: usize = 0;
    while i < 6
        invariant
            i <= 6,
            forall|j: int|
                0 <= j < i ==> !(b@ == shell_names()[j] || starts_with(
                    b@,
                    shell_names()[j] + "-c"@,
                )),
        decreases 6 - i,
    {
        let d = shell_name(i);
        let mut dc = owned(d);
        push_str(&mut dc, "-c");
        if crate::text::str_eq(b, d) || crate::text::str_starts_with(b, dc.as_str()) {
            return true;
        }
        i = i + 1;
    }
    false
}

/// The first dangerous pattern that occurs in `cmd`.
pub fn find_dangerous_pattern(cmd: &str) -> (r: Option<&'static str>)
    ensures
        match r {
            Some(p) => first_contained(cmd@, dangerous_patterns(), 0) == Some(p@),
            None => first_contained(cmd@, dangerous_patterns(), 0) is None,
        },
{
    let mut i: usize = 0;
    while i < 8
        invariant
            i <= 8,
            first_contained(cmd@, dangerous_patterns(), 0) == first_contained(
                cmd@,
                dangerous_patterns(),
                i as int,
            ),
        decreases 8 - i,
    {
        let p = dangerous_pattern(i);
        if str_contains(cmd, p) {
            return Some(p);
        }
        i = i + 1;
    }
    None
}

/// Joins strings with `sep` between neighbours (`[String]::join`).
pub fn join_strings(parts: &[String], sep: &str) -> (r: String)
    ensures
        r@ == join(views(parts@), sep@),
{
    let mut r = String::new();
    let mut i: usize = 0;
    while i < parts.len()
        invariant
            i <= parts.len(),
            r@ == join(views(parts@).subrange(0, i as int), sep@),
        decreases parts.len() - i,
    {
        let ghost before = r@;
        if i > 0 {
            push_str(&mut r, sep);
        }
        push_str(&mut r, parts[i].as_str());
        proof {
            let vs = views(parts@);
            assert(vs.subrange(0, i + 1).drop_last() =~= vs.subrange(0, i as int));
            if i == 0 {
                assert(vs.subrange(0, 1) =~= seq![parts@[0]@]);
            }
        }
        i = i + 1;
    }
    assert(views(parts@).subrange(0, parts.len() as int) =~= views(parts@));
    r
}

/// Program and arguments the bash tool would run for `args`, or the message
/// it refuses with.
pub fn prepare_bash(args: &[String]) -> (r: Result<(String, Vec<String>), String>)
    ensures
        match r {
            Ok((p, a)) => bash_plan(views(args@)) == Ok::<(Seq<char>, Seq<Seq<char>>), Seq<char>>(
                (p@, views(a@)),
            ),
            Err(e) => bash_plan(views(args@)) == Err::<(Seq<char>, Seq<Seq<char>>), Seq<char>>(e@),
        },
{
    if args.len() == 0 {
        return Err(owned("bash: command argument required"));
    }
    let (program, program_args) = if args.len() == 1 {
        let input = trim_str(args[0].as_str());
        if input.as_str().is_empty() {
            return Err(owned("bash: command argument required"));
        }
        let parsed = parse_command_args(input.as_str());
        if parsed.0.as_str().is_empty() {
            proof {
                // a first word is never empty
                let w = shell_words(input@);
                if w.len() > 0 {
                    lemma_words_nonempty(input@);
                }
            }
            return Err(owned("bash: could not parse command"));
        }
        proof {
            if shell_words(input@).len() == 0 {
                assert(parsed.0@.len() == 0);
            }
        }
        parsed
    } else {
        let program = args[0].clone();
        let mut rest: Vec<String> = Vec::new();
        let mut i: usize = 1;
        while i < args.len()
            invariant
                1 <= i <= args.len(),
                views(rest@) == views(args@).subrange(1, i as int),
            decreases args.len() - i,
        {
            let ghost before = rest@;
            rest.push(args[i].clone());
            assert(views(rest@) =~= views(before).push(args@[i as int]@));
            i = i + 1;
        }
        assert(views(args@).subrange(1, args.len() as int) =~= views(args@).drop_first());
        (program, rest)
    };
    let pv = chars_of(program.as_str());
    let nul = ['\0'];
    if contains_chars(pv.as_slice(), nul.as_slice()) {
        assert(nul@ =~= seq!['\0']);
        return Err(owned("Blocked: Null byte in command not allowed"));
    }
    assert(nul@ =~= seq!['\0']);
    let base = match file_name(pv.as_slice()) {
        Some(n) => {
            let ns = string_of(n.as_slice());
            to_lowercase(ns.as_str())
        },
        None => to_lowercase(program.as_str()),
    };
    if shell_name_blocked(base.as_str()) {
        return Err(owned("Blocked: Recursive shell invocation not allowed"));
    }
    let mut full = program.clone();
    push_str(&mut full, " ");
    let joined = join_strings(program_args.as_slice(), " ");
    push_str(&mut full, joined.as_str());
    match find_dangerous_pattern(full.as_str()) {
        Some(p) => {
            let mut m = owned("Blocked: Dangerous command pattern detected (");
            push_str(&mut m, p);
            push_str(&mut m, ")");
            Err(m)
        },
        None => Ok((program, program_args)),
    }
}

proof fn lemma_lex_cur_args_nonempty(s: Seq<char>, n: int)
    requires
        0 <= n <= s.len(),
    ensures
        forall|j: int|
            0 <= j < lex_prefix(s, n).args.len() ==> #[trigger] lex_prefix(s, n).args[j].len() > 0,
    decreases n,
{
    if n > 0 {
        lemma_lex_cur_args_nonempty(s, n - 1);
        let st = lex_prefix(s, n - 1);
        let st2 = lex_prefix(s, n);
        assert forall|j: int| 0 <= j < st2.args.len() implies #[trigger] st2.args[j].len() > 0 by {
            if j < st.args.len() {
                assert(st2.args[j] == st.args[j]);
            }
        }
    }
}

/// Every word that the splitter yields is non-empty.
pub proof fn lemma_words_nonempty(s: Seq<char>)
    ensures
        forall|j: int| 0 <= j < shell_words(s).len() ==> #[trigger] shell_words(s)[j].len() > 0,
{
    lemma_lex_cur_args_nonempty(s, s.len() as int);
}

/// What the bash tool reports once the process has run: its output on
/// success (or `Done`, or stderr, when stdout is empty), else the exit code
/// with whatever the process printed.
pub fn bash_outcome(success: bool, exit_code: Option<i32>, stdout: &str, stderr: &str) -> (r: ToolResult)
    ensures
        r.success == success,
        success ==> r.output@ == (if stdout@.len() == 0 {
            if stderr@.len() == 0 {
                "Done"@
            } else {
                stderr@
            }
        } else {
            stdout@
        }),
        !success ==> (r.error matches Some(e) && e@ == ({
            let code = match exit_code {
                Some(c) => c as int,
                None => -1,
            };
            if stdout@.len() == 0 && stderr@.len() != 0 {
                stderr@
            } else if stdout@.len() != 0 {
                "Exit code "@ + crate::text::signed_decimal(code) + ": "@ + stdout@
            } else {
                "Exit code "@ + crate::text::signed_decimal(code)
            }
        })),
{
    if success {
        let out = if stdout.is_empty() {
            if stderr.is_empty() {
                owned("Done")
            } else {
                owned(stderr)
            }
        } else {
            owned(stdout)
        };
        ToolResult::success(out)
    } else {
        let code: i64 = match exit_code {
            Some(c) => c as i64,
            None => -1,
        };
        let msg = if stdout.is_empty() && !stderr.is_empty() {
            owned(stderr)
        } else if !stdout.is_empty() {
            let mut m = owned("Exit code ");
            let d = crate::text::i64_to_decimal(code);
            push_str(&mut m, d.as_str());
            push_str(&mut m, ": ");
            push_str(&mut m, stdout);
            m
        } else {
            let mut m = owned("Exit code ");
            let d = crate::text::i64_to_decimal(code);
            push_str(&mut m, d.as_str());
            m
        };
        ToolResult::error(msg)
    }
}


// ---------------------------------------------------------------------------
// Argument checks and messages of the file tools
// ---------------------------------------------------------------------------

/// The first argument, or the message `err` when there is none.
pub fn first_arg(args: &[String], err: &str) -> (r: Result<String, String>)
    ensures
        match r {
            Ok(p) => args@.len() > 0 && p@ == args@[0]@,
            Err(e) => args@.len() == 0 && e@ == err@,
        },
{
    if args.len() == 0 {
        Err(owned(err))
    } else {
        Ok(args[0].clone())
    }
}

/// `args[from..]` joined with `sep`.
pub fn join_from(args: &[String], from: usize, sep: &str) -> (r: String)
    requires
        from <= args.len(),
    ensures
        r@ == join(views(args@).subrange(from as int, args@.len() as int), sep@),
{
    let mut rest: Vec<String> = Vec::new();
    let mut i = from;
    while i < args.len()
        invariant
            from <= i <= args.len(),
            views(rest@) == views(args@).subrange(from as int, i as int),
        decreases args.len() - i,
    {
        let ghost before = rest@;
        rest.push(args[i].clone());
        assert(views(rest@) =~= views(before).push(args@[i as int]@));
        i = i + 1;
    }
    join_strings(rest.as_slice(), sep)
}

/// The message of `read` for a path that does not exist. `parent` is the
/// parent directory of the resolved path and whether it exists.
pub open spec fn read_not_found_spec(path: Seq<char>, parent: Option<(Seq<char>, bool)>, cwd: Seq<char>) -> Seq<char> {
    if starts_with(path, "/"@) {
        "File not found: "@ + path + "\nHint: This absolute path doesn't exist. Current directory: "@
            + cwd + "\nTry using a relative path or check with 'ls -la'"@
    } else {
        match parent {
            Some((pd, false)) => "File not found: "@ + path + "\nHint: Parent directory '"@ + pd
                + "' doesn't exist.\nCurrent directory: "@ + cwd,
            Some((_, true)) => "File not found: "@ + path
                + "\nHint: File doesn't exist. Check the filename spelling.\nCurrent directory: "@
                + cwd + "\nTry: (1) glob('*"@ + path + "') to find files, (2) bash('find . -name \""@
                + path + "\"')"@,
            None => "File not found: "@ + path,
        }
    }
}

/// Message of `read` for a missing file.
pub fn read_not_found_message(path: &str, parent: Option<(&str, bool)>, cwd: &str) -> (r: String)
    ensures
        r@ == read_not_found_spec(
            path@,
            match parent {
                Some((d, e)) => Some((d@, e)),
                None => None,
            },
            cwd@,
        ),
{
    let mut m = owned("File not found: ");
    push_str(&mut m, path);
    if crate::text::str_starts_with(path, "/") {
        push_str(&mut m, "\nHint: This absolute path doesn't exist. Current directory: ");
        push_str(&mut m, cwd);
        push_str(&mut m, "\nTry using a relative path or check with 'ls -la'");
    } else {
        match parent {
            Some((pd, false)) => {
                push_str(&mut m, "\nHint: Parent directory '");
                push_str(&mut m, pd);
                push_str(&mut m, "' doesn't exist.\nCurrent directory: ");
                push_str(&mut m, cwd);
            },
            Some((_, true)) => {
                push_str(
                    &mut m,
                    "\nHint: File doesn't exist. Check the filename spelling.\nCurrent directory: ",
                );
                push_str(&mut m, cwd);
                push_str(&mut m, "\nTry: (1) glob('*");
                push_str(&mut m, path);
                push_str(&mut m, "') to find files, (2) bash('find . -name \"");
                push_str(&mut m, path);
                push_str(&mut m, "\"')");
            },
            None => {},
        }
    }
    m
}

/// Content that `read` returns: the whole file up to 10000 bytes, else the
/// first 10000 bytes, `...` and a note with the full byte count.
pub fn read_content(content: &str) -> (r: String)
    requires
        can_truncate_bytes(content@, 10000),
        utf8_len(content@) <= usize::MAX,
    ensures
        utf8_len(content@) <= 10000 ==> r@ == content@,
        utf8_len(content@) > 10000 ==> r@ == truncate_bytes(content@, 10000) + "...\n\n[Truncated - "@
            + decimal(utf8_len(content@)) + " chars total]"@,
{
    if longer_than_bytes(content, 10000) {
        let mut m = truncate_str(content, 10000);
        push_str(&mut m, "...\n\n[Truncated - ");
        let n = byte_len(content);
        let d = u64_to_decimal(n as u64);
        push_str(&mut m, d.as_str());
        push_str(&mut m, " chars total]");
        m
    } else {
        owned(content)
    }
}

/// Path and content of `write`: the content is every further argument,
/// joined with spaces.
pub fn write_args(args: &[String]) -> (r: Result<(String, String), String>)
    ensures
        match r {
            Ok((p, c)) => args@.len() >= 2 && p@ == args@[0]@ && c@ == join(
                views(args@).drop_first(),
                " "@,
            ),
            Err(e) => args@.len() < 2 && e@ == "write: requires <file_path> <content>"@,
        },
{
    if args.len() < 2 {
        return Err(owned("write: requires <file_path> <content>"));
    }
    let content = join_from(args, 1, " ");
    assert(views(args@).subrange(1, args@.len() as int) =~= views(args@).drop_first());
    Ok((args[0].clone(), content))
}

/// Message of a successful `write`.
pub fn write_message(path: &str, content: &str) -> (r: String)
    ensures
        r@ == "Wrote "@ + decimal(utf8_len(content@)) + " bytes to "@ + path@,
{
    let mut m = owned("Wrote ");
    let n = byte_len(content);
    let d = u64_to_decimal(n as u64);
    push_str(&mut m, d.as_str());
    push_str(&mut m, " bytes to ");
    push_str(&mut m, path);
    m
}

/// Path, old text and new text of `edit`; the new text is every argument
/// from the third on, joined with spaces.
pub fn edit_args(args: &[String]) -> (r: Result<(String, String, String), String>)
    ensures
        match r {
            Ok((p, o, n)) => args@.len() >= 3 && p@ == args@[0]@ && o@ == args@[1]@ && n@ == join(
                views(args@).subrange(2, args@.len() as int),
                " "@,
            ),
            Err(e) => args@.len() < 3 && e@ == "edit: requires <file_path> <old_text> <new_text>"@,
        },
{
    if args.len() < 3 {
        return Err(owned("edit: requires <file_path> <old_text> <new_text>"));
    }
    let n = join_from(args, 2, " ");
    Ok((args[0].clone(), args[1].clone(), n))
}

/// `content` with its first occurrence of `old` replaced by `new`.
pub open spec fn edit_spec(content: Seq<char>, old: Seq<char>, new: Seq<char>) -> Option<Seq<char>> {
    match first_occurrence(content, old) {
        Some(i) => Some(
            content.subrange(0, i) + new + content.subrange(i + old.len(), content.len() as int),
        ),
        None => None,
    }
}

/// Replaces only the first occurrence of `old_text` with `new_text`; `None`
/// when it does not occur.
pub fn edit_content(content: &str, old_text: &str, new_text: &str) -> (r: Option<String>)
    ensures
        match r {
            Some(s) => edit_spec(content@, old_text@, new_text@) == Some(s@),
            None => edit_spec(content@, old_text@, new_text@) is None,
        },
{
    let cv = chars_of(content);
    let ov = chars_of(old_text);
    match crate::text::find(cv.as_slice(), ov.as_slice()) {
        Some(pos) => {
            proof {
                crate::text::lemma_first_occurrence(cv@, ov@);
                assert(crate::text::occurs_at(cv@, ov@, pos as int));
            }
            let mut head: Vec<char> = Vec::new();
            let mut i: usize = 0;
            while i < pos
                invariant
                    i <= pos,
                    pos + ov@.len() <= cv@.len(),
                    head@ == cv@.subrange(0, i as int),
                decreases pos - i,
            {
                head.push(cv[i]);
                i = i + 1;
            }
            let mut r = string_of(head.as_slice());
            push_str(&mut r, new_text);
            let mut tail: Vec<char> = Vec::new();
            let olen = ov.len();
            assert(pos + olen <= cv.len());
            let mut j = pos + olen;
            while j < cv.len()
                invariant
                    pos + ov@.len() <= j <= cv@.len(),
                    tail@ == cv@.subrange(pos + ov@.len(), j as int),
                decreases cv.len() - j,
            {
                tail.push(cv[j]);
                j = j + 1;
            }
            crate::text::push_chars(&mut r, tail.as_slice());
            Some(r)
        },
        None => None,
    }
}

/// Right-aligns the decimal of `n` in a field three characters wide
/// (`{:3}`).
pub open spec fn pad3(n: nat) -> Seq<char> {
    let d = decimal(n);
    if d.len() >= 3 {
        d
    } else if d.len() == 2 {
        " "@ + d
    } else {
        "  "@ + d
    }
}

/// Numbered preview of the first ten lines, `{:3}: line`, one per line.
pub open spec fn preview_spec(content: Seq<char>) -> Seq<char> {
    let ls = lines(content);
    let k = if ls.len() < 10 {
        ls.len() as int
    } else {
        10
    };
    join(Seq::new(k as nat, |i: int| pad3((i + 1) as nat) + ": "@ + ls[i]), "\n"@)
}

/// The numbered preview that `edit` shows when the old text is not found.
pub fn edit_preview(content: &str) -> (r: String)
    ensures
        r@ == preview_spec(content@),
{
    let ls = lines_of(content);
    let k: usize = if ls.len() < 10 {
        ls.len()
    } else {
        10
    };
    let mut out: Vec<String> = Vec::new();
    let mut i: usize = 0;
    while i < k
        invariant
            i <= k <= 10,
            k <= ls.len(),
            views(ls@) == lines(content@),
            views(out@) =~= Seq::new(
                i as nat,
                |j: int| pad3((j + 1) as nat) + ": "@ + lines(content@)[j],
            ),
        decreases k - i,
    {
        let d = u64_to_decimal((i + 1) as u64);
        let mut line = if d.as_str().unicode_len() >= 3 {
            String::new()
        } else if d.as_str().unicode_len() == 2 {
            owned(" ")
        } else {
            owned("  ")
        };
        push_str(&mut line, d.as_str());
        push_str(&mut line, ": ");
        push_str(&mut line, ls[i].as_str());
        assert(ls@[i as int]@ == lines(content@)[i as int]);
        let ghost before = out@;
        out.push(line);
        assert(views(out@) =~= views(before).push(line@));
        i = i + 1;
    }
    join_strings(out.as_slice(), "\n")
}

/// Directory and file-name pattern of a `glob` pattern: split at the last
/// `/`, refusing a directory part that contains `..`.
pub open spec fn glob_split_spec(pattern: Seq<char>) -> Result<(Seq<char>, Seq<char>), Seq<char>> {
    let k = last_index_of(pattern, '/');
    if k >= 0 {
        let dir = pattern.subrange(0, k);
        if contains_seq(dir, ".."@) {
            Err("Blocked: Directory traversal not allowed in glob pattern '"@ + pattern + "'"@)
        } else {
            Ok((dir, pattern.subrange(k + 1, pattern.len() as int)))
        }
    } else {
        Ok(("."@, pattern))
    }
}

/// The search directory and file pattern of `glob`.
pub fn glob_split(pattern: &str) -> (r: Result<(String, String), String>)
    ensures
        match r {
            Ok((d, f)) => glob_split_spec(pattern@) == Ok::<(Seq<char>, Seq<char>), Seq<char>>(
                (d@, f@),
            ),
            Err(e) => glob_split_spec(pattern@) == Err::<(Seq<char>, Seq<char>), Seq<char>>(e@),
        },
{
    let pv = chars_of(pattern);
    proof {
        assert(pv@.subrange(0, pv@.len() as int) =~= pv@);
    }
    match last_slash_before(pv.as_slice(), pv.len()) {
        Some(k) => {
            proof {
                lemma_last_index_of(pattern@, '/');
            }
            let mut dir: Vec<char> = Vec::new();
            let mut i: usize = 0;
            while i < k
                invariant
                    i <= k < pv.len(),
                    dir@ == pv@.subrange(0, i as int),
                decreases k - i,
            {
                dir.push(pv[i]);
                i = i + 1;
            }
            let mut file: Vec<char> = Vec::new();
            let mut j = k + 1;
            while j < pv.len()
                invariant
                    k + 1 <= j <= pv.len(),
                    file@ == pv@.subrange(k + 1, j as int),
                decreases pv.len() - j,
            {
                file.push(pv[j]);
                j = j + 1;
            }
            let dots = ['.', '.'];
            assert(dots@ =~= ".."@) by {
                reveal_strlit("..");
            }
            if contains_chars(dir.as_slice(), dots.as_slice()) {
                let mut m = owned("Blocked: Directory traversal not allowed in glob pattern '");
                push_str(&mut m, pattern);
                push_str(&mut m, "'");
                Err(m)
            } else {
                Ok((string_of(dir.as_slice()), string_of(file.as_slice())))
            }
        },
        None => Ok((owned("."), owned(pattern))),
    }
}

/// The non-empty strings of `ls`, in order.
pub open spec fn nonempty_only(ls: Seq<Seq<char>>) -> Seq<Seq<char>>
    decreases ls.len(),
{
    if ls.len() == 0 {
        Seq::empty()
    } else if ls.last().len() > 0 {
        nonempty_only(ls.drop_last()).push(ls.last())
    } else {
        nonempty_only(ls.drop_last())
    }
}

/// Non-empty lines of `s`, at most `n` of them.
pub open spec fn first_nonempty_lines(s: Seq<char>, n: nat) -> Seq<Seq<char>> {
    let ls = nonempty_only(lines(s));
    if ls.len() <= n {
        ls
    } else {
        ls.subrange(0, n as int)
    }
}

/// The `find` arguments of `glob`: search `dir` at most 10 levels deep for
/// names matching `file`, leaving out build, VCS, dependency and cache
/// directories.
pub open spec fn glob_find_spec(dir: Seq<char>, file: Seq<char>) -> Seq<Seq<char>> {
    seq![
        dir, "-maxdepth"@, "10"@, "-name"@, file, "!"@, "-path"@, "*/target/*"@, "!"@, "-path"@, "*/.git/*"@, "!"@,
        "-path"@, "*/node_modules/*"@, "!"@, "-path"@, "*/.venv/*"@, "!"@, "-path"@, "*/__pycache__/*"@,
    ]
}

/// The arguments of `find` for a glob search in `dir` for `file`.
pub fn glob_find_args(dir: &str, file: &str) -> (r: Vec<String>)
    ensures
        views(r@) == glob_find_spec(dir@, file@),
{
    let r = vec![
        owned(dir), owned("-maxdepth"), owned("10"), owned("-name"), owned(file), owned("!"), owned("-path"),
        owned("*/target/*"), owned("!"), owned("-path"), owned("*/.git/*"), owned("!"), owned("-path"),
        owned("*/node_modules/*"), owned("!"), owned("-path"), owned("*/.venv/*"), owned("!"), owned("-path"),
        owned("*/__pycache__/*"),
    ];
    assert(views(r@) =~= glob_find_spec(dir@, file@));
    r
}

/// The arguments of the broader `find` that `glob` runs when nothing
/// matched: names containing `file` anywhere below `.`, outside `target`.
pub fn glob_broader_args(file: &str) -> (r: Vec<String>)
    ensures
        views(r@) == seq!["."@, "-name"@, "*"@ + file@ + "*"@, "!"@, "-path"@, "*/target/*"@],
{
    let mut p = owned("*");
    push_str(&mut p, file);
    push_str(&mut p, "*");
    let r = vec![owned("."), owned("-name"), p, owned("!"), owned("-path"), owned("*/target/*")];
    assert(views(r@) =~= seq!["."@, "-name"@, "*"@ + file@ + "*"@, "!"@, "-path"@, "*/target/*"@]);
    r
}

/// The non-empty lines of `s`, at most `n`.
pub fn take_nonempty_lines(s: &str, n: usize) -> (r: Vec<String>)
    ensures
        views(r@) == first_nonempty_lines(s@, n as nat),
{
    let ls = lines_of(s);
    let ghost all = lines(s@);
    let mut out: Vec<String> = Vec::new();
    let mut i: usize = 0;
    while i < ls.len()
        invariant
            i <= ls.len(),
            views(ls@) == all,
            all == lines(s@),
            ({
                let f = nonempty_only(all.subrange(0, i as int));
                views(out@) == (if f.len() <= n {
                    f
                } else {
                    f.subrange(0, n as int)
                })
            }),
        decreases ls.len() - i,
    {
        if !ls[i].as_str().is_empty() && out.len() < n {
            let ghost before = out@;
            out.push(ls[i].clone());
            assert(views(out@) =~= views(before).push(ls@[i as int]@));
        }
        proof {
            let f0 = nonempty_only(all.subrange(0, i as int));
            let f1 = nonempty_only(all.subrange(0, i + 1));
            assert(all.subrange(0, i + 1).drop_last() =~= all.subrange(0, i as int));
            assert(all.subrange(0, i + 1).last() == all[i as int]);
            if all[i as int].len() > 0 {
                assert(f1 =~= f0.push(all[i as int]));
                if f0.len() >= n {
                    assert(f1.subrange(0, n as int) =~= f0.subrange(0, n as int));
                }
            } else {
                assert(f1 =~= f0);
            }
        }
        i = i + 1;
    }
    assert(all.subrange(0, ls.len() as int) =~= all);
    out
}

/// Result of `glob` when `find` printed something: up to 50 file names.
pub fn glob_found(stdout: &str) -> (r: ToolResult)
    ensures
        r.success,
        ({
            let files = first_nonempty_lines(stdout@, 50);
            let listing = join(files, "\n"@);
            r.output@ == (if files.len() == 50 {
                "Found 50+ files (showing first 50):\n"@ + listing + "\n..."@
            } else if files.len() == 1 {
                "Found 1 file:\n"@ + listing
            } else {
                "Found "@ + decimal(files.len()) + " files:\n"@ + listing
            })
        }),
{
    let files = take_nonempty_lines(stdout, 50);
    let listing = join_strings(files.as_slice(), "\n");
    let msg = if files.len() == 50 {
        let mut m = owned("Found 50+ files (showing first 50):\n");
        push_str(&mut m, listing.as_str());
        push_str(&mut m, "\n...");
        m
    } else if files.len() == 1 {
        let mut m = owned("Found 1 file:\n");
        push_str(&mut m, listing.as_str());
        m
    } else {
        let mut m = owned("Found ");
        let d = u64_to_decimal(files.len() as u64);
        push_str(&mut m, d.as_str());
        push_str(&mut m, " files:\n");
        push_str(&mut m, listing.as_str());
        m
    };
    ToolResult::success(msg)
}

/// Result of `glob` after the broader search.
pub fn glob_broader(stdout: &str, pattern: &str) -> (r: ToolResult)
    ensures
        r.success,
        stdout@.len() == 0 ==> r.output@ == "No files found matching '"@ + pattern@
            + "'\nHint: (1) Check spelling, (2) Try a simpler pattern, (3) Use bash('find . -type f')"@,
        stdout@.len() != 0 ==> ({
            let files = first_nonempty_lines(stdout@, 50);
            r.output@ == "Found "@ + decimal(files.len()) + " files:\n"@ + join(files, "\n"@)
        }),
{
    if stdout.is_empty() {
        let mut m = owned("No files found matching '");
        push_str(&mut m, pattern);
        push_str(
            &mut m,
            "'\nHint: (1) Check spelling, (2) Try a simpler pattern, (3) Use bash('find . -type f')",
        );
        ToolResult::success(m)
    } else {
        let files = take_nonempty_lines(stdout, 50);
        let listing = join_strings(files.as_slice(), "\n");
        let mut m = owned("Found ");
        let d = u64_to_decimal(files.len() as u64);
        push_str(&mut m, d.as_str());
        push_str(&mut m, " files:\n");
        push_str(&mut m, listing.as_str());
        ToolResult::success(m)
    }
}

/// Pattern and search path of `grep` (the path defaults to `.`).
pub fn grep_args(args: &[String]) -> (r: Result<(String, String), String>)
    ensures
        match r {
            Ok((p, d)) => args@.len() >= 1 && p@ == args@[0]@ && d@ == (if args@.len() >= 2 {
                args@[1]@
            } else {
                "."@
            }),
            Err(e) => args@.len() == 0 && e@ == "grep: pattern required"@,
        },
{
    if args.len() == 0 {
        return Err(owned("grep: pattern required"));
    }
    let path = if args.len() >= 2 {
        args[1].clone()
    } else {
        owned(".")
    };
    Ok((args[0].clone(), path))
}

/// Result of `grep`: the matches, or stderr, or `No matches found`.
pub fn grep_outcome(stdout: &str, stderr: &str) -> (r: ToolResult)
    ensures
        r.success,
        r.output@ == (if stdout@.len() == 0 {
            if stderr@.len() == 0 {
                "No matches found"@
            } else {
                stderr@
            }
        } else {
            stdout@
        }),
{
    if stdout.is_empty() {
        if stderr.is_empty() {
            ToolResult::success(owned("No matches found"))
        } else {
            ToolResult::success(owned(stderr))
        }
    } else {
        ToolResult::success(owned(stdout))
    }
}

/// Message of the file tools' single-path operations.
pub fn path_message(prefix: &str, path: &str) -> (r: String)
    ensures
        r@ == prefix@ + path@,
{
    let mut m = owned(prefix);
    push_str(&mut m, path);
    m
}

/// Source and destination of `cp` or `mv`; `tool` names the tool in the
/// message when one is missing.
pub fn two_paths(args: &[String], tool: &str) -> (r: Result<(String, String), String>)
    ensures
        match r {
            Ok((a, b)) => args@.len() >= 2 && a@ == args@[0]@ && b@ == args@[1]@,
            Err(e) => args@.len() < 2 && e@ == tool@ + ": requires <source> <destination>"@,
        },
{
    if args.len() < 2 {
        let mut m = owned(tool);
        push_str(&mut m, ": requires <source> <destination>");
        return Err(m);
    }
    Ok((args[0].clone(), args[1].clone()))
}

/// Message after a copy or move: `verb` is `Copied` or `Moved`.
pub fn two_path_message(verb: &str, a: &str, b: &str) -> (r: String)
    ensures
        r@ == verb@ + " "@ + a@ + " to "@ + b@,
{
    let mut m = owned(verb);
    push_str(&mut m, " ");
    push_str(&mut m, a);
    push_str(&mut m, " to ");
    push_str(&mut m, b);
    m
}

/// `rm` removes directories recursively when `-r` or `-rf` is among its
/// arguments.
pub fn rm_recursive(args: &[String]) -> (r: bool)
    ensures
        r == exists|i: int| 0 <= i < args@.len() && (args@[i]@ == "-r"@ || args@[i]@ == "-rf"@),
{
    let mut i: usize = 0;
    while i < args.len()
        invariant
            i <= args.len(),
            forall|j: int| 0 <= j < i ==> !(args@[j]@ == "-r"@ || args@[j]@ == "-rf"@),
        decreases args.len() - i,
    {
        if crate::text::str_eq(args[i].as_str(), "-r") || crate::text::str_eq(args[i].as_str(), "-rf") {
            return true;
        }
        i = i + 1;
    }
    false
}

/// Description of the built-in tools handed to the model.
pub fn get_tools_description() -> (r: String)
    ensures
        r@ == TOOLS_DESCRIPTION@,
{
    owned(TOOLS_DESCRIPTION)
}

/// Text of `get_tools_description`.
pub const TOOLS_DESCRIPTION: &'static str = r#"You have access to the following tools:

bash(command: string) - Execute shell commands
  Example: bash("ls -la")
  Example: bash("python -m http.server 8080")

write(path: string, content: string) - Create or overwrite a file
  Example: write("/path/to/file.html", "<html><body>Hello</body></html>")

read(path: string) - Read file contents
  Example: read("/path/to/file.txt")

edit(path: string, old_text: string, new_text: string) - Edit specific text in a file
  Example: edit("file.txt", "old text", "new text")

glob(pattern: string) - Find files matching pattern
  Example: glob("*.js")
  Example: glob("src/**/*.rs")

grep(pattern: string, path?: string) - Search file contents
  Example: grep("TODO", "src/")
  Example: grep("function")

webfetch(url: string) - Fetch web page content
  Example: webfetch("https://example.com")

websearch(query: string) - Search the web
  Example: websearch("rust async tutorial")

mkdir(path: string) - Create directory
  Example: mkdir("/path/to/new/dir")

rm(path: string) - Remove file or directory
  Example: rm("/path/to/file.txt")
  Example: rm("-r", "/path/to/dir")

cp(source: string, dest: string) - Copy file
  Example: cp("/src/file.txt", "/dst/file.txt")

mv(source: string, dest: string) - Move/rename file
  Example: mv("/old/path.txt", "/new/path.txt")

Cron(action: string, ...args) - Manage scheduled/recurring tasks
  Actions: list, create <schedule> <prompt>, delete <id>, pause <id>, resume <id>, trigger <id>
  Schedules: 30m (every 30 min), 2h (every 2 hours), 1d (daily), +1h (1 hour from now)
  Cron expressions: "0 9 * * *" (every day at 9am)
  Example: Cron("list")
  Example: Cron("create", "30m", "Check system status")
  Example: Cron("create", "0 9 * * *", "Morning report")

Sandbox(language: string, code: string, timeout?: number) - Execute code safely
  Languages: python, python3, javascript, node, bash, ruby, php, rust, go
  Default timeout: 30s
  Example: Sandbox("python", "print(1 + 2)")
  Example: Sandbox("bash", "echo hello", "60")

Container(backend: string, command: string, ...) - Execute in Docker, SSH, or remote
  Backends: docker, ssh, modal, local
  Flags: --image <img>, --host <addr>, --timeout <secs>
  Example: Container("docker", "cargo build", "--image rust:1.75")
  Example: Container("ssh", "ls", "--host user@server")
  Example: Container("local", "make build")

Batch(task1: string, task2: string, ..., --concurrency N) - Run tasks in parallel
  Default concurrency: 4
  Example: Batch("lint module1.rs", "lint module2.rs", "lint module3.rs")
  Example: Batch("analyze file1", "analyze file2", "--concurrency 8")

MixtureOfAgents(prompt: string, ...) - Ensemble reasoning with multiple AI perspectives
  Uses architect, security, and pragmatist agents
  Example: MixtureOfAgents("Review this architecture for scalability")
  Example: MoA("Debug why API returns 500 on POST /users", "--agents 3")

ImageGenerate(prompt: string, ...) - Generate AI images
  Flags: --provider openai|stable|replicate, --width <px>, --height <px>
  Example: ImageGenerate("A futuristic city at sunset")
  Example: ImageGenerate("Architecture diagram", "--width 1024 --height 512")

Skin(action: string, ...) - Theme and appearance management
  Actions: list, apply <name>, create <name> <desc>, current
  Built-in: default (gold/kawaii), ares (red/sci-fi), mono, slate
  Example: Skin("list")
  Example: Skin("apply", "dracula")

Profile(action: string, ...) - Isolated multi-instance environments
  Actions: list, create <name>, switch <name>, delete <name>, current
  Example: Profile("list")
  Example: Profile("create", "work-project-x")
  Example: Profile("switch", "personal")

AcpServer(action: string, ...) - IDE integration server (VS Code, JetBrains, Zed)
  Actions: start [--host <addr>] [--port <n>], stop, status, info
  Example: AcpServer("start", "--port 8080")
  Example: AcpServer("status")

IMPORTANT:
- Always use tools to DO tasks, not just describe them
- After starting a server, report the URL
- Check if files exist before reading
"#;


// ---------------------------------------------------------------------------
// Web fetch and search
// ---------------------------------------------------------------------------

/// Hexadecimal value of an ASCII digit byte.
pub open spec fn hex_value(b: u8) -> Option<u8> {
    if 48 <= b <= 57 {
        Some((b - 48) as u8)
    } else if 65 <= b <= 70 {
        Some((b - 55) as u8)
    } else if 97 <= b <= 102 {
        Some((b - 87) as u8)
    } else {
        None
    }
}

/// Percent-decoding of bytes as `urlencoding::decode_binary` does it: a `%`
/// followed by two hex digits becomes that byte; any other `%` stays.
pub open spec fn percent_decode(bs: Seq<u8>) -> Seq<u8>
    decreases bs.len(),
{
    if bs.len() == 0 {
        Seq::empty()
    } else if bs[0] != 37 {
        seq![bs[0]] + percent_decode(bs.drop_first())
    } else if bs.len() < 3 {
        bs
    } else {
        match (hex_value(bs[1]), hex_value(bs[2])) {
            (Some(h), Some(l)) => seq![(h * 16 + l) as u8] + percent_decode(bs.subrange(3, bs.len() as int)),
            (Some(_), None) => seq![37u8, bs[1]] + percent_decode(bs.subrange(2, bs.len() as int)),
            _ => seq![37u8] + percent_decode(bs.drop_first()),
        }
    }
}

/// What `urlencoding::decode` yields: the decoded text, or `None` when the
/// decoded bytes are not UTF-8.
pub open spec fn url_decoded(s: Seq<char>) -> Option<Seq<char>> {
    let d = percent_decode(encode_utf8(s));
    if valid_utf8(d) {
        Some(decode_utf8(d))
    } else {
        None
    }
}

/// A byte that `urlencoding::encode` leaves as it is.
pub open spec fn unreserved(b: u8) -> bool {
    (48 <= b <= 57) || (65 <= b <= 90) || (97 <= b <= 122) || b == 45 || b == 46 || b == 95 || b
        == 126
}

/// Upper-case hex digit of `d < 16`.
pub open spec fn hex_digit_upper(d: u8) -> char {
    if d < 10 {
        ((d + 48) as u32) as char
    } else {
        ((d + 55) as u32) as char
    }
}

/// Percent-encoding of bytes as `urlencoding::encode` does it.
pub open spec fn percent_encode(bs: Seq<u8>) -> Seq<char>
    decreases bs.len(),
{
    if bs.len() == 0 {
        Seq::empty()
    } else {
        let b = bs[0];
        (if unreserved(b) {
            seq![(b as u32) as char]
        } else {
            seq!['%', hex_digit_upper(b / 16), hex_digit_upper(b % 16)]
        }) + percent_encode(bs.drop_first())
    }
}

/// `urlencoding::decode`: the percent-decoded text, `None` when its bytes are
/// not UTF-8.
#[verifier::external_body]
fn url_decode(s: &str) -> (r: Option<String>)
    ensures
        match r {
            Some(d) => url_decoded(s@) == Some(d@),
            None => url_decoded(s@) is None,
        },
{
    urlencoding::decode(s).ok().map(|d| d.into_owned())
}

/// `urlencoding::encode`: every byte but ASCII alphanumerics and `-._~`
/// percent-encoded with upper-case hex digits.
#[verifier::external_body]
fn url_encode(s: &str) -> (r: String)
    ensures
        r@ == percent_encode(encode_utf8(s@)),
{
    urlencoding::encode(s).into_owned()
}

/// Host fragments that `webfetch` refuses after percent-decoding.
pub open spec fn blocked_decoded() -> Seq<Seq<char>> {
    seq![
        "localhost"@,
        "127.0.0.1"@,
        "0.0.0.0"@,
        "[::1]"@,
        "[::ffff:127.0.0.1]"@,
        "metadata.google.internal"@,
        "169.254.169.254"@,
        "metadata.internal"@,
        ".internal."@,
        ".corp."@,
        ".localdomain"@,
        "[fe80:"@,
        "[fc00:"@,
        "[fd00:"@,
        "[fd"@,
        "[::ffff:0:0]"@,
    ]
}

/// Host fragments that `webfetch` refuses in the URL as given.
pub open spec fn blocked_raw() -> Seq<Seq<char>> {
    blocked_decoded().subrange(0, 15)
}

/// Some fragment of `pats` occurs in `s`.
pub open spec fn contains_any(s: Seq<char>, pats: Seq<Seq<char>>) -> bool {
    exists|i: int| 0 <= i < pats.len() && contains_seq(s, pats[i])
}

/// What `webfetch` decides for a URL: `Ok` when it may be fetched, else the
/// message it refuses with.
pub open spec fn fetch_url_check(url: Seq<char>) -> Result<(), Seq<char>> {
    if !starts_with(url, "http://"@) && !starts_with(url, "https://"@) {
        Err(
            "webfetch: Only HTTP/HTTPS URLs are allowed. Blocked protocols (file://, ftp://, etc.) are not permitted."@,
        )
    } else {
        let decoded = match url_decoded(url) {
            Some(d) => lowercase_of(d),
            None => lowercase_of(url),
        };
        if contains_any(decoded, blocked_decoded()) || contains_any(lowercase_of(url), blocked_raw()) {
            Err(
                "webfetch: Access to localhost and cloud metadata endpoints is blocked for security."@,
            )
        } else {
            Ok(())
        }
    }
}

fn blocked_fragment(i: usize) -> (r: &'static str)
    requires
        i < 16,
    ensures
        r@ == blocked_decoded()[i as int],
{
    if i == 0 {
        "localhost"
    } else if i == 1 {
        "127.0.0.1"
    } else if i == 2 {
        "0.0.0.0"
    } else if i == 3 {
        "[::1]"
    } else if i == 4 {
        "[::ffff:127.0.0.1]"
    } else if i == 5 {
        "metadata.google.internal"
    } else if i == 6 {
        "169.254.169.254"
    } else if i == 7 {
        "metadata.internal"
    } else if i == 8 {
        ".internal."
    } else if i == 9 {
        ".corp."
    } else if i == 10 {
        ".localdomain"
    } else if i == 11 {
        "[fe80:"
    } else if i == 12 {
        "[fc00:"
    } else if i == 13 {
        "[fd00:"
    } else if i == 14 {
        "[fd"
    } else {
        "[::ffff:0:0]"
    }
}

fn contains_blocked(s: &str, count: usize) -> (r: bool)
    requires
        count <= 16,
    ensures
        r == exists|i: int| 0 <= i < count && contains_seq(s@, blocked_decoded()[i]),
{
    let mut i: usize = 0;
    while i < count
        invariant
            i <= count <= 16,
            forall|j: int| 0 <= j < i ==> !contains_seq(s@, blocked_decoded()[j]),
        decreases count - i,
    {
        if str_contains(s, blocked_fragment(i)) {
            return true;
        }
        i = i + 1;
    }
    false
}

/// Whether `webfetch` may fetch `url`; the message it refuses with otherwise.
pub fn check_fetch_url(url: &str) -> (r: Result<(), String>)
    ensures
        match r {
            Ok(()) => fetch_url_check(url@) is Ok,
            Err(e) => fetch_url_check(url@) == Err::<(), Seq<char>>(e@),
        },
{
    if !crate::text::str_starts_with(url, "http://") && !crate::text::str_starts_with(url, "https://") {
        return Err(
            owned(
                "webfetch: Only HTTP/HTTPS URLs are allowed. Blocked protocols (file://, ftp://, etc.) are not permitted.",
            ),
        );
    }
    let decoded = match url_decode(url) {
        Some(d) => to_lowercase(d.as_str()),
        None => to_lowercase(url),
    };
    let lower = to_lowercase(url);
    let b1 = contains_blocked(decoded.as_str(), 16);
    let b2 = contains_blocked(lower.as_str(), 15);
    proof {
        assert(blocked_decoded().len() == 16);
        assert forall|i: int| 0 <= i < 15 implies blocked_raw()[i] == blocked_decoded()[i] by {}
    }
    if b1 || b2 {
        return Err(
            owned(
                "webfetch: Access to localhost and cloud metadata endpoints is blocked for security.",
            ),
        );
    }
    Ok(())
}

/// What `webfetch` returns for the fetched body: the body up to 8000 bytes,
/// else its first 8000 bytes and a note with the full byte count.
pub fn fetch_outcome(stdout: &str) -> (r: ToolResult)
    requires
        can_truncate_bytes(stdout@, 8000),
        utf8_len(stdout@) <= usize::MAX,
    ensures
        r.success,
        utf8_len(stdout@) <= 8000 ==> r.output@ == stdout@,
        utf8_len(stdout@) > 8000 ==> r.output@ == truncate_bytes(stdout@, 8000) + "\n\n[Truncated - "@
            + decimal(utf8_len(stdout@)) + " chars total]"@,
{
    if longer_than_bytes(stdout, 8000) {
        let mut m = truncate_str(stdout, 8000);
        push_str(&mut m, "\n\n[Truncated - ");
        let n = byte_len(stdout);
        let d = u64_to_decimal(n as u64);
        push_str(&mut m, d.as_str());
        push_str(&mut m, " chars total]");
        ToolResult::success(m)
    } else {
        ToolResult::success(owned(stdout))
    }
}

/// The search URL that `websearch` requests for `query`.
pub fn search_url(query: &str) -> (r: String)
    ensures
        r@ == "https://html.duckduckgo.com/html/?q="@ + percent_encode(encode_utf8(query@)),
{
    let mut u = owned("https://html.duckduckgo.com/html/?q=");
    let e = url_encode(query);
    push_str(&mut u, e.as_str());
    u
}

/// Marker of a result link in the search page.
pub open spec fn result_marker() -> Seq<char> {
    "<a class=\"result__a\""@
}

/// A result line turned into `url: title` text.
pub open spec fn clean_result_line(l: Seq<char>) -> Seq<char> {
    replace_all(
        replace_all(
            replace_all(
                replace_all(
                    replace_all(replace_all(l, "<a class=\"result__a\" href=\""@, ""@), "\">"@, ": "@),
                    "</a>"@,
                    ""@,
                ),
                "&amp;"@,
                "&"@,
            ),
            "&lt;"@,
            "<"@,
        ),
        "&gt;"@,
        ">"@,
    )
}

/// The lines of `ls` that hold a result link, in order.
pub open spec fn result_lines(ls: Seq<Seq<char>>) -> Seq<Seq<char>>
    decreases ls.len(),
{
    if ls.len() == 0 {
        Seq::empty()
    } else if contains_seq(ls.last(), result_marker()) {
        result_lines(ls.drop_last()).push(ls.last())
    } else {
        result_lines(ls.drop_last())
    }
}

/// The results that `websearch` reports: the first five result lines,
/// cleaned, without the ones that end up empty.
pub open spec fn search_results(page: Seq<char>) -> Seq<Seq<char>> {
    let r = result_lines(lines(page));
    let first = if r.len() <= 5 {
        r
    } else {
        r.subrange(0, 5)
    };
    nonempty_only(first.map_values(|l: Seq<char>| clean_result_line(l)))
}

fn clean_line(l: &str) -> (r: String)
    ensures
        r@ == clean_result_line(l@),
{
    proof {
        reveal_strlit("<a class=\"result__a\" href=\"");
        reveal_strlit("\">");
        reveal_strlit("</a>");
        reveal_strlit("&amp;");
        reveal_strlit("&lt;");
        reveal_strlit("&gt;");
    }
    let a = replace_str(l, "<a class=\"result__a\" href=\"", "");
    let b = replace_str(a.as_str(), "\">", ": ");
    let c = replace_str(b.as_str(), "</a>", "");
    let d = replace_str(c.as_str(), "&amp;", "&");
    let e = replace_str(d.as_str(), "&lt;", "<");
    replace_str(e.as_str(), "&gt;", ">")
}

/// What `websearch` reports for the fetched page.
pub fn search_outcome(page: &str) -> (r: ToolResult)
    ensures
        r.success,
        search_results(page@).len() == 0 ==> r.output@ == "No search results found"@,
        search_results(page@).len() > 0 ==> r.output@ == join(search_results(page@), "\n"@),
{
    let ls = lines_of(page);
    let ghost all = lines(page@);
    let mut hits: Vec<String> = Vec::new();
    let mut i: usize = 0;
    while i < ls.len()
        invariant
            i <= ls.len(),
            views(ls@) == all,
            all == lines(page@),
            views(hits@) == result_lines(all.subrange(0, i as int)),
        decreases ls.len() - i,
    {
        proof {
            assert(all.subrange(0, i + 1).drop_last() =~= all.subrange(0, i as int));
            assert(all.subrange(0, i + 1).last() == all[i as int]);
        }
        if str_contains(ls[i].as_str(), "<a class=\"result__a\"") {
            let ghost before = hits@;
            hits.push(ls[i].clone());
            assert(views(hits@) =~= views(before).push(ls@[i as int]@));
        }
        i = i + 1;
    }
    assert(all.subrange(0, ls.len() as int) =~= all);
    let ghost r = result_lines(all);
    let k: usize = if hits.len() <= 5 {
        hits.len()
    } else {
        5
    };
    let ghost first = if r.len() <= 5 {
        r
    } else {
        r.subrange(0, 5)
    };
    let ghost cleaned = first.map_values(|l: Seq<char>| clean_result_line(l));
    let mut out: Vec<String> = Vec::new();
    let mut j: usize = 0;
    while j < k
        invariant
            j <= k <= hits.len(),
            k == first.len(),
            views(hits@) == r,
            forall|t: int| 0 <= t < k ==> first[t] == r[t],
            cleaned == first.map_values(|l: Seq<char>| clean_result_line(l)),
            views(out@) == nonempty_only(cleaned.subrange(0, j as int)),
        decreases k - j,
    {
        let c = clean_line(hits[j].as_str());
        proof {
            assert(cleaned.subrange(0, j + 1).drop_last() =~= cleaned.subrange(0, j as int));
            assert(cleaned.subrange(0, j + 1).last() == cleaned[j as int]);
            assert(hits@[j as int]@ == r[j as int]);
            assert(cleaned[j as int] == clean_result_line(first[j as int]));
        }
        if !c.as_str().is_empty() {
            let ghost before = out@;
            out.push(c);
            assert(views(out@) =~= views(before).push(c@));
        }
        j = j + 1;
    }
    assert(cleaned.subrange(0, k as int) =~= cleaned);
    if out.len() == 0 {
        ToolResult::success(owned("No search results found"))
    } else {
        ToolResult::success(join_strings(out.as_slice(), "\n"))
    }
}


// ---------------------------------------------------------------------------
// Tool dispatch
// ---------------------------------------------------------------------------

/// The tool that a tool name selects.
#[derive(Clone, Copy, PartialEq, Eq, Debug)]
pub enum ToolKind {
    Bash,
    Read,
    Write,
    Edit,
    Glob,
    Grep,
    WebFetch,
    WebSearch,
    Mkdir,
    Rm,
    Cp,
    Mv,
    Cron,
    Sandbox,
    Container,
    Batch,
    MixtureOfAgents,
    ImageGenerate,
    Skin,
    Profile,
    AcpServer,
}

/// The tool that `execute_tool` runs for `name`.
pub open spec fn tool_kind_of(name: Seq<char>) -> Option<ToolKind> {
    if name == "bash"@ || name == "run"@ || name == "execute"@ || name == "shell"@ {
        Some(ToolKind::Bash)
    } else if name == "read"@ || name == "cat"@ || name == "file_read"@ {
        Some(ToolKind::Read)
    } else if name == "write"@ || name == "file_write"@ || name == "create"@ {
        Some(ToolKind::Write)
    } else if name == "edit"@ || name == "file_edit"@ || name == "patch"@ {
        Some(ToolKind::Edit)
    } else if name == "glob"@ || name == "find"@ || name == "ls"@ {
        Some(ToolKind::Glob)
    } else if name == "grep"@ || name == "rg"@ {
        Some(ToolKind::Grep)
    } else if name == "webfetch"@ || name == "web_fetch"@ || name == "fetch"@ || name == "curl"@ || name == "wget"@ {
        Some(ToolKind::WebFetch)
    } else if name == "websearch"@ || name == "web_search"@ {
        Some(ToolKind::WebSearch)
    } else if name == "mkdir"@ || name == "directory"@ {
        Some(ToolKind::Mkdir)
    } else if name == "rm"@ || name == "delete"@ || name == "remove"@ {
        Some(ToolKind::Rm)
    } else if name == "cp"@ || name == "copy"@ {
        Some(ToolKind::Cp)
    } else if name == "mv"@ || name == "move"@ || name == "rename"@ {
        Some(ToolKind::Mv)
    } else if name == "cron"@ || name == "crontab"@ || name == "schedule"@ {
        Some(ToolKind::Cron)
    } else if name == "sandbox"@ || name == "execute_code"@ || name == "run_code"@ {
        Some(ToolKind::Sandbox)
    } else if name == "container"@ || name == "docker"@ || name == "ssh"@ || name == "remote_exec"@ {
        Some(ToolKind::Container)
    } else if name == "batch"@ || name == "batch_run"@ || name == "parallel"@ {
        Some(ToolKind::Batch)
    } else if name == "mixtureofagents"@ || name == "moa"@ || name == "ensemble"@ {
        Some(ToolKind::MixtureOfAgents)
    } else if name == "imagegenerate"@ || name == "image_gen"@ || name == "generate_image"@ {
        Some(ToolKind::ImageGenerate)
    } else if name == "skin"@ || name == "theme"@ || name == "appearance"@ {
        Some(ToolKind::Skin)
    } else if name == "profile"@ || name == "profiles"@ {
        Some(ToolKind::Profile)
    } else if name == "acpserver"@ || name == "acp"@ || name == "acp-server"@ || name == "ide_bridge"@ {
        Some(ToolKind::AcpServer)
    } else {
        None
    }
}

/// The tool that `execute_tool` runs for `name`, if any.
pub fn resolve_tool(name: &str) -> (r: Option<ToolKind>)
    ensures
        r == tool_kind_of(name@),
{
    if str_eq(name, "bash") || str_eq(name, "run") || str_eq(name, "execute") || str_eq(name, "shell") {
        Some(ToolKind::Bash)
    } else if str_eq(name, "read") || str_eq(name, "cat") || str_eq(name, "file_read") {
        Some(ToolKind::Read)
    } else if str_eq(name, "write") || str_eq(name, "file_write") || str_eq(name, "create") {
        Some(ToolKind::Write)
    } else if str_eq(name, "edit") || str_eq(name, "file_edit") || str_eq(name, "patch") {
        Some(ToolKind::Edit)
    } else if str_eq(name, "glob") || str_eq(name, "find") || str_eq(name, "ls") {
        Some(ToolKind::Glob)
    } else if str_eq(name, "grep") || str_eq(name, "rg") {
        Some(ToolKind::Grep)
    } else if str_eq(name, "webfetch") || str_eq(name, "web_fetch") || str_eq(name, "fetch") || str_eq(name, "curl") || str_eq(name, "wget") {
        Some(ToolKind::WebFetch)
    } else if str_eq(name, "websearch") || str_eq(name, "web_search") {
        Some(ToolKind::WebSearch)
    } else if str_eq(name, "mkdir") || str_eq(name, "directory") {
        Some(ToolKind::Mkdir)
    } else if str_eq(name, "rm") || str_eq(name, "delete") || str_eq(name, "remove") {
        Some(ToolKind::Rm)
    } else if str_eq(name, "cp") || str_eq(name, "copy") {
        Some(ToolKind::Cp)
    } else if str_eq(name, "mv") || str_eq(name, "move") || str_eq(name, "rename") {
        Some(ToolKind::Mv)
    } else if str_eq(name, "cron") || str_eq(name, "crontab") || str_eq(name, "schedule") {
        Some(ToolKind::Cron)
    } else if str_eq(name, "sandbox") || str_eq(name, "execute_code") || str_eq(name, "run_code") {
        Some(ToolKind::Sandbox)
    } else if str_eq(name, "container") || str_eq(name, "docker") || str_eq(name, "ssh") || str_eq(name, "remote_exec") {
        Some(ToolKind::Container)
    } else if str_eq(name, "batch") || str_eq(name, "batch_run") || str_eq(name, "parallel") {
        Some(ToolKind::Batch)
    } else if str_eq(name, "mixtureofagents") || str_eq(name, "moa") || str_eq(name, "ensemble") {
        Some(ToolKind::MixtureOfAgents)
    } else if str_eq(name, "imagegenerate") || str_eq(name, "image_gen") || str_eq(name, "generate_image") {
        Some(ToolKind::ImageGenerate)
    } else if str_eq(name, "skin") || str_eq(name, "theme") || str_eq(name, "appearance") {
        Some(ToolKind::Skin)
    } else if str_eq(name, "profile") || str_eq(name, "profiles") {
        Some(ToolKind::Profile)
    } else if str_eq(name, "acpserver") || str_eq(name, "acp") || str_eq(name, "acp-server") || str_eq(name, "ide_bridge") {
        Some(ToolKind::AcpServer)
    } else {
        None
    }
}

/// Result of `execute_tool` for a name that selects no tool.
pub fn unknown_tool(name: &str) -> (r: ToolResult)
    ensures
        !r.success,
        r.output@ == Seq::<char>::empty(),
        r.error matches Some(e) && e@ == "Unknown tool: "@ + name@,
{
    ToolResult::error(path_message("Unknown tool: ", name))
}

/// Result of a tool whose run ended in `Ok(text)` or `Err(message)`.
pub fn from_outcome(outcome: Result<String, String>) -> (r: ToolResult)
    ensures
        match outcome {
            Ok(t) => r.success && r.output@ == t@,
            Err(e) => !r.success && r.output@ == Seq::<char>::empty() && (r.error matches Some(m) && m@ == e@),
        },
{
    match outcome {
        Ok(t) => ToolResult::success(t),
        Err(e) => ToolResult::error(e),
    }
}

/// The message a tool refuses `args` with before it touches anything:
/// too few arguments, or, for bash, a command it will not run.
pub open spec fn arg_error(kind: ToolKind, args: Seq<Seq<char>>) -> Option<Seq<char>> {
    match kind {
        ToolKind::Bash => match bash_plan(args) {
            Err(e) => Some(e),
            Ok(_) => None,
        },
        ToolKind::Read => if args.len() == 0 { Some("read: file path required"@) } else { None },
        ToolKind::Write => if args.len() < 2 { Some("write: requires <file_path> <content>"@) } else { None },
        ToolKind::Edit => if args.len() < 3 {
            Some("edit: requires <file_path> <old_text> <new_text>"@)
        } else {
            None
        },
        ToolKind::Grep => if args.len() == 0 { Some("grep: pattern required"@) } else { None },
        ToolKind::WebFetch => if args.len() == 0 { Some("webfetch: URL required"@) } else { None },
        ToolKind::WebSearch => if args.len() == 0 { Some("websearch: query required"@) } else { None },
        ToolKind::Mkdir => if args.len() == 0 { Some("mkdir: directory path required"@) } else { None },
        ToolKind::Rm => if args.len() == 0 { Some("rm: file path required"@) } else { None },
        ToolKind::Cp => if args.len() < 2 { Some("cp: requires <source> <destination>"@) } else { None },
        ToolKind::Mv => if args.len() < 2 { Some("mv: requires <source> <destination>"@) } else { None },
        _ => None,
    }
}

/// The failed result a tool gives for `args` before it touches anything,
/// if it refuses them.
pub fn arg_check(kind: ToolKind, args: &[String]) -> (r: Option<ToolResult>)
    ensures
        match arg_error(kind, views(args@)) {
            Some(e) => r matches Some(t) && !t.success && t.output@ == Seq::<char>::empty() && (t.error matches Some(
                m,
            ) && m@ == e),
            None => r is None,
        },
{
    let msg: Option<&str> = match kind {
        ToolKind::Bash => {
            return match prepare_bash(args) {
                Err(e) => Some(ToolResult::error(e)),
                Ok(_) => None,
            };
        },
        ToolKind::Read => if args.len() == 0 { Some("read: file path required") } else { None },
        ToolKind::Write => if args.len() < 2 { Some("write: requires <file_path> <content>") } else { None },
        ToolKind::Edit => if args.len() < 3 {
            Some("edit: requires <file_path> <old_text> <new_text>")
        } else {
            None
        },
        ToolKind::Grep => if args.len() == 0 { Some("grep: pattern required") } else { None },
        ToolKind::WebFetch => if args.len() == 0 { Some("webfetch: URL required") } else { None },
        ToolKind::WebSearch => if args.len() == 0 { Some("websearch: query required") } else { None },
        ToolKind::Mkdir => if args.len() == 0 { Some("mkdir: directory path required") } else { None },
        ToolKind::Rm => if args.len() == 0 { Some("rm: file path required") } else { None },
        ToolKind::Cp => if args.len() < 2 { Some("cp: requires <source> <destination>") } else { None },
        ToolKind::Mv => if args.len() < 2 { Some("mv: requires <source> <destination>") } else { None },
        _ => None,
    };
    match msg {
        Some(m) => Some(ToolResult::error(owned(m))),
        None => None,
    }
}

/// The answer `execute_tool` gives for a call of tool `name` with `args`
/// before anything is run or touched: an unknown tool, or arguments the
/// tool refuses. `None` when the call goes ahead.
pub fn check_tool_call(name: &str, args: &[String]) -> (r: Option<ToolResult>)
    ensures
        match tool_kind_of(name@) {
            None => r matches Some(t) && !t.success && t.output@ == Seq::<char>::empty() && (t.error matches Some(
                m,
            ) && m@ == "Unknown tool: "@ + name@),
            Some(k) => match arg_error(k, views(args@)) {
                Some(e) => r matches Some(t) && !t.success && t.output@ == Seq::<char>::empty() && (t.error matches Some(
                    m,
                ) && m@ == e),
                None => r is None,
            },
        },
{
    match resolve_tool(name) {
        None => Some(unknown_tool(name)),
        Some(k) => arg_check(k, args),
    }
}

} // verus!
