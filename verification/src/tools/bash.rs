//! Bash tool: command validation and splitting for safe execution without a
//! shell. Running the command with its timeout happens outside this crate.

use vstd::prelude::*;
use crate::text::{
    chars_of, contains_seq, decimal, join, lowercase_of, owned, push_str, signed_decimal, str_contains,
    string_of, to_lowercase, views, i64_to_decimal, u64_to_decimal,
};
use crate::tools::executor::join_strings;

verus! {

/// Command fragments that are always refused.
pub open spec fn blocked_commands() -> Seq<Seq<char>> {
    seq!["rm -rf /"@, "mkfs"@, "dd if="@, ":(){:|:&};:"@, "curl | sh"@, "wget | sh"@]
}

fn blocked_command(i: usize) -> (r: &'static str)
    requires
        i < 6,
    ensures
        r@ == blocked_commands()[i as int],
{
    if i == 0 {
        "rm -rf /"
    } else if i == 1 {
        "mkfs"
    } else if i == 2 {
        "dd if="
    } else if i == 3 {
        ":(){:|:&};:"
    } else if i == 4 {
        "curl | sh"
    } else {
        "wget | sh"
    }
}

/// Index of the first blocked fragment, from `i` on, that the lowercased
/// command contains (both lowercased).
pub open spec fn first_blocked(lower: Seq<char>, i: int) -> Option<int>
    decreases 6 - i,
{
    if i < 0 || i >= 6 {
        None
    } else if contains_seq(lower, lowercase_of(blocked_commands()[i])) {
        Some(i)
    } else {
        first_blocked(lower, i + 1)
    }
}

/// What the bash tool decides about a command: refused for a blocked
/// fragment (the first in list order) or an injection attempt, else allowed.
pub open spec fn validate_spec(command: Seq<char>) -> Result<(), Seq<char>> {
    match first_blocked(lowercase_of(command), 0) {
        Some(i) => Err("Command contains blocked pattern: "@ + blocked_commands()[i]),
        None => if contains_seq(command, "; rm -rf"@) || contains_seq(command, "&& rm -rf"@) {
            Err("Command injection attempt detected"@)
        } else {
            Ok(())
        },
    }
}

/// State of the bash tool's word splitter.
pub struct QuoteSplit {
    pub args: Seq<Seq<char>>,
    pub cur: Seq<char>,
    pub in_quote: bool,
    pub quote: char,
}

/// One step of the splitter: quotes group words, a quote character of the
/// other kind inside quotes is kept, and space, tab and newline separate.
pub open spec fn quote_step(st: QuoteSplit, c: char) -> QuoteSplit {
    if (c == '"' || c == '\'') && !st.in_quote {
        QuoteSplit { in_quote: true, quote: c, ..st }
    } else if (c == '"' || c == '\'') && st.in_quote && c == st.quote {
        QuoteSplit { in_quote: false, ..st }
    } else if (c == ' ' || c == '\t' || c == '\n') && !st.in_quote {
        if st.cur.len() > 0 {
            QuoteSplit { args: st.args.push(st.cur), cur: Seq::empty(), ..st }
        } else {
            st
        }
    } else {
        QuoteSplit { cur: st.cur.push(c), ..st }
    }
}

/// The splitter after the first `n` characters of `s`.
pub open spec fn quote_prefix(s: Seq<char>, n: int) -> QuoteSplit
    decreases n,
{
    if n <= 0 {
        QuoteSplit { args: Seq::empty(), cur: Seq::empty(), in_quote: false, quote: ' ' }
    } else {
        quote_step(quote_prefix(s, n - 1), s[n - 1])
    }
}

/// Words of a command line for the bash tool.
pub open spec fn quote_words(s: Seq<char>) -> Seq<Seq<char>> {
    let st = quote_prefix(s, s.len() as int);
    if st.cur.len() > 0 {
        st.args.push(st.cur)
    } else {
        st.args
    }
}

/// The words of a command line: quotes group words and are dropped; space,
/// tab and newline separate words outside quotes.
pub fn quote_split(input: &str) -> (r: Vec<String>)
    ensures
        views(r@) == quote_words(input@),
{
    let chars = chars_of(input);
    let mut args: Vec<String> = Vec::new();
    let mut cur: Vec<char> = Vec::new();
    let mut in_quote = false;
    let mut quote_char = ' ';
    let mut i: usize = 0;
    while i < chars.len()
        invariant
            i <= chars.len(),
            chars@ == input@,
            ({
                let st = quote_prefix(input@, i as int);
                &&& views(args@) == st.args
                &&& cur@ == st.cur
                &&& in_quote == st.in_quote
                &&& quote_char == st.quote
            }),
        decreases chars.len() - i,
    {
        let ch = chars[i];
        if (ch == '"' || ch == '\'') && !in_quote {
            in_quote = true;
            quote_char = ch;
        } else if (ch == '"' || ch == '\'') && in_quote && ch == quote_char {
            in_quote = false;
        } else if (ch == ' ' || ch == '\t' || ch == '\n') && !in_quote {
            if cur.len() > 0 {
                let w = string_of(cur.as_slice());
                let ghost before = args@;
                args.push(w);
                assert(views(args@) =~= views(before).push(cur@));
                cur = Vec::new();
            }
        } else {
            cur.push(ch);
        }
        i = i + 1;
    }
    if cur.len() > 0 {
        let w = string_of(cur.as_slice());
        let ghost before = args@;
        args.push(w);
        assert(views(args@) =~= views(before).push(cur@));
    }
    args
}

/// Bash tool: runs commands without a shell, with a timeout.
pub struct BashTool {
    timeout_seconds: u64,
    allowed_dirs: Vec<String>,
    blocked_patterns: Vec<String>,
}

impl BashTool {
    /// Timeout of the tool in seconds.
    pub closed spec fn timeout_spec(&self) -> u64 {
        self.timeout_seconds
    }

    /// Directories the tool may access.
    pub closed spec fn allowed_dirs_spec(&self) -> Seq<Seq<char>> {
        views(self.allowed_dirs@)
    }

    /// A tool with a 120 second timeout and no extra directories.
    pub fn new() -> (r: Self)
        ensures
            r.timeout_spec() == 120,
            r.allowed_dirs_spec().len() == 0,
    {
        BashTool { timeout_seconds: 120, allowed_dirs: Vec::new(), blocked_patterns: Vec::new() }
    }

    /// The same tool with the timeout set to `seconds`.
    pub fn with_timeout(self, seconds: u64) -> (r: Self)
        ensures
            r.timeout_spec() == seconds,
            r.allowed_dirs_spec() == self.allowed_dirs_spec(),
    {
        BashTool { timeout_seconds: seconds, ..self }
    }

    /// The same tool with `dir` added to the directories it may access.
    pub fn with_allowed_dir(self, dir: String) -> (r: Self)
        ensures
            r.timeout_spec() == self.timeout_spec(),
            r.allowed_dirs_spec() == self.allowed_dirs_spec().push(dir@),
    {
        let mut s = self;
        let ghost before = s.allowed_dirs@;
        s.allowed_dirs.push(dir);
        assert(views(s.allowed_dirs@) =~= views(before).push(dir@));
        s
    }

    /// Timeout of the tool in seconds.
    pub fn timeout_seconds(&self) -> (r: u64)
        ensures
            r == self.timeout_spec(),
    {
        self.timeout_seconds
    }

    /// Refuses commands with a blocked fragment or an injection attempt.
    pub fn validate_command(command: &str) -> (r: Result<(), String>)
        ensures
            match r {
                Ok(()) => validate_spec(command@) is Ok,
                Err(e) => validate_spec(command@) == Err::<(), Seq<char>>(e@),
            },
    {
        let lower = to_lowercase(command);
        let mut i: usize = 0;
        while i < 6
            invariant
                i <= 6,
                lower@ == lowercase_of(command@),
                first_blocked(lower@, 0) == first_blocked(lower@, i as int),
            decreases 6 - i,
        {
            let b = blocked_command(i);
            let bl = to_lowercase(b);
            if str_contains(lower.as_str(), bl.as_str()) {
                let mut m = owned("Command contains blocked pattern: ");
                push_str(&mut m, b);
                return Err(m);
            }
            i = i + 1;
        }
        if str_contains(command, "; rm -rf") || str_contains(command, "&& rm -rf") {
            return Err(owned("Command injection attempt detected"));
        }
        Ok(())
    }

    /// Splits a command line into program and words (the program is also
    /// the first word); an empty line becomes `sh`.
    pub fn parse_command(input: &str) -> (r: (String, Vec<String>))
        ensures
            quote_words(input@).len() == 0 ==> r.0@ == "sh"@ && views(r.1@) == seq!["sh"@],
            quote_words(input@).len() > 0 ==> r.0@ == quote_words(input@)[0] && views(r.1@)
                == quote_words(input@),
    {
        let args = quote_split(input);
        if args.len() == 0 {
            let mut v: Vec<String> = Vec::new();
            v.push(owned("sh"));
            assert(views(v@) =~= seq!["sh"@]);
            return (owned("sh"), v);
        }
        let program = args[0].clone();
        (program, args)
    }

    /// Program and arguments the tool runs for `args`, or the message it
    /// refuses with.
    pub fn plan(&self, args: &[String]) -> (r: Result<(String, Vec<String>), String>)
        ensures
            args@.len() == 0 ==> r is Err && r->Err_0@ == "Bash tool requires a command argument"@,
            args@.len() > 0 ==> ({
                let command = join(views(args@), " "@);
                match validate_spec(command) {
                    Err(e) => r is Err && r->Err_0@ == e,
                    Ok(()) => r is Ok && r->Ok_0.0@ == quote_words_or_sh(command)[0] && views(
                        r->Ok_0.1@,
                    ) == quote_words_or_sh(command).drop_first(),
                }
            }),
    {
        if args.len() == 0 {
            return Err(owned("Bash tool requires a command argument"));
        }
        let command = join_strings(args, " ");
        match Self::validate_command(command.as_str()) {
            Err(e) => Err(e),
            Ok(()) => {
                let (program, words) = Self::parse_command(command.as_str());
                let mut rest: Vec<String> = Vec::new();
                let mut i: usize = 1;
                while i < words.len()
                    invariant
                        1 <= i <= words.len() || words.len() == 0,
                        i >= 1,
                        views(rest@) == views(words@).subrange(1, if i <= words.len() {
                            i as int
                        } else {
                            1
                        }),
                    decreases words.len() - i,
                {
                    let ghost before = rest@;
                    rest.push(words[i].clone());
                    assert(views(rest@) =~= views(before).push(words@[i as int]@));
                    i = i + 1;
                }
                proof {
                    if words.len() >= 1 {
                        assert(views(words@).subrange(1, words.len() as int) =~= views(
                            words@,
                        ).drop_first());
                    }
                }
                Ok((program, rest))
            },
        }
    }

    /// Name of the tool.
    pub fn name(&self) -> (r: &'static str)
        ensures
            r@ == "Bash"@,
    {
        "Bash"
    }

    /// Description of the tool.
    pub fn description(&self) -> (r: &'static str)
        ensures
            r@ == "Execute shell commands safely"@,
    {
        "Execute shell commands safely"
    }
}

/// Words of a command line, or `sh` alone when there are none.
pub open spec fn quote_words_or_sh(s: Seq<char>) -> Seq<Seq<char>> {
    if quote_words(s).len() == 0 {
        seq!["sh"@]
    } else {
        quote_words(s)
    }
}

/// What the bash tool reports once the command ran: its output (or
/// `(no output)`), or the exit code with stderr and stdout.
pub fn bash_tool_outcome(success: bool, exit_code: Option<i32>, stdout: &str, stderr: &str) -> (r: Result<String, String>)
    ensures
        success ==> r is Ok && r->Ok_0@ == (if stdout@.len() == 0 {
            "(no output)"@
        } else {
            stdout@
        }),
        !success ==> r is Err && r->Err_0@ == "Command failed with exit code "@ + signed_decimal(
            match exit_code {
                Some(c) => c as int,
                None => -1,
            },
        ) + ":\n"@ + stderr@ + "\n"@ + stdout@,
{
    if success {
        if stdout.is_empty() {
            Ok(owned("(no output)"))
        } else {
            Ok(owned(stdout))
        }
    } else {
        let code: i64 = match exit_code {
            Some(c) => c as i64,
            None => -1,
        };
        let mut m = owned("Command failed with exit code ");
        let d = i64_to_decimal(code);
        push_str(&mut m, d.as_str());
        push_str(&mut m, ":\n");
        push_str(&mut m, stderr);
        push_str(&mut m, "\n");
        push_str(&mut m, stdout);
        Err(m)
    }
}

/// Message of the bash tool when the command ran past its timeout.
pub fn timeout_message(seconds: u64) -> (r: String)
    ensures
        r@ == "Command timed out after "@ + decimal(seconds as nat) + " seconds"@,
{
    let mut m = owned("Command timed out after ");
    let d = u64_to_decimal(seconds);
    push_str(&mut m, d.as_str());
    push_str(&mut m, " seconds");
    m
}

} // verus!
