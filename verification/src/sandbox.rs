//! Code sandbox: languages and how each is run, the sandbox settings, and
//! the result of a run with its Markdown report. Writing the code to a
//! file, running it with a timeout and timing it happen at the caller.

use vstd::prelude::*;
use crate::text::{
    byte_len, byte_prefix, can_truncate_bytes, decimal, lowercase_of, owned, push_str, signed_decimal,
    str_eq, take_bytes, to_lowercase, truncate_bytes, truncate_str, u64_to_decimal, i64_to_decimal,
    utf8_len,
};

verus! {

/// A language the sandbox runs.
#[derive(Clone, Copy, Debug, PartialEq, Eq, Structural)]
pub enum Language {
    Python,
    Python3,
    JavaScript,
    Node,
    Bash,
    Shell,
    Ruby,
    PHP,
    Rust,
    Go,
}

/// The language a lower-cased name stands for.
pub open spec fn language_named(s: Seq<char>) -> Option<Language> {
    if s == "python"@ || s == "py"@ || s == "python3"@ || s == "py3"@ {
        Some(Language::Python3)
    } else if s == "javascript"@ || s == "js"@ {
        Some(Language::JavaScript)
    } else if s == "node"@ || s == "nodejs"@ {
        Some(Language::Node)
    } else if s == "bash"@ || s == "sh"@ || s == "shell"@ {
        Some(Language::Bash)
    } else if s == "ruby"@ || s == "rb"@ {
        Some(Language::Ruby)
    } else if s == "php"@ {
        Some(Language::PHP)
    } else if s == "rust"@ || s == "rs"@ {
        Some(Language::Rust)
    } else if s == "go"@ || s == "golang"@ {
        Some(Language::Go)
    } else {
        None
    }
}

/// The interpreter or compiler of a language.
pub open spec fn language_command(l: Language) -> Seq<char> {
    match l {
        Language::Python | Language::Python3 => "python3"@,
        Language::JavaScript | Language::Node => "node"@,
        Language::Bash | Language::Shell => "bash"@,
        Language::Ruby => "ruby"@,
        Language::PHP => "php"@,
        Language::Rust => "rustc"@,
        Language::Go => "go"@,
    }
}

/// The file extension of a language's source.
pub open spec fn language_extension(l: Language) -> Seq<char> {
    match l {
        Language::Python | Language::Python3 => "py"@,
        Language::JavaScript | Language::Node => "js"@,
        Language::Bash | Language::Shell => "sh"@,
        Language::Ruby => "rb"@,
        Language::PHP => "php"@,
        Language::Rust => "rs"@,
        Language::Go => "go"@,
    }
}

/// The name of a language as `{:?}` shows it.
pub open spec fn language_debug_name(l: Language) -> Seq<char> {
    match l {
        Language::Python => "Python"@,
        Language::Python3 => "Python3"@,
        Language::JavaScript => "JavaScript"@,
        Language::Node => "Node"@,
        Language::Bash => "Bash"@,
        Language::Shell => "Shell"@,
        Language::Ruby => "Ruby"@,
        Language::PHP => "PHP"@,
        Language::Rust => "Rust"@,
        Language::Go => "Go"@,
    }
}

impl Language {
    /// The language a name stands for, in any case.
    pub fn from_str(s: &str) -> (r: Option<Self>)
        ensures
            r == language_named(lowercase_of(s@)),
    {
        let l = to_lowercase(s);
        let t = l.as_str();
        if str_eq(t, "python") || str_eq(t, "py") || str_eq(t, "python3") || str_eq(t, "py3") {
            Some(Language::Python3)
        } else if str_eq(t, "javascript") || str_eq(t, "js") {
            Some(Language::JavaScript)
        } else if str_eq(t, "node") || str_eq(t, "nodejs") {
            Some(Language::Node)
        } else if str_eq(t, "bash") || str_eq(t, "sh") || str_eq(t, "shell") {
            Some(Language::Bash)
        } else if str_eq(t, "ruby") || str_eq(t, "rb") {
            Some(Language::Ruby)
        } else if str_eq(t, "php") {
            Some(Language::PHP)
        } else if str_eq(t, "rust") || str_eq(t, "rs") {
            Some(Language::Rust)
        } else if str_eq(t, "go") || str_eq(t, "golang") {
            Some(Language::Go)
        } else {
            None
        }
    }

    /// The interpreter or compiler of the language.
    pub fn command(&self) -> (r: &'static str)
        ensures
            r@ == language_command(*self),
    {
        match self {
            Language::Python | Language::Python3 => "python3",
            Language::JavaScript | Language::Node => "node",
            Language::Bash | Language::Shell => "bash",
            Language::Ruby => "ruby",
            Language::PHP => "php",
            Language::Rust => "rustc",
            Language::Go => "go",
        }
    }

    /// The file extension of the language's source.
    pub fn extension(&self) -> (r: &'static str)
        ensures
            r@ == language_extension(*self),
    {
        match self {
            Language::Python | Language::Python3 => "py",
            Language::JavaScript | Language::Node => "js",
            Language::Bash | Language::Shell => "sh",
            Language::Ruby => "rb",
            Language::PHP => "php",
            Language::Rust => "rs",
            Language::Go => "go",
        }
    }

    /// The name of the language as `{:?}` shows it.
    pub fn debug_name(&self) -> (r: &'static str)
        ensures
            r@ == language_debug_name(*self),
    {
        match self {
            Language::Python => "Python",
            Language::Python3 => "Python3",
            Language::JavaScript => "JavaScript",
            Language::Node => "Node",
            Language::Bash => "Bash",
            Language::Shell => "Shell",
            Language::Ruby => "Ruby",
            Language::PHP => "PHP",
            Language::Rust => "Rust",
            Language::Go => "Go",
        }
    }
}

/// Sandbox settings.
pub struct SandboxConfig {
    pub timeout_secs: u64,
    pub max_memory_mb: Option<u64>,
    pub max_output_chars: usize,
    pub working_dir: Option<String>,
    pub env_vars: Vec<(String, String)>,
    pub allow_network: bool,
    pub allow_filesystem: bool,
}

impl Default for SandboxConfig {
    /// 30 s, 512 MB, 50000 bytes of output, no network, files allowed.
    fn default() -> (r: Self)
        ensures
            r.timeout_secs == 30 && r.max_memory_mb == Some(512u64) && r.max_output_chars == 50000,
            r.working_dir is None && r.env_vars@.len() == 0,
            !r.allow_network && r.allow_filesystem,
    {
        SandboxConfig {
            timeout_secs: 30,
            max_memory_mb: Some(512),
            max_output_chars: 50000,
            working_dir: None,
            env_vars: Vec::new(),
            allow_network: false,
            allow_filesystem: true,
        }
    }
}

/// What a run gave.
pub struct ExecutionResult {
    pub success: bool,
    pub stdout: String,
    pub stderr: String,
    pub exit_code: i32,
    pub duration_ms: u64,
    pub language: String,
    pub error: Option<String>,
    pub truncated: bool,
}

/// The status lines of a run's report.
pub open spec fn result_head(r: ExecutionResult) -> Seq<char> {
    "## Execution Result ("@ + r.language@ + ")\n\n"@ + "- **Status:** "@ + (if r.success {
        "Success"@
    } else {
        "Failed"@
    }) + "\n"@ + "- **Exit Code:** "@ + signed_decimal(r.exit_code as int) + "\n"@ + "- **Duration:** "@
        + decimal(r.duration_ms as nat) + "ms\n"@
}

/// The stdout section of a run's report.
pub open spec fn stdout_section(r: ExecutionResult) -> Seq<char> {
    if r.stdout@.len() > 0 {
        "\n### stdout\n\n```\n"@ + (if r.truncated {
            truncate_bytes(r.stdout@, 1000) + "...\n[OUTPUT TRUNCATED - "@ + decimal(utf8_len(r.stdout@))
                + " chars total]"@
        } else {
            r.stdout@
        }) + "\n```\n"@
    } else {
        Seq::empty()
    }
}

/// The stderr and error sections of a run's report.
pub open spec fn stderr_section(r: ExecutionResult) -> Seq<char> {
    (if r.stderr@.len() > 0 {
        "\n### stderr\n\n```\n"@ + truncate_bytes(r.stderr@, 2000) + "\n```\n"@
    } else {
        Seq::empty()
    }) + (match r.error {
        Some(e) => "\n**Error:** "@ + e@ + "\n"@,
        None => Seq::empty(),
    })
}

/// The Markdown report of a run.
pub open spec fn result_markdown(r: ExecutionResult) -> Seq<char> {
    result_head(r) + stdout_section(r) + stderr_section(r)
}

impl ExecutionResult {
    fn push_head(&self, md: &mut String)
        ensures
            final(md)@ == old(md)@ + result_head(*self),
    {
        push_str(md, "## Execution Result (");
        push_str(md, self.language.as_str());
        push_str(md, ")\n\n");
        push_str(md, "- **Status:** ");
        if self.success {
            push_str(md, "Success");
        } else {
            push_str(md, "Failed");
        }
        push_str(md, "\n");
        push_str(md, "- **Exit Code:** ");
        let ec = i64_to_decimal(self.exit_code as i64);
        push_str(md, ec.as_str());
        push_str(md, "\n");
        push_str(md, "- **Duration:** ");
        let d = u64_to_decimal(self.duration_ms);
        push_str(md, d.as_str());
        push_str(md, "ms\n");
        assert(md@ =~= old(md)@ + result_head(*self));
    }

    fn push_stdout(&self, md: &mut String)
        requires
            self.truncated ==> can_truncate_bytes(self.stdout@, 1000),
        ensures
            final(md)@ == old(md)@ + stdout_section(*self),
    {
        if !self.stdout.as_str().is_empty() {
            push_str(md, "\n### stdout\n\n```\n");
            if self.truncated {
                let cut = truncate_str(self.stdout.as_str(), 1000);
                push_str(md, cut.as_str());
                push_str(md, "...\n[OUTPUT TRUNCATED - ");
                let n = u64_to_decimal(byte_len(self.stdout.as_str()) as u64);
                push_str(md, n.as_str());
                push_str(md, " chars total]");
            } else {
                push_str(md, self.stdout.as_str());
            }
            push_str(md, "\n```\n");
        }
        assert(md@ =~= old(md)@ + stdout_section(*self));
    }

    fn push_stderr(&self, md: &mut String)
        requires
            can_truncate_bytes(self.stderr@, 2000),
        ensures
            final(md)@ == old(md)@ + stderr_section(*self),
    {
        if !self.stderr.as_str().is_empty() {
            push_str(md, "\n### stderr\n\n```\n");
            let cut = truncate_str(self.stderr.as_str(), 2000);
            push_str(md, cut.as_str());
            push_str(md, "\n```\n");
        }
        let ghost mid = md@;
        if let Some(err) = &self.error {
            push_str(md, "\n**Error:** ");
            push_str(md, err.as_str());
            push_str(md, "\n");
        }
        assert(md@ =~= old(md)@ + stderr_section(*self));
    }

    /// The Markdown report of the run: stdout cut to 1000 bytes when it was
    /// truncated, stderr to 2000.
    pub fn to_markdown(&self) -> (r: String)
        requires
            self.truncated ==> can_truncate_bytes(self.stdout@, 1000),
            can_truncate_bytes(self.stderr@, 2000),
        ensures
            r@ == result_markdown(*self),
    {
        let mut md = String::new();
        self.push_head(&mut md);
        self.push_stdout(&mut md);
        self.push_stderr(&mut md);
        assert(md@ =~= result_markdown(*self));
        md
    }
}


/// How a source file is run.
pub enum RunPlan {
    /// Run `program` with `args`.
    Run { program: String, args: Vec<String> },
    /// Compile with `rustc` and these arguments; when that succeeds, run
    /// `program` with `args`.
    CompileThenRun { compile_args: Vec<String>, program: String, args: Vec<String> },
}

/// How a source file at `file` is run: by its interpreter, `go run`, or
/// (Rust) compiled to `binary` and run under `timeout`.
pub open spec fn plan_ok(l: Language, file: Seq<char>, binary: Seq<char>, timeout: u64, p: RunPlan) -> bool {
    match l {
        Language::Go => p matches RunPlan::Run { program, args } && program@ == "go"@ && crate::text::views(
            args@,
        ) == seq!["run"@, file],
        Language::Rust => p matches RunPlan::CompileThenRun { compile_args, program, args }
            && crate::text::views(compile_args@) == seq![file, "-o"@, binary] && program@ == "timeout"@
            && crate::text::views(args@) == seq![decimal(timeout as nat), binary],
        _ => p matches RunPlan::Run { program, args } && program@ == language_command(l)
            && crate::text::views(args@) == seq![file],
    }
}

fn strings2(a: &str, b: &str) -> (r: Vec<String>)
    ensures
        crate::text::views(r@) == seq![a@, b@],
{
    let mut v: Vec<String> = Vec::new();
    v.push(owned(a));
    v.push(owned(b));
    assert(crate::text::views(v@) =~= seq![a@, b@]);
    v
}

/// The plan for running a source file.
pub fn run_plan(language: &Language, file: &str, binary: &str, timeout_secs: u64) -> (r: RunPlan)
    ensures
        plan_ok(*language, file@, binary@, timeout_secs, r),
{
    match language {
        Language::Go => RunPlan::Run { program: owned("go"), args: strings2("run", file) },
        Language::Rust => {
            let mut c: Vec<String> = Vec::new();
            c.push(owned(file));
            c.push(owned("-o"));
            c.push(owned(binary));
            assert(crate::text::views(c@) =~= seq![file@, "-o"@, binary@]);
            let t = u64_to_decimal(timeout_secs);
            RunPlan::CompileThenRun { compile_args: c, program: owned("timeout"), args: strings2(t.as_str(), binary) }
        },
        _ => {
            let mut a: Vec<String> = Vec::new();
            a.push(owned(file));
            assert(crate::text::views(a@) =~= seq![file@]);
            RunPlan::Run { program: owned(language.command()), args: a }
        },
    }
}

/// A name for the temporary source file: `sandbox_`, eight random
/// characters, and the language's extension.
pub fn sandbox_file_name(language: &Language) -> (r: String)
    ensures
        exists|id: Seq<char>| id.len() == 8 && r@ == "sandbox_"@ + id + "."@ + language_extension(*language),
{
    let id = crate::prompt_cache::random_id(8);
    let mut n = owned("sandbox_");
    push_str(&mut n, id.as_str());
    push_str(&mut n, ".");
    push_str(&mut n, language.extension());
    n
}

/// How running the program ended.
pub enum RunOutcome {
    /// It exited; `exit_code` is absent when a signal ended it.
    Finished { success: bool, stdout: String, stderr: String, exit_code: Option<i32> },
    /// It could not be started.
    SpawnFailed(String),
    /// It ran past the timeout.
    TimedOut,
}

/// The result of a run: the output cut to the configured size, the exit
/// code (-1 when there is none), and the error of a failed start or a
/// timeout.
pub open spec fn run_result_ok(o: RunOutcome, l: Language, max: usize, timeout: u64, duration: u64, r: ExecutionResult) -> bool {
    &&& r.language@ == language_debug_name(l)
    &&& r.duration_ms == duration
    &&& match o {
        RunOutcome::Finished { success, stdout, stderr, exit_code } => {
            &&& r.success == success
            &&& r.truncated == (utf8_len(stdout@) > max)
            &&& r.stdout@ == (if utf8_len(stdout@) > max {
                byte_prefix(stdout@, max as int)
            } else {
                stdout@
            })
            &&& r.stderr == stderr
            &&& r.exit_code == (match exit_code {
                Some(c) => c,
                None => -1i32,
            })
            &&& r.error is None
        },
        RunOutcome::SpawnFailed(e) => {
            &&& !r.success && !r.truncated && r.exit_code == -1
            &&& r.stdout@.len() == 0 && r.stderr@.len() == 0
            &&& r.error matches Some(x) && x@ == "Execution failed: "@ + e@
        },
        RunOutcome::TimedOut => {
            &&& !r.success && !r.truncated && r.exit_code == -1
            &&& r.stdout@.len() == 0 && r.stderr@.len() == 0
            &&& r.error matches Some(x) && x@ == "Execution timed out after "@ + decimal(timeout as nat) + "s"@
        },
    }
}

/// The result of a run from how it ended.
pub fn finish_run(outcome: RunOutcome, language: &Language, config: &SandboxConfig, duration_ms: u64) -> (r: ExecutionResult)
    requires
        config.max_output_chars + 4 <= usize::MAX,
        outcome matches RunOutcome::Finished { stdout, .. } ==> can_truncate_bytes(
            stdout@,
            config.max_output_chars as nat,
        ),
    ensures
        run_result_ok(outcome, *language, config.max_output_chars, config.timeout_secs, duration_ms, r),
{
    let lang = owned(language.debug_name());
    match outcome {
        RunOutcome::Finished { success, stdout, stderr, exit_code } => {
            let truncated = crate::text::longer_than_bytes(stdout.as_str(), config.max_output_chars);
            let out = if truncated {
                let (p, _) = take_bytes(stdout.as_str(), config.max_output_chars);
                p
            } else {
                stdout
            };
            ExecutionResult {
                success,
                stdout: out,
                stderr,
                exit_code: match exit_code {
                    Some(c) => c,
                    None => -1,
                },
                duration_ms,
                language: lang,
                error: None,
                truncated,
            }
        },
        RunOutcome::SpawnFailed(e) => {
            let mut m = owned("Execution failed: ");
            push_str(&mut m, e.as_str());
            ExecutionResult {
                success: false,
                stdout: String::new(),
                stderr: String::new(),
                exit_code: -1,
                duration_ms,
                language: lang,
                error: Some(m),
                truncated: false,
            }
        },
        RunOutcome::TimedOut => {
            let mut m = owned("Execution timed out after ");
            let t = u64_to_decimal(config.timeout_secs);
            push_str(&mut m, t.as_str());
            push_str(&mut m, "s");
            ExecutionResult {
                success: false,
                stdout: String::new(),
                stderr: String::new(),
                exit_code: -1,
                duration_ms,
                language: lang,
                error: Some(m),
                truncated: false,
            }
        },
    }
}

/// The result when compiling the Rust source failed.
pub fn compile_failed(stderr: String, exit_code: Option<i32>, duration_ms: u64) -> (r: ExecutionResult)
    ensures
        !r.success && r.stdout@.len() == 0 && r.stderr == stderr,
        r.exit_code == (match exit_code {
            Some(c) => c,
            None => 1i32,
        }),
        r.duration_ms == duration_ms,
        r.language@ == "Rust"@,
        r.error matches Some(e) && e@ == "Compilation failed"@,
        !r.truncated,
{
    ExecutionResult {
        success: false,
        stdout: String::new(),
        stderr,
        exit_code: match exit_code {
            Some(c) => c,
            None => 1,
        },
        duration_ms,
        language: owned("Rust"),
        error: Some(owned("Compilation failed")),
        truncated: false,
    }
}

/// A piece of code to run, in a language, with settings.
pub struct SandboxJob {
    pub code: String,
    pub language: Language,
    pub config: SandboxConfig,
}

/// The job that a quick run asks for: the language named (Bash when the
/// name is unknown) with the default settings.
pub fn quick_exec(code: &str, language: &str) -> (r: SandboxJob)
    ensures
        r.code@ == code@,
        r.language == (match language_named(lowercase_of(language@)) {
            Some(l) => l,
            None => Language::Bash,
        }),
        r.config.timeout_secs == 30 && r.config.max_output_chars == 50000,
{
    let lang = match Language::from_str(language) {
        Some(l) => l,
        None => Language::Bash,
    };
    SandboxJob { code: owned(code), language: lang, config: SandboxConfig::default() }
}

} // verus!
