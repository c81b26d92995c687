//! Container and remote execution: what a call asks for, the command
//! checks, and the program and arguments for each backend; running them
//! happens at the caller.

use vstd::prelude::*;
use crate::json::{fields_view, json_pretty, pretty_object, text_field, JsonField, JsonFieldView};
use crate::text::{
    contains_seq, decimal, lowercase_of, owned, parse_uint, parse_unsigned, push_str, str_contains, str_eq,
    to_lowercase, u64_to_decimal, views,
};
use crate::tools::acp_tool::flag_value;

verus! {

/// The Container tool.
pub struct ContainerTool;

impl ContainerTool {
    pub fn new() -> (r: Self) {
        ContainerTool
    }

    /// Name of the tool.
    pub fn name(&self) -> (r: &'static str)
        ensures
            r@ == "Container"@,
    {
        "Container"
    }

    /// Description of the tool.
    pub fn description(&self) -> (r: &'static str)
        ensures
            r@ == "Execute commands in isolated containers or remote environments. \
Backends: docker, ssh, modal, daytona, singularity, local. \
Use for builds, integration tests, dependency-heavy workloads, remote machine tasks. \
Args: <backend> <command> [--image <image>] [--host <host>] [--timeout <secs>]
Example: Container('docker', 'cargo build', '--image rust:1.75')
Example: Container('docker', 'npm install && npm test', '--image node:20')
Example: Container('ssh', 'ls -la', '--host user@server')
Example: Container('local', 'make build')"@,
    {
        "Execute commands in isolated containers or remote environments. \
Backends: docker, ssh, modal, daytona, singularity, local. \
Use for builds, integration tests, dependency-heavy workloads, remote machine tasks. \
Args: <backend> <command> [--image <image>] [--host <host>] [--timeout <secs>]
Example: Container('docker', 'cargo build', '--image rust:1.75')
Example: Container('docker', 'npm install && npm test', '--image node:20')
Example: Container('ssh', 'ls -la', '--host user@server')
Example: Container('local', 'make build')"
    }
}


/// Command fragments that are refused, in the order they are checked.
pub open spec fn container_blocked() -> Seq<Seq<char>> {
    seq![
        "; rm -rf"@, "&& rm -rf"@, "|| rm -rf"@, "| rm -rf"@, "&& shutdown"@, "; shutdown"@,
        "&& halt"@, "; halt"@, "&& poweroff"@, "; poweroff"@, "&& init 0"@, "; init 0"@,
    ]
}

/// Shell metacharacters that are refused, in the order they are checked.
pub open spec fn container_metachars() -> Seq<char> {
    seq!['`', '$', '|', '&', ';', '>', '<', '\n', '\r']
}

fn container_blocked_at(i: usize) -> (r: &'static str)
    requires
        i < 12,
    ensures
        r@ == container_blocked()[i as int],
{
    if i == 0 {
        "; rm -rf"
    } else if i == 1 {
        "&& rm -rf"
    } else if i == 2 {
        "|| rm -rf"
    } else if i == 3 {
        "| rm -rf"
    } else if i == 4 {
        "&& shutdown"
    } else if i == 5 {
        "; shutdown"
    } else if i == 6 {
        "&& halt"
    } else if i == 7 {
        "; halt"
    } else if i == 8 {
        "&& poweroff"
    } else if i == 9 {
        "; poweroff"
    } else if i == 10 {
        "&& init 0"
    } else {
        "; init 0"
    }
}

fn container_metachar_at(i: usize) -> (r: char)
    requires
        i < 9,
    ensures
        r == container_metachars()[i as int],
{
    if i == 0 {
        '`'
    } else if i == 1 {
        '$'
    } else if i == 2 {
        '|'
    } else if i == 3 {
        '&'
    } else if i == 4 {
        ';'
    } else if i == 5 {
        '>'
    } else if i == 6 {
        '<'
    } else if i == 7 {
        '\n'
    } else {
        '\r'
    }
}

/// From `i` on, the first refused fragment the lower-cased command holds.
pub open spec fn first_container_blocked(lower: Seq<char>, i: int) -> Option<int>
    decreases 12 - i,
{
    if i < 0 || i >= 12 {
        None
    } else if contains_seq(lower, lowercase_of(container_blocked()[i])) {
        Some(i)
    } else {
        first_container_blocked(lower, i + 1)
    }
}

/// From `i` on, the first refused metacharacter the command holds.
pub open spec fn first_metachar(cmd: Seq<char>, i: int) -> Option<int>
    decreases 9 - i,
{
    if i < 0 || i >= 9 {
        None
    } else if cmd.contains(container_metachars()[i]) {
        Some(i)
    } else {
        first_metachar(cmd, i + 1)
    }
}

/// Whether a command is refused, and the message.
pub open spec fn container_check(cmd: Seq<char>) -> Result<(), Seq<char>> {
    match first_container_blocked(lowercase_of(cmd), 0) {
        Some(i) => Err("Command contains potentially dangerous pattern: "@ + container_blocked()[i]),
        None => match first_metachar(cmd, 0) {
            Some(i) => Err("Command contains shell metacharacter '"@ + seq![container_metachars()[i]]
                + "' which is not allowed for security reasons"@),
            None => Ok(()),
        },
    }
}

fn has_char(s: &str, c: char) -> (r: bool)
    ensures
        r == s@.contains(c),
{
    let v = crate::text::chars_of(s);
    let mut i: usize = 0;
    while i < v.len()
        invariant
            i <= v@.len(),
            v@ == s@,
            forall|k: int| 0 <= k < i ==> v@[k] != c,
        decreases v.len() - i,
    {
        if v[i] == c {
            assert(s@[i as int] == c);
            return true;
        }
        i = i + 1;
    }
    false
}

/// Refuses a dangerous command or one with a shell metacharacter.
pub fn validate_container_command(command: &str) -> (r: Result<(), String>)
    ensures
        r is Ok <==> container_check(command@) is Ok,
        r matches Err(x) ==> container_check(command@) == Err::<(), Seq<char>>(x@),
{
    let lower = to_lowercase(command);
    let mut i: usize = 0;
    while i < 12
        invariant
            i <= 12,
            lower@ == lowercase_of(command@),
            first_container_blocked(lower@, 0) == first_container_blocked(lower@, i as int),
        decreases 12 - i,
    {
        let p = container_blocked_at(i);
        let pl = to_lowercase(p);
        if str_contains(lower.as_str(), pl.as_str()) {
            let mut e = owned("Command contains potentially dangerous pattern: ");
            push_str(&mut e, p);
            return Err(e);
        }
        i = i + 1;
    }
    let mut j: usize = 0;
    while j < 9
        invariant
            j <= 9,
            first_metachar(command@, 0) == first_metachar(command@, j as int),
            first_container_blocked(lowercase_of(command@), 0) is None,
        decreases 9 - j,
    {
        let c = container_metachar_at(j);
        if has_char(command, c) {
            let mut e = owned("Command contains shell metacharacter '");
            let ghost e0 = e@;
            crate::text::push_char(&mut e, c);
            assert(e@ =~= e0 + seq![c]);
            push_str(&mut e, "' which is not allowed for security reasons");
            return Err(e);
        }
        j = j + 1;
    }
    Ok(())
}

/// A backend that the tool knows.
#[derive(Clone, Copy, Debug, PartialEq, Eq, Structural)]
pub enum ContainerKind {
    Local,
    Docker,
    Ssh,
    Modal,
    Daytona,
    Singularity,
    Unknown,
}

/// The backend a lower-cased backend word names.
pub open spec fn container_kind_of(b: Seq<char>) -> ContainerKind {
    if b == "local"@ {
        ContainerKind::Local
    } else if b == "docker"@ {
        ContainerKind::Docker
    } else if b == "ssh"@ {
        ContainerKind::Ssh
    } else if b == "modal"@ {
        ContainerKind::Modal
    } else if b == "daytona"@ {
        ContainerKind::Daytona
    } else if b == "singularity"@ {
        ContainerKind::Singularity
    } else {
        ContainerKind::Unknown
    }
}

/// A call of the container tool.
pub struct ContainerRequest {
    pub backend: String,
    pub kind: ContainerKind,
    pub command: String,
    pub image: String,
    pub host: String,
    pub timeout_secs: u64,
}

/// The value of the last `flag` among `args[2..]` with an argument after it.
pub open spec fn option_value(args: Seq<Seq<char>>, flag: Seq<char>, n: int) -> Option<Seq<char>>
    decreases n,
{
    if n <= 2 {
        None
    } else if args[n - 1] == flag && n < args.len() {
        Some(args[n])
    } else {
        option_value(args, flag, n - 1)
    }
}

/// The usage text of the container tool.
pub open spec fn container_usage() -> Seq<char> {
    "Container tool usage:\nContainer(<backend>, <command>, [--image <img>], [--host <addr>], [--timeout <secs>])\nBackends: docker, ssh, modal, daytona, singularity, local\nDocker: specify --image (e.g., rust:1.75, node:20, python:3.12)\nSSH: specify --host (e.g., user@server)\nLocal: default backend, no extra args needed"@
}

/// `request` is what `args` ask for: the backend (lower-cased), the command
/// (`""` when absent), and the last `--image`, `--host` and `--timeout`
/// values, else `ubuntu:latest`, `localhost` and 300.
pub open spec fn container_request_ok(args: Seq<Seq<char>>, q: ContainerRequest) -> bool {
    &&& q.backend@ == lowercase_of(args[0])
    &&& q.kind == container_kind_of(q.backend@)
    &&& q.command@ == (if args.len() > 1 {
        args[1]
    } else {
        ""@
    })
    &&& q.image@ == (match option_value(args, "--image"@, args.len() as int) {
        Some(v) => v,
        None => "ubuntu:latest"@,
    })
    &&& q.host@ == (match option_value(args, "--host"@, args.len() as int) {
        Some(v) => v,
        None => "localhost"@,
    })
    &&& q.timeout_secs == (match option_value(args, "--timeout"@, args.len() as int) {
        Some(v) => match parse_unsigned(v, u64::MAX as nat) {
            Some(t) => t,
            None => 300,
        },
        None => 300,
    })
}

impl ContainerTool {
    /// What a call asks for: the usage text when there are no arguments, the
    /// message when the command is refused, else the request.
    pub fn request(&self, args: &[String]) -> (r: Result<ContainerRequest, String>)
        ensures
            args@.len() == 0 ==> (r matches Err(u) && u@ == container_usage()),
            args@.len() > 0 ==> match container_check(
                if args@.len() > 1 {
                    args@[1]@
                } else {
                    ""@
                },
            ) {
                Err(e) => r matches Err(x) && x@ == e,
                Ok(()) => r matches Ok(q) && container_request_ok(views(args@), q),
            },
    {
        if args.len() == 0 {
            return Err(owned("Container tool usage:\nContainer(<backend>, <command>, [--image <img>], [--host <addr>], [--timeout <secs>])\nBackends: docker, ssh, modal, daytona, singularity, local\nDocker: specify --image (e.g., rust:1.75, node:20, python:3.12)\nSSH: specify --host (e.g., user@server)\nLocal: default backend, no extra args needed"));
        }
        let backend = to_lowercase(args[0].as_str());
        let command = if args.len() > 1 {
            args[1].clone()
        } else {
            owned("")
        };
        let mut image = owned("ubuntu:latest");
        let mut host = owned("localhost");
        let mut timeout: u64 = 300;
        let mut i: usize = 2;
        proof {
            reveal_strlit("--image");
            reveal_strlit("--host");
            reveal_strlit("--timeout");
            assert("--image"@[2] != "--host"@[2]);
            assert("--image"@[2] != "--timeout"@[2]);
            assert("--host"@[2] != "--timeout"@[2]);
        }
        while i < args.len()
            invariant
                2 <= i,
                i <= args@.len() || i == 2,
                image@ == match option_value(views(args@), "--image"@, i as int) {
                    Some(v) => v,
                    None => "ubuntu:latest"@,
                },
                host@ == match option_value(views(args@), "--host"@, i as int) {
                    Some(v) => v,
                    None => "localhost"@,
                },
                timeout == match option_value(views(args@), "--timeout"@, i as int) {
                    Some(v) => match parse_unsigned(v, u64::MAX as nat) {
                        Some(t) => t,
                        None => 300,
                    },
                    None => 300,
                },
                "--image"@ != "--host"@ && "--image"@ != "--timeout"@ && "--host"@ != "--timeout"@,
            decreases args.len() - i,
        {
            if str_eq(args[i].as_str(), "--image") && i + 1 < args.len() {
                image = args[i + 1].clone();
            } else if str_eq(args[i].as_str(), "--host") && i + 1 < args.len() {
                host = args[i + 1].clone();
            } else if str_eq(args[i].as_str(), "--timeout") && i + 1 < args.len() {
                timeout = match parse_uint(args[i + 1].as_str(), u64::MAX) {
                    Some(t) => t,
                    None => 300,
                };
            }
            i = i + 1;
        }
        proof {
            assert(views(args@).len() == args@.len());
            if args@.len() >= 2 {
                assert(i == args@.len());
            }
            if args@.len() < 2 {
                assert(option_value(views(args@), "--image"@, args@.len() as int) is None);
                assert(option_value(views(args@), "--host"@, args@.len() as int) is None);
                assert(option_value(views(args@), "--timeout"@, args@.len() as int) is None);
            }
        }
        if let Err(e) = validate_container_command(command.as_str()) {
            return Err(e);
        }
        let kind = if str_eq(backend.as_str(), "local") {
            ContainerKind::Local
        } else if str_eq(backend.as_str(), "docker") {
            ContainerKind::Docker
        } else if str_eq(backend.as_str(), "ssh") {
            ContainerKind::Ssh
        } else if str_eq(backend.as_str(), "modal") {
            ContainerKind::Modal
        } else if str_eq(backend.as_str(), "daytona") {
            ContainerKind::Daytona
        } else if str_eq(backend.as_str(), "singularity") {
            ContainerKind::Singularity
        } else {
            ContainerKind::Unknown
        };
        Ok(ContainerRequest { backend, kind, command, image, host, timeout_secs: timeout })
    }
}

/// The answer to an unknown backend.
pub fn unknown_backend(backend: &str) -> (r: String)
    ensures
        r@ == "Unknown backend: "@ + backend@ + "\nBackends: docker, ssh, modal, daytona, singularity, local"@,
{
    let mut m = owned("Unknown backend: ");
    push_str(&mut m, backend);
    push_str(&mut m, "\nBackends: docker, ssh, modal, daytona, singularity, local");
    m
}


/// The JSON fields of the answer for a backend that is not set up here
/// (modal, daytona, singularity).
pub open spec fn stub_backend_fields(kind: ContainerKind, backend: Seq<char>) -> Seq<(Seq<char>, JsonFieldView)> {
    if kind == ContainerKind::Modal {
        seq![
            ("backend"@, JsonFieldView::Text("modal"@)),
            ("message"@, JsonFieldView::Text("Modal backend requires setup. Install modal Python package: pip install modal"@)),
            ("hint"@, JsonFieldView::Text("Use Container('docker', ...) for local container execution instead"@)),
        ]
    } else {
        seq![
            ("backend"@, JsonFieldView::Text(backend)),
            ("message"@, JsonFieldView::Text(backend + " backend not yet configured"@)),
            ("hint"@, JsonFieldView::Text("Use Container('docker', ...) or Container('local', ...)"@)),
        ]
    }
}

/// What the container tool does with a call: answer at once (usage, a
/// refused command, an unknown backend or one not set up here), or run the
/// request's command.
pub enum ContainerStep {
    Reply(Result<String, String>),
    Run(ContainerRequest),
}

/// The backend runs a command here: local, docker or ssh.
pub open spec fn runs_here(k: ContainerKind) -> bool {
    k == ContainerKind::Local || k == ContainerKind::Docker || k == ContainerKind::Ssh
}

fn push_field(v: &mut Vec<(String, JsonField)>, f: (String, JsonField))
    ensures
        fields_view(final(v)@) == fields_view(old(v)@).push((f.0@, f.1@)),
{
    let ghost before = fields_view(v@);
    v.push(f);
    assert(fields_view(v@) =~= before.push((f.0@, f.1@)));
}

impl ContainerTool {
    /// The first step of a call: the answer when no command runs, else the
    /// request whose command runs (see `container_command`).
    pub fn plan(&self, args: &[String]) -> (r: ContainerStep)
        ensures
            args@.len() == 0 ==> (r matches ContainerStep::Reply(Ok(u)) && u@ == container_usage()),
            args@.len() > 0 ==> match container_check(
                if args@.len() > 1 {
                    args@[1]@
                } else {
                    ""@
                },
            ) {
                Err(e) => r matches ContainerStep::Reply(Err(x)) && x@ == e,
                Ok(()) => {
                    let b = lowercase_of(args@[0]@);
                    let k = container_kind_of(b);
                    if k == ContainerKind::Unknown {
                        r matches ContainerStep::Reply(Ok(t)) && t@ == "Unknown backend: "@ + b
                            + "\nBackends: docker, ssh, modal, daytona, singularity, local"@
                    } else if runs_here(k) {
                        r matches ContainerStep::Run(q) && container_request_ok(views(args@), q)
                    } else {
                        r matches ContainerStep::Reply(Ok(t)) && t@ == json_pretty(stub_backend_fields(k, b))
                    }
                },
            },
    {
        match self.request(args) {
            Err(e) => if args.len() == 0 {
                ContainerStep::Reply(Ok(e))
            } else {
                ContainerStep::Reply(Err(e))
            },
            Ok(q) => {
                if q.kind == ContainerKind::Unknown {
                    ContainerStep::Reply(Ok(unknown_backend(q.backend.as_str())))
                } else if q.kind == ContainerKind::Local || q.kind == ContainerKind::Docker
                    || q.kind == ContainerKind::Ssh {
                    ContainerStep::Run(q)
                } else {
                    let mut v: Vec<(String, JsonField)> = Vec::new();
                    if q.kind == ContainerKind::Modal {
                        push_field(&mut v, text_field("backend", "modal"));
                        push_field(&mut v, text_field("message", "Modal backend requires setup. Install modal Python package: pip install modal"));
                        push_field(&mut v, text_field("hint", "Use Container('docker', ...) for local container execution instead"));
                    } else {
                        push_field(&mut v, (owned("backend"), JsonField::Text(q.backend.clone())));
                        let mut m = q.backend.clone();
                        push_str(&mut m, " backend not yet configured");
                        push_field(&mut v, (owned("message"), JsonField::Text(m)));
                        push_field(&mut v, text_field("hint", "Use Container('docker', ...) or Container('local', ...)"));
                    }
                    assert(fields_view(v@) =~= stub_backend_fields(q.kind, q.backend@));
                    ContainerStep::Reply(Ok(pretty_object(v.as_slice())))
                }
            },
        }
    }
}

/// The program and arguments that run a request's command: `sh -c` here,
/// `docker run` without network in the image, or `ssh` to the host with the
/// timeout (cut to 32 bits) as connect timeout.
pub open spec fn container_command_spec(q: ContainerRequest) -> (Seq<char>, Seq<Seq<char>>) {
    if q.kind == ContainerKind::Docker {
        ("docker"@, seq!["run"@, "--rm"@, "--network=none"@, q.image@, "sh"@, "-c"@, q.command@])
    } else if q.kind == ContainerKind::Ssh {
        ("ssh"@, seq![
            "-o"@,
            "StrictHostKeyChecking=no"@,
            "-o"@,
            "ConnectTimeout="@ + decimal((q.timeout_secs as u32) as nat),
            q.host@,
            q.command@,
        ])
    } else {
        ("sh"@, seq!["-c"@, q.command@])
    }
}

/// The command that runs request `q`.
pub fn container_command(q: &ContainerRequest) -> (r: (String, Vec<String>))
    ensures
        (r.0@, views(r.1@)) == container_command_spec(*q),
{
    let r = if q.kind == ContainerKind::Docker {
        (owned("docker"), vec![owned("run"), owned("--rm"), owned("--network=none"), q.image.clone(), owned("sh"), owned("-c"), q.command.clone()])
    } else if q.kind == ContainerKind::Ssh {
        let mut t = owned("ConnectTimeout=");
        let d = u64_to_decimal((q.timeout_secs as u32) as u64);
        push_str(&mut t, d.as_str());
        (owned("ssh"), vec![owned("-o"), owned("StrictHostKeyChecking=no"), owned("-o"), t, q.host.clone(), q.command.clone()])
    } else {
        (owned("sh"), vec![owned("-c"), q.command.clone()])
    };
    assert(views(r.1@) =~= container_command_spec(*q).1);
    r
}

/// The JSON fields of the report of a command that ran.
pub open spec fn report_fields(q: ContainerRequest, success: bool, exit_code: Option<i32>, stdout: Seq<char>, stderr: Seq<char>, duration_ms: u64) -> Seq<(Seq<char>, JsonFieldView)> {
    let name = if q.kind == ContainerKind::Docker { "docker"@ } else if q.kind == ContainerKind::Ssh { "ssh"@ } else { "local"@ };
    let code = match exit_code { Some(c) => c as int, None => -1 };
    seq![("backend"@, JsonFieldView::Text(name))] + (if q.kind == ContainerKind::Docker {
        seq![("image"@, JsonFieldView::Text(q.image@))]
    } else if q.kind == ContainerKind::Ssh {
        seq![("host"@, JsonFieldView::Text(q.host@))]
    } else {
        Seq::empty()
    }) + seq![
        ("success"@, JsonFieldView::Flag(success)),
        ("command"@, JsonFieldView::Text(q.command@)),
        ("exit_code"@, JsonFieldView::Int(code)),
        ("stdout"@, JsonFieldView::Text(stdout)),
        ("stderr"@, JsonFieldView::Text(stderr)),
        ("duration_ms"@, JsonFieldView::Int(duration_ms as int)),
    ]
}

/// The answer after request `q`'s command ran: whether it succeeded, its
/// exit code (-1 when there is none), its output and how long it took.
pub fn container_report(q: &ContainerRequest, success: bool, exit_code: Option<i32>, stdout: &str, stderr: &str, duration_ms: u64) -> (r: String)
    requires
        duration_ms <= i64::MAX,
    ensures
        r@ == json_pretty(report_fields(*q, success, exit_code, stdout@, stderr@, duration_ms)),
{
    let mut v: Vec<(String, JsonField)> = Vec::new();
    if q.kind == ContainerKind::Docker {
        push_field(&mut v, text_field("backend", "docker"));
        push_field(&mut v, (owned("image"), JsonField::Text(q.image.clone())));
    } else if q.kind == ContainerKind::Ssh {
        push_field(&mut v, text_field("backend", "ssh"));
        push_field(&mut v, (owned("host"), JsonField::Text(q.host.clone())));
    } else {
        push_field(&mut v, text_field("backend", "local"));
    }
    push_field(&mut v, (owned("success"), JsonField::Flag(success)));
    push_field(&mut v, (owned("command"), JsonField::Text(q.command.clone())));
    let code: i64 = match exit_code {
        Some(c) => c as i64,
        None => -1,
    };
    push_field(&mut v, (owned("exit_code"), JsonField::Int(code)));
    push_field(&mut v, text_field("stdout", stdout));
    push_field(&mut v, text_field("stderr", stderr));
    push_field(&mut v, (owned("duration_ms"), JsonField::Int(duration_ms as i64)));
    assert(fields_view(v@) =~= report_fields(*q, success, exit_code, stdout@, stderr@, duration_ms));
    pretty_object(v.as_slice())
}

} // verus!
