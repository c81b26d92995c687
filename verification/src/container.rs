//! Container backends: where a command runs (locally, in Docker, over SSH,
//! or on services reached through their own tools), the commands that
//! reach each backend, and the results they report. Running the commands
//! and copying files happen at the caller.

use vstd::prelude::*;
use crate::strmap::{pair_views, StringMap};
use crate::text::{contains_seq, decimal, owned, push_str, str_contains, u64_to_decimal, views};

verus! {

/// Docker settings.
pub struct DockerConfig {
    pub image: String,
    pub command: Option<String>,
    pub volumes: Vec<(String, String)>,
    pub env_vars: StringMap,
    pub workdir: Option<String>,
}

/// SSH settings.
pub struct SshConfig {
    pub host: String,
    pub port: u16,
    pub user: String,
    pub key_file: Option<String>,
    pub workdir: Option<String>,
}

/// Modal settings.
pub struct ModalConfig {
    pub app_name: String,
    pub image: Option<String>,
    pub gpu: Option<String>,
    pub timeout_secs: Option<u64>,
}

/// Daytona settings.
pub struct DaytonaConfig {
    pub workspace_id: String,
    pub provider: Option<String>,
    pub gpu: Option<bool>,
}

/// Singularity settings.
pub struct SingularityConfig {
    pub image: String,
    pub bind_paths: Vec<String>,
    pub env_vars: StringMap,
}

/// Where commands run.
pub enum ContainerBackend {
    Local,
    Docker(DockerConfig),
    Ssh(SshConfig),
    Modal(ModalConfig),
    Daytona(DaytonaConfig),
    Singularity(SingularityConfig),
}

/// What a backend's command reported.
pub struct BackendResult {
    pub success: bool,
    pub stdout: String,
    pub stderr: String,
    pub exit_code: i32,
    pub duration_ms: u64,
}

/// The result of a finished command; the exit code is -1 when a signal
/// ended it.
pub fn backend_result(success: bool, stdout: String, stderr: String, exit_code: Option<i32>, duration_ms: u64) -> (r: BackendResult)
    ensures
        r.success == success && r.stdout == stdout && r.stderr == stderr,
        r.exit_code == (match exit_code {
            Some(c) => c,
            None => -1i32,
        }),
        r.duration_ms == duration_ms,
{
    BackendResult {
        success,
        stdout,
        stderr,
        exit_code: match exit_code {
            Some(c) => c,
            None => -1,
        },
        duration_ms,
    }
}

/// A program to run with its arguments.
pub struct CommandPlan {
    pub program: String,
    pub args: Vec<String>,
}

/// How a file is copied.
pub enum CopyPlan {
    /// Copy on this machine.
    Local { from: String, to: String },
    /// Run a copying command.
    Command(CommandPlan),
}

/// A backend: the commands that run a program in it, copy files to and
/// from it, and check that it is up.
pub trait Backend {
    /// The command that runs `command` with `args` in the backend.
    fn execute_plan(&self, command: &str, args: &[String]) -> CommandPlan;

    /// How to copy a local file into the backend, or why it is refused.
    fn copy_to_plan(&self, local_path: &str, remote_path: &str) -> Result<CopyPlan, String>;

    /// How to copy a file out of the backend, or why it is refused.
    fn copy_from_plan(&self, remote_path: &str, local_path: &str) -> Result<CopyPlan, String>;

    /// The command whose success shows the backend is up; `None` when it
    /// is always up.
    fn health_check_plan(&self) -> Option<CommandPlan>;

    /// Whether a health check command that ended so, and printed
    /// `stdout`, shows the backend is up.
    fn reports_healthy(&self, success: bool, stdout: &str) -> bool;

    /// What a copy that ended so, with `stderr`, comes to.
    fn copy_outcome(&self, success: bool, stderr: &str) -> Result<(), String>;
}

/// The error of a failed copying command: `prefix` and what it printed.
fn failed_copy(prefix: &str, stderr: &str) -> (r: String)
    ensures
        r@ == prefix@ + stderr@,
{
    let mut m = owned(prefix);
    push_str(&mut m, stderr);
    m
}

/// Running on this machine.
pub struct LocalBackend;

fn strings_of(v: &[String]) -> (r: Vec<String>)
    ensures
        r@ == v@,
{
    crate::text::clone_strings(v)
}

fn push_owned(v: &mut Vec<String>, s: &str)
    ensures
        views(final(v)@) == views(old(v)@).push(s@),
{
    let ghost before = v@;
    v.push(owned(s));
    assert(views(v@) =~= views(before).push(s@));
}

fn push_all(v: &mut Vec<String>, rest: &[String])
    ensures
        views(final(v)@) == views(old(v)@) + views(rest@),
{
    let mut i: usize = 0;
    let ghost start = views(v@);
    while i < rest.len()
        invariant
            i <= rest@.len(),
            views(v@) == start + views(rest@).subrange(0, i as int),
        decreases rest.len() - i,
    {
        push_owned(v, rest[i].as_str());
        assert(views(rest@).subrange(0, i + 1) =~= views(rest@).subrange(0, i as int).push(rest@[i as int]@));
        i = i + 1;
    }
    assert(views(rest@).subrange(0, rest@.len() as int) =~= views(rest@));
}

impl Backend for LocalBackend {
    fn execute_plan(&self, command: &str, args: &[String]) -> (r: CommandPlan)
        ensures
            r.program@ == command@ && r.args@ == args@,
    {
        CommandPlan { program: owned(command), args: strings_of(args) }
    }

    fn copy_to_plan(&self, local_path: &str, remote_path: &str) -> (r: Result<CopyPlan, String>)
        ensures
            r matches Ok(CopyPlan::Local { from, to }) && from@ == local_path@ && to@ == remote_path@,
    {
        Ok(CopyPlan::Local { from: owned(local_path), to: owned(remote_path) })
    }

    fn copy_from_plan(&self, remote_path: &str, local_path: &str) -> (r: Result<CopyPlan, String>)
        ensures
            r matches Ok(CopyPlan::Local { from, to }) && from@ == remote_path@ && to@ == local_path@,
    {
        Ok(CopyPlan::Local { from: owned(remote_path), to: owned(local_path) })
    }

    fn health_check_plan(&self) -> (r: Option<CommandPlan>)
        ensures
            r is None,
    {
        None
    }

    fn reports_healthy(&self, success: bool, stdout: &str) -> (b: bool)
        ensures
            b,
    {
        true
    }

    fn copy_outcome(&self, success: bool, stderr: &str) -> (r: Result<(), String>)
        ensures
            success ==> r is Ok,
            !success ==> (r matches Err(e) && e@ == stderr@),
    {
        if success {
            Ok(())
        } else {
            Err(owned(stderr))
        }
    }
}

/// Running in Docker.
pub struct DockerBackend {
    config: DockerConfig,
}

/// The `-v host:container` and `-e key=value` arguments of Docker settings.
pub open spec fn volume_args(vs: Seq<(Seq<char>, Seq<char>)>) -> Seq<Seq<char>>
    decreases vs.len(),
{
    if vs.len() == 0 {
        Seq::empty()
    } else {
        volume_args(vs.drop_last()) + seq!["-v"@, vs.last().0 + ":"@ + vs.last().1]
    }
}

/// The `-e key=value` arguments of environment variables, in order.
pub open spec fn env_args(es: Seq<(Seq<char>, Seq<char>)>) -> Seq<Seq<char>>
    decreases es.len(),
{
    if es.len() == 0 {
        Seq::empty()
    } else {
        env_args(es.drop_last()) + seq!["-e"@, es.last().0 + "="@ + es.last().1]
    }
}

fn push_pairs(v: &mut Vec<String>, flag: &str, pairs: &[(String, String)], sep: &str)
    ensures
        views(final(v)@) == views(old(v)@) + (if flag@ == "-v"@ && sep@ == ":"@ {
            volume_args(pair_views(pairs@))
        } else if flag@ == "-e"@ && sep@ == "="@ {
            env_args(pair_views(pairs@))
        } else {
            views(final(v)@).subrange(old(v)@.len() as int, final(v)@.len() as int)
        }),
{
    let ghost start = views(v@);
    let mut i: usize = 0;
    while i < pairs.len()
        invariant
            i <= pairs@.len(),
            views(v@).len() >= start.len(),
            views(v@).subrange(0, start.len() as int) == start,
            flag@ == "-v"@ && sep@ == ":"@ ==> views(v@) == start + volume_args(pair_views(pairs@).subrange(0, i as int)),
            flag@ == "-e"@ && sep@ == "="@ ==> views(v@) == start + env_args(pair_views(pairs@).subrange(0, i as int)),
        decreases pairs.len() - i,
    {
        proof {
            let pre = pair_views(pairs@).subrange(0, i + 1);
            assert(pre.drop_last() =~= pair_views(pairs@).subrange(0, i as int));
            assert(pre.last() == (pairs@[i as int].0@, pairs@[i as int].1@));
        }
        push_owned(v, flag);
        let mut a = owned(pairs[i].0.as_str());
        push_str(&mut a, sep);
        push_str(&mut a, pairs[i].1.as_str());
        push_owned(v, a.as_str());
        assert(views(v@).subrange(0, start.len() as int) =~= start);
        i = i + 1;
    }
    proof {
        assert(pair_views(pairs@).subrange(0, pairs@.len() as int) =~= pair_views(pairs@));
        if !(flag@ == "-v"@ && sep@ == ":"@) && !(flag@ == "-e"@ && sep@ == "="@) {
            assert(views(v@) =~= start + views(v@).subrange(start.len() as int, views(v@).len() as int));
        }
    }
}

impl DockerBackend {
    /// A Docker backend with these settings.
    pub fn new(config: DockerConfig) -> (r: Self)
        ensures
            r.config_spec() == config,
    {
        DockerBackend { config }
    }

    /// Its settings.
    pub closed spec fn config_spec(&self) -> DockerConfig {
        self.config
    }
}

/// The `docker run` arguments for a command.
pub open spec fn docker_run_args(c: DockerConfig, command: Seq<char>, args: Seq<Seq<char>>) -> Seq<Seq<char>> {
    seq!["run"@, "--rm"@, "-i"@] + volume_args(pair_views(c.volumes@)) + env_args(c.env_vars.entries_spec())
        + seq![c.image@, command] + args
}

impl Backend for DockerBackend {
    fn execute_plan(&self, command: &str, args: &[String]) -> (r: CommandPlan)
        ensures
            r.program@ == "docker"@,
            views(r.args@) == docker_run_args(self.config_spec(), command@, views(args@)),
    {
        let mut a: Vec<String> = Vec::new();
        push_owned(&mut a, "run");
        push_owned(&mut a, "--rm");
        push_owned(&mut a, "-i");
        push_pairs(&mut a, "-v", self.config.volumes.as_slice(), ":");
        push_pairs(&mut a, "-e", self.config.env_vars.entries(), "=");
        push_owned(&mut a, self.config.image.as_str());
        push_owned(&mut a, command);
        push_all(&mut a, args);
        proof {
            reveal_strlit("-v");
            reveal_strlit("-e");
            assert("-v"@ != "-e"@) by {
                assert("-v"@[1] != "-e"@[1]);
            }
        }
        assert(views(a@) =~= docker_run_args(self.config_spec(), command@, views(args@)));
        CommandPlan { program: owned("docker"), args: a }
    }

    fn copy_to_plan(&self, local_path: &str, remote_path: &str) -> (r: Result<CopyPlan, String>)
        ensures
            r matches Ok(CopyPlan::Command(p)) && p.program@ == "docker"@ && views(p.args@) == seq![
                "cp"@,
                local_path@,
                self.config_spec().image@ + ":"@ + remote_path@,
            ],
    {
        let mut a: Vec<String> = Vec::new();
        push_owned(&mut a, "cp");
        push_owned(&mut a, local_path);
        let mut t = owned(self.config.image.as_str());
        push_str(&mut t, ":");
        push_str(&mut t, remote_path);
        push_owned(&mut a, t.as_str());
        assert(views(a@) =~= seq!["cp"@, local_path@, self.config_spec().image@ + ":"@ + remote_path@]);
        Ok(CopyPlan::Command(CommandPlan { program: owned("docker"), args: a }))
    }

    fn copy_from_plan(&self, remote_path: &str, local_path: &str) -> (r: Result<CopyPlan, String>)
        ensures
            r matches Ok(CopyPlan::Command(p)) && p.program@ == "docker"@ && views(p.args@) == seq![
                "cp"@,
                self.config_spec().image@ + ":"@ + remote_path@,
                local_path@,
            ],
    {
        let mut a: Vec<String> = Vec::new();
        push_owned(&mut a, "cp");
        let mut t = owned(self.config.image.as_str());
        push_str(&mut t, ":");
        push_str(&mut t, remote_path);
        push_owned(&mut a, t.as_str());
        push_owned(&mut a, local_path);
        assert(views(a@) =~= seq!["cp"@, self.config_spec().image@ + ":"@ + remote_path@, local_path@]);
        Ok(CopyPlan::Command(CommandPlan { program: owned("docker"), args: a }))
    }

    fn health_check_plan(&self) -> (r: Option<CommandPlan>)
        ensures
            r matches Some(p) && p.program@ == "docker"@ && views(p.args@) == seq![
                "image"@,
                "ls"@,
                self.config_spec().image@,
            ],
    {
        let mut a: Vec<String> = Vec::new();
        push_owned(&mut a, "image");
        push_owned(&mut a, "ls");
        push_owned(&mut a, self.config.image.as_str());
        assert(views(a@) =~= seq!["image"@, "ls"@, self.config_spec().image@]);
        Some(CommandPlan { program: owned("docker"), args: a })
    }

    fn reports_healthy(&self, success: bool, stdout: &str) -> (b: bool)
        ensures
            b == success,
    {
        success
    }

    fn copy_outcome(&self, success: bool, stderr: &str) -> (r: Result<(), String>)
        ensures
            success ==> r is Ok,
            !success ==> (r matches Err(e) && e@ == "Docker cp failed: "@ + stderr@),
    {
        if success {
            Ok(())
        } else {
            Err(failed_copy("Docker cp failed: ", stderr))
        }
    }
}

/// A character that a remote path may not hold: a shell metacharacter or
/// a line break.
pub open spec fn is_shell_meta(c: char) -> bool {
    c == ';' || c == '|' || c == '&' || c == '$' || c == '`' || c == '<' || c == '>' || c == '\n'
        || c == '\r'
}

/// `s` holds a character that a remote path may not hold.
pub open spec fn has_shell_meta(s: Seq<char>) -> bool {
    exists|i: int| 0 <= i < s.len() && #[trigger] is_shell_meta(s[i])
}

/// Whether `s` holds a character that a remote path may not hold.
pub fn holds_shell_meta(s: &str) -> (b: bool)
    ensures
        b == has_shell_meta(s@),
{
    let v = crate::text::chars_of(s);
    let mut i: usize = 0;
    while i < v.len()
        invariant
            i <= v@.len(),
            v@ == s@,
            forall|j: int| 0 <= j < i ==> !is_shell_meta(#[trigger] v@[j]),
        decreases v.len() - i,
    {
        let c = v[i];
        if c == ';' || c == '|' || c == '&' || c == '$' || c == '`' || c == '<' || c == '>' || c
            == '\n' || c == '\r' {
            assert(is_shell_meta(s@[i as int]));
            return true;
        }
        i = i + 1;
    }
    false
}

/// The error for a remote path that holds such a character.
pub open spec fn bad_remote_path_message() -> Seq<char> {
    "Remote path contains invalid characters: path traversal or shell metacharacters not allowed"@
}

/// Running over SSH.
pub struct SshBackend {
    config: SshConfig,
}

impl SshBackend {
    /// An SSH backend with these settings.
    pub fn new(config: SshConfig) -> (r: Self)
        ensures
            r.config_spec() == config,
    {
        SshBackend { config }
    }

    /// Its settings.
    pub closed spec fn config_spec(&self) -> SshConfig {
        self.config
    }
}

/// `user@host` of SSH settings.
pub open spec fn ssh_target(c: SshConfig) -> Seq<char> {
    c.user@ + "@"@ + c.host@
}

/// The `ssh` arguments that run a command: the key file, no host key
/// check, the target, the port where it is not 22, then the command.
pub open spec fn ssh_run_args(c: SshConfig, command: Seq<char>, args: Seq<Seq<char>>) -> Seq<Seq<char>> {
    (match c.key_file {
        Some(k) => seq!["-i"@, k@],
        None => Seq::empty(),
    }) + seq!["-o"@, "StrictHostKeyChecking=no"@, ssh_target(c)] + (if c.port != 22 {
        seq!["-p"@, decimal(c.port as nat)]
    } else {
        Seq::empty()
    }) + seq![command] + args
}

fn ssh_target_of(c: &SshConfig) -> (r: String)
    ensures
        r@ == ssh_target(*c),
{
    let mut t = owned(c.user.as_str());
    push_str(&mut t, "@");
    push_str(&mut t, c.host.as_str());
    t
}

fn scp_remote(c: &SshConfig, remote_path: &str) -> (r: String)
    ensures
        r@ == ssh_target(*c) + ":"@ + remote_path@,
{
    let mut t = ssh_target_of(c);
    push_str(&mut t, ":");
    push_str(&mut t, remote_path);
    t
}

impl Backend for SshBackend {
    fn execute_plan(&self, command: &str, args: &[String]) -> (r: CommandPlan)
        ensures
            r.program@ == "ssh"@,
            views(r.args@) == ssh_run_args(self.config_spec(), command@, views(args@)),
    {
        let mut a: Vec<String> = Vec::new();
        match &self.config.key_file {
            Some(k) => {
                push_owned(&mut a, "-i");
                push_owned(&mut a, k.as_str());
            },
            None => {},
        }
        push_owned(&mut a, "-o");
        push_owned(&mut a, "StrictHostKeyChecking=no");
        let t = ssh_target_of(&self.config);
        push_owned(&mut a, t.as_str());
        if self.config.port != 22 {
            push_owned(&mut a, "-p");
            let p = u64_to_decimal(self.config.port as u64);
            push_owned(&mut a, p.as_str());
        }
        push_owned(&mut a, command);
        push_all(&mut a, args);
        assert(views(a@) =~= ssh_run_args(self.config_spec(), command@, views(args@)));
        CommandPlan { program: owned("ssh"), args: a }
    }

    fn copy_to_plan(&self, local_path: &str, remote_path: &str) -> (r: Result<CopyPlan, String>)
        ensures
            has_shell_meta(remote_path@) ==> (r matches Err(e) && e@ == bad_remote_path_message()),
            !has_shell_meta(remote_path@) ==> (r matches Ok(CopyPlan::Command(p)) && p.program@
                == "scp"@ && views(p.args@) == seq![
                "-o"@,
                "StrictHostKeyChecking=no"@,
                local_path@,
                ssh_target(self.config_spec()) + ":"@ + remote_path@,
            ]),
    {
        if holds_shell_meta(remote_path) {
            return Err(
                owned(
                    "Remote path contains invalid characters: path traversal or shell metacharacters not allowed",
                ),
            );
        }
        let mut a: Vec<String> = Vec::new();
        push_owned(&mut a, "-o");
        push_owned(&mut a, "StrictHostKeyChecking=no");
        push_owned(&mut a, local_path);
        let t = scp_remote(&self.config, remote_path);
        push_owned(&mut a, t.as_str());
        assert(views(a@) =~= seq![
            "-o"@,
            "StrictHostKeyChecking=no"@,
            local_path@,
            ssh_target(self.config_spec()) + ":"@ + remote_path@,
        ]);
        Ok(CopyPlan::Command(CommandPlan { program: owned("scp"), args: a }))
    }

    fn copy_from_plan(&self, remote_path: &str, local_path: &str) -> (r: Result<CopyPlan, String>)
        ensures
            has_shell_meta(remote_path@) ==> (r matches Err(e) && e@ == bad_remote_path_message()),
            !has_shell_meta(remote_path@) ==> (r matches Ok(CopyPlan::Command(p)) && p.program@
                == "scp"@ && views(p.args@) == seq![
                "-o"@,
                "StrictHostKeyChecking=no"@,
                ssh_target(self.config_spec()) + ":"@ + remote_path@,
                local_path@,
            ]),
    {
        if holds_shell_meta(remote_path) {
            return Err(
                owned(
                    "Remote path contains invalid characters: path traversal or shell metacharacters not allowed",
                ),
            );
        }
        let mut a: Vec<String> = Vec::new();
        push_owned(&mut a, "-o");
        push_owned(&mut a, "StrictHostKeyChecking=no");
        let t = scp_remote(&self.config, remote_path);
        push_owned(&mut a, t.as_str());
        push_owned(&mut a, local_path);
        assert(views(a@) =~= seq![
            "-o"@,
            "StrictHostKeyChecking=no"@,
            ssh_target(self.config_spec()) + ":"@ + remote_path@,
            local_path@,
        ]);
        Ok(CopyPlan::Command(CommandPlan { program: owned("scp"), args: a }))
    }

    fn health_check_plan(&self) -> (r: Option<CommandPlan>)
        ensures
            r matches Some(p) && p.program@ == "ssh"@ && views(p.args@) == seq![
                "-o"@,
                "StrictHostKeyChecking=no"@,
                "-o"@,
                "ConnectTimeout=5"@,
                "-p"@,
                decimal(self.config_spec().port as nat),
                ssh_target(self.config_spec()),
                "echo ok"@,
            ],
    {
        let mut a: Vec<String> = Vec::new();
        push_owned(&mut a, "-o");
        push_owned(&mut a, "StrictHostKeyChecking=no");
        push_owned(&mut a, "-o");
        push_owned(&mut a, "ConnectTimeout=5");
        push_owned(&mut a, "-p");
        let p = u64_to_decimal(self.config.port as u64);
        push_owned(&mut a, p.as_str());
        let t = ssh_target_of(&self.config);
        push_owned(&mut a, t.as_str());
        push_owned(&mut a, "echo ok");
        assert(views(a@) =~= seq![
            "-o"@,
            "StrictHostKeyChecking=no"@,
            "-o"@,
            "ConnectTimeout=5"@,
            "-p"@,
            decimal(self.config_spec().port as nat),
            ssh_target(self.config_spec()),
            "echo ok"@,
        ]);
        Some(CommandPlan { program: owned("ssh"), args: a })
    }

    fn reports_healthy(&self, success: bool, stdout: &str) -> (b: bool)
        ensures
            b == (success && contains_seq(stdout@, "ok"@)),
    {
        success && str_contains(stdout, "ok")
    }

    fn copy_outcome(&self, success: bool, stderr: &str) -> (r: Result<(), String>)
        ensures
            success ==> r is Ok,
            !success ==> (r matches Err(e) && e@ == "scp failed: "@ + stderr@),
    {
        if success {
            Ok(())
        } else {
            Err(failed_copy("scp failed: ", stderr))
        }
    }
}

/// A backend built from settings. Modal, Daytona and Singularity need
/// their own tools, so their commands run on this machine.
pub enum AnyBackend {
    Local(LocalBackend),
    Docker(DockerBackend),
    Ssh(SshBackend),
}

/// The backend for these settings: Docker and SSH settings give those
/// backends, every other kind runs locally.
pub fn create_backend(config: ContainerBackend) -> (r: AnyBackend)
    ensures
        (match config {
            ContainerBackend::Docker(c) => r matches AnyBackend::Docker(b) && b.config_spec() == c,
            ContainerBackend::Ssh(c) => r matches AnyBackend::Ssh(b) && b.config_spec() == c,
            _ => r is Local,
        }),
{
    match config {
        ContainerBackend::Docker(c) => AnyBackend::Docker(DockerBackend::new(c)),
        ContainerBackend::Ssh(c) => AnyBackend::Ssh(SshBackend::new(c)),
        _ => AnyBackend::Local(LocalBackend),
    }
}

} // verus!
