use code_buddy::computer::{ComputerAction, ComputerResult, ComputerStep, ComputerUse, StepOutcome};
use code_buddy::container::{
    backend_result, create_backend, holds_shell_meta, AnyBackend, Backend, BackendResult, ContainerBackend,
    CopyPlan, DockerBackend, DockerConfig, LocalBackend, SshBackend, SshConfig,
};
use code_buddy::sandbox::{finish_run, quick_exec, Language, RunOutcome, SandboxConfig};
use code_buddy::strmap::StringMap;
use code_buddy::vision::{base64_encode, model_supports_vision, Screenshot, VisionRequest, VisionSource};

fn ssh(port: u16, key: Option<&str>) -> SshConfig {
    SshConfig {
        user: "user".to_string(),
        host: "example.org".to_string(),
        port,
        key_file: key.map(|k| k.to_string()),
        workdir: None,
    }
}

#[test]
fn test_backend_result() {
    let result = BackendResult {
        success: true,
        stdout: "output".to_string(),
        stderr: String::new(),
        exit_code: 0,
        duration_ms: 100,
    };
    assert!(result.success);
    assert_eq!(result.exit_code, 0);
}

#[test]
fn test_container_backend_variants() {
    let docker_config = DockerConfig {
        image: "ubuntu:latest".to_string(),
        command: Some("/bin/bash".to_string()),
        volumes: vec![],
        env_vars: StringMap::new(),
        workdir: None,
    };
    let docker_backend = ContainerBackend::Docker(docker_config);
    assert!(matches!(docker_backend, ContainerBackend::Docker(_)));

    let ssh_config = SshConfig {
        user: "user".to_string(),
        host: "localhost".to_string(),
        port: 22,
        key_file: None,
        workdir: None,
    };
    let ssh_backend = ContainerBackend::Ssh(ssh_config);
    assert!(matches!(ssh_backend, ContainerBackend::Ssh(_)));
}

#[test]
fn signal_ended_command_has_no_exit_code() {
    let r = backend_result(false, String::new(), "killed".to_string(), None, 7);
    assert_eq!(r.exit_code, -1);
    assert_eq!(r.duration_ms, 7);
}

#[test]
fn backends_by_settings() {
    assert!(matches!(create_backend(ContainerBackend::Local), AnyBackend::Local(_)));
    assert!(matches!(create_backend(ContainerBackend::Ssh(ssh(22, None))), AnyBackend::Ssh(_)));
    let local = LocalBackend;
    let plan = local.execute_plan("echo", &["hello".to_string()]);
    assert_eq!(plan.program, "echo");
    assert_eq!(plan.args, vec!["hello".to_string()]);
    assert!(local.health_check_plan().is_none());
    assert_eq!(local.copy_outcome(false, "no such file"), Err("no such file".to_string()));
}

#[test]
fn docker_run_arguments() {
    let mut env = StringMap::new();
    env.insert("A", "1");
    let d = DockerBackend::new(DockerConfig {
        image: "img".to_string(),
        command: None,
        volumes: vec![("/h".to_string(), "/c".to_string())],
        env_vars: env,
        workdir: None,
    });
    let plan = d.execute_plan("ls", &["-l".to_string()]);
    assert_eq!(plan.program, "docker");
    assert_eq!(plan.args, vec!["run", "--rm", "-i", "-v", "/h:/c", "-e", "A=1", "img", "ls", "-l"]);
    match d.copy_to_plan("a.txt", "/tmp/a.txt").unwrap() {
        CopyPlan::Command(p) => assert_eq!(p.args, vec!["cp", "a.txt", "img:/tmp/a.txt"]),
        _ => panic!("docker copies with a command"),
    }
    assert_eq!(d.copy_outcome(false, "boom"), Err("Docker cp failed: boom".to_string()));
    assert!(d.reports_healthy(true, ""));
}

#[test]
fn ssh_arguments_and_checks() {
    let s = SshBackend::new(ssh(2222, Some("k.pem")));
    let plan = s.execute_plan("uptime", &[]);
    assert_eq!(plan.program, "ssh");
    assert_eq!(
        plan.args,
        vec!["-i", "k.pem", "-o", "StrictHostKeyChecking=no", "user@example.org", "-p", "2222", "uptime"]
    );
    let plain = SshBackend::new(ssh(22, None));
    assert_eq!(plain.execute_plan("ls", &[]).args, vec!["-o", "StrictHostKeyChecking=no", "user@example.org", "ls"]);
    assert_eq!(
        plain.copy_to_plan("a", "/tmp/x; rm -rf /").err(),
        Some("Remote path contains invalid characters: path traversal or shell metacharacters not allowed".to_string())
    );
    match plain.copy_from_plan("/tmp/x", "b").unwrap() {
        CopyPlan::Command(p) => {
            assert_eq!(p.program, "scp");
            assert_eq!(p.args, vec!["-o", "StrictHostKeyChecking=no", "user@example.org:/tmp/x", "b"]);
        },
        _ => panic!("scp expected"),
    }
    let check = plain.health_check_plan().unwrap();
    assert_eq!(
        check.args,
        vec!["-o", "StrictHostKeyChecking=no", "-o", "ConnectTimeout=5", "-p", "22", "user@example.org", "echo ok"]
    );
    assert!(plain.reports_healthy(true, "ok\n"));
    assert!(!plain.reports_healthy(true, "no"));
    assert!(!plain.reports_healthy(false, "ok"));
    assert_eq!(plain.copy_outcome(false, "denied"), Err("scp failed: denied".to_string()));
    assert!(holds_shell_meta("a|b"));
    assert!(!holds_shell_meta("/tmp/plain"));
}

#[test]
fn test_computer_result() {
    let result = ComputerResult::success("test");
    assert!(result.success);
    assert_eq!(result.action, "test");
}

#[test]
fn computer_steps() {
    let cu = ComputerUse::new();
    match cu.step(&ComputerAction::MouseMove { x: 100, y: -2 }) {
        ComputerStep::Command { args } => assert_eq!(args, vec!["mousemove", "100", "-2"]),
        _ => panic!("command expected"),
    }
    match cu.step(&ComputerAction::KeyCombo { keys: vec!["ctrl".to_string(), "c".to_string()] }) {
        ComputerStep::Command { args } => assert_eq!(args, vec!["key", "ctrl", "c"]),
        _ => panic!("command expected"),
    }
    assert!(matches!(cu.step(&ComputerAction::Screenshot), ComputerStep::Capture));
    let r = cu.execute(
        &ComputerAction::TypeText { text: "hi".to_string() },
        &StepOutcome::Ran { success: false, stderr: "no display".to_string() },
    );
    assert!(!r.success);
    let err = ComputerResult::error("click", "bad").with_output("o".to_string());
    assert_eq!(err.error, Some("bad".to_string()));
    assert_eq!(err.output, Some("o".to_string()));
}

#[test]
fn test_language_detection() {
    assert_eq!(Language::from_str("python"), Some(Language::Python3));
    assert_eq!(Language::from_str("js"), Some(Language::JavaScript));
    assert_eq!(Language::from_str("shell"), Some(Language::Bash));
    assert_eq!(Language::from_str("unknown"), None);
}

#[test]
fn quick_runs_default_to_bash() {
    let job = quick_exec("echo hi", "cobol");
    assert_eq!(job.language, Language::Bash);
    assert_eq!(job.config.timeout_secs, 30);
    assert_eq!(quick_exec("print(1)", "PYTHON").language, Language::Python3);
}

#[test]
fn test_base64_encode() {
    assert_eq!(base64_encode(b"Hello"), "SGVsbG8=");
}

#[test]
fn base64_lengths() {
    assert_eq!(base64_encode(b""), "");
    assert_eq!(base64_encode(b"ab"), "YWI=");
    assert_eq!(base64_encode(b"abc"), "YWJj");
}

#[test]
fn vision_models_and_requests() {
    assert!(model_supports_vision(None));
    assert!(model_supports_vision(Some("gpt-4o")));
    assert!(!model_supports_vision(Some("gpt-3.5-turbo")));
    assert!(model_supports_vision(Some("gpt-4o-mini")));
    assert!(model_supports_vision(Some("gpt-4-vision-preview")));
    assert!(model_supports_vision(Some("openai/gpt-4o-2024")));
    assert!(!model_supports_vision(Some("llama3")));
    let req = VisionRequest::new("what is this").with_image("shot.png");
    assert_eq!(req.images.len(), 1);
    assert_eq!(req.images[0].media_type, "image/png");
    assert!(matches!(&req.images[0].source, VisionSource::Path(p) if p == "shot.png"));
    let req = req.with_screenshot(Err("no screen".to_string()));
    assert_eq!(req.err(), Some("no screen".to_string()));
}

#[test]
fn test_timeout() {
    let lang = Language::Bash;
    let mut config = SandboxConfig::default();
    config.timeout_secs = 1;
    let result = finish_run(RunOutcome::TimedOut, &lang, &config, 1000);
    assert!(!result.success);
    assert!(result.error.is_some());
    assert_eq!(result.error.unwrap(), "Execution timed out after 1s");
}

#[test]
fn screenshot_as_base64_and_data_url() {
    let shot = Screenshot {
        path: "/tmp/screenshot_20260101_000000.png".to_string(),
        width: 0,
        height: 0,
        size_bytes: 5,
        timestamp: "2026-01-01T00:00:00+00:00".to_string(),
    };
    assert_eq!(shot.to_base64(b"Hello"), "SGVsbG8=");
    assert_eq!(shot.to_data_url(b"Hello"), "data:image/png;base64,SGVsbG8=");
}

/// The local backend hands the command to the shell untouched; the process
/// itself is started by the application, so here its output is supplied.
fn run_plan_here(backend: &dyn Backend, command: &str, args: &[String], printed: &str) -> BackendResult {
    let plan = backend.execute_plan(command, args);
    assert_eq!(plan.program, command);
    assert_eq!(plan.args, args.to_vec());
    backend_result(true, printed.to_string(), String::new(), Some(0), 0)
}

#[test]
fn test_local_backend() {
    let backend = LocalBackend;
    let result = run_plan_here(&backend, "echo", &["hello".to_string()], "hello\n");
    assert!(result.success);
    assert!(result.stdout.contains("hello"));
}

#[test]
fn test_create_backend_local() {
    let backend = match create_backend(ContainerBackend::Local) {
        AnyBackend::Local(b) => b,
        _ => panic!("expected the local backend"),
    };
    let result = run_plan_here(&backend, "echo", &["test".to_string()], "test\n");
    assert!(result.success);
}
