use code_buddy::tools::acp_tool::{acp_address, acp_answer, AcpAction, AcpServerTool, AcpStep};
use code_buddy::tools::batch_tool::{batch_options, plan_task, task_failed_json, task_ran_json, validate_task, BatchRequest, BatchTool, TaskPlan};
use code_buddy::tools::container_tool::{container_command, container_report, validate_container_command, ContainerKind, ContainerStep, ContainerTool};
use code_buddy::tools::cron_tool::{create_reply, job_reply, list_reply, CronCommand, CronTool};
use code_buddy::cron::{create_job, list_jobs, pause_job};
use code_buddy::tools::executor::{glob_broader_args, glob_find_args};
use code_buddy::tools::file::{FileEdit, FileRead, FileWrite};

fn a(v: &[&str]) -> Vec<String> {
    v.iter().map(|s| s.to_string()).collect()
}

#[test]
fn acp_flags() {
    let t = AcpServerTool::new();
    let q = t.request(&a(&["START", "--port", "9000", "--host", "0.0.0.0"])).unwrap();
    assert_eq!(q.action, AcpAction::Start);
    assert_eq!(q.host, "0.0.0.0");
    assert_eq!(q.port, 9000);
    let q = t.request(&a(&["status", "--port", "99999"])).unwrap();
    assert_eq!(q.port, 8080);
    assert_eq!(q.host, "127.0.0.1");
    assert!(t.request(&[]).is_err());
    assert_eq!(acp_address("h", 80), "h:80");
}

#[test]
fn batch_tasks_and_concurrency() {
    let (c, tasks) = batch_options(&a(&["ls", "--concurrency", "8", "pwd"]));
    assert_eq!(c, 8);
    assert_eq!(tasks, a(&["ls", "pwd"]));
    assert!(validate_task("sudo MKFS /dev/x").is_err());
    match plan_task("bash -c 'ls'") {
        TaskPlan::Refused { error, .. } => assert_eq!(error, "Recursive shell invocation not allowed in batch tasks"),
        _ => panic!(),
    }
    match plan_task("grep -r \"a b\" src") {
        TaskPlan::Run { program, args, .. } => {
            assert_eq!(program, "grep");
            assert_eq!(args, a(&["-r", "a b", "src"]));
        }
        _ => panic!(),
    }
    match BatchTool::new().plan(&a(&["--concurrency"])) {
        BatchRequest::Answer(t) => assert_eq!(t, "No tasks provided. Usage: Batch('task1', 'task2', ...)"),
        _ => panic!(),
    }
    match BatchTool::new().plan(&a(&["--concurrency", "8"])) {
        BatchRequest::Answer(t) => assert_eq!(t, "No tasks provided. Usage: Batch('task1', 'task2', ...)"),
        _ => panic!(),
    }
}

#[test]
fn container_requests() {
    let t = ContainerTool::new();
    let q = t.request(&a(&["Docker", "cargo build", "--image", "rust:1.75", "--timeout", "60"])).unwrap();
    assert_eq!(q.kind, ContainerKind::Docker);
    assert_eq!(q.image, "rust:1.75");
    assert_eq!(q.host, "localhost");
    assert_eq!(q.timeout_secs, 60);
    assert_eq!(
        validate_container_command("ls; rm -rf /"),
        Err("Command contains potentially dangerous pattern: ; rm -rf".to_string())
    );
    assert_eq!(
        validate_container_command("echo $HOME"),
        Err("Command contains shell metacharacter '$' which is not allowed for security reasons".to_string())
    );
    assert!(t.request(&a(&["local"])).is_ok());
}

#[test]
fn cron_tool_commands() {
    let t = CronTool::new();
    match t.command(&a(&["create", "30m", "Check", "disk"])) {
        CronCommand::Create { schedule, prompt } => {
            assert_eq!(schedule, "30m");
            assert_eq!(prompt, "Check disk");
        }
        _ => panic!(),
    }
    match t.command(&a(&["PAUSE"])) {
        CronCommand::Answer(m) => assert_eq!(m, "Usage: Cron('pause', '<job_id>')"),
        _ => panic!(),
    }
    match t.command(&a(&["fly"])) {
        CronCommand::Answer(m) => assert_eq!(m, "Unknown action: fly\nActions: list, create, delete, pause, resume, trigger"),
        _ => panic!(),
    }
    assert!(matches!(t.command(&a(&["list"])), CronCommand::List));
}

#[test]
fn file_tools_logic() {
    let r = FileRead::new();
    assert_eq!(r.select("a\nb\nc\nd", &a(&["f", "2", "1"])), "b\nc");
    assert_eq!(r.select("a\nb", &a(&["f"])), "a\nb");
    assert_eq!(r.select("a\nb", &a(&["f", "x", "5"])), "");
    assert_eq!(FileWrite::new().written("p", "héllo"), "Written 6 bytes to p");
    assert_eq!(FileEdit::new().apply("aXbX", "X", "Y"), Ok("aYbX".to_string()));
    assert_eq!(FileEdit::new().apply("ab", "z", "Y"), Err("Text not found in file: z".to_string()));
}

#[test]
fn container_answers() {
    let t = ContainerTool::new();
    match t.plan(&a(&["FOO", "ls"])) {
        ContainerStep::Reply(Ok(text)) => {
            assert_eq!(text, "Unknown backend: foo\nBackends: docker, ssh, modal, daytona, singularity, local")
        }
        _ => panic!(),
    }
    assert!(matches!(t.plan(&a(&["local", "ls; rm x"])), ContainerStep::Reply(Err(_))));
    match t.plan(&[]) {
        ContainerStep::Reply(Ok(text)) => assert!(text.starts_with("Container tool usage:")),
        _ => panic!(),
    }
    match t.plan(&a(&["daytona", "ls"])) {
        ContainerStep::Reply(Ok(text)) => {
            let v: serde_json::Value = serde_json::from_str(&text).unwrap();
            assert_eq!(v["message"], "daytona backend not yet configured");
        }
        _ => panic!(),
    }
    match t.plan(&a(&["docker", "make", "--image", "rust:1.75"])) {
        ContainerStep::Run(q) => {
            let (p, args) = container_command(&q);
            assert_eq!(p, "docker");
            assert_eq!(args, a(&["run", "--rm", "--network=none", "rust:1.75", "sh", "-c", "make"]));
            let report = container_report(&q, false, None, "out", "err", 7);
            let v: serde_json::Value = serde_json::from_str(&report).unwrap();
            assert_eq!(v["backend"], "docker");
            assert_eq!(v["exit_code"], -1);
            assert_eq!(v["image"], "rust:1.75");
            assert_eq!(v["duration_ms"], 7);
        }
        _ => panic!(),
    }
}

#[test]
fn acp_answers() {
    let t = AcpServerTool::new();
    match t.plan(&a(&["Bogus"])) {
        AcpStep::Reply(text) => assert_eq!(text, "Unknown action: bogus\nActions: start, stop, status, info"),
        _ => panic!(),
    }
    match t.plan(&[]) {
        AcpStep::Reply(text) => assert!(text.starts_with("AcpServer tool usage:")),
        _ => panic!(),
    }
    match t.plan(&a(&["status", "--port", "9000"])) {
        AcpStep::Probe(q) => {
            let v: serde_json::Value = serde_json::from_str(&acp_answer(&q, false)).unwrap();
            assert_eq!(v["running"], false);
            assert_eq!(v["address"], "127.0.0.1:9000");
            assert_eq!(v["message"], "ACP server not running on 127.0.0.1:9000");
        }
        _ => panic!(),
    }
    match t.plan(&a(&["start"])) {
        AcpStep::Probe(q) => {
            let v: serde_json::Value = serde_json::from_str(&acp_answer(&q, false)).unwrap();
            assert_eq!(v["success"], true);
            assert_eq!(v["connection"]["endpoint"], "ws://127.0.0.1:8080/acp");
            assert_eq!(v["available_tools"].as_array().unwrap().len(), 23);
            assert_eq!(v["port"], 8080);
            let info = t.plan(&a(&["info"]));
            if let AcpStep::Probe(i) = info {
                let w: serde_json::Value = serde_json::from_str(&acp_answer(&i, true)).unwrap();
                assert_eq!(w["tools"][0]["name"], "Bash");
                assert_eq!(w["server_running"], true);
            } else {
                panic!();
            }
        }
        _ => panic!(),
    }
}

#[test]
fn cron_replies_as_json() {
    let mut jobs = Vec::new();
    let created = create_job(&mut jobs, "Check disk", "every 30m", None, None, vec![], Some("local"), None, None, None).unwrap();
    let v: serde_json::Value = serde_json::from_str(&create_reply(&created)).unwrap();
    assert_eq!(v["success"], true);
    assert_eq!(v["schedule"], "every 30m");
    assert!(v["error"].is_null());
    let id = created.job_id.clone().unwrap();
    let listed: serde_json::Value = serde_json::from_str(&list_reply(&list_jobs(&jobs))).unwrap();
    assert_eq!(listed["count"], 1);
    assert_eq!(listed["jobs"][0]["id"], id.as_str());
    assert_eq!(listed["jobs"][0]["enabled"], true);
    assert!(listed["message"].is_null());
    let paused = pause_job(&mut jobs, &id, None);
    let p: serde_json::Value = serde_json::from_str(&job_reply(&id, &paused)).unwrap();
    assert_eq!(p["job_id"], id.as_str());
    assert_eq!(p["success"], true);
    let missing = pause_job(&mut jobs, "nope", None);
    let m: serde_json::Value = serde_json::from_str(&job_reply("nope", &missing)).unwrap();
    assert_eq!(m["success"], false);
}

#[test]
fn batch_task_results_as_json() {
    let failed: serde_json::Value = serde_json::from_str(&task_failed_json("bash x", "Recursive shell invocation not allowed in batch tasks", 0)).unwrap();
    assert_eq!(failed["success"], false);
    assert_eq!(failed["error"], "Recursive shell invocation not allowed in batch tasks");
    let ran: serde_json::Value = serde_json::from_str(&task_ran_json("ls", true, Some(0), "a\n", "", 3)).unwrap();
    assert_eq!(ran["exit_code"], 0);
    assert_eq!(ran["stdout"], "a\n");
    assert_eq!(ran["duration_ms"], 3);
}

#[test]
fn glob_find_commands() {
    let args = glob_find_args("src", "*.rs");
    assert_eq!(&args[..5], &a(&["src", "-maxdepth", "10", "-name", "*.rs"])[..]);
    assert_eq!(args.len(), 20);
    assert_eq!(args[19], "*/__pycache__/*");
    assert_eq!(glob_broader_args("main"), a(&[".", "-name", "*main*", "!", "-path", "*/target/*"]));
}
