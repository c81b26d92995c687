use code_buddy::cron::{
    create_job, format_jobs_list, get_job, list_jobs, mark_job_run, parse_duration, parse_schedule, schedule_fits, pause_job,
    remove_job, resume_job, trigger_job, get_due_jobs, CronJobSummary, JobState, Schedule,
};

#[test]
fn test_format_jobs_list() {
    let summaries = vec![CronJobSummary {
        id: "test-id".to_string(),
        name: "Test Job".to_string(),
        prompt_preview: "Test prompt preview".to_string(),
        skills: vec![],
        schedule: "30m".to_string(),
        next_run_at: Some("2026-04-03T12:00:00Z".to_string()),
        last_run_at: None,
        last_status: None,
        state: "Scheduled".to_string(),
        enabled: true,
    }];
    let output = format_jobs_list(&summaries);
    assert!(output.contains("Test Job"));
}

#[test]
fn jobs_list_exact_markdown() {
    let s = CronJobSummary {
        id: "i".to_string(),
        name: "N".to_string(),
        prompt_preview: "p".to_string(),
        skills: vec!["x".to_string(), "y".to_string()],
        schedule: "every 1h".to_string(),
        next_run_at: None,
        last_run_at: Some("t".to_string()),
        last_status: None,
        state: "Paused".to_string(),
        enabled: false,
    };
    assert_eq!(
        format_jobs_list(&[s]),
        "# Scheduled Jobs\n\n## N (i)\n\n- **Schedule:** every 1h\n- **Last Run:** t - **unknown**\n- **Status:** \"Paused\"\n- **Skills:** x, y\n- **Enabled:** false\n\n"
    );
    assert_eq!(
        format_jobs_list(&[]),
        "# Scheduled Jobs\n\nNo scheduled jobs. Use `/cron create <prompt> <schedule>` to create one.\n"
    );
}

#[test]
fn durations_in_minutes() {
    assert_eq!(parse_duration("30m"), Ok(30));
    assert_eq!(parse_duration("2h"), Ok(120));
    assert_eq!(parse_duration("1d"), Ok(1440));
    assert_eq!(parse_duration(" 5 M "), Ok(5));
    assert_eq!(
        parse_duration("1x"),
        Err("Invalid duration: '1x'. Use format like '30m', '2h', or '1d'".to_string())
    );
    assert_eq!(parse_duration("3 mins"), Err("Invalid duration unit in '3 mins'".to_string()));
    assert_eq!(
        parse_duration("99999999999999999999m"),
        Err("Invalid duration value in '99999999999999999999m'".to_string())
    );
}

#[test]
fn schedules_of_each_kind() {
    assert!(matches!(parse_schedule("30m"), Ok(Schedule::Once { .. })));
    assert!(matches!(parse_schedule("every 1h"), Ok(Schedule::Interval { minutes: 60 })));
    match parse_schedule("0 9 * * *") {
        Ok(Schedule::Cron { expr }) => assert_eq!(expr, "0 9 * * *"),
        _ => panic!("cron expected"),
    }
    match parse_schedule("2026-02-03T14:00:00Z") {
        Ok(Schedule::Once { run_at }) => assert_eq!(run_at, "2026-02-03T14:00:00+00:00"),
        _ => panic!("timestamp expected"),
    }
    assert!(parse_schedule("").is_err());
    assert!(parse_schedule("invalid schedule").is_err());
    assert_eq!(Schedule::Interval { minutes: 1440 }.display(), "every 1d");
    assert_eq!(Schedule::Interval { minutes: 90 }.display(), "every 1h");
    assert_eq!(Schedule::Interval { minutes: 5 }.display(), "every 5m");
}

#[test]
fn job_lifecycle() {
    let mut jobs = Vec::new();
    let out = create_job(&mut jobs, "Run tests", "every 30m", Some("Test Job"), None, vec![], Some("local"), None, None, None)
        .unwrap();
    assert!(out.success);
    let id = out.job_id.clone().unwrap();
    assert_eq!(id.len(), 12);
    assert_eq!(out.message, Some("Cron job 'Test Job' created.".to_string()));
    assert_eq!(jobs.len(), 1);
    assert_eq!(jobs[0].schedule_display, "every 30m");
    assert!(jobs[0].next_run_at.is_some());

    let paused = pause_job(&mut jobs, &id, Some("busy"));
    assert!(paused.success);
    assert_eq!(jobs[0].state, JobState::Paused);
    assert!(!jobs[0].enabled);
    assert_eq!(jobs[0].paused_reason, Some("busy".to_string()));

    let resumed = resume_job(&mut jobs, &id);
    assert_eq!(resumed.message, Some("Job resumed.".to_string()));
    assert_eq!(jobs[0].state, JobState::Scheduled);
    assert!(jobs[0].enabled && jobs[0].paused_at.is_none());

    assert!(trigger_job(&mut jobs, &id).success);
    assert!(!pause_job(&mut jobs, "non-existent-id", None).success);
    assert_eq!(
        trigger_job(&mut jobs, "nope").error,
        Some("Job 'nope' not found".to_string())
    );

    mark_job_run(&mut jobs, &id, false, Some("boom"));
    assert_eq!(jobs[0].repeat_completed, 1);
    assert_eq!(jobs[0].last_status, Some("error".to_string()));
    assert_eq!(jobs[0].last_error, Some("boom".to_string()));

    let listed = list_jobs(&jobs);
    assert_eq!(listed.count, Some(1));
    assert_eq!(listed.jobs.as_ref().unwrap()[0].state, "Scheduled");
    assert!(get_job(&jobs, &id).is_some());

    let removed = remove_job(&mut jobs, &id);
    assert_eq!(removed.message, Some(format!("Job '{}' removed.", id)));
    assert!(jobs.is_empty());
    assert!(!remove_job(&mut jobs, &id).success);
}

#[test]
fn one_shot_job_is_removed_after_its_run() {
    let mut jobs = Vec::new();
    let out = create_job(&mut jobs, "", "1h", None, Some(5), vec!["lint".to_string()], None, None, None, None).unwrap();
    assert_eq!(jobs[0].name, "lint");
    assert_eq!(jobs[0].repeat_times, Some(1));
    assert_eq!(jobs[0].deliver, "local");
    let id = out.job_id.unwrap();
    mark_job_run(&mut jobs, &id, true, None);
    assert!(jobs.is_empty());
}

#[test]
fn long_prompt_is_previewed() {
    let mut jobs = Vec::new();
    let prompt = "x".repeat(150);
    create_job(&mut jobs, &prompt, "every 2h", None, None, vec![], None, None, None, None).unwrap();
    assert_eq!(jobs[0].name, "x".repeat(50));
    let listed = list_jobs(&jobs);
    assert_eq!(listed.jobs.unwrap()[0].prompt_preview, format!("{}...", "x".repeat(100)));
}

#[test]
fn bad_schedule_is_refused() {
    let mut jobs = Vec::new();
    let r = create_job(&mut jobs, "p", "soon", None, None, vec![], None, None, None, None);
    assert_eq!(r.err(), Some("Invalid duration: 'soon'. Use format like '30m', '2h', or '1d'".to_string()));
    assert!(jobs.is_empty());
}

#[test]
fn test_parse_duration() {
    assert_eq!(parse_duration("30m").unwrap(), 30);
    assert_eq!(parse_duration("2h").unwrap(), 120);
    assert_eq!(parse_duration("1d").unwrap(), 1440);
    assert_eq!(parse_duration("1h").unwrap(), 60);
}

#[test]
fn test_parse_schedule() {
    let s = parse_schedule("30m").unwrap();
    assert!(matches!(s, Schedule::Once { .. }));

    let s = parse_schedule("every 1h").unwrap();
    assert!(matches!(s, Schedule::Interval { .. }));

    let s = parse_schedule("0 9 * * *").unwrap();
    assert!(matches!(s, Schedule::Cron { .. }));
}

#[test]
fn test_create_and_list_job() {
    let mut jobs = Vec::new();
    let result = create_job(&mut jobs, "Run tests", "30m", Some("Test Job"), None, vec![], Some("local"), None, None, None)
        .unwrap();
    assert!(result.success);
    assert!(result.job_id.is_some());

    let list = list_jobs(&jobs);
    assert!(list.success);
    assert!(list.count.unwrap() >= 1);
}

#[test]
fn test_pause_and_resume_job() {
    let mut jobs = Vec::new();
    let create_result =
        create_job(&mut jobs, "Pause test job", "1h", None, None, vec![], Some("local"), None, None, None).unwrap();
    let job_id = create_result.job_id.unwrap();

    let pause_result = pause_job(&mut jobs, &job_id, Some("Testing pause"));
    assert!(pause_result.success);

    let resume_result = resume_job(&mut jobs, &job_id);
    assert!(resume_result.success);

    let result = pause_job(&mut jobs, "non-existent-id", None);
    assert!(!result.success);
}

#[test]
fn test_remove_job() {
    let mut jobs = Vec::new();
    let create_result =
        create_job(&mut jobs, "Remove test job", "2h", None, None, vec![], Some("local"), None, None, None).unwrap();
    let job_id = create_result.job_id.unwrap();

    let remove_result = remove_job(&mut jobs, &job_id);
    assert!(remove_result.success);

    let result = remove_job(&mut jobs, "non-existent-id");
    assert!(!result.success);
}

#[test]
fn test_trigger_job() {
    let mut jobs = Vec::new();
    let create_result =
        create_job(&mut jobs, "Trigger test job", "3h", None, None, vec![], Some("local"), None, None, None).unwrap();
    let job_id = create_result.job_id.unwrap();

    let trigger_result = trigger_job(&mut jobs, &job_id);
    assert!(trigger_result.success);

    let result = trigger_job(&mut jobs, "non-existent-id");
    assert!(!result.success);
}

#[test]
fn test_mark_job_run() {
    let mut jobs = Vec::new();
    let create_result =
        create_job(&mut jobs, "Mark test job", "4h", None, None, vec![], Some("local"), None, None, None).unwrap();
    let job_id = create_result.job_id.unwrap();

    mark_job_run(&mut jobs, &job_id, true, None);
    mark_job_run(&mut jobs, &job_id, false, Some("Test error"));
    mark_job_run(&mut jobs, "non-existent-id", true, None);
}

#[test]
fn test_get_due_jobs() {
    let mut jobs = Vec::new();
    let create_result =
        create_job(&mut jobs, "Due job test", "1h", None, None, vec![], Some("local"), None, None, None).unwrap();
    let job_id = create_result.job_id.unwrap();

    trigger_job(&mut jobs, &job_id);

    let due_jobs = get_due_jobs(&jobs);
    assert!(!due_jobs.is_empty());

    remove_job(&mut jobs, &job_id);
}

#[test]
fn test_parse_invalid_duration() {
    assert!(parse_duration("invalid").is_err());
    assert!(parse_duration("").is_err());
    assert!(parse_duration("1x").is_err());
}

#[test]
fn test_parse_invalid_schedule() {
    assert!(parse_schedule("").is_err());
    assert!(parse_schedule("invalid schedule").is_err());
}

#[test]
fn one_shot_forms() {
    assert!(matches!(parse_schedule("+1h"), Ok(Schedule::Once { .. })));
    assert!(matches!(parse_schedule("2026-02-03T14:00"), Ok(Schedule::Once { .. })));
    assert!(matches!(parse_schedule("2026-02-03T14:00:00"), Ok(Schedule::Once { .. })));
    assert!(parse_schedule("+soon").is_err());
    assert!(schedule_fits("+1h"));
    assert!(schedule_fits("every 30m"));
    assert!(!schedule_fits("every 99999999999999999d"));
    assert!(!schedule_fits("200000000000m"));
}
