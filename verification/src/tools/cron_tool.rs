//! Scheduled jobs: what a call of the cron tool asks for and the JSON
//! replies it gives; the job operations themselves live in the scheduler,
//! and storing the jobs happens at the caller.

use vstd::prelude::*;
use crate::cron::{CronJobOutput, CronJobSummary};
use crate::json::{fields_view, json_pretty, pretty_object, JsonField, JsonFieldView};
use crate::text::{join, lowercase_of, owned, push_str, str_eq, to_lowercase, views};

verus! {

/// The Cron tool.
pub struct CronTool;

impl CronTool {
    pub fn new() -> (r: Self) {
        CronTool
    }

    /// Name of the tool.
    pub fn name(&self) -> (r: &'static str)
        ensures
            r@ == "Cron"@,
    {
        "Cron"
    }

    /// Description of the tool.
    pub fn description(&self) -> (r: &'static str)
        ensures
            r@ == "Manage scheduled and recurring tasks. \
Create scheduled jobs with intervals (30m, 2h, 1d), cron expressions (0 9 * * *), \
or delays (+1h). List, pause, resume, and delete scheduled jobs. \
Use for reminders, periodic health checks, report generation, and deferred tasks. \
Args: <action> [args...]
  list                    - List all scheduled jobs
  create <schedule> <prompt> - Create a new scheduled job
  delete <job_id>         - Delete a scheduled job
  pause <job_id>          - Pause a scheduled job
  resume <job_id>          - Resume a paused job
  trigger <job_id>         - Trigger a job to run immediately
Example: Cron('create 30m Check disk space')
Example: Cron('create 0 9 * * * Morning health check')
Example: Cron('list')"@,
    {
        "Manage scheduled and recurring tasks. \
Create scheduled jobs with intervals (30m, 2h, 1d), cron expressions (0 9 * * *), \
or delays (+1h). List, pause, resume, and delete scheduled jobs. \
Use for reminders, periodic health checks, report generation, and deferred tasks. \
Args: <action> [args...]
  list                    - List all scheduled jobs
  create <schedule> <prompt> - Create a new scheduled job
  delete <job_id>         - Delete a scheduled job
  pause <job_id>          - Pause a scheduled job
  resume <job_id>          - Resume a paused job
  trigger <job_id>         - Trigger a job to run immediately
Example: Cron('create 30m Check disk space')
Example: Cron('create 0 9 * * * Morning health check')
Example: Cron('list')"
    }
}


/// What a call of the cron tool asks for.
pub enum CronCommand {
    /// Nothing to do; the text is the answer.
    Answer(String),
    List,
    Create { schedule: String, prompt: String },
    Delete(String),
    Pause(String),
    Resume(String),
    Trigger(String),
}

/// The usage text of the cron tool.
pub open spec fn cron_usage() -> Seq<char> {
    "Cron tool usage:\nlist                    - List all scheduled jobs\ncreate <schedule> <prompt> - Create a new scheduled job\ndelete <job_id>         - Delete a scheduled job\npause <job_id>          - Pause a scheduled job\nresume <job_id>         - Resume a paused job\ntrigger <job_id>        - Trigger a job immediately\nSchedules: 30m, 2h, 1d, +1h, 0 9 * * * (cron)"@
}

/// The answer for an action that lacks its job id.
pub open spec fn id_usage(action: Seq<char>) -> Seq<char> {
    "Usage: Cron('"@ + action + "', '<job_id>')"@
}

/// `c` is what `args` ask of the cron tool.
pub open spec fn cron_command_ok(args: Seq<Seq<char>>, c: CronCommand) -> bool {
    if args.len() == 0 {
        c matches CronCommand::Answer(t) && t@ == cron_usage()
    } else {
        let a = lowercase_of(args[0]);
        if a == "list"@ {
            c is List
        } else if a == "create"@ {
            if args.len() < 3 {
                c matches CronCommand::Answer(t) && t@
                    == "Usage: Cron('create', '<schedule>', '<prompt>')\nSchedules: 30m, 2h, 1d, +1h, 0 9 * * *"@
            } else {
                c matches CronCommand::Create { schedule, prompt } && schedule@ == args[1] && prompt@
                    == join(args.subrange(2, args.len() as int), " "@)
            }
        } else if a == "delete"@ || a == "pause"@ || a == "resume"@ || a == "trigger"@ {
            if args.len() < 2 {
                c matches CronCommand::Answer(t) && t@ == id_usage(a)
            } else if a == "delete"@ {
                c matches CronCommand::Delete(id) && id@ == args[1]
            } else if a == "pause"@ {
                c matches CronCommand::Pause(id) && id@ == args[1]
            } else if a == "resume"@ {
                c matches CronCommand::Resume(id) && id@ == args[1]
            } else {
                c matches CronCommand::Trigger(id) && id@ == args[1]
            }
        } else {
            c matches CronCommand::Answer(t) && t@ == "Unknown action: "@ + a
                + "\nActions: list, create, delete, pause, resume, trigger"@
        }
    }
}

impl CronTool {
    /// What a call asks for.
    pub fn command(&self, args: &[String]) -> (r: CronCommand)
        ensures
            cron_command_ok(views(args@), r),
    {
        if args.len() == 0 {
            return CronCommand::Answer(owned("Cron tool usage:\nlist                    - List all scheduled jobs\ncreate <schedule> <prompt> - Create a new scheduled job\ndelete <job_id>         - Delete a scheduled job\npause <job_id>          - Pause a scheduled job\nresume <job_id>         - Resume a paused job\ntrigger <job_id>        - Trigger a job immediately\nSchedules: 30m, 2h, 1d, +1h, 0 9 * * * (cron)"));
        }
        let action = to_lowercase(args[0].as_str());
        let a = action.as_str();
        if str_eq(a, "list") {
            return CronCommand::List;
        }
        if str_eq(a, "create") {
            if args.len() < 3 {
                return CronCommand::Answer(
                    owned("Usage: Cron('create', '<schedule>', '<prompt>')\nSchedules: 30m, 2h, 1d, +1h, 0 9 * * *"),
                );
            }
            let prompt = crate::tools::executor::join_from(args, 2, " ");
            return CronCommand::Create { schedule: args[1].clone(), prompt };
        }
        let takes_id = str_eq(a, "delete") || str_eq(a, "pause") || str_eq(a, "resume") || str_eq(a, "trigger");
        if takes_id {
            if args.len() < 2 {
                let mut m = owned("Usage: Cron('");
                push_str(&mut m, a);
                push_str(&mut m, "', '<job_id>')");
                return CronCommand::Answer(m);
            }
            let id = args[1].clone();
            if str_eq(a, "delete") {
                return CronCommand::Delete(id);
            } else if str_eq(a, "pause") {
                return CronCommand::Pause(id);
            } else if str_eq(a, "resume") {
                return CronCommand::Resume(id);
            } else {
                return CronCommand::Trigger(id);
            }
        }
        let mut m = owned("Unknown action: ");
        push_str(&mut m, a);
        push_str(&mut m, "\nActions: list, create, delete, pause, resume, trigger");
        CronCommand::Answer(m)
    }
}


/// An optional string as a JSON value: the string, or `null`.
pub open spec fn opt_json(o: Option<String>) -> JsonFieldView {
    match o {
        Some(s) => JsonFieldView::Text(s@),
        None => JsonFieldView::Null,
    }
}

fn opt_field(o: &Option<String>) -> (r: JsonField)
    ensures
        r@ == opt_json(*o),
{
    match o {
        Some(s) => JsonField::Text(s.clone()),
        None => JsonField::Null,
    }
}

fn push_field(v: &mut Vec<(String, JsonField)>, key: &str, f: JsonField)
    ensures
        fields_view(final(v)@) == fields_view(old(v)@).push((key@, f@)),
{
    let ghost before = fields_view(v@);
    let ghost fv = f@;
    v.push((owned(key), f));
    assert(fields_view(v@) =~= before.push((key@, fv)));
}

/// A job summary as a JSON object.
pub open spec fn summary_json(j: CronJobSummary) -> Seq<char> {
    json_pretty(seq![
        ("id"@, JsonFieldView::Text(j.id@)),
        ("name"@, JsonFieldView::Text(j.name@)),
        ("prompt_preview"@, JsonFieldView::Text(j.prompt_preview@)),
        ("skills"@, JsonFieldView::List(views(j.skills@))),
        ("schedule"@, JsonFieldView::Text(j.schedule@)),
        ("next_run_at"@, opt_json(j.next_run_at)),
        ("last_run_at"@, opt_json(j.last_run_at)),
        ("last_status"@, opt_json(j.last_status)),
        ("state"@, JsonFieldView::Text(j.state@)),
        ("enabled"@, JsonFieldView::Flag(j.enabled)),
    ])
}

/// The JSON object of a job summary.
pub fn summary_to_json(j: &CronJobSummary) -> (r: String)
    ensures
        r@ == summary_json(*j),
{
    let mut v: Vec<(String, JsonField)> = Vec::new();
    push_field(&mut v, "id", JsonField::Text(j.id.clone()));
    push_field(&mut v, "name", JsonField::Text(j.name.clone()));
    push_field(&mut v, "prompt_preview", JsonField::Text(j.prompt_preview.clone()));
    push_field(&mut v, "skills", JsonField::List(crate::text::clone_strings(j.skills.as_slice())));
    push_field(&mut v, "schedule", JsonField::Text(j.schedule.clone()));
    push_field(&mut v, "next_run_at", opt_field(&j.next_run_at));
    push_field(&mut v, "last_run_at", opt_field(&j.last_run_at));
    push_field(&mut v, "last_status", opt_field(&j.last_status));
    push_field(&mut v, "state", JsonField::Text(j.state.clone()));
    push_field(&mut v, "enabled", JsonField::Flag(j.enabled));
    assert(fields_view(v@) =~= seq![
        ("id"@, JsonFieldView::Text(j.id@)),
        ("name"@, JsonFieldView::Text(j.name@)),
        ("prompt_preview"@, JsonFieldView::Text(j.prompt_preview@)),
        ("skills"@, JsonFieldView::List(views(j.skills@))),
        ("schedule"@, JsonFieldView::Text(j.schedule@)),
        ("next_run_at"@, opt_json(j.next_run_at)),
        ("last_run_at"@, opt_json(j.last_run_at)),
        ("last_status"@, opt_json(j.last_status)),
        ("state"@, JsonFieldView::Text(j.state@)),
        ("enabled"@, JsonFieldView::Flag(j.enabled)),
    ]);
    pretty_object(v.as_slice())
}

/// The reply to `list`: success, the count, the jobs and the message.
pub open spec fn list_reply_spec(o: CronJobOutput) -> Seq<char> {
    json_pretty(seq![
        ("success"@, JsonFieldView::Flag(o.success)),
        ("count"@, match o.count {
            Some(c) => JsonFieldView::Int(c as int),
            None => JsonFieldView::Null,
        }),
        ("jobs"@, match o.jobs {
            Some(js) => JsonFieldView::RawList(js@.map_values(|j: CronJobSummary| summary_json(j))),
            None => JsonFieldView::Null,
        }),
        ("message"@, opt_json(o.message)),
    ])
}

/// The reply of the cron tool to `list` when listing gave `out`.
pub fn list_reply(out: &CronJobOutput) -> (r: String)
    requires
        out.count matches Some(c) ==> c <= i64::MAX,
    ensures
        r@ == list_reply_spec(*out),
{
    let mut v: Vec<(String, JsonField)> = Vec::new();
    push_field(&mut v, "success", JsonField::Flag(out.success));
    let count = match out.count {
        Some(c) => JsonField::Int(c as i64),
        None => JsonField::Null,
    };
    push_field(&mut v, "count", count);
    let jobs = match &out.jobs {
        Some(js) => {
            let mut texts: Vec<String> = Vec::new();
            let mut i: usize = 0;
            while i < js.len()
                invariant
                    i <= js@.len(),
                    views(texts@) == js@.subrange(0, i as int).map_values(|j: CronJobSummary| summary_json(j)),
                decreases js.len() - i,
            {
                let t = summary_to_json(&js[i]);
                let ghost before = views(texts@);
                texts.push(t);
                assert(views(texts@) =~= before.push(t@));
                assert(js@.subrange(0, i + 1).map_values(|j: CronJobSummary| summary_json(j)) =~= js@.subrange(
                    0,
                    i as int,
                ).map_values(|j: CronJobSummary| summary_json(j)).push(summary_json(js@[i as int])));
                i = i + 1;
            }
            assert(js@.subrange(0, js@.len() as int) =~= js@);
            JsonField::RawList(texts)
        },
        None => JsonField::Null,
    };
    push_field(&mut v, "jobs", jobs);
    push_field(&mut v, "message", opt_field(&out.message));
    assert(fields_view(v@) =~= seq![
        ("success"@, JsonFieldView::Flag(out.success)),
        ("count"@, match out.count {
            Some(c) => JsonFieldView::Int(c as int),
            None => JsonFieldView::Null,
        }),
        ("jobs"@, match out.jobs {
            Some(js) => JsonFieldView::RawList(js@.map_values(|j: CronJobSummary| summary_json(j))),
            None => JsonFieldView::Null,
        }),
        ("message"@, opt_json(out.message)),
    ]);
    pretty_object(v.as_slice())
}

/// The reply to `create`: what creating the job reported.
pub open spec fn create_reply_spec(o: CronJobOutput) -> Seq<char> {
    json_pretty(seq![
        ("success"@, JsonFieldView::Flag(o.success)),
        ("job_id"@, opt_json(o.job_id)),
        ("name"@, opt_json(o.name)),
        ("schedule"@, opt_json(o.schedule)),
        ("next_run_at"@, opt_json(o.next_run_at)),
        ("message"@, opt_json(o.message)),
        ("error"@, opt_json(o.error)),
    ])
}

/// The reply of the cron tool to `create` when creating gave `out`.
pub fn create_reply(out: &CronJobOutput) -> (r: String)
    ensures
        r@ == create_reply_spec(*out),
{
    let mut v: Vec<(String, JsonField)> = Vec::new();
    push_field(&mut v, "success", JsonField::Flag(out.success));
    push_field(&mut v, "job_id", opt_field(&out.job_id));
    push_field(&mut v, "name", opt_field(&out.name));
    push_field(&mut v, "schedule", opt_field(&out.schedule));
    push_field(&mut v, "next_run_at", opt_field(&out.next_run_at));
    push_field(&mut v, "message", opt_field(&out.message));
    push_field(&mut v, "error", opt_field(&out.error));
    assert(fields_view(v@) =~= seq![
        ("success"@, JsonFieldView::Flag(out.success)),
        ("job_id"@, opt_json(out.job_id)),
        ("name"@, opt_json(out.name)),
        ("schedule"@, opt_json(out.schedule)),
        ("next_run_at"@, opt_json(out.next_run_at)),
        ("message"@, opt_json(out.message)),
        ("error"@, opt_json(out.error)),
    ]);
    pretty_object(v.as_slice())
}

/// The reply to `delete`, `pause`, `resume` and `trigger` of `job_id`.
pub open spec fn job_reply_spec(job_id: Seq<char>, o: CronJobOutput) -> Seq<char> {
    json_pretty(seq![
        ("success"@, JsonFieldView::Flag(o.success)),
        ("job_id"@, JsonFieldView::Text(job_id)),
        ("message"@, opt_json(o.message)),
        ("error"@, opt_json(o.error)),
    ])
}

/// The reply of the cron tool to an action on `job_id` that gave `out`.
pub fn job_reply(job_id: &str, out: &CronJobOutput) -> (r: String)
    ensures
        r@ == job_reply_spec(job_id@, *out),
{
    let mut v: Vec<(String, JsonField)> = Vec::new();
    push_field(&mut v, "success", JsonField::Flag(out.success));
    push_field(&mut v, "job_id", JsonField::Text(owned(job_id)));
    push_field(&mut v, "message", opt_field(&out.message));
    push_field(&mut v, "error", opt_field(&out.error));
    assert(fields_view(v@) =~= seq![
        ("success"@, JsonFieldView::Flag(out.success)),
        ("job_id"@, JsonFieldView::Text(job_id@)),
        ("message"@, opt_json(out.message)),
        ("error"@, opt_json(out.error)),
    ]);
    pretty_object(v.as_slice())
}

} // verus!
