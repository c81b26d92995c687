//! Batch task execution: which tasks a call asks for, which of them are
//! refused, the program and arguments of each, and the JSON result of each
//! task; running them happens at the caller.

use vstd::prelude::*;
use crate::text::{
    contains_seq, lowercase_of, owned, parse_uint, parse_unsigned, push_str, starts_with, str_contains,
    str_eq, str_starts_with, to_lowercase, views,
};
use crate::json::{fields_view, json_pretty, pretty_object, JsonField, JsonFieldView};
use crate::tools::bash::{quote_split, quote_words};

verus! {

/// The Batch tool.
pub struct BatchTool;

impl BatchTool {
    pub fn new() -> (r: Self) {
        BatchTool
    }

    /// Name of the tool.
    pub fn name(&self) -> (r: &'static str)
        ensures
            r@ == "Batch"@,
    {
        "Batch"
    }

    /// Description of the tool.
    pub fn description(&self) -> (r: &'static str)
        ensures
            r@ == "Run multiple independent tasks in parallel. \
Use for parallel linting, test sharding, bulk analysis, repeated generation. \
Args: <task1> [task2] [task3...] [--concurrency <n>] [--save]
Example: Batch('lint src/module1.rs', 'lint src/module2.rs', 'lint src/module3.rs')
Example: Batch('analyze file1.txt', 'analyze file2.txt', '--concurrency 8')
Example: Batch('generate report for: module1', 'generate report for: module2')"@,
    {
        "Run multiple independent tasks in parallel. \
Use for parallel linting, test sharding, bulk analysis, repeated generation. \
Args: <task1> [task2] [task3...] [--concurrency <n>] [--save]
Example: Batch('lint src/module1.rs', 'lint src/module2.rs', 'lint src/module3.rs')
Example: Batch('analyze file1.txt', 'analyze file2.txt', '--concurrency 8')
Example: Batch('generate report for: module1', 'generate report for: module2')"
    }
}


/// Task fragments that are refused.
pub open spec fn blocked_task_patterns() -> Seq<Seq<char>> {
    seq![
        "rm -rf /"@, "rm -rf /*"@, "rm -rf ."@, "dd if="@, ":(){:|:&};:"@, "mkfs"@, "fdisk"@,
        "badblocks -w"@,
    ]
}

fn blocked_task_pattern(i: usize) -> (r: &'static str)
    requires
        i < 8,
    ensures
        r@ == blocked_task_patterns()[i as int],
{
    if i == 0 {
        "rm -rf /"
    } else if i == 1 {
        "rm -rf /*"
    } else if i == 2 {
        "rm -rf ."
    } else if i == 3 {
        "dd if="
    } else if i == 4 {
        ":(){:|:&};:"
    } else if i == 5 {
        "mkfs"
    } else if i == 6 {
        "fdisk"
    } else {
        "badblocks -w"
    }
}

/// From `i` on, the first refused fragment that the lower-cased task holds
/// (the fragment lower-cased too).
pub open spec fn first_blocked_task(lower: Seq<char>, i: int) -> Option<int>
    decreases 8 - i,
{
    if i < 0 || i >= 8 {
        None
    } else if contains_seq(lower, lowercase_of(blocked_task_patterns()[i])) {
        Some(i)
    } else {
        first_blocked_task(lower, i + 1)
    }
}

/// Whether a task is refused, and with what message.
pub open spec fn task_check(task: Seq<char>) -> Result<(), Seq<char>> {
    match first_blocked_task(lowercase_of(task), 0) {
        Some(i) => Err("Task contains blocked pattern: "@ + blocked_task_patterns()[i]),
        None => Ok(()),
    }
}

/// Refuses a task that holds a blocked fragment.
pub fn validate_task(task: &str) -> (r: Result<(), String>)
    ensures
        match task_check(task@) {
            Ok(()) => r is Ok,
            Err(e) => r matches Err(x) && x@ == e,
        },
{
    let lower = to_lowercase(task);
    let mut i: usize = 0;
    while i < 8
        invariant
            i <= 8,
            lower@ == lowercase_of(task@),
            first_blocked_task(lower@, 0) == first_blocked_task(lower@, i as int),
        decreases 8 - i,
    {
        let p = blocked_task_pattern(i);
        let pl = to_lowercase(p);
        if str_contains(lower.as_str(), pl.as_str()) {
            let mut e = owned("Task contains blocked pattern: ");
            push_str(&mut e, p);
            return Err(e);
        }
        i = i + 1;
    }
    Ok(())
}

/// The program and words of a task, or `None` for a task with no words.
pub fn parse_task_command(input: &str) -> (r: Option<(String, Vec<String>)>)
    ensures
        match r {
            Some((p, ws)) => quote_words(input@).len() > 0 && p@ == quote_words(input@)[0] && views(ws@)
                == quote_words(input@),
            None => quote_words(input@).len() == 0,
        },
{
    let args = quote_split(input);
    if args.len() == 0 {
        return None;
    }
    let program = args[0].clone();
    Some((program, args))
}

/// Shells that a task may not start.
pub open spec fn batch_shells() -> Seq<Seq<char>> {
    seq!["sh"@, "bash"@, "zsh"@, "dash"@, "fish"@, "ash"@]
}

/// A program that is a shell, or whose name starts with a shell's name and
/// `-c`.
pub open spec fn is_recursive_shell(program: Seq<char>) -> bool {
    let lower = lowercase_of(program);
    exists|i: int|
        0 <= i < 6 && (lower == batch_shells()[i] || starts_with(lower, #[trigger] batch_shells()[i] + "-c"@))
}

fn batch_shell(i: usize) -> (r: &'static str)
    requires
        i < 6,
    ensures
        r@ == batch_shells()[i as int],
{
    if i == 0 {
        "sh"
    } else if i == 1 {
        "bash"
    } else if i == 2 {
        "zsh"
    } else if i == 3 {
        "dash"
    } else if i == 4 {
        "fish"
    } else {
        "ash"
    }
}

/// Whether a task's program would start a shell.
pub fn recursive_shell(program: &str) -> (r: bool)
    ensures
        r == is_recursive_shell(program@),
{
    let lower = to_lowercase(program);
    let mut i: usize = 0;
    while i < 6
        invariant
            i <= 6,
            lower@ == lowercase_of(program@),
            forall|k: int|
                0 <= k < i ==> !(lower@ == batch_shells()[k] || starts_with(
                    lower@,
                    #[trigger] batch_shells()[k] + "-c"@,
                )),
        decreases 6 - i,
    {
        let sname = batch_shell(i);
        let mut with_c = owned(sname);
        push_str(&mut with_c, "-c");
        if str_eq(lower.as_str(), sname) || str_starts_with(lower.as_str(), with_c.as_str()) {
            return true;
        }
        i = i + 1;
    }
    false
}

/// The options of a call read from the front: `--concurrency` followed by
/// a value sets the concurrency to that value (4 when it is not a number)
/// and the value is not a task; a trailing `--concurrency` is dropped;
/// every other argument is a task. `c` is the concurrency so far.
pub open spec fn scan_options(args: Seq<Seq<char>>, c: nat) -> (nat, Seq<Seq<char>>)
    decreases args.len(),
{
    if args.len() == 0 {
        (c, Seq::empty())
    } else if args[0] == "--concurrency"@ {
        if args.len() > 1 {
            scan_options(
                args.subrange(2, args.len() as int),
                match parse_unsigned(args[1], usize::MAX as nat) {
                    Some(v) => v,
                    None => 4,
                },
            )
        } else {
            (c, Seq::empty())
        }
    } else {
        let (c2, t) = scan_options(args.drop_first(), c);
        (c2, seq![args[0]] + t)
    }
}

/// The concurrency that `args` ask for (4 by default).
pub open spec fn concurrency_of(args: Seq<Seq<char>>) -> nat {
    scan_options(args, 4).0
}

/// The tasks of a call: every argument but the concurrency flags and their
/// values.
pub open spec fn tasks_of(args: Seq<Seq<char>>) -> Seq<Seq<char>> {
    scan_options(args, 4).1
}

/// The concurrency and the tasks that `args` ask for.
pub fn batch_options(args: &[String]) -> (r: (usize, Vec<String>))
    ensures
        r.0 == concurrency_of(views(args@)),
        views(r.1@) == tasks_of(views(args@)),
{
    let ghost all = views(args@);
    let mut concurrency: usize = 4;
    let mut tasks: Vec<String> = Vec::new();
    let mut i: usize = 0;
    assert(all.subrange(0, all.len() as int) =~= all);
    while i < args.len()
        invariant
            i <= args@.len(),
            all == views(args@),
            scan_options(all, 4) == ({
                let (c2, t) = scan_options(all.subrange(i as int, all.len() as int), concurrency as nat);
                (c2, views(tasks@) + t)
            }),
        decreases args.len() - i,
    {
        let ghost rest = all.subrange(i as int, all.len() as int);
        assert(rest[0] == args@[i as int]@);
        let is_flag = str_eq(args[i].as_str(), "--concurrency");
        if is_flag {
            if i + 1 < args.len() {
                assert(rest[1] == args@[i + 1]@);
                assert(rest.subrange(2, rest.len() as int) =~= all.subrange(i + 2, all.len() as int));
                concurrency = match parse_uint(args[i + 1].as_str(), usize::MAX as u64) {
                    Some(v) => v as usize,
                    None => 4,
                };
                i = i + 2;
            } else {
                assert(views(tasks@) + Seq::<Seq<char>>::empty() =~= views(tasks@));
                assert(all.subrange(args@.len() as int, all.len() as int) =~= Seq::<Seq<char>>::empty());
                i = i + 1;
            }
        } else {
            let ghost before = tasks@;
            tasks.push(args[i].clone());
            proof {
                assert(views(tasks@) =~= views(before).push(args@[i as int]@));
                assert(rest.drop_first() =~= all.subrange(i + 1, all.len() as int));
                let (c2, t) = scan_options(rest.drop_first(), concurrency as nat);
                assert(views(before) + (seq![rest[0]] + t) =~= views(tasks@) + t);
            }
            i = i + 1;
        }
    }
    proof {
        assert(all.subrange(i as int, all.len() as int) =~= Seq::<Seq<char>>::empty());
        let (c2, t) = scan_options(Seq::<Seq<char>>::empty(), concurrency as nat);
        assert(views(tasks@) + t =~= views(tasks@));
    }
    (concurrency, tasks)
}


/// What becomes of one task.
pub enum TaskPlan {
    /// Refused before it runs, with the message.
    Refused { task: String, error: String },
    /// Run `program` with `args` (the words after the program).
    Run { task: String, program: String, args: Vec<String> },
}

/// What the batch tool does with one task: refuse a blocked fragment, a
/// task with no words or one that starts a shell; else run its first word
/// with the others.
pub open spec fn task_plan_ok(task: Seq<char>, p: TaskPlan) -> bool {
    match task_check(task) {
        Err(e) => p matches TaskPlan::Refused { task: t, error } && t@ == task && error@ == e,
        Ok(()) => {
            let ws = quote_words(task);
            if ws.len() == 0 {
                p matches TaskPlan::Refused { task: t, error } && t@ == task && error@
                    == "Could not parse task command"@
            } else if is_recursive_shell(ws[0]) {
                p matches TaskPlan::Refused { task: t, error } && t@ == task && error@
                    == "Recursive shell invocation not allowed in batch tasks"@
            } else {
                p matches TaskPlan::Run { task: t, program, args } && t@ == task && program@ == ws[0]
                    && views(args@) == ws.drop_first()
            }
        },
    }
}

/// The plan for one task.
pub fn plan_task(task: &str) -> (r: TaskPlan)
    ensures
        task_plan_ok(task@, r),
{
    if let Err(e) = validate_task(task) {
        return TaskPlan::Refused { task: owned(task), error: e };
    }
    match parse_task_command(task) {
        None => TaskPlan::Refused { task: owned(task), error: owned("Could not parse task command") },
        Some((program, words)) => {
            if recursive_shell(program.as_str()) {
                return TaskPlan::Refused {
                    task: owned(task),
                    error: owned("Recursive shell invocation not allowed in batch tasks"),
                };
            }
            let mut rest: Vec<String> = Vec::new();
            let mut i: usize = 1;
            while i < words.len()
                invariant
                    1 <= i <= words@.len(),
                    views(rest@) == views(words@).subrange(1, i as int),
                decreases words.len() - i,
            {
                let ghost before = rest@;
                rest.push(words[i].clone());
                assert(views(rest@) =~= views(before).push(words@[i as int]@));
                i = i + 1;
            }
            assert(views(words@).subrange(1, words@.len() as int) =~= views(words@).drop_first());
            TaskPlan::Run { task: owned(task), program, args: rest }
        },
    }
}

/// What a call of the batch tool comes to.
pub enum BatchRequest {
    /// Nothing to run; the text is the answer.
    Answer(String),
    /// Run the tasks, at most `concurrency` at a time.
    Tasks { concurrency: usize, plans: Vec<TaskPlan> },
}

/// The usage text of the batch tool.
pub open spec fn batch_usage() -> Seq<char> {
    "Batch tool usage:\nBatch(<task1>, <task2>, ..., [--concurrency <n>])\nTasks are executed in parallel (default concurrency: 4)\nEach task is a shell command string\nReturns results for all tasks with timing and status"@
}

impl BatchTool {
    /// What the tool does for `args`: the usage text when there are none,
    /// a note when no task is left, else the plan of every task.
    pub fn plan(&self, args: &[String]) -> (r: BatchRequest)
        ensures
            match r {
                BatchRequest::Answer(t) => if args@.len() == 0 {
                    t@ == batch_usage()
                } else {
                    tasks_of(views(args@)).len() == 0 && t@
                        == "No tasks provided. Usage: Batch('task1', 'task2', ...)"@
                },
                BatchRequest::Tasks { concurrency, plans } => {
                    &&& args@.len() > 0
                    &&& concurrency == concurrency_of(views(args@))
                    &&& plans@.len() == tasks_of(views(args@)).len() > 0
                    &&& forall|i: int|
                        0 <= i < plans@.len() ==> task_plan_ok(
                            tasks_of(views(args@))[i],
                            #[trigger] plans@[i],
                        )
                },
            },
    {
        if args.len() == 0 {
            return BatchRequest::Answer(owned("Batch tool usage:\nBatch(<task1>, <task2>, ..., [--concurrency <n>])\nTasks are executed in parallel (default concurrency: 4)\nEach task is a shell command string\nReturns results for all tasks with timing and status"));
        }
        let (concurrency, tasks) = batch_options(args);
        if tasks.len() == 0 {
            return BatchRequest::Answer(owned("No tasks provided. Usage: Batch('task1', 'task2', ...)"));
        }
        let mut plans: Vec<TaskPlan> = Vec::new();
        let mut i: usize = 0;
        while i < tasks.len()
            invariant
                i <= tasks@.len(),
                plans@.len() == i,
                forall|k: int| 0 <= k < i ==> task_plan_ok(tasks@[k]@, #[trigger] plans@[k]),
            decreases tasks.len() - i,
        {
            plans.push(plan_task(tasks[i].as_str()));
            i = i + 1;
        }
        proof {
            assert forall|k: int| 0 <= k < plans@.len() implies task_plan_ok(
                tasks_of(views(args@))[k],
                #[trigger] plans@[k],
            ) by {
                assert(tasks_of(views(args@))[k] == views(tasks@)[k]);
            }
        }
        BatchRequest::Tasks { concurrency, plans }
    }
}


/// The JSON result of a task that did not run: refused, or its program
/// could not be started, with the message.
pub open spec fn task_failed_spec(task: Seq<char>, error: Seq<char>, duration_ms: u64) -> Seq<char> {
    json_pretty(seq![
        ("task"@, JsonFieldView::Text(task)),
        ("success"@, JsonFieldView::Flag(false)),
        ("error"@, JsonFieldView::Text(error)),
        ("duration_ms"@, JsonFieldView::Int(duration_ms as int)),
    ])
}

/// The JSON result of a task that did not run.
pub fn task_failed_json(task: &str, error: &str, duration_ms: u64) -> (r: String)
    requires
        duration_ms <= i64::MAX,
    ensures
        r@ == task_failed_spec(task@, error@, duration_ms),
{
    let v = vec![
        (owned("task"), JsonField::Text(owned(task))),
        (owned("success"), JsonField::Flag(false)),
        (owned("error"), JsonField::Text(owned(error))),
        (owned("duration_ms"), JsonField::Int(duration_ms as i64)),
    ];
    assert(fields_view(v@) =~= seq![
        ("task"@, JsonFieldView::Text(task@)),
        ("success"@, JsonFieldView::Flag(false)),
        ("error"@, JsonFieldView::Text(error@)),
        ("duration_ms"@, JsonFieldView::Int(duration_ms as int)),
    ]);
    pretty_object(v.as_slice())
}

/// The JSON result of a task that ran: whether it succeeded, its exit code
/// (-1 when there is none), its output and how long it took.
pub open spec fn task_ran_spec(task: Seq<char>, success: bool, exit_code: Option<i32>, stdout: Seq<char>, stderr: Seq<char>, duration_ms: u64) -> Seq<char> {
    json_pretty(seq![
        ("task"@, JsonFieldView::Text(task)),
        ("success"@, JsonFieldView::Flag(success)),
        ("exit_code"@, JsonFieldView::Int(match exit_code { Some(c) => c as int, None => -1 })),
        ("stdout"@, JsonFieldView::Text(stdout)),
        ("stderr"@, JsonFieldView::Text(stderr)),
        ("duration_ms"@, JsonFieldView::Int(duration_ms as int)),
    ])
}

/// The JSON result of a task that ran.
pub fn task_ran_json(task: &str, success: bool, exit_code: Option<i32>, stdout: &str, stderr: &str, duration_ms: u64) -> (r: String)
    requires
        duration_ms <= i64::MAX,
    ensures
        r@ == task_ran_spec(task@, success, exit_code, stdout@, stderr@, duration_ms),
{
    let code: i64 = match exit_code {
        Some(c) => c as i64,
        None => -1,
    };
    let v = vec![
        (owned("task"), JsonField::Text(owned(task))),
        (owned("success"), JsonField::Flag(success)),
        (owned("exit_code"), JsonField::Int(code)),
        (owned("stdout"), JsonField::Text(owned(stdout))),
        (owned("stderr"), JsonField::Text(owned(stderr))),
        (owned("duration_ms"), JsonField::Int(duration_ms as i64)),
    ];
    assert(fields_view(v@) =~= seq![
        ("task"@, JsonFieldView::Text(task@)),
        ("success"@, JsonFieldView::Flag(success)),
        ("exit_code"@, JsonFieldView::Int(match exit_code { Some(c) => c as int, None => -1 })),
        ("stdout"@, JsonFieldView::Text(stdout@)),
        ("stderr"@, JsonFieldView::Text(stderr@)),
        ("duration_ms"@, JsonFieldView::Int(duration_ms as int)),
    ]);
    pretty_object(v.as_slice())
}

} // verus!
