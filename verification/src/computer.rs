//! Computer use: desktop actions, the commands that perform them on Linux
//! (with `xdotool`), and the results reported. Running the commands,
//! capturing the screen and sleeping happen at the caller.

use vstd::prelude::*;
use crate::text::{decimal, i64_to_decimal, owned, push_str, signed_decimal, u64_to_decimal, views};

verus! {

/// A desktop action.
pub enum ComputerAction {
    MouseMove { x: i32, y: i32 },
    LeftClick { x: Option<i32>, y: Option<i32> },
    RightClick { x: Option<i32>, y: Option<i32> },
    DoubleClick { x: Option<i32>, y: Option<i32> },
    Scroll { x: i32, y: i32 },
    TypeText { text: String },
    KeyCombo { keys: Vec<String> },
    Screenshot,
    Wait { seconds: u64 },
}

/// What an action reports.
pub struct ComputerResult {
    pub success: bool,
    pub action: String,
    pub output: Option<String>,
    pub screenshot: Option<String>,
    pub error: Option<String>,
}

impl ComputerResult {
    /// A success of `action`.
    pub fn success(action: &str) -> (r: Self)
        ensures
            r.success && r.action@ == action@,
            r.output is None && r.screenshot is None && r.error is None,
    {
        ComputerResult { success: true, action: owned(action), output: None, screenshot: None, error: None }
    }

    /// A failure of `action` with message `err`.
    pub fn error(action: &str, err: &str) -> (r: Self)
        ensures
            !r.success && r.action@ == action@,
            r.output is None && r.screenshot is None,
            r.error matches Some(e) && e@ == err@,
    {
        ComputerResult {
            success: false,
            action: owned(action),
            output: None,
            screenshot: None,
            error: Some(owned(err)),
        }
    }

    /// The result with a screenshot.
    pub fn with_screenshot(self, screenshot: String) -> (r: Self)
        ensures
            r.screenshot == Some(screenshot),
            r.success == self.success && r.action == self.action && r.output == self.output,
            r.error == self.error,
    {
        let mut s = self;
        s.screenshot = Some(screenshot);
        s
    }

    /// The result with output text.
    pub fn with_output(self, output: String) -> (r: Self)
        ensures
            r.output == Some(output),
            r.success == self.success && r.action == self.action && r.screenshot == self.screenshot,
            r.error == self.error,
    {
        let mut s = self;
        s.output = Some(output);
        s
    }
}

/// The name an action reports under.
pub open spec fn action_name(a: ComputerAction) -> Seq<char> {
    match a {
        ComputerAction::MouseMove { .. } => "mouse_move"@,
        ComputerAction::LeftClick { .. } => "left_click"@,
        ComputerAction::RightClick { .. } => "right_click"@,
        ComputerAction::DoubleClick { .. } => "double_click"@,
        ComputerAction::Scroll { .. } => "scroll"@,
        ComputerAction::TypeText { .. } => "type_text"@,
        ComputerAction::KeyCombo { .. } => "key_combo"@,
        ComputerAction::Screenshot => "screenshot"@,
        ComputerAction::Wait { .. } => "wait"@,
    }
}

/// What performing an action takes.
pub enum ComputerStep {
    /// Run `xdotool` with these arguments.
    Command { args: Vec<String> },
    /// Capture the screen.
    Capture,
    /// Sleep this many seconds.
    Sleep { seconds: u64 },
}

/// The `xdotool` arguments of an action, or the other step it takes.
pub open spec fn step_spec(a: ComputerAction) -> Option<Seq<Seq<char>>> {
    match a {
        ComputerAction::MouseMove { x, y } => Some(
            seq!["mousemove"@, signed_decimal(x as int), signed_decimal(y as int)],
        ),
        ComputerAction::LeftClick { .. } => Some(seq!["click"@, "1"@]),
        ComputerAction::RightClick { .. } => Some(seq!["click"@, "3"@]),
        ComputerAction::DoubleClick { .. } => Some(seq!["click"@, "--repeat"@, "2"@, "1"@]),
        ComputerAction::Scroll { y, .. } => Some(
            seq![
                "click"@,
                if y > 0 {
                    "-- 4"@
                } else {
                    "-- 5"@
                },
            ],
        ),
        ComputerAction::TypeText { text } => Some(seq!["type"@, "--"@, text@]),
        ComputerAction::KeyCombo { keys } => Some(seq!["key"@] + views(keys@)),
        _ => None,
    }
}

/// What happened when an action's step was performed.
pub enum StepOutcome {
    /// The command ran and exited.
    Ran { success: bool, stderr: String },
    /// The command could not be started.
    NotStarted(String),
    /// The screen was captured to this path.
    Captured(String),
    /// Capturing the screen failed.
    CaptureFailed(String),
    /// The wait is over.
    Slept,
}

/// The desktop controller.
pub struct ComputerUse;

fn push_owned(v: &mut Vec<String>, s: &str)
    ensures
        views(final(v)@) == views(old(v)@).push(s@),
{
    let ghost before = v@;
    v.push(owned(s));
    assert(views(v@) =~= views(before).push(s@));
}

impl ComputerUse {
    pub fn new() -> (r: Self) {
        ComputerUse
    }

    /// The step that performs an action on Linux.
    pub fn step(&self, action: &ComputerAction) -> (r: ComputerStep)
        ensures
            match step_spec(*action) {
                Some(args) => r matches ComputerStep::Command { args: a } && views(a@) == args,
                None => match *action {
                    ComputerAction::Wait { seconds } => r matches ComputerStep::Sleep { seconds: s } && s
                        == seconds,
                    _ => r is Capture,
                },
            },
    {
        let mut args: Vec<String> = Vec::new();
        match action {
            ComputerAction::MouseMove { x, y } => {
                push_owned(&mut args, "mousemove");
                let xs = i64_to_decimal(*x as i64);
                push_owned(&mut args, xs.as_str());
                let ys = i64_to_decimal(*y as i64);
                push_owned(&mut args, ys.as_str());
            },
            ComputerAction::LeftClick { .. } => {
                push_owned(&mut args, "click");
                push_owned(&mut args, "1");
            },
            ComputerAction::RightClick { .. } => {
                push_owned(&mut args, "click");
                push_owned(&mut args, "3");
            },
            ComputerAction::DoubleClick { .. } => {
                push_owned(&mut args, "click");
                push_owned(&mut args, "--repeat");
                push_owned(&mut args, "2");
                push_owned(&mut args, "1");
            },
            ComputerAction::Scroll { y, .. } => {
                push_owned(&mut args, "click");
                if *y > 0 {
                    push_owned(&mut args, "-- 4");
                } else {
                    push_owned(&mut args, "-- 5");
                }
            },
            ComputerAction::TypeText { text } => {
                push_owned(&mut args, "type");
                push_owned(&mut args, "--");
                push_owned(&mut args, text.as_str());
            },
            ComputerAction::KeyCombo { keys } => {
                push_owned(&mut args, "key");
                let mut i: usize = 0;
                while i < keys.len()
                    invariant
                        i <= keys@.len(),
                        views(args@) == seq!["key"@] + views(keys@).subrange(0, i as int),
                    decreases keys.len() - i,
                {
                    push_owned(&mut args, keys[i].as_str());
                    assert(views(keys@).subrange(0, i + 1) =~= views(keys@).subrange(0, i as int).push(
                        keys@[i as int]@,
                    ));
                    i = i + 1;
                }
                assert(views(keys@).subrange(0, keys@.len() as int) =~= views(keys@));
            },
            ComputerAction::Screenshot => {
                return ComputerStep::Capture;
            },
            ComputerAction::Wait { seconds } => {
                return ComputerStep::Sleep { seconds: *seconds };
            },
        }
        assert(views(args@) =~= step_spec(*action)->0);
        ComputerStep::Command { args }
    }

    /// What an action reports, given what performing its step gave: a
    /// command that exited well is a success, one that failed or did not
    /// start an error with its message; a capture names the file; a wait
    /// says how long it took.
    pub fn execute(&self, action: &ComputerAction, outcome: &StepOutcome) -> (r: ComputerResult)
        ensures
            r.action@ == action_name(*action),
            r.screenshot is None,
            match *outcome {
                StepOutcome::Ran { success, stderr } => r.success == success && r.output is None && (if success {
                    r.error is None
                } else {
                    r.error matches Some(e) && e@ == stderr@
                }),
                StepOutcome::NotStarted(e) => !r.success && r.output is None && (r.error matches Some(x)
                    && x@ == e@),
                StepOutcome::Captured(p) => r.success && r.error is None && (r.output matches Some(o) && o@
                    == "Screenshot saved to: "@ + p@),
                StepOutcome::CaptureFailed(e) => !r.success && r.output is None && (r.error matches Some(x)
                    && x@ == e@),
                StepOutcome::Slept => r.success && r.error is None && (match *action {
                    ComputerAction::Wait { seconds } => r.output matches Some(o) && o@ == "Waited "@
                        + decimal(seconds as nat) + " seconds"@,
                    _ => r.output is None,
                }),
            },
    {
        let name: &str = match action {
            ComputerAction::MouseMove { .. } => "mouse_move",
            ComputerAction::LeftClick { .. } => "left_click",
            ComputerAction::RightClick { .. } => "right_click",
            ComputerAction::DoubleClick { .. } => "double_click",
            ComputerAction::Scroll { .. } => "scroll",
            ComputerAction::TypeText { .. } => "type_text",
            ComputerAction::KeyCombo { .. } => "key_combo",
            ComputerAction::Screenshot => "screenshot",
            ComputerAction::Wait { .. } => "wait",
        };
        match outcome {
            StepOutcome::Ran { success, stderr } => if *success {
                ComputerResult::success(name)
            } else {
                ComputerResult::error(name, stderr.as_str())
            },
            StepOutcome::NotStarted(e) => ComputerResult::error(name, e.as_str()),
            StepOutcome::Captured(p) => {
                let mut m = owned("Screenshot saved to: ");
                push_str(&mut m, p.as_str());
                ComputerResult::success(name).with_output(m)
            },
            StepOutcome::CaptureFailed(e) => ComputerResult::error(name, e.as_str()),
            StepOutcome::Slept => match action {
                ComputerAction::Wait { seconds } => {
                    let mut m = owned("Waited ");
                    let n = u64_to_decimal(*seconds);
                    push_str(&mut m, n.as_str());
                    push_str(&mut m, " seconds");
                    ComputerResult::success(name).with_output(m)
                },
                _ => ComputerResult::success(name),
            },
        }
    }
}

} // verus!
