//! What every language shares: the steps that create a project, the checks
//! on a new project's name, and the messages that report a step or a tool
//! command.

use vstd::prelude::*;
use crate::model::{CreationStep, CreationStepAction, Platform, StepView, command_step_view, write_step_view};
use crate::output::{command_output_excerpt, output_excerpt};
use crate::platform::{by_platform, file_name, join_words, join_with_spaces, path_file_name};
use crate::text::{CharClass, chars_of, concat, concat3, is_whitespace, owned, push_char, str_eq, trim, trim_start_class, trim_str};

verus! {

/// The shell script that runs a command and stops it when the launcher exits
/// (Unix). Its arguments: the launcher's process id, then the command.
pub const UNIX_PARENT_WATCH_SCRIPT: &'static str = r#"
parent_pid="$1"
shift
runner_pid=$$

stop_runner() {
  runner_pgid="$(ps -o pgid= -p "$runner_pid" 2>/dev/null | tr -d '[:space:]')"
  if [ "$runner_pgid" = "$runner_pid" ]; then
    kill -TERM -"$runner_pid" 2>/dev/null
    sleep 2
    kill -KILL -"$runner_pid" 2>/dev/null
  else
    kill -TERM "$runner_pid" 2>/dev/null
    sleep 2
    kill -KILL "$runner_pid" 2>/dev/null
  fi
}

(
  while kill -0 "$parent_pid" 2>/dev/null && kill -0 "$runner_pid" 2>/dev/null; do
    sleep 1
  done
  stop_runner
) >/dev/null 2>&1 </dev/null &

exec "$@"
"#;

/// The PowerShell script that runs a command and stops it when the launcher
/// exits (Windows). Its arguments: the launcher's process id, then the
/// command.
pub const WINDOWS_PARENT_WATCH_SCRIPT: &'static str = r#"
$parentId = [int]$args[0]
$program = $args[1]
$programArgs = @()
if ($args.Length -gt 2) {
  $programArgs = $args[2..($args.Length - 1)]
}
$runnerPid = $PID

$watcher = Start-Job -ScriptBlock {
  param($parentId, $runnerPid)
  while (Get-Process -Id $parentId -ErrorAction SilentlyContinue) {
    Start-Sleep -Seconds 1
  }
  & taskkill.exe /F /T /PID $runnerPid | Out-Null
} -ArgumentList $parentId, $runnerPid

try {
  & $program @programArgs
  $exitCode = if ($null -eq $LASTEXITCODE) { 0 } else { $LASTEXITCODE }
} finally {
  Stop-Job -Job $watcher -ErrorAction SilentlyContinue | Out-Null
  Remove-Job -Job $watcher -Force -ErrorAction SilentlyContinue | Out-Null
}

exit $exitCode
"#;

/// The script that wraps every command the launcher starts, so that the
/// command ends with the launcher.
pub fn creation_parent_watch_script(p: Platform) -> (r: &'static str)
    ensures
        r@ == by_platform(p, UNIX_PARENT_WATCH_SCRIPT@, WINDOWS_PARENT_WATCH_SCRIPT@),
{
    match p {
        Platform::Unix => UNIX_PARENT_WATCH_SCRIPT,
        Platform::Windows => WINDOWS_PARENT_WATCH_SCRIPT,
    }
}

/// Owned copies of the arguments, in order.
fn owned_args(args: Vec<&str>) -> (r: Vec<String>)
    ensures
        r.deep_view() == args.deep_view(),
{
    let mut out: Vec<String> = Vec::new();
    let mut i: usize = 0;
    while i < args.len()
        invariant
            i <= args@.len(),
            out@.len() == i,
            forall|k: int| 0 <= k < i ==> #[trigger] out@[k]@ == args@[k]@,
        decreases args@.len() - i,
    {
        out.push(owned(args[i]));
        i = i + 1;
    }
    assert(out.deep_view() =~= args.deep_view());
    out
}

/// A step that runs `program` with `args` in `cwd`.
pub fn creation_step(label: &str, program: String, args: Vec<&str>, cwd: &str) -> (r:
    CreationStep)
    ensures
        r.deep_view() == command_step_view(label@, program@, args.deep_view(), cwd@, None),
{
    CreationStep {
        label: owned(label),
        program,
        args: owned_args(args),
        cwd: owned(cwd),
        display_command: None,
        action: CreationStepAction::Command,
    }
}

/// A step that runs `program` with `args` in `cwd`.
pub fn creation_step_from_strings(label: &str, program: String, args: Vec<String>, cwd: &str) -> (r:
    CreationStep)
    ensures
        r.deep_view() == command_step_view(label@, program@, args.deep_view(), cwd@, None),
{
    CreationStep {
        label: owned(label),
        program,
        args,
        cwd: owned(cwd),
        display_command: None,
        action: CreationStepAction::Command,
    }
}

/// A step that runs `program` with `args` in `cwd` and shows
/// `display_command` in place of the command it runs.
pub fn creation_step_with_display(
    label: &str,
    program: String,
    args: Vec<String>,
    cwd: &str,
    display_command: String,
) -> (r: CreationStep)
    ensures
        r.deep_view() == command_step_view(
            label@,
            program@,
            args.deep_view(),
            cwd@,
            Some(display_command@),
        ),
{
    CreationStep {
        label: owned(label),
        program,
        args,
        cwd: owned(cwd),
        display_command: Some(display_command),
        action: CreationStepAction::Command,
    }
}

/// A step that writes `files` (each a path and its content).
pub fn write_files_step(
    label: &str,
    files: Vec<(String, String)>,
    cwd: &str,
    display_command: String,
) -> (r: CreationStep)
    ensures
        r.deep_view() == write_step_view(label@, files.deep_view(), cwd@, display_command@),
{
    let r = CreationStep {
        label: owned(label),
        program: String::new(),
        args: Vec::new(),
        cwd: owned(cwd),
        display_command: Some(display_command),
        action: CreationStepAction::WriteFiles(files),
    };
    assert(r.deep_view().args =~= Seq::<Seq<char>>::empty());
    r
}

/// The command line a step shows: its own display command, or `$ ` followed
/// by the program and its arguments separated by spaces.
pub open spec fn step_display_text(step: StepView) -> Seq<char> {
    match step.display_command {
        Some(d) => d,
        None => "$ "@ + step.program + " "@ + join_words(step.args),
    }
}

/// The command line a step shows.
pub fn step_display_line(step: &CreationStep) -> (r: String)
    ensures
        r@ == step_display_text(step.deep_view()),
{
    match &step.display_command {
        Some(d) => d.clone(),
        None => {
            let args = join_with_spaces(&step.args);
            let mut r = concat3("$ ", step.program.as_str(), " ");
            r.append(args.as_str());
            r
        },
    }
}

/// Whether `c` may appear in a project name.
pub open spec fn is_name_char(c: char) -> bool {
    ('a' <= c && c <= 'z') || ('0' <= c && c <= '9') || c == '.' || c == '-' || c == '_'
}

/// Whether `c` may start a project name.
pub open spec fn is_name_start(c: char) -> bool {
    ('a' <= c && c <= 'z') || ('0' <= c && c <= '9')
}

/// Why a project name is refused, if it is.
pub open spec fn project_name_error(name: Seq<char>) -> Option<Seq<char>> {
    let t = trim(name);
    if t.len() == 0 {
        Some("Project name is required"@)
    } else if t != name {
        Some("Project name cannot start or end with whitespace"@)
    } else if t == "."@ || t == ".."@ {
        Some("Project name is not valid"@)
    } else if exists|i: int| 0 <= i < t.len() && !is_name_char(t[i]) {
        Some("Project name can only use lowercase letters, numbers, dots, dashes, or underscores"@)
    } else if !is_name_start(t[0]) {
        Some("Project name must start with a lowercase letter or number"@)
    } else {
        None
    }
}

/// A name is accepted exactly when it is not empty, is not `.` or `..`, is
/// made only of lowercase ASCII letters, ASCII digits, dots, dashes and
/// underscores, and starts with a lowercase ASCII letter or an ASCII digit.
pub proof fn law_project_name_accepted(name: Seq<char>)
    ensures
        project_name_error(name) is None <==> {
            &&& name.len() > 0
            &&& name != "."@
            &&& name != ".."@
            &&& forall|i: int|
                0 <= i < name.len() ==> (('a' <= #[trigger] name[i] && name[i] <= 'z') || ('0'
                    <= name[i] && name[i] <= '9') || name[i] == '.' || name[i] == '-' || name[i]
                    == '_')
            &&& (('a' <= name[0] && name[0] <= 'z') || ('0' <= name[0] && name[0] <= '9'))
        },
{
    let good = name.len() > 0 && name != "."@ && name != ".."@ && (forall|i: int|
        0 <= i < name.len() ==> (('a' <= #[trigger] name[i] && name[i] <= 'z') || ('0' <= name[i]
            && name[i] <= '9') || name[i] == '.' || name[i] == '-' || name[i] == '_')) && (('a'
        <= name[0] && name[0] <= 'z') || ('0' <= name[0] && name[0] <= '9'));
    if good {
        assert(!is_whitespace(name[0]));
        assert(trim_start_class(name, CharClass::Whitespace) == name);
        assert(!is_whitespace(name.last())) by {
            assert(is_name_char(name[name.len() - 1]));
        }
        assert(trim(name) == name);
        assert(!exists|i: int| 0 <= i < name.len() && !is_name_char(name[i]));
    }
    if project_name_error(name) is None {
        let t = trim(name);
        assert(t == name);
        assert forall|i: int| 0 <= i < name.len() implies (('a' <= #[trigger] name[i] && name[i]
            <= 'z') || ('0' <= name[i] && name[i] <= '9') || name[i] == '.' || name[i] == '-'
            || name[i] == '_') by {
            assert(is_name_char(t[i]));
        }
        assert(is_name_start(t[0]));
    }
}

/// Checks the name of a project to create: it must be non-blank, untrimmed,
/// neither `.` nor `..`, made of lowercase letters, digits, dots, dashes and
/// underscores, and start with a letter or digit.
pub fn validate_project_name(project_name: &str) -> (r: Result<(), String>)
    ensures
        r matches Err(e) ==> project_name_error(project_name@) == Some(e@),
        r is Ok <==> project_name_error(project_name@) is None,
{
    let name = trim_str(project_name);
    let cs = chars_of(name.as_str());
    if cs.len() == 0 {
        return Err(owned("Project name is required"));
    }
    if !str_eq(name.as_str(), project_name) {
        return Err(owned("Project name cannot start or end with whitespace"));
    }
    if str_eq(name.as_str(), ".") || str_eq(name.as_str(), "..") {
        return Err(owned("Project name is not valid"));
    }
    let mut i: usize = 0;
    while i < cs.len()
        invariant
            cs@ == name@,
            name@ == trim(project_name@),
            name@ == project_name@,
            cs@.len() > 0,
            name@ != "."@ && name@ != ".."@,
            i <= cs@.len(),
            forall|j: int| 0 <= j < i ==> is_name_char(cs@[j]),
        decreases cs@.len() - i,
    {
        let c = cs[i];
        if !(('a' <= c && c <= 'z') || ('0' <= c && c <= '9') || c == '.' || c == '-' || c == '_') {
            return Err(
                owned(
                    "Project name can only use lowercase letters, numbers, dots, dashes, or underscores",
                ),
            );
        }
        i = i + 1;
    }
    let c = cs[0];
    if !(('a' <= c && c <= 'z') || ('0' <= c && c <= '9')) {
        return Err(owned("Project name must start with a lowercase letter or number"));
    }
    Ok(())
}

/// The name of a project that only has a folder: the folder's name, or
/// `Untitled Project` when the path has none.
pub open spec fn folder_project_name(p: Platform, project_dir: Seq<char>) -> Seq<char> {
    match file_name(p, project_dir) {
        Some(n) => n,
        None => "Untitled Project"@,
    }
}

/// The name of a project taken from its folder.
pub fn python_folder_project_name(p: Platform, project_dir: &str) -> (r: String)
    ensures
        r@ == folder_project_name(p, project_dir@),
{
    match path_file_name(p, project_dir) {
        Some(n) => n,
        None => owned("Untitled Project"),
    }
}

/// The decimal digits of a natural number.
pub open spec fn decimal_digits(n: nat) -> Seq<char>
    decreases n,
{
    if n < 10 {
        seq![digit_char(n)]
    } else {
        decimal_digits(n / 10) + seq![digit_char(n % 10)]
    }
}

pub open spec fn digit_char(d: nat) -> char {
    if d == 0 { '0' } else if d == 1 { '1' } else if d == 2 { '2' } else if d == 3 { '3' }
    else if d == 4 { '4' } else if d == 5 { '5' } else if d == 6 { '6' } else if d == 7 { '7' }
    else if d == 8 { '8' } else { '9' }
}

/// An integer written in decimal, with `-` before a negative one.
pub open spec fn decimal_text(n: int) -> Seq<char> {
    if n < 0 {
        seq!['-'] + decimal_digits((-n) as nat)
    } else {
        decimal_digits(n as nat)
    }
}

fn digit_of(d: u64) -> (c: char)
    requires
        d < 10,
    ensures
        c == digit_char(d as nat),
{
    if d == 0 { '0' } else if d == 1 { '1' } else if d == 2 { '2' } else if d == 3 { '3' }
    else if d == 4 { '4' } else if d == 5 { '5' } else if d == 6 { '6' } else if d == 7 { '7' }
    else if d == 8 { '8' } else { '9' }
}

fn digits_of(n: u64) -> (r: String)
    ensures
        r@ == decimal_digits(n as nat),
    decreases n,
{
    if n < 10 {
        let mut r = String::new();
        push_char(&mut r, digit_of(n));
        r
    } else {
        let mut r = digits_of(n / 10);
        push_char(&mut r, digit_of(n % 10));
        r
    }
}

/// A process id written in decimal.
pub fn process_id_text(pid: u32) -> (r: String)
    ensures
        r@ == decimal_digits(pid as nat),
{
    digits_of(pid as u64)
}

/// An exit code written in decimal.
pub fn decimal_string(n: i32) -> (r: String)
    ensures
        r@ == decimal_text(n as int),
{
    if n < 0 {
        let m: u64 = if n == i32::MIN { 2147483648u64 } else { (-n) as u64 };
        let mut r = String::new();
        push_char(&mut r, '-');
        let d = digits_of(m);
        r.append(d.as_str());
        r
    } else {
        digits_of(n as u64)
    }
}

/// How a finished command turns into a result: its output excerpt when it
/// succeeded; when it failed, the excerpt, or, when that is empty, that the
/// program exited with the given status.
pub open spec fn command_outcome_spec(
    program: Seq<char>,
    success: bool,
    status_text: Seq<char>,
    stdout: Seq<char>,
    stderr: Seq<char>,
) -> Result<Seq<char>, Seq<char>> {
    let e = output_excerpt(stdout, stderr);
    if success {
        Ok(e)
    } else if e.len() == 0 {
        Err(program + " exited with status "@ + status_text)
    } else {
        Err(e)
    }
}

/// The result of a finished tool command, from what it printed.
pub fn command_outcome(
    program: &str,
    success: bool,
    status_text: &str,
    stdout: &str,
    stderr: &str,
) -> (r: Result<String, String>)
    ensures
        command_outcome_spec(program@, success, status_text@, stdout@, stderr@) == match r {
            Ok(s) => Ok::<Seq<char>, Seq<char>>(s@),
            Err(e) => Err(e@),
        },
{
    let e = command_output_excerpt(stdout, stderr);
    if success {
        Ok(e)
    } else if e.as_str().unicode_len() == 0 {
        let mut m = concat(program, " exited with status ");
        m.append(status_text);
        Err(m)
    } else {
        Err(e)
    }
}

/// The outcome of a creation step that ran to its end: success, or the
/// failure with its exit code (`unknown` when it has none) and its output.
pub open spec fn step_outcome_spec(
    label: Seq<char>,
    success: bool,
    code: Option<i32>,
    stdout: Seq<char>,
    stderr: Seq<char>,
) -> Result<(), Seq<char>> {
    if success {
        Ok(())
    } else {
        let c = match code {
            Some(c) => decimal_text(c as int),
            None => "unknown"@,
        };
        Err(label + " failed with exit code "@ + c + "\n"@ + output_excerpt(stdout, stderr))
    }
}

/// The outcome of a creation step that ran to its end.
pub fn step_outcome(
    label: &str,
    success: bool,
    code: Option<i32>,
    stdout: &str,
    stderr: &str,
) -> (r: Result<(), String>)
    ensures
        step_outcome_spec(label@, success, code, stdout@, stderr@) == match r {
            Ok(()) => Ok::<(), Seq<char>>(()),
            Err(e) => Err(e@),
        },
{
    if success {
        return Ok(());
    }
    let c = match code {
        Some(c) => decimal_string(c),
        None => owned("unknown"),
    };
    let mut m = concat(label, " failed with exit code ");
    m.append(c.as_str());
    m.append("\n");
    let e = command_output_excerpt(stdout, stderr);
    m.append(e.as_str());
    Err(m)
}

/// The error of a creation step stopped after running too long.
pub fn step_timeout_error(label: &str, stdout: &str, stderr: &str) -> (r: String)
    ensures
        r@ == label@ + " timed out after 10 minutes\n"@ + output_excerpt(stdout@, stderr@),
{
    let mut m = concat(label, " timed out after 10 minutes\n");
    let e = command_output_excerpt(stdout, stderr);
    m.append(e.as_str());
    m
}

/// A creation step is stopped once it has run longer than this many
/// nanoseconds (ten minutes).
pub const STEP_TIMEOUT_NANOS: u64 = 600_000_000_000;

/// What waiting for a running creation step found.
pub enum StepPoll {
    /// The step's process exited, successfully or not, with its code if any.
    Exited { success: bool, code: Option<i32> },
    /// The process still runs after the given number of nanoseconds.
    Running { elapsed_nanos: u64 },
    /// Waiting failed with the given error text.
    WaitFailed { error: String },
}

/// What to do next with a running creation step.
pub enum StepDecision {
    /// Read the rest of the output and finish with the step's outcome.
    Finish,
    /// Wait a moment and poll again.
    KeepWaiting,
    /// Stop the process group and fail with the timeout error.
    StopTimedOut,
    /// Stop the process group and fail with this error.
    StopFailed(String),
}

/// The decision after one poll of a running creation step: finish once it
/// exited, stop it after the time limit or when waiting failed, and wait
/// otherwise.
pub fn step_poll_decision(label: &str, poll: StepPoll) -> (r: StepDecision)
    ensures
        match poll {
            StepPoll::Exited { .. } => r is Finish,
            StepPoll::Running { elapsed_nanos } => if elapsed_nanos > STEP_TIMEOUT_NANOS {
                r is StopTimedOut
            } else {
                r is KeepWaiting
            },
            StepPoll::WaitFailed { error } => r matches StepDecision::StopFailed(m)
                && m@ == label@ + " failed while waiting: "@ + error@,
        },
{
    match poll {
        StepPoll::Exited { .. } => StepDecision::Finish,
        StepPoll::Running { elapsed_nanos } => if elapsed_nanos > STEP_TIMEOUT_NANOS {
            StepDecision::StopTimedOut
        } else {
            StepDecision::KeepWaiting
        },
        StepPoll::WaitFailed { error } => {
            let mut m = concat(label, " failed while waiting: ");
            m.append(error.as_str());
            StepDecision::StopFailed(m)
        },
    }
}

/// The README that every scaffold writes.
pub open spec fn readme_text(project_name: Seq<char>) -> Seq<char> {
    "# "@ + project_name + "\n\nCreated with ProLaunch.\n"@
}

/// The README that every scaffold writes.
pub fn readme_content(project_name: &str) -> (r: String)
    ensures
        r@ == readme_text(project_name@),
{
    concat3("# ", project_name, "\n\nCreated with ProLaunch.\n")
}

/// The command line that a scaffold step shows.
pub open spec fn scaffold_text(project_name: Seq<char>) -> Seq<char> {
    "$ ProLaunch scaffold "@ + project_name
}

/// The command line that a scaffold step shows.
pub fn scaffold_display(project_name: &str) -> (r: String)
    ensures
        r@ == scaffold_text(project_name@),
{
    concat("$ ProLaunch scaffold ", project_name)
}

/// A file to write: the path `part` under `dir`, and its content.
pub fn file_entry(p: Platform, dir: &str, part: &str, content: String) -> (r: (String, String))
    ensures
        r.0@ == crate::platform::join_path(p, dir@, part@),
        r.1@ == content@,
{
    (crate::platform::join(p, dir, part), content)
}

} // verus!
