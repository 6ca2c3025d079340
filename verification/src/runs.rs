//! Running a project's scripts: the command a script runs, the command that
//! watches it for the launcher, the keys it is known by, and the registry of
//! the scripts that are running.

use vstd::prelude::*;
use crate::common::{
    UNIX_PARENT_WATCH_SCRIPT, WINDOWS_PARENT_WATCH_SCRIPT, creation_parent_watch_script,
    decimal_digits, process_id_text,
};
use crate::model::{CreationStep, Platform, ToolCommand, ToolView, append_strings, clone_strings};
use crate::platform::{
    package_manager_command, package_manager_program, package_manager_run_command,
    shell_tool_command, shell_tool_view,
};
use crate::stores::{KeyedStore, entries_map, keys_unique};
use crate::text::{concat, concat3, join_sep, join_strings, owned, starts_with, str_eq};

verus! {

/// The command that runs `program` with `args` under the watch script, which
/// stops it when the launcher's process `parent_pid` is gone. `runner` names
/// the script's process on Unix.
pub open spec fn watched_view(
    p: Platform,
    runner: Seq<char>,
    parent_pid: Seq<char>,
    program: Seq<char>,
    args: Seq<Seq<char>>,
) -> ToolView {
    match p {
        Platform::Unix => ToolView {
            program: "sh"@,
            args: seq!["-c"@, UNIX_PARENT_WATCH_SCRIPT@, runner, parent_pid, program] + args,
        },
        Platform::Windows => ToolView {
            program: "powershell.exe"@,
            args: seq![
                "-NoLogo"@,
                "-NoProfile"@,
                "-NonInteractive"@,
                "-ExecutionPolicy"@,
                "Bypass"@,
                "-Command"@,
                WINDOWS_PARENT_WATCH_SCRIPT@,
                parent_pid,
                program,
            ] + args,
        },
    }
}

/// The command that runs `program` with `args` under the watch script.
fn watched_command(p: Platform, runner: &str, parent_pid: u32, program: &String, args: &Vec<String>) -> (r:
    ToolCommand)
    ensures
        r.deep_view() == watched_view(
            p,
            runner@,
            decimal_digits(parent_pid as nat),
            program@,
            args.deep_view(),
        ),
{
    let script = creation_parent_watch_script(p);
    let head = match p {
        Platform::Unix => vec![
            owned("-c"),
            owned(script),
            owned(runner),
            process_id_text(parent_pid),
            program.clone(),
        ],
        Platform::Windows => vec![
            owned("-NoLogo"),
            owned("-NoProfile"),
            owned("-NonInteractive"),
            owned("-ExecutionPolicy"),
            owned("Bypass"),
            owned("-Command"),
            owned(script),
            process_id_text(parent_pid),
            program.clone(),
        ],
    };
    let shell = match p {
        Platform::Unix => owned("sh"),
        Platform::Windows => owned("powershell.exe"),
    };
    let r = ToolCommand { program: shell, args: append_strings(head, clone_strings(args)) };
    assert(r.deep_view().args =~= watched_view(
        p,
        runner@,
        decimal_digits(parent_pid as nat),
        program@,
        args.deep_view(),
    ).args);
    r
}

/// The command that runs a creation step's program under the watch script.
pub fn creation_command(p: Platform, step: &CreationStep, parent_pid: u32) -> (r: ToolCommand)
    ensures
        r.deep_view() == watched_view(
            p,
            "prolaunch-create-step"@,
            decimal_digits(parent_pid as nat),
            step.program@,
            step.args.deep_view(),
        ),
{
    watched_command(p, "prolaunch-create-step", parent_pid, &step.program, &step.args)
}

/// The command that runs a script's invocation under the watch script.
pub fn script_command(p: Platform, invocation: &ToolCommand, parent_pid: u32) -> (r: ToolCommand)
    ensures
        r.deep_view() == watched_view(
            p,
            "prolaunch-runner"@,
            decimal_digits(parent_pid as nat),
            invocation.program@,
            invocation.args.deep_view(),
        ),
{
    watched_command(p, "prolaunch-runner", parent_pid, &invocation.program, &invocation.args)
}

/// Where the command of a script comes from, by the package manager it
/// runs with.
#[derive(Clone, Copy, PartialEq, Eq, Structural, Debug)]
pub enum ScriptSourceKind {
    /// A command the user saved for the project.
    Custom,
    /// A script of `composer.json`, run by Composer.
    Composer,
    /// A command line of the Python project.
    Python,
    /// A command line of the Dart or Flutter project.
    Pub,
    /// A command line of the Go project.
    Go,
    /// The command line of a plain Java project.
    Java,
    /// A command line of the Maven project.
    Maven,
    /// A command line of the Gradle project.
    Gradle,
    /// A command line of the Ruby project.
    Ruby,
    /// A script that the package manager runs itself.
    PackageScript,
}

/// Where the command of a script run with `package_manager` comes from.
pub open spec fn source_kind_of(package_manager: Seq<char>) -> ScriptSourceKind {
    if package_manager == "custom"@ {
        ScriptSourceKind::Custom
    } else if package_manager == "composer"@ {
        ScriptSourceKind::Composer
    } else if package_manager == "python"@ {
        ScriptSourceKind::Python
    } else if package_manager == "dart"@ || package_manager == "flutter"@ {
        ScriptSourceKind::Pub
    } else if package_manager == "go"@ {
        ScriptSourceKind::Go
    } else if package_manager == "java"@ {
        ScriptSourceKind::Java
    } else if package_manager == "maven"@ {
        ScriptSourceKind::Maven
    } else if package_manager == "gradle"@ {
        ScriptSourceKind::Gradle
    } else if package_manager == "ruby"@ {
        ScriptSourceKind::Ruby
    } else {
        ScriptSourceKind::PackageScript
    }
}

/// Each package manager that runs commands of its own project has a source
/// of its own, Dart and Flutter sharing one; every other package manager runs
/// the script itself.
pub proof fn law_script_source_kinds(pm: Seq<char>)
    ensures
        source_kind_of(pm) is Custom <==> pm == "custom"@,
        source_kind_of(pm) is Composer <==> pm == "composer"@,
        source_kind_of(pm) is Python <==> pm == "python"@,
        source_kind_of(pm) is Pub <==> (pm == "dart"@ || pm == "flutter"@),
        source_kind_of(pm) is Go <==> pm == "go"@,
        source_kind_of(pm) is Java <==> pm == "java"@,
        source_kind_of(pm) is Maven <==> pm == "maven"@,
        source_kind_of(pm) is Gradle <==> pm == "gradle"@,
        source_kind_of(pm) is Ruby <==> pm == "ruby"@,
        source_kind_of(pm) is PackageScript <==> !(pm == "custom"@ || pm == "composer"@ || pm
            == "python"@ || pm == "dart"@ || pm == "flutter"@ || pm == "go"@ || pm == "java"@
            || pm == "maven"@ || pm == "gradle"@ || pm == "ruby"@),
{
    reveal_strlit("custom");
    reveal_strlit("composer");
    reveal_strlit("python");
    reveal_strlit("dart");
    reveal_strlit("flutter");
    reveal_strlit("go");
    reveal_strlit("java");
    reveal_strlit("maven");
    reveal_strlit("gradle");
    reveal_strlit("ruby");
    assert("custom"@.len() == 6 && "custom"@[0] == 'c');
    assert("composer"@.len() == 8 && "composer"@[0] == 'c');
    assert("python"@.len() == 6 && "python"@[0] == 'p');
    assert("dart"@.len() == 4 && "dart"@[0] == 'd');
    assert("flutter"@.len() == 7 && "flutter"@[0] == 'f');
    assert("go"@.len() == 2 && "go"@[0] == 'g');
    assert("java"@.len() == 4 && "java"@[0] == 'j');
    assert("maven"@.len() == 5 && "maven"@[0] == 'm');
    assert("gradle"@.len() == 6 && "gradle"@[0] == 'g');
    assert("ruby"@.len() == 4 && "ruby"@[0] == 'r');
}

/// Where the command of a script run with `package_manager` comes from.
pub fn script_source_kind(package_manager: &str) -> (r: ScriptSourceKind)
    ensures
        r == source_kind_of(package_manager@),
{
    if str_eq(package_manager, "custom") {
        ScriptSourceKind::Custom
    } else if str_eq(package_manager, "composer") {
        ScriptSourceKind::Composer
    } else if str_eq(package_manager, "python") {
        ScriptSourceKind::Python
    } else if str_eq(package_manager, "dart") || str_eq(package_manager, "flutter") {
        ScriptSourceKind::Pub
    } else if str_eq(package_manager, "go") {
        ScriptSourceKind::Go
    } else if str_eq(package_manager, "java") {
        ScriptSourceKind::Java
    } else if str_eq(package_manager, "maven") {
        ScriptSourceKind::Maven
    } else if str_eq(package_manager, "gradle") {
        ScriptSourceKind::Gradle
    } else if str_eq(package_manager, "ruby") {
        ScriptSourceKind::Ruby
    } else {
        ScriptSourceKind::PackageScript
    }
}

/// What was found out to run a script, by the kind of its source.
pub enum ScriptSource {
    /// The command line the shell runs, or why there is none.
    CommandLine(Result<String, String>),
    /// Whether Composer on the path answers, and the launcher's own
    /// `composer.phar` when it is there and answers through PHP.
    Composer { system_available: bool, managed: Option<String> },
    /// Nothing: the package manager runs the script itself.
    PackageScript,
}

/// The message when no Composer can run a PHP script.
pub open spec fn composer_required_message() -> Seq<char> {
    "Composer is required to run this PHP script. Create a PHP project once with ProLaunch setup, or install Composer on PATH."@
}

/// The command that runs a script, or why there is none: a command line
/// runs in the shell; a Composer script runs with Composer on the path, else
/// with the launcher's own Composer through PHP; any other script runs with
/// its package manager's `run`.
pub open spec fn invocation_of(
    p: Platform,
    package_manager: Seq<char>,
    script_name: Seq<char>,
    source: ScriptSource,
) -> Result<ToolView, Seq<char>> {
    match source {
        ScriptSource::CommandLine(Ok(line)) => Ok(shell_tool_view(p, line@)),
        ScriptSource::CommandLine(Err(e)) => Err(e@),
        ScriptSource::Composer { system_available, managed } => if system_available {
            Ok(
                ToolView {
                    program: package_manager_program(p, "composer"@),
                    args: seq!["run-script"@, script_name],
                },
            )
        } else {
            match managed {
                Some(path) => Ok(
                    ToolView { program: "php"@, args: seq![path@, "run-script"@, script_name] },
                ),
                None => Err(composer_required_message()),
            }
        },
        ScriptSource::PackageScript => Ok(
            ToolView {
                program: package_manager_program(p, package_manager),
                args: seq![
                    if package_manager == "composer"@ {
                        "run-script"@
                    } else {
                        "run"@
                    },
                    script_name,
                ],
            },
        ),
    }
}

/// The command that runs a script, or why there is none.
pub fn script_invocation(
    p: Platform,
    package_manager: &str,
    script_name: &str,
    source: ScriptSource,
) -> (r: Result<ToolCommand, String>)
    ensures
        match invocation_of(p, package_manager@, script_name@, source) {
            Ok(t) => r matches Ok(c) && c.deep_view() == t,
            Err(e) => r matches Err(m) && m@ == e,
        },
{
    match source {
        ScriptSource::CommandLine(Ok(line)) => Ok(shell_tool_command(p, line)),
        ScriptSource::CommandLine(Err(e)) => Err(e),
        ScriptSource::Composer { system_available, managed } => {
            if system_available {
                let r = ToolCommand {
                    program: package_manager_command(p, "composer"),
                    args: vec![owned("run-script"), owned(script_name)],
                };
                assert(r.args.deep_view() =~= seq!["run-script"@, script_name@]);
                Ok(r)
            } else {
                match managed {
                    Some(path) => {
                        let r = ToolCommand {
                            program: owned("php"),
                            args: vec![path, owned("run-script"), owned(script_name)],
                        };
                        assert(r.args.deep_view() =~= seq![
                            r.args@[0]@,
                            "run-script"@,
                            script_name@,
                        ]);
                        Ok(r)
                    },
                    None => Err(
                        owned(
                            "Composer is required to run this PHP script. Create a PHP project once with ProLaunch setup, or install Composer on PATH.",
                        ),
                    ),
                }
            }
        },
        ScriptSource::PackageScript => {
            let r = ToolCommand {
                program: package_manager_command(p, package_manager),
                args: vec![owned(package_manager_run_command(package_manager)), owned(script_name)],
            };
            assert(r.args.deep_view() =~= seq![
                r.args@[0]@,
                script_name@,
            ]);
            Ok(r)
        },
    }
}

/// The key a run of a script is known by in its project: the one the caller
/// gave, or the package manager and the script's name.
pub open spec fn run_key_of(
    requested: Option<Seq<char>>,
    package_manager: Seq<char>,
    script_name: Seq<char>,
) -> Seq<char> {
    match requested {
        Some(k) => k,
        None => package_manager + ":"@ + script_name,
    }
}

/// The key a run of a script is known by in its project.
pub fn run_key(requested: Option<String>, package_manager: &str, script_name: &str) -> (r: String)
    ensures
        r@ == run_key_of(requested.deep_view(), package_manager@, script_name@),
{
    match requested {
        Some(k) => k,
        None => concat3(package_manager, ":", script_name),
    }
}

/// The key a running script is registered under: its project's path, `::`
/// and its run key.
pub open spec fn process_key_of(project_path: Seq<char>, run_key: Seq<char>) -> Seq<char> {
    project_path + "::"@ + run_key
}

/// The key a running script is registered under.
pub fn process_key(project_path: &str, run_key: &str) -> (r: String)
    ensures
        r@ == process_key_of(project_path@, run_key@),
{
    concat3(project_path, "::", run_key)
}

/// The start that all keys of a project's running scripts share.
pub fn project_key_prefix(project_path: &str) -> (r: String)
    ensures
        r@ == project_path@ + "::"@,
{
    concat(project_path, "::")
}

/// A script that is running, as the registry keeps it: the number of its
/// run and its process id.
#[derive(Clone, Copy, PartialEq, Eq, Structural, Debug)]
pub struct RunningScript {
    pub run_id: u64,
    pub pid: u32,
}

/// The message when a script is started while it runs.
pub open spec fn already_running_message(script_name: Seq<char>) -> Seq<char> {
    "Script '"@ + script_name + "' is already running"@
}

/// The message when no run of a script is registered.
pub open spec fn not_running_message(script_name: Seq<char>) -> Seq<char> {
    "No running process found for '"@ + script_name + "'"@
}

/// Refuses to start a script whose key is registered.
pub fn ensure_not_running(registry: &KeyedStore<RunningScript>, key: &str, script_name: &str) -> (r:
    Result<(), String>)
    ensures
        registry.view().contains_key(key@) <==> r is Err,
        r matches Err(e) ==> e@ == already_running_message(script_name@),
{
    if registry.contains_key(key) {
        Err(concat3("Script '", script_name, "' is already running"))
    } else {
        Ok(())
    }
}

/// Whether the run registered under `key` is the run `run_id`.
pub fn is_current_run(registry: &KeyedStore<RunningScript>, key: &str, run_id: u64) -> (r: bool)
    ensures
        r == (registry.view().contains_key(key@) && registry.view()[key@].run_id == run_id),
{
    match registry.get(key) {
        Some(run) => run.run_id == run_id,
        None => false,
    }
}

/// Ends the run `run_id` of the key `key`: it leaves the registry when it is
/// still the run registered there; a newer run stays.
pub fn finish_run(registry: &mut KeyedStore<RunningScript>, key: &str, run_id: u64) -> (r: Option<
    RunningScript,
>)
    ensures
        ({
            let current = old(registry).view().contains_key(key@) && old(registry).view()[key@].run_id
                == run_id;
            &&& current ==> r == Some(old(registry).view()[key@]) && final(registry).view()
                == old(registry).view().remove(key@)
            &&& !current ==> r is None && final(registry).view() == old(registry).view()
        }),
{
    if is_current_run(registry, key, run_id) {
        registry.remove(key)
    } else {
        None
    }
}

/// Takes the run registered under `key` out of the registry, to stop it.
pub fn stop_run(registry: &mut KeyedStore<RunningScript>, key: &str, script_name: &str) -> (r:
    Result<RunningScript, String>)
    ensures
        final(registry).view() == old(registry).view().remove(key@),
        old(registry).view().contains_key(key@) ==> r == Ok::<RunningScript, String>(
            old(registry).view()[key@],
        ),
        !old(registry).view().contains_key(key@) ==> (r matches Err(e) && e@ == not_running_message(
            script_name@,
        )),
{
    match registry.remove(key) {
        Some(run) => Ok(run),
        None => Err(concat3("No running process found for '", script_name, "'")),
    }
}

/// The run registered under `key`, to send it input.
pub fn input_target(registry: &KeyedStore<RunningScript>, key: &str, script_name: &str) -> (r: Result<
    RunningScript,
    String,
>)
    ensures
        registry.view().contains_key(key@) ==> r == Ok::<RunningScript, String>(
            registry.view()[key@],
        ),
        !registry.view().contains_key(key@) ==> (r matches Err(e) && e@ == not_running_message(
            script_name@,
        )),
{
    match registry.get(key) {
        Some(run) => Ok(*run),
        None => Err(concat3("No running process found for '", script_name, "'")),
    }
}

/// Takes every run of a project out of the registry, to stop them; the runs
/// of other projects stay.
pub fn stop_project_runs(registry: &mut KeyedStore<RunningScript>, project_path: &str) -> (r: Vec<
    (String, RunningScript),
>)
    ensures
        keys_unique(r@),
        entries_map(r@) == old(registry).view().restrict(
            old(registry).view().dom().filter(
                |k: Seq<char>| starts_with(k, project_path@ + "::"@),
            ),
        ),
        final(registry).view() == old(registry).view().restrict(
            old(registry).view().dom().filter(
                |k: Seq<char>| !starts_with(k, project_path@ + "::"@),
            ),
        ),
{
    let prefix = project_key_prefix(project_path);
    registry.remove_prefixed(prefix.as_str())
}

/// The outcome of stopping several runs: done when none failed, else the
/// failures joined with `; `.
pub fn stop_outcome(errors: &Vec<String>) -> (r: Result<(), String>)
    ensures
        errors@.len() == 0 ==> r is Ok,
        errors@.len() > 0 ==> (r matches Err(e) && e@ == join_sep(errors.deep_view(), "; "@)),
{
    if errors.len() == 0 {
        Ok(())
    } else {
        Err(join_strings(errors, "; "))
    }
}

/// The keys of a run of a script that may start.
pub struct RunKeys {
    pub run_key: String,
    pub process_key: String,
}

/// The keys of a run of a script, or that it is already running.
pub fn plan_run(
    registry: &KeyedStore<RunningScript>,
    project_path: &str,
    script_name: &str,
    package_manager: &str,
    requested_key: Option<String>,
) -> (r: Result<RunKeys, String>)
    ensures
        ({
            let rk = run_key_of(requested_key.deep_view(), package_manager@, script_name@);
            let pk = process_key_of(project_path@, rk);
            &&& registry.view().contains_key(pk) ==> (r matches Err(e) && e@
                == already_running_message(script_name@))
            &&& !registry.view().contains_key(pk) ==> (r matches Ok(k) && k.run_key@ == rk
                && k.process_key@ == pk)
        }),
{
    let rk = run_key(requested_key, package_manager, script_name);
    let pk = process_key(project_path, rk.as_str());
    match ensure_not_running(registry, pk.as_str(), script_name) {
        Ok(()) => Ok(RunKeys { run_key: rk, process_key: pk }),
        Err(e) => Err(e),
    }
}

/// Every key a run of a project is registered under starts with the
/// project's prefix, so stopping the project's runs reaches each of them.
pub proof fn law_process_key_has_project_prefix(project_path: Seq<char>, run_key: Seq<char>)
    ensures
        starts_with(process_key_of(project_path, run_key), project_path + "::"@),
{
    let k = process_key_of(project_path, run_key);
    assert(k.subrange(0, (project_path + "::"@).len() as int) =~= project_path + "::"@);
}

} // verus!
