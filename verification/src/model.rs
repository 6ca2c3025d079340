//! The values the launcher hands around: scripts, projects, tool commands and
//! the steps that create a project, each with its mathematical view.

use vstd::prelude::*;
use crate::text::{find_map, lemma_find_map_end, lemma_find_map_hit, lemma_find_map_skip,
    lemma_find_map_start, owned, str_eq};

verus! {

/// The operating system family that decides program names, quoting and path
/// separators.
#[derive(Clone, Copy, PartialEq, Eq, Debug)]
pub enum Platform {
    Unix,
    Windows,
}

/// A runnable script of a project.
#[derive(Clone, PartialEq, Eq, Debug)]
pub struct ScriptInfo {
    pub name: String,
    pub command: String,
    pub package_manager: Option<String>,
    pub source: Option<String>,
}

pub struct ScriptView {
    pub name: Seq<char>,
    pub command: Seq<char>,
    pub package_manager: Option<Seq<char>>,
    pub source: Option<Seq<char>>,
}

impl DeepView for ScriptInfo {
    type V = ScriptView;

    open spec fn deep_view(&self) -> ScriptView {
        ScriptView {
            name: self.name@,
            command: self.command@,
            package_manager: self.package_manager.deep_view(),
            source: self.source.deep_view(),
        }
    }
}

/// The view of a script that a package manager runs, read from `source`.
pub open spec fn script_view(
    name: Seq<char>,
    command: Seq<char>,
    package_manager: Seq<char>,
    source: Seq<char>,
) -> ScriptView {
    ScriptView { name, command, package_manager: Some(package_manager), source: Some(source) }
}

/// A script run by `package_manager`, read from `source`.
pub fn script_info(name: &str, command: &str, package_manager: &str, source: &str) -> (r:
    ScriptInfo)
    ensures
        r.deep_view() == script_view(name@, command@, package_manager@, source@),
{
    ScriptInfo {
        name: owned(name),
        command: owned(command),
        package_manager: Some(owned(package_manager)),
        source: Some(owned(source)),
    }
}

/// A project as the launcher shows it.
#[derive(Clone, PartialEq, Eq, Debug)]
pub struct ProjectInfo {
    pub name: String,
    pub path: String,
    pub scripts: Vec<ScriptInfo>,
    pub package_manager: String,
}

pub struct ProjectView {
    pub name: Seq<char>,
    pub path: Seq<char>,
    pub scripts: Seq<ScriptView>,
    pub package_manager: Seq<char>,
}

impl DeepView for ProjectInfo {
    type V = ProjectView;

    open spec fn deep_view(&self) -> ProjectView {
        ProjectView {
            name: self.name@,
            path: self.path@,
            scripts: self.scripts.deep_view(),
            package_manager: self.package_manager@,
        }
    }
}

/// A program with the arguments that always come first.
#[derive(Clone, PartialEq, Eq, Debug)]
pub struct ToolCommand {
    pub program: String,
    pub args: Vec<String>,
}

pub struct ToolView {
    pub program: Seq<char>,
    pub args: Seq<Seq<char>>,
}

impl DeepView for ToolCommand {
    type V = ToolView;

    open spec fn deep_view(&self) -> ToolView {
        ToolView { program: self.program@, args: self.args.deep_view() }
    }
}

/// What a creation step does: run its program, or write files.
#[derive(Clone, PartialEq, Eq, Debug)]
pub enum CreationStepAction {
    Command,
    /// Each file as its path and its content.
    WriteFiles(Vec<(String, String)>),
}

pub enum ActionView {
    Command,
    WriteFiles(Seq<(Seq<char>, Seq<char>)>),
}

impl DeepView for CreationStepAction {
    type V = ActionView;

    open spec fn deep_view(&self) -> ActionView {
        match self {
            CreationStepAction::Command => ActionView::Command,
            CreationStepAction::WriteFiles(files) => ActionView::WriteFiles(files.deep_view()),
        }
    }
}

/// One step of creating a project.
#[derive(Clone, PartialEq, Eq, Debug)]
pub struct CreationStep {
    pub label: String,
    pub program: String,
    pub args: Vec<String>,
    pub cwd: String,
    pub display_command: Option<String>,
    pub action: CreationStepAction,
}

pub struct StepView {
    pub label: Seq<char>,
    pub program: Seq<char>,
    pub args: Seq<Seq<char>>,
    pub cwd: Seq<char>,
    pub display_command: Option<Seq<char>>,
    pub action: ActionView,
}

impl DeepView for CreationStep {
    type V = StepView;

    open spec fn deep_view(&self) -> StepView {
        StepView {
            label: self.label@,
            program: self.program@,
            args: self.args.deep_view(),
            cwd: self.cwd@,
            display_command: self.display_command.deep_view(),
            action: self.action.deep_view(),
        }
    }
}

/// The view of a step that runs `program` with `args` in `cwd`.
pub open spec fn command_step_view(
    label: Seq<char>,
    program: Seq<char>,
    args: Seq<Seq<char>>,
    cwd: Seq<char>,
    display_command: Option<Seq<char>>,
) -> StepView {
    StepView { label, program, args, cwd, display_command, action: ActionView::Command }
}

/// The view of a step that writes `files`.
pub open spec fn write_step_view(
    label: Seq<char>,
    files: Seq<(Seq<char>, Seq<char>)>,
    cwd: Seq<char>,
    display_command: Seq<char>,
) -> StepView {
    StepView {
        label,
        program: Seq::empty(),
        args: Seq::empty(),
        cwd,
        display_command: Some(display_command),
        action: ActionView::WriteFiles(files),
    }
}

/// A tool that a project template needs before it can be created.
#[derive(Clone, Copy, PartialEq, Eq, Structural, Debug)]
pub enum ToolRequirement {
    Node,
    Npm,
    Npx,
    Php,
    Composer,
    Python,
    Dart,
    Flutter,
    Go,
    Java,
    Javac,
    Maven,
    Gradle,
    Ruby,
    Bundler,
}

/// The tools that creating a project prepared and that its steps use.
#[derive(Clone, Debug)]
pub struct CreateToolchain {
    pub composer: Option<ToolCommand>,
    pub python: Option<ToolCommand>,
}

/// Owned copies of string slices, in order.
pub fn strings(items: &[&str]) -> (r: Vec<String>)
    ensures
        r.deep_view() == items.deep_view(),
{
    let mut out: Vec<String> = Vec::new();
    let mut i: usize = 0;
    while i < items.len()
        invariant
            i <= items@.len(),
            out.deep_view() == items.deep_view().take(i as int),
        decreases items@.len() - i,
    {
        let ghost before = out.deep_view();
        out.push(owned(items[i]));
        assert(out.deep_view() =~= before.push(items[i as int]@));
        assert(items.deep_view().take(i + 1) =~= items.deep_view().take(i as int).push(
            items[i as int]@,
        ));
        i = i + 1;
    }
    assert(items.deep_view().take(items@.len() as int) =~= items.deep_view());
    out
}

/// A copy of a list of strings.
pub fn clone_strings(v: &Vec<String>) -> (r: Vec<String>)
    ensures
        r.deep_view() == v.deep_view(),
{
    let mut out: Vec<String> = Vec::new();
    let mut i: usize = 0;
    while i < v.len()
        invariant
            i <= v@.len(),
            out.deep_view() == v.deep_view().take(i as int),
        decreases v@.len() - i,
    {
        let ghost before = out.deep_view();
        out.push(v[i].clone());
        assert(out.deep_view() =~= before.push(v[i as int]@));
        assert(v.deep_view().take(i + 1) =~= v.deep_view().take(i as int).push(v[i as int]@));
        i = i + 1;
    }
    assert(v.deep_view().take(v@.len() as int) =~= v.deep_view());
    out
}

/// `a` followed by `b`, consumed.
pub fn append_strings(a: Vec<String>, b: Vec<String>) -> (r: Vec<String>)
    ensures
        r.deep_view() == a.deep_view() + b.deep_view(),
{
    let mut out = a;
    let ghost start = out.deep_view();
    let mut i: usize = 0;
    while i < b.len()
        invariant
            i <= b@.len(),
            out.deep_view() == start + b.deep_view().take(i as int),
        decreases b@.len() - i,
    {
        let ghost before = out.deep_view();
        out.push(b[i].clone());
        assert(out.deep_view() =~= before.push(b[i as int]@));
        assert(b.deep_view().take(i + 1) =~= b.deep_view().take(i as int).push(b[i as int]@));
        i = i + 1;
    }
    assert(b.deep_view().take(b@.len() as int) =~= b.deep_view());
    out
}

/// The scripts named in `items`, each with its command, all run by
/// `package_manager` and read from `source`.
pub open spec fn scripts_view(
    items: Seq<(Seq<char>, Seq<char>)>,
    package_manager: Seq<char>,
    source: Seq<char>,
) -> Seq<ScriptView> {
    items.map_values(
        |it: (Seq<char>, Seq<char>)| script_view(it.0, it.1, package_manager, source),
    )
}

/// Scripts from `(name, command)` pairs, all run by `package_manager` and
/// read from `source`.
pub fn script_list(items: Vec<(&str, &str)>, package_manager: &str, source: &str) -> (r: Vec<
    ScriptInfo,
>)
    ensures
        r.deep_view() == scripts_view(items.deep_view(), package_manager@, source@),
{
    let mut out: Vec<ScriptInfo> = Vec::new();
    let mut i: usize = 0;
    while i < items.len()
        invariant
            i <= items@.len(),
            out@.len() == i,
            forall|k: int|
                0 <= k < i ==> #[trigger] out@[k].deep_view() == script_view(
                    items@[k].0@,
                    items@[k].1@,
                    package_manager@,
                    source@,
                ),
        decreases items@.len() - i,
    {
        let (name, command) = items[i];
        out.push(script_info(name, command, package_manager, source));
        i = i + 1;
    }
    assert(out.deep_view() =~= scripts_view(items.deep_view(), package_manager@, source@));
    out
}

/// The command of a script named `name`.
pub open spec fn named_command(name: Seq<char>) -> spec_fn(ScriptView) -> Option<Seq<char>> {
    |s: ScriptView| if s.name == name { Some(s.command) } else { None }
}

/// The command of the first script named `name`.
pub open spec fn script_command_of(scripts: Seq<ScriptView>, name: Seq<char>) -> Option<Seq<char>> {
    find_map(scripts, named_command(name))
}

/// The command of the first script named `name`.
pub fn find_script_command(scripts: &Vec<ScriptInfo>, name: &str) -> (r: Option<String>)
    ensures
        r.deep_view() == script_command_of(scripts.deep_view(), name@),
{
    let ghost f = named_command(name@);
    let ghost sv = scripts.deep_view();
    proof {
        lemma_find_map_start(sv, f);
    }
    let mut i: usize = 0;
    while i < scripts.len()
        invariant
            f == named_command(name@),
            sv == scripts.deep_view(),
            i <= scripts@.len(),
            find_map(sv, f) == find_map(sv.skip(i as int), f),
        decreases scripts@.len() - i,
    {
        if str_eq(scripts[i].name.as_str(), name) {
            proof {
                assert(sv[i as int] == scripts@[i as int].deep_view());
                assert(f(sv[i as int]) == Some(scripts@[i as int].command@));
                lemma_find_map_hit(sv, f, i as int);
            }
            return Some(scripts[i].command.clone());
        }
        proof {
            assert(sv[i as int] == scripts@[i as int].deep_view());
            assert(f(sv[i as int]) is None);
            lemma_find_map_skip(sv, f, i as int);
        }
        i = i + 1;
    }
    proof {
        lemma_find_map_end(sv, f);
    }
    None
}

/// A copy of an optional string.
pub fn copy_opt(s: &Option<String>) -> (r: Option<String>)
    ensures
        r.deep_view() == s.deep_view(),
{
    match s {
        Some(x) => Some(x.clone()),
        None => None,
    }
}

/// A copy of a script.
pub fn copy_script(s: &ScriptInfo) -> (r: ScriptInfo)
    ensures
        r.deep_view() == s.deep_view(),
{
    ScriptInfo {
        name: s.name.clone(),
        command: s.command.clone(),
        package_manager: copy_opt(&s.package_manager),
        source: copy_opt(&s.source),
    }
}

/// Whether a script is named neither `a` nor `b`.
pub open spec fn not_named(a: Seq<char>, b: Seq<char>) -> spec_fn(ScriptView) -> bool {
    |s: ScriptView| s.name != a && s.name != b
}

/// The scripts named neither `a` nor `b`, in order.
pub fn retain_not_named(scripts: Vec<ScriptInfo>, a: &str, b: &str) -> (r: Vec<ScriptInfo>)
    ensures
        r.deep_view() == scripts.deep_view().filter(not_named(a@, b@)),
{
    let ghost sv = scripts.deep_view();
    let mut out: Vec<ScriptInfo> = Vec::new();
    let mut i: usize = 0;
    while i < scripts.len()
        invariant
            sv == scripts.deep_view(),
            i <= scripts@.len(),
            out.deep_view() == sv.take(i as int).filter(not_named(a@, b@)),
        decreases scripts@.len() - i,
    {
        proof {
            reveal(Seq::filter);
            assert(sv.take(i + 1).drop_last() =~= sv.take(i as int));
            assert(sv.take(i + 1).last() == scripts@[i as int].deep_view());
        }
        let keep = !str_eq(scripts[i].name.as_str(), a) && !str_eq(scripts[i].name.as_str(), b);
        if keep {
            let ghost before = out.deep_view();
            out.push(copy_script(&scripts[i]));
            assert(out.deep_view() =~= before.push(scripts@[i as int].deep_view()));
            assert(not_named(a@, b@)(sv[i as int]));
        } else {
            assert(!not_named(a@, b@)(sv[i as int]));
        }
        i = i + 1;
    }
    assert(sv.take(scripts@.len() as int) =~= sv);
    out
}

/// Scripts from `(name, command, source)` triples, all run by
/// `package_manager`.
pub open spec fn sourced_scripts_view(
    items: Seq<(Seq<char>, Seq<char>, Seq<char>)>,
    package_manager: Seq<char>,
) -> Seq<ScriptView> {
    items.map_values(
        |it: (Seq<char>, Seq<char>, Seq<char>)| script_view(it.0, it.1, package_manager, it.2),
    )
}

/// Scripts from `(name, command, source)` triples.
pub fn sourced_script_list(items: Vec<(&str, &str, &str)>, package_manager: &str) -> (r: Vec<
    ScriptInfo,
>)
    ensures
        r.deep_view() == sourced_scripts_view(items.deep_view(), package_manager@),
{
    let mut out: Vec<ScriptInfo> = Vec::new();
    let mut i: usize = 0;
    while i < items.len()
        invariant
            i <= items@.len(),
            out@.len() == i,
            forall|k: int|
                0 <= k < i ==> #[trigger] out@[k].deep_view() == script_view(
                    items@[k].0@,
                    items@[k].1@,
                    package_manager@,
                    items@[k].2@,
                ),
        decreases items@.len() - i,
    {
        let (name, command, source) = items[i];
        out.push(script_info(name, command, package_manager, source));
        i = i + 1;
    }
    assert(out.deep_view() =~= sourced_scripts_view(items.deep_view(), package_manager@));
    out
}

/// Which of the files that tell projects apart a project folder holds.
#[derive(Clone, Copy, Debug)]
pub struct ProjectFiles {
    pub composer_json: bool,
    pub package_json: bool,
    pub pyproject_toml: bool,
    pub main_py: bool,
    pub pubspec_yaml: bool,
    pub go_mod: bool,
    pub main_go: bool,
    pub pom_xml: bool,
    pub build_gradle: bool,
    pub build_gradle_kts: bool,
    pub gemfile: bool,
    pub main_rb: bool,
    pub pnpm_lock_yaml: bool,
    pub yarn_lock: bool,
    pub yarnrc_yml: bool,
    pub bun_lockb: bool,
    pub bun_lock: bool,
}

/// `a` followed by `b`.
pub fn extend_scripts(a: &mut Vec<ScriptInfo>, b: Vec<ScriptInfo>)
    ensures
        final(a).deep_view() == old(a).deep_view() + b.deep_view(),
{
    let ghost start = a.deep_view();
    let mut i: usize = 0;
    while i < b.len()
        invariant
            i <= b@.len(),
            a.deep_view() == start + b.deep_view().take(i as int),
        decreases b@.len() - i,
    {
        let ghost before = a.deep_view();
        a.push(copy_script(&b[i]));
        assert(a.deep_view() =~= before.push(b@[i as int].deep_view()));
        assert(b.deep_view().take(i + 1) =~= b.deep_view().take(i as int).push(
            b@[i as int].deep_view(),
        ));
        i = i + 1;
    }
    assert(b.deep_view().take(b@.len() as int) =~= b.deep_view());
}

/// Some script named `start` is run by `package_manager`.
pub open spec fn has_start_script(scripts: Seq<ScriptView>, package_manager: Seq<char>) -> bool {
    exists|i: int|
        0 <= i < scripts.len() && #[trigger] scripts[i].package_manager == Some(package_manager)
            && scripts[i].name == "start"@
}

/// Whether some script named `start` is run by `package_manager`.
pub fn has_start_for(scripts: &Vec<ScriptInfo>, package_manager: &str) -> (r: bool)
    ensures
        r == has_start_script(scripts.deep_view(), package_manager@),
{
    let mut i: usize = 0;
    while i < scripts.len()
        invariant
            i <= scripts@.len(),
            forall|j: int|
                0 <= j < i ==> !(#[trigger] scripts.deep_view()[j].package_manager == Some(
                    package_manager@,
                ) && scripts.deep_view()[j].name == "start"@),
        decreases scripts@.len() - i,
    {
        let s = &scripts[i];
        let ghost v = scripts.deep_view()[i as int];
        assert(v == s.deep_view());
        let pm_matches = match &s.package_manager {
            Some(pm) => str_eq(pm.as_str(), package_manager),
            None => false,
        };
        if pm_matches && str_eq(s.name.as_str(), "start") {
            assert(scripts.deep_view()[i as int].package_manager == Some(package_manager@));
            return true;
        }
        i = i + 1;
    }
    false
}

} // verus!
