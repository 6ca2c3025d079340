//! PHP and Composer: the programs, the launcher's own Composer install,
//! framework scaffolds, and `composer.json` projects.

use vstd::prelude::*;
use crate::common::{creation_step_from_strings, creation_step_with_display};
use crate::docs::{JsonValue, json_document, json_get, json_member, json_text, parse_json};
use crate::model::{
    CreationStep, Platform, ProjectInfo, ScriptInfo, ScriptView, StepView, ToolCommand, ToolView,
    append_strings, clone_strings, command_step_view, script_info, script_view,
};
use crate::platform::{
    file_name, join, join_path, package_manager_command, package_manager_program, parent_of,
    path_file_name, path_parent,
};
use crate::text::{
    concat, filter_map_seq, join_sep, join_strings, lemma_filter_map_step, lemma_take_all, owned,
    starts_with, starts_with_str, str_eq,
};

verus! {

/// Composer's program.
pub fn composer_bin(p: Platform) -> (r: String)
    ensures
        r@ == package_manager_program(p, "composer"@),
{
    package_manager_command(p, "composer")
}

/// PHP's program.
pub fn php_bin() -> (r: String)
    ensures
        r@ == "php"@,
{
    owned("php")
}

/// Where the launcher keeps its own Composer under its data folder: the
/// folder `tools/composer`, and `composer.phar` in it.
pub fn managed_composer_location(p: Platform, data_dir: &str) -> (r: (String, String))
    ensures
        r.0@ == join_path(p, join_path(p, data_dir@, "tools"@), "composer"@),
        r.1@ == join_path(p, r.0@, "composer.phar"@),
{
    let tools = join(p, data_dir, "tools");
    let dir = join(p, tools.as_str(), "composer");
    let file = join(p, dir.as_str(), "composer.phar");
    (dir, file)
}

/// The command that runs the launcher's own Composer with PHP.
pub fn managed_composer_command(composer_path: &str) -> (r: ToolCommand)
    ensures
        r.deep_view() == (ToolView { program: "php"@, args: seq![composer_path@] }),
{
    let r = ToolCommand { program: php_bin(), args: vec![owned(composer_path)] };
    assert(r.deep_view().args =~= seq![composer_path@]);
    r
}

/// The PHP code that downloads Composer's installer.
pub const DOWNLOAD_INSTALLER_PHP: &'static str = r#"
$ok = copy('https://getcomposer.org/installer', 'composer-setup.php');
if (!$ok) {
    fwrite(STDERR, "Could not download Composer installer\n");
    exit(1);
}
echo "Composer installer downloaded\n";
"#;

/// The PHP code that checks the installer against its published checksum.
pub const VERIFY_INSTALLER_PHP: &'static str = r#"
$expected = trim(file_get_contents('https://composer.github.io/installer.sig'));
$actual = hash_file('sha384', 'composer-setup.php');
if (!$expected || !hash_equals($expected, $actual)) {
    @unlink('composer-setup.php');
    fwrite(STDERR, "Invalid Composer installer checksum\n");
    exit(1);
}
echo "Composer installer verified\n";
"#;

/// The steps that install the launcher's own Composer into the folder of
/// `composer_path`: download the installer, check it, install, and run the
/// result once.
pub open spec fn composer_install_view(cache_dir: Seq<char>, composer_path: Seq<char>) -> Seq<StepView> {
    seq![
        command_step_view(
            "Download Composer installer"@,
            "php"@,
            seq!["-r"@, DOWNLOAD_INSTALLER_PHP@],
            cache_dir,
            Some("$ php -r \"download Composer installer\""@),
        ),
        command_step_view(
            "Verify Composer installer"@,
            "php"@,
            seq!["-r"@, VERIFY_INSTALLER_PHP@],
            cache_dir,
            Some("$ php -r \"verify Composer installer\""@),
        ),
        command_step_view(
            "Install Composer for ProLaunch"@,
            "php"@,
            seq![
                "composer-setup.php"@,
                "--quiet"@,
                "--install-dir"@,
                cache_dir,
                "--filename"@,
                "composer.phar"@,
            ],
            cache_dir,
            Some("$ php composer-setup.php --install-dir <ProLaunch tools> --filename composer.phar"@),
        ),
        command_step_view(
            "Verify Composer"@,
            "php"@,
            seq![composer_path, "--version"@],
            cache_dir,
            Some("$ php <ProLaunch tools>/composer.phar --version"@),
        ),
    ]
}

/// The steps that install the launcher's own Composer, or why its folder
/// cannot be found.
pub fn composer_install_steps(p: Platform, composer_path: &str) -> (r: Result<
    Vec<CreationStep>,
    String,
>)
    ensures
        match parent_of(p, composer_path@) {
            Some(dir) => r matches Ok(steps) && steps.deep_view() == composer_install_view(
                dir,
                composer_path@,
            ),
            None => r matches Err(e) && e@ == "Failed to resolve Composer cache folder"@,
        },
{
    let cache_dir = match path_parent(p, composer_path) {
        Some(d) => d,
        None => return Err(owned("Failed to resolve Composer cache folder")),
    };
    let a1 = vec![owned("-r"), owned(DOWNLOAD_INSTALLER_PHP)];
    let a2 = vec![owned("-r"), owned(VERIFY_INSTALLER_PHP)];
    let a3 = vec![
        owned("composer-setup.php"),
        owned("--quiet"),
        owned("--install-dir"),
        cache_dir.clone(),
        owned("--filename"),
        owned("composer.phar"),
    ];
    let a4 = vec![owned(composer_path), owned("--version")];
    assert(a1.deep_view() =~= seq!["-r"@, DOWNLOAD_INSTALLER_PHP@]);
    assert(a2.deep_view() =~= seq!["-r"@, VERIFY_INSTALLER_PHP@]);
    assert(a3.deep_view() =~= seq![
        "composer-setup.php"@,
        "--quiet"@,
        "--install-dir"@,
        cache_dir@,
        "--filename"@,
        "composer.phar"@,
    ]);
    assert(a4.deep_view() =~= seq![composer_path@, "--version"@]);
    let steps = vec![
        creation_step_with_display(
            "Download Composer installer",
            php_bin(),
            a1,
            cache_dir.as_str(),
            owned("$ php -r \"download Composer installer\""),
        ),
        creation_step_with_display(
            "Verify Composer installer",
            php_bin(),
            a2,
            cache_dir.as_str(),
            owned("$ php -r \"verify Composer installer\""),
        ),
        creation_step_with_display(
            "Install Composer for ProLaunch",
            php_bin(),
            a3,
            cache_dir.as_str(),
            owned("$ php composer-setup.php --install-dir <ProLaunch tools> --filename composer.phar"),
        ),
        creation_step_with_display(
            "Verify Composer",
            php_bin(),
            a4,
            cache_dir.as_str(),
            owned("$ php <ProLaunch tools>/composer.phar --version"),
        ),
    ];
    assert(steps.deep_view() =~= composer_install_view(cache_dir@, composer_path@));
    Ok(steps)
}

/// The arguments that create a project from a Composer package without
/// prompts or progress.
pub open spec fn composer_create_args(
    composer: ToolView,
    package: Seq<char>,
    project_name: Seq<char>,
) -> Seq<Seq<char>> {
    composer.args + seq![
        "create-project"@,
        "--no-interaction"@,
        "--no-progress"@,
        package,
        project_name,
    ]
}

/// The step that creates a project from a Composer package.
pub open spec fn composer_create_project_view(
    label: Seq<char>,
    package: Seq<char>,
    project_name: Seq<char>,
    parent_dir: Seq<char>,
    composer: ToolView,
) -> Seq<StepView> {
    seq![
        command_step_view(
            label,
            composer.program,
            composer_create_args(composer, package, project_name),
            parent_dir,
            None,
        ),
    ]
}

/// The step that creates a project from a Composer package.
pub fn composer_create_project_steps(
    label: &str,
    package: &str,
    project_name: &str,
    parent_dir: &str,
    composer: &ToolCommand,
) -> (r: Vec<CreationStep>)
    ensures
        r.deep_view() == composer_create_project_view(
            label@,
            package@,
            project_name@,
            parent_dir@,
            composer.deep_view(),
        ),
{
    let extra = vec![
        owned("create-project"),
        owned("--no-interaction"),
        owned("--no-progress"),
        owned(package),
        owned(project_name),
    ];
    assert(extra.deep_view() =~= seq![
        "create-project"@,
        "--no-interaction"@,
        "--no-progress"@,
        package@,
        project_name@,
    ]);
    let args = append_strings(clone_strings(&composer.args), extra);
    let r = vec![creation_step_from_strings(label, composer.program.clone(), args, parent_dir)];
    assert(r.deep_view() =~= seq![r@[0].deep_view()]);
    r
}

/// The command of a `composer.json` script: its text, or its string items
/// joined with ` && `, or empty.
pub open spec fn composer_command_text(cmd: JsonValue) -> Seq<char> {
    match cmd {
        JsonValue::Str(s) => s@,
        JsonValue::Array(items) => join_sep(
            filter_map_seq(items@, |x: JsonValue| json_text(x)),
            " && "@,
        ),
        _ => Seq::empty(),
    }
}

/// The command of a `composer.json` script.
pub fn composer_script_command(cmd: &JsonValue) -> (r: String)
    ensures
        r@ == composer_command_text(*cmd),
{
    match cmd {
        JsonValue::Str(s) => s.clone(),
        JsonValue::Array(items) => {
            let ghost f = |x: JsonValue| json_text(x);
            let mut texts: Vec<String> = Vec::new();
            let mut i: usize = 0;
            while i < items.len()
                invariant
                    i <= items@.len(),
                    f == (|x: JsonValue| json_text(x)),
                    texts.deep_view() == filter_map_seq(items@.take(i as int), f),
                decreases items@.len() - i,
            {
                proof {
                    lemma_filter_map_step(items@, f, i as int);
                }
                match &items[i] {
                    JsonValue::Str(s) => {
                        let ghost before = texts.deep_view();
                        texts.push(s.clone());
                        assert(texts.deep_view() =~= before.push(s@));
                    },
                    _ => {},
                }
                i = i + 1;
            }
            proof {
                lemma_take_all(items@);
            }
            join_strings(&texts, " && ")
        },
        _ => String::new(),
    }
}

/// Composer runs these scripts itself around its own commands.
pub open spec fn composer_lifecycle(name: Seq<char>) -> bool {
    name == "auto-scripts"@ || starts_with(name, "pre-"@) || starts_with(name, "post-"@)
}

/// Whether a `composer.json` script is one that Composer runs itself.
pub fn is_composer_lifecycle_script(name: &str) -> (r: bool)
    ensures
        r == composer_lifecycle(name@),
{
    str_eq(name, "auto-scripts") || starts_with_str(name, "pre-") || starts_with_str(name, "post-")
}

/// A Composer project's name: its folder's name; when the path has none,
/// the document's `name`; `Untitled Project` otherwise.
pub open spec fn composer_name_view(p: Platform, project_dir: Seq<char>, doc: JsonValue) -> Seq<char> {
    match file_name(p, project_dir) {
        Some(n) => n,
        None => match json_member(doc, "name"@) {
            Some(JsonValue::Str(n)) => n@,
            _ => "Untitled Project"@,
        },
    }
}

/// A Composer project's name.
pub fn composer_project_name(p: Platform, project_dir: &str, doc: &JsonValue) -> (r: String)
    ensures
        r@ == composer_name_view(p, project_dir@, *doc),
{
    match path_file_name(p, project_dir) {
        Some(n) => n,
        None => match json_get(doc, "name") {
            Some(JsonValue::Str(n)) => n.clone(),
            _ => owned("Untitled Project"),
        },
    }
}

/// The script an entry of the `scripts` object gives: none for lifecycle
/// scripts and for empty commands.
pub open spec fn composer_entry_script() -> spec_fn((String, JsonValue)) -> Option<ScriptView> {
    |e: (String, JsonValue)|
        if composer_lifecycle(e.0@) {
            None
        } else {
            let c = composer_command_text(e.1);
            if c.len() == 0 {
                None
            } else {
                Some(script_view(e.0@, c, "composer"@, "composer.json"@))
            }
        }
}

/// The scripts of a `composer.json` document.
pub open spec fn composer_scripts_view(doc: JsonValue) -> Seq<ScriptView> {
    match json_member(doc, "scripts"@) {
        Some(JsonValue::Object(es)) => filter_map_seq(es@, composer_entry_script()),
        _ => Seq::empty(),
    }
}

/// A Composer project from its parsed `composer.json`: its own scripts, in
/// order, without those Composer runs itself and those with no command.
pub fn composer_project_from_doc(
    project_path: String,
    p: Platform,
    project_dir: &str,
    doc: &JsonValue,
) -> (r: ProjectInfo)
    ensures
        r.name@ == composer_name_view(p, project_dir@, *doc),
        r.path@ == project_path@,
        r.scripts.deep_view() == composer_scripts_view(*doc),
        r.package_manager@ == "composer"@,
{
    let name = composer_project_name(p, project_dir, doc);
    let mut scripts: Vec<ScriptInfo> = Vec::new();
    match json_get(doc, "scripts") {
        Some(JsonValue::Object(es)) => {
            let ghost f = composer_entry_script();
            let mut i: usize = 0;
            while i < es.len()
                invariant
                    i <= es@.len(),
                    f == composer_entry_script(),
                    scripts.deep_view() == filter_map_seq(es@.take(i as int), f),
                decreases es@.len() - i,
            {
                proof {
                    lemma_filter_map_step(es@, f, i as int);
                }
                if !is_composer_lifecycle_script(es[i].0.as_str()) {
                    let command = composer_script_command(&es[i].1);
                    if command.as_str().unicode_len() != 0 {
                        let ghost before = scripts.deep_view();
                        let item = script_info(
                            es[i].0.as_str(),
                            command.as_str(),
                            "composer",
                            "composer.json",
                        );
                        let ghost v = item.deep_view();
                        scripts.push(item);
                        assert(scripts.deep_view() =~= before.push(v));
                    }
                }
                i = i + 1;
            }
            proof {
                lemma_take_all(es@);
            }
        },
        _ => {
            assert(scripts.deep_view() =~= composer_scripts_view(*doc));
        },
    }
    ProjectInfo { name, path: project_path, scripts, package_manager: owned("composer") }
}

/// A Composer project read from the text of its `composer.json`.
pub fn read_composer_project(
    project_path: String,
    p: Platform,
    project_dir: &str,
    content: &str,
) -> (r: Result<ProjectInfo, String>)
    ensures
        match json_document(content@) {
            Ok(doc) => r matches Ok(info) && info.name@ == composer_name_view(p, project_dir@, doc)
                && info.path@ == project_path@ && info.scripts.deep_view() == composer_scripts_view(
                doc,
            ) && info.package_manager@ == "composer"@,
            Err(e) => r matches Err(m) && m@ == "Invalid composer.json: "@ + e,
        },
{
    match parse_json(content) {
        Ok(doc) => Ok(composer_project_from_doc(project_path, p, project_dir, &doc)),
        Err(e) => Err(concat("Invalid composer.json: ", e.as_str())),
    }
}

} // verus!
