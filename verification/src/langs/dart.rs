//! Dart and Flutter: SDK program names, scaffolds, and `pubspec.yaml`
//! projects.

use vstd::prelude::*;
use crate::common::{creation_step, folder_project_name, python_folder_project_name};
use crate::model::{
    CreationStep, Platform, ProjectInfo, ScriptInfo, ScriptView, StepView, command_step_view,
    find_script_command, script_command_of, script_list, scripts_view,
};
use crate::platform::{by_platform, pick};
use crate::text::{CharClass, char_is_whitespace, chars_of, contains_str, contains_text, find_map, is_whitespace, lemma_find_map_end, lemma_find_map_hit, lemma_find_map_skip, lemma_find_map_start, lemma_window_line, lines, lines_of, owned, starts_with, string_of_range, trim, trim_class, trim_window, window_starts_with, str_eq};

verus! {

/// The Dart SDK's program.
pub fn dart_bin(p: Platform) -> (r: String)
    ensures
        r@ == by_platform(p, "dart"@, "dart.exe"@),
{
    pick(p, "dart", "dart.exe")
}

/// The Flutter SDK's program.
pub fn flutter_bin(p: Platform) -> (r: String)
    ensures
        r@ == by_platform(p, "flutter"@, "flutter.bat"@),
{
    pick(p, "flutter", "flutter.bat")
}

/// A pubspec belongs to a Flutter project when it names the Flutter SDK or
/// has a `flutter:` line.
pub open spec fn flutter_pubspec(content: Seq<char>) -> bool {
    contains_text(content, "sdk: flutter"@) || exists|i: int|
        0 <= i < lines(content).len() && trim(#[trigger] lines(content)[i]) == "flutter:"@
}

/// Whether a pubspec belongs to a Flutter project.
pub fn is_flutter_pubspec(content: &str) -> (r: bool)
    ensures
        r == flutter_pubspec(content@),
{
    if contains_str(content, "sdk: flutter") {
        return true;
    }
    let (cs, ws) = lines_of(content);
    let key = chars_of("flutter:");
    let mut i: usize = 0;
    while i < ws.len()
        invariant
            cs@ == content@,
            key@ == "flutter:"@,
            forall|k: int| #![trigger ws@[k]] 0 <= k < ws@.len() ==> ws@[k].0 <= ws@[k].1 && ws@[k].1 <= cs@.len(),
            crate::text::window_texts(cs@, ws@) == lines(content@),
            i <= ws@.len(),
            forall|j: int| 0 <= j < i ==> trim(#[trigger] lines(content@)[j]) != "flutter:"@,
        decreases ws@.len() - i,
    {
        let (lo, hi) = ws[i];
        let (a, b) = trim_window(&cs, lo, hi, CharClass::Whitespace);
        proof {
            lemma_window_line(cs@, ws@, i as int);
        }
        let t = string_of_range(&cs, a, b);
        if str_eq(t.as_str(), "flutter:") {
            return true;
        }
        i = i + 1;
    }
    proof {
        if ws@.len() > 0 {
            lemma_window_line(cs@, ws@, 0);
        } else {
            reveal(crate::text::window_texts);
        }
    }
    false
}

/// The package manager of a pub project: `flutter` when its pubspec could be
/// read and belongs to Flutter, `dart` otherwise.
pub fn preferred_pub_package_manager(pubspec: Option<&str>) -> (r: String)
    ensures
        r@ == match pubspec {
            Some(c) => if flutter_pubspec(c@) {
                "flutter"@
            } else {
                "dart"@
            },
            None => "dart"@,
        },
{
    match pubspec {
        Some(c) => if is_flutter_pubspec(c) {
            owned("flutter")
        } else {
            owned("dart")
        },
        None => owned("dart"),
    }
}

/// The step that creates a Dart console project in `parent_dir`.
pub open spec fn dart_console_steps_view(p: Platform, project_name: Seq<char>, parent_dir: Seq<char>) -> Seq<
    StepView,
> {
    seq![
        command_step_view(
            "Create Dart console project"@,
            by_platform(p, "dart"@, "dart.exe"@),
            seq!["create"@, "-t"@, "console-simple"@, project_name],
            parent_dir,
            None,
        ),
    ]
}

/// The step that creates a Dart console project in `parent_dir`.
pub fn dart_console_steps(p: Platform, project_name: &str, parent_dir: &str) -> (r: Vec<
    CreationStep,
>)
    ensures
        r.deep_view() == dart_console_steps_view(p, project_name@, parent_dir@),
{
    let args = vec!["create", "-t", "console-simple", project_name];
    assert(args.deep_view() =~= seq!["create"@, "-t"@, "console-simple"@, project_name@]);
    let r = vec![creation_step("Create Dart console project", dart_bin(p), args, parent_dir)];
    assert(r.deep_view() =~= seq![r@[0].deep_view()]);
    r
}

/// The step that creates a Flutter project in `parent_dir`.
pub open spec fn flutter_app_steps_view(p: Platform, project_name: Seq<char>, parent_dir: Seq<char>) -> Seq<
    StepView,
> {
    seq![
        command_step_view(
            "Create Flutter project"@,
            by_platform(p, "flutter"@, "flutter.bat"@),
            seq!["create"@, project_name],
            parent_dir,
            None,
        ),
    ]
}

/// The step that creates a Flutter project in `parent_dir`.
pub fn flutter_app_steps(p: Platform, project_name: &str, parent_dir: &str) -> (r: Vec<
    CreationStep,
>)
    ensures
        r.deep_view() == flutter_app_steps_view(p, project_name@, parent_dir@),
{
    let args = vec!["create", project_name];
    assert(args.deep_view() =~= seq!["create"@, project_name@]);
    let r = vec![creation_step("Create Flutter project", flutter_bin(p), args, parent_dir)];
    assert(r.deep_view() =~= seq![r@[0].deep_view()]);
    r
}

/// The value a top-level line gives for `key`: for a line that does not
/// start with white space and whose trimmed text starts with `key:`, the
/// rest trimmed and stripped of quotes, when it is not blank.
pub open spec fn yaml_line_value(key: Seq<char>) -> spec_fn(Seq<char>) -> Option<Seq<char>> {
    |line: Seq<char>|
        if line.len() > 0 && is_whitespace(line[0]) {
            None
        } else {
            let t = trim(line);
            let prefix = key.push(':');
            if starts_with(t, prefix) {
                let v = trim(t.skip(prefix.len() as int));
                if v.len() == 0 {
                    None
                } else {
                    Some(trim_class(v, CharClass::Quote))
                }
            } else {
                None
            }
        }
}

/// The value of the first top-level `key:` line of a YAML text.
pub open spec fn yaml_top_level(content: Seq<char>, key: Seq<char>) -> Option<Seq<char>> {
    find_map(lines(content), yaml_line_value(key))
}

/// The string value of a top-level key of a YAML text, read line by line.
pub fn yaml_top_level_string(content: &str, key: &str) -> (r: Option<String>)
    ensures
        r.deep_view() == yaml_top_level(content@, key@),
{
    let (cs, ws) = lines_of(content);
    let mut prefix = owned(key);
    crate::text::push_char(&mut prefix, ':');
    let pre = chars_of(prefix.as_str());
    let ghost f = yaml_line_value(key@);
    let ghost ls = lines(content@);
    proof {
        lemma_find_map_start(ls, f);
    }
    let mut i: usize = 0;
    while i < ws.len()
        invariant
            cs@ == content@,
            pre@ == key@.push(':'),
            f == yaml_line_value(key@),
            ls == lines(content@),
            forall|k: int| #![trigger ws@[k]] 0 <= k < ws@.len() ==> ws@[k].0 <= ws@[k].1 && ws@[k].1 <= cs@.len(),
            crate::text::window_texts(cs@, ws@) == ls,
            i <= ws@.len(),
            find_map(ls, f) == find_map(ls.skip(i as int), f),
        decreases ws@.len() - i,
    {
        let (lo, hi) = ws[i];
        proof {
            lemma_window_line(cs@, ws@, i as int);
        }
        let ghost line = ls[i as int];
        let mut found: Option<String> = None;
        if !(lo < hi && char_is_whitespace(cs[lo])) {
            let (a, b) = trim_window(&cs, lo, hi, CharClass::Whitespace);
            if window_starts_with(&cs, a, b, &pre) {
                let (c, d) = trim_window(&cs, a + pre.len(), b, CharClass::Whitespace);
                proof {
                    assert(trim(line).skip(pre@.len() as int) =~= cs@.subrange(
                        a + pre@.len(),
                        b as int,
                    ));
                }
                if c < d {
                    let (e, g) = trim_window(&cs, c, d, CharClass::Quote);
                    found = Some(string_of_range(&cs, e, g));
                }
            }
        }
        proof {
            assert(found.deep_view() == f(line));
        }
        if found.is_some() {
            proof {
                lemma_find_map_hit(ls, f, i as int);
            }
            return found;
        }
        proof {
            lemma_find_map_skip(ls, f, i as int);
        }
        i = i + 1;
    }
    proof {
        reveal(crate::text::window_texts);
        lemma_find_map_end(ls, f);
    }
    None
}

/// A pub project's name: its `name:` value, or its folder's name.
pub open spec fn pub_name(p: Platform, project_dir: Seq<char>, content: Seq<char>) -> Seq<char> {
    match yaml_top_level(content, "name"@) {
        Some(n) => n,
        None => folder_project_name(p, project_dir),
    }
}

/// A pub project's name.
pub fn pub_project_name(p: Platform, project_dir: &str, content: &str) -> (r: String)
    ensures
        r@ == pub_name(p, project_dir@, content@),
{
    match yaml_top_level_string(content, "name") {
        Some(n) => n,
        None => python_folder_project_name(p, project_dir),
    }
}

/// The default scripts of a pub project.
pub open spec fn pub_scripts_view(is_flutter: bool, has_tests: bool) -> Seq<ScriptView> {
    let base = if is_flutter {
        seq![
            ("dev"@, "flutter run"@),
            ("start"@, "flutter run"@),
            ("pub-get"@, "flutter pub get"@),
            ("build-web"@, "flutter build web"@),
        ]
    } else {
        seq![("start"@, "dart run"@), ("pub-get"@, "dart pub get"@)]
    };
    let items = if is_flutter || has_tests {
        base.push(("test"@, if is_flutter { "flutter test"@ } else { "dart test"@ }))
    } else {
        base
    };
    scripts_view(
        items,
        if is_flutter { "flutter"@ } else { "dart"@ },
        "pubspec.yaml"@,
    )
}

/// The default scripts of a pub project: run, dependencies and, for Flutter,
/// a web build; tests for Flutter or when the project has tests.
pub fn pub_scripts(is_flutter: bool, has_tests: bool) -> (r: Vec<ScriptInfo>)
    ensures
        r.deep_view() == pub_scripts_view(is_flutter, has_tests),
{
    let mut scripts = if is_flutter {
        vec![
            ("dev", "flutter run"),
            ("start", "flutter run"),
            ("pub-get", "flutter pub get"),
            ("build-web", "flutter build web"),
        ]
    } else {
        vec![("start", "dart run"), ("pub-get", "dart pub get")]
    };
    if is_flutter || has_tests {
        scripts.push(
            (
                "test",
                if is_flutter {
                    "flutter test"
                } else {
                    "dart test"
                },
            ),
        );
    }
    let package_manager = if is_flutter {
        "flutter"
    } else {
        "dart"
    };
    let ghost items = if is_flutter {
        seq![
            ("dev"@, "flutter run"@),
            ("start"@, "flutter run"@),
            ("pub-get"@, "flutter pub get"@),
            ("build-web"@, "flutter build web"@),
        ]
    } else {
        seq![("start"@, "dart run"@), ("pub-get"@, "dart pub get"@)]
    };
    let ghost items = if is_flutter || has_tests {
        items.push(("test"@, if is_flutter { "flutter test"@ } else { "dart test"@ }))
    } else {
        items
    };
    assert(scripts.deep_view() =~= items);
    script_list(scripts, package_manager, "pubspec.yaml")
}

/// Whether a pub project has tests: a `test` folder, or a `test:` entry in
/// its pubspec.
pub open spec fn pub_has_tests(content: Seq<char>, test_dir_exists: bool) -> bool {
    test_dir_exists || contains_text(content, "\n  test:"@)
}

/// A pub project read from the text of its `pubspec.yaml`.
pub fn read_pub_project(
    project_path: String,
    p: Platform,
    project_dir: &str,
    content: &str,
    test_dir_exists: bool,
) -> (r: ProjectInfo)
    ensures
        r.name@ == pub_name(p, project_dir@, content@),
        r.path@ == project_path@,
        r.scripts.deep_view() == pub_scripts_view(
            flutter_pubspec(content@),
            pub_has_tests(content@, test_dir_exists),
        ),
        r.package_manager@ == if flutter_pubspec(content@) {
            "flutter"@
        } else {
            "dart"@
        },
{
    let is_flutter = is_flutter_pubspec(content);
    let package_manager = if is_flutter {
        owned("flutter")
    } else {
        owned("dart")
    };
    let has_tests = test_dir_exists || contains_str(content, "\n  test:");
    ProjectInfo {
        name: pub_project_name(p, project_dir, content),
        path: project_path,
        scripts: pub_scripts(is_flutter, has_tests),
        package_manager,
    }
}

/// The command line of a pub project's script, or why there is none.
pub fn pub_script_command_line(
    package_manager: &str,
    content: &str,
    test_dir_exists: bool,
    script_name: &str,
) -> (r: Result<String, String>)
    ensures
        ({
            let is_flutter = package_manager@ == "flutter"@ || flutter_pubspec(content@);
            match script_command_of(
                pub_scripts_view(is_flutter, pub_has_tests(content@, test_dir_exists)),
                script_name@,
            ) {
                Some(c) => r matches Ok(s) && s@ == c,
                None => r matches Err(e) && e@ == (if is_flutter {
                    "Flutter"@
                } else {
                    "Dart"@
                }) + " script '"@ + script_name@ + "' was not found in pubspec.yaml defaults"@,
            }
        }),
{
    let is_flutter = str_eq(package_manager, "flutter") || is_flutter_pubspec(content);
    let has_tests = test_dir_exists || contains_str(content, "\n  test:");
    let scripts = pub_scripts(is_flutter, has_tests);
    match find_script_command(&scripts, script_name) {
        Some(c) => Ok(c),
        None => {
            let mut m = owned(
                if is_flutter {
                    "Flutter"
                } else {
                    "Dart"
                },
            );
            m.append(" script '");
            m.append(script_name);
            m.append("' was not found in pubspec.yaml defaults");
            Err(m)
        },
    }
}

} // verus!
