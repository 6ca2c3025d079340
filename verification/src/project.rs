//! What the launcher decides across languages: which package manager a
//! project uses, which tools a template needs, the steps that create a
//! project, and the scripts a project folder offers.

use vstd::prelude::*;
use crate::common::{folder_project_name, python_folder_project_name};
use crate::docs::{json_document, toml_document};
use crate::langs::dart::{dart_console_steps, dart_console_steps_view, flutter_app_steps, flutter_app_steps_view, flutter_pubspec, pub_has_tests, pub_scripts_view, read_pub_project};
use crate::langs::go::{go_main_scripts, go_module_scripts_view, go_project_steps, go_steps_view, go_scripts_view, read_go_project};
use crate::langs::java::{
    gradle_java_steps, gradle_java_steps_view, java_basic_steps_view, maven_java_steps_view,
    spring_boot_steps_view, gradle_scripts_view, gradle_source_of, java_basic_steps, java_command_text,
    java_file_of, java_main_scripts, maven_java_steps, maven_scripts_view, read_gradle_project,
    read_maven_project, spring_boot_steps,
};
use crate::langs::node::{
    angular_steps, angular_steps_view, preferred_node_package_manager, cra_args, cra_steps, cra_steps_view, nest_args, nest_steps_view, next_args, next_steps,
    next_steps_view, node_backend_steps, node_backend_steps_view, NODE_BACKEND_SCAFFOLD_SCRIPT, nuxt_steps_view, vite_steps_view, node_package_manager_of,
    node_scripts_view, nest_steps, nuxt_steps, read_node_project, vite_steps,
};
use crate::langs::php::{composer_create_project_steps, composer_create_project_view, composer_scripts_view, read_composer_project};
use crate::langs::python::{python_main_script, python_project_steps, python_steps_view, python_scripts_view, read_python_project};
use crate::langs::ruby::{
    RubyProjectFiles, rails_steps, rails_steps_view, ruby_basic_steps_view, sinatra_steps_view, read_ruby_project, ruby_basic_steps, ruby_main_script,
    ruby_script_items, sinatra_steps,
};
use crate::model::{
    CreateToolchain, CreationStep, Platform, ProjectFiles, ProjectInfo, ScriptInfo, ScriptView,
    StepView, ToolRequirement, ToolView, extend_scripts, has_start_for, has_start_script,
    script_view, sourced_scripts_view,
};
use crate::platform::{by_platform, join, join_path};
use crate::text::{concat3, owned, str_eq, str_in};

verus! {

/// The package manager a project folder points to: Composer, then Python
/// (`pyproject.toml` or `main.py`), Go, Maven, Gradle, plain Java, Ruby,
/// Dart or Flutter, and at last the Node package manager of its lockfiles.
pub open spec fn preferred_manager(
    files: ProjectFiles,
    java_main_found: bool,
    pubspec: Option<Seq<char>>,
) -> Seq<char> {
    if files.composer_json {
        "composer"@
    } else if files.pyproject_toml {
        "python"@
    } else if files.main_py {
        "python"@
    } else if files.go_mod || files.main_go {
        "go"@
    } else if files.pom_xml {
        "maven"@
    } else if files.build_gradle || files.build_gradle_kts {
        "gradle"@
    } else if java_main_found {
        "java"@
    } else if files.gemfile || files.main_rb {
        "ruby"@
    } else if files.pubspec_yaml {
        match pubspec {
            Some(c) => if flutter_pubspec(c) {
                "flutter"@
            } else {
                "dart"@
            },
            None => "dart"@,
        }
    } else {
        node_package_manager_of(files)
    }
}

/// The manifest that decides a folder's package manager, in order: Composer
/// first, then Python (`pyproject.toml` or `main.py`), Go (`go.mod` or
/// `main.go`), Maven, Gradle, a Java main class, Ruby (`Gemfile` or
/// `main.rb`), Dart or Flutter for a `pubspec.yaml`, and otherwise the Node
/// package manager that the lockfiles name, npm when there is none.
pub proof fn law_preferred_manager_order(
    files: ProjectFiles,
    java_main_found: bool,
    pubspec: Option<Seq<char>>,
)
    ensures
        files.composer_json ==> preferred_manager(files, java_main_found, pubspec) == "composer"@,
        !files.composer_json && (files.pyproject_toml || files.main_py) ==> preferred_manager(
            files,
            java_main_found,
            pubspec,
        ) == "python"@,
        !files.composer_json && !files.pyproject_toml && !files.main_py && (files.go_mod
            || files.main_go) ==> preferred_manager(files, java_main_found, pubspec) == "go"@,
        !files.composer_json && !files.pyproject_toml && !files.main_py && !files.go_mod
            && !files.main_go && files.pom_xml ==> preferred_manager(files, java_main_found, pubspec)
            == "maven"@,
        !files.composer_json && !files.pyproject_toml && !files.main_py && !files.go_mod
            && !files.main_go && !files.pom_xml && (files.build_gradle || files.build_gradle_kts)
            ==> preferred_manager(files, java_main_found, pubspec) == "gradle"@,
        !files.composer_json && !files.pyproject_toml && !files.main_py && !files.go_mod
            && !files.main_go && !files.pom_xml && !files.build_gradle && !files.build_gradle_kts
            && java_main_found ==> preferred_manager(files, java_main_found, pubspec) == "java"@,
        !files.composer_json && !files.pyproject_toml && !files.main_py && !files.go_mod
            && !files.main_go && !files.pom_xml && !files.build_gradle && !files.build_gradle_kts
            && !java_main_found && (files.gemfile || files.main_rb) ==> preferred_manager(
            files,
            java_main_found,
            pubspec,
        ) == "ruby"@,
        !files.composer_json && !files.pyproject_toml && !files.main_py && !files.go_mod
            && !files.main_go && !files.pom_xml && !files.build_gradle && !files.build_gradle_kts
            && !java_main_found && !files.gemfile && !files.main_rb && files.pubspec_yaml ==> (
        preferred_manager(files, java_main_found, pubspec) == "dart"@ || preferred_manager(
            files,
            java_main_found,
            pubspec,
        ) == "flutter"@),
        !files.composer_json && !files.pyproject_toml && !files.main_py && !files.go_mod
            && !files.main_go && !files.pom_xml && !files.build_gradle && !files.build_gradle_kts
            && !java_main_found && !files.gemfile && !files.main_rb && !files.pubspec_yaml
            ==> preferred_manager(files, java_main_found, pubspec) == (if files.pnpm_lock_yaml {
            "pnpm"@
        } else if files.yarn_lock || files.yarnrc_yml {
            "yarn"@
        } else if files.bun_lockb || files.bun_lock {
            "bun"@
        } else {
            "npm"@
        }),
{
}

/// The text of an optional string.
pub open spec fn opt_text(s: Option<&str>) -> Option<Seq<char>> {
    match s {
        Some(c) => Some(c@),
        None => None,
    }
}

/// The package manager a project folder points to. `java_main_found` tells
/// whether the folder has a Java main file; `pubspec` is the text of its
/// `pubspec.yaml` when that could be read.
pub fn preferred_package_manager(
    files: &ProjectFiles,
    java_main_found: bool,
    pubspec: Option<&str>,
) -> (r: String)
    ensures
        r@ == preferred_manager(*files, java_main_found, opt_text(pubspec)),
{
    if files.composer_json {
        owned("composer")
    } else if files.pyproject_toml {
        owned("python")
    } else if files.main_py {
        owned("python")
    } else if files.go_mod || files.main_go {
        owned("go")
    } else if files.pom_xml {
        owned("maven")
    } else if files.build_gradle || files.build_gradle_kts {
        owned("gradle")
    } else if java_main_found {
        owned("java")
    } else if files.gemfile || files.main_rb {
        owned("ruby")
    } else if files.pubspec_yaml {
        crate::langs::dart::preferred_pub_package_manager(pubspec)
    } else {
        crate::langs::node::preferred_node_package_manager(files)
    }
}

/// The package managers that scripts can be run with.
pub open spec fn known_managers() -> Seq<Seq<char>> {
    seq![
        "npm"@,
        "pnpm"@,
        "yarn"@,
        "bun"@,
        "composer"@,
        "python"@,
        "dart"@,
        "flutter"@,
        "go"@,
        "java"@,
        "maven"@,
        "gradle"@,
        "ruby"@,
        "custom"@,
    ]
}

/// The package manager a script is run with: the one asked for when it is
/// known, otherwise the one the project folder points to.
pub open spec fn normalized_manager(
    requested: Option<Seq<char>>,
    files: ProjectFiles,
    java_main_found: bool,
    pubspec: Option<Seq<char>>,
) -> Seq<char> {
    match requested {
        Some(pm) => if known_managers().contains(pm) {
            pm
        } else {
            preferred_manager(files, java_main_found, pubspec)
        },
        None => preferred_manager(files, java_main_found, pubspec),
    }
}

/// A requested package manager is kept exactly when it is one that scripts
/// can be run with (npm, pnpm, yarn, bun, Composer, Python, Dart, Flutter,
/// Go, Java, Maven, Gradle, Ruby, or a custom command); any other request,
/// or none, gives the one that the folder points to.
pub proof fn law_normalized_manager(
    requested: Option<Seq<char>>,
    files: ProjectFiles,
    java_main_found: bool,
    pubspec: Option<Seq<char>>,
)
    ensures
        requested matches Some(pm) ==> ((pm == "npm"@ || pm == "pnpm"@ || pm == "yarn"@ || pm == "bun"@ || pm == "composer"@ || pm == "python"@ || pm == "dart"@ || pm == "flutter"@ || pm == "go"@ || pm == "java"@ || pm == "maven"@ || pm == "gradle"@ || pm == "ruby"@ || pm == "custom"@) ==> normalized_manager(
            requested,
            files,
            java_main_found,
            pubspec,
        ) == pm),
        (match requested {
            Some(pm) => !(pm == "npm"@ || pm == "pnpm"@ || pm == "yarn"@ || pm == "bun"@ || pm == "composer"@ || pm == "python"@ || pm == "dart"@ || pm == "flutter"@ || pm == "go"@ || pm == "java"@ || pm == "maven"@ || pm == "gradle"@ || pm == "ruby"@ || pm == "custom"@),
            None => true,
        }) ==> normalized_manager(requested, files, java_main_found, pubspec) == preferred_manager(
            files,
            java_main_found,
            pubspec,
        ),
{
    let known = known_managers();
    assert(known[0] == "npm"@);
    assert(known[1] == "pnpm"@);
    assert(known[2] == "yarn"@);
    assert(known[3] == "bun"@);
    assert(known[4] == "composer"@);
    assert(known[5] == "python"@);
    assert(known[6] == "dart"@);
    assert(known[7] == "flutter"@);
    assert(known[8] == "go"@);
    assert(known[9] == "java"@);
    assert(known[10] == "maven"@);
    assert(known[11] == "gradle"@);
    assert(known[12] == "ruby"@);
    assert(known[13] == "custom"@);
    if let Some(pm) = requested {
        if pm == "npm"@ || pm == "pnpm"@ || pm == "yarn"@ || pm == "bun"@ || pm == "composer"@ || pm == "python"@ || pm == "dart"@ || pm == "flutter"@ || pm == "go"@ || pm == "java"@ || pm == "maven"@ || pm == "gradle"@ || pm == "ruby"@ || pm == "custom"@ {
            assert(known[0] == pm || known[1] == pm || known[2] == pm || known[3] == pm || known[4] == pm || known[5] == pm || known[6] == pm || known[7] == pm || known[8] == pm || known[9] == pm || known[10] == pm || known[11] == pm || known[12] == pm || known[13] == pm);
        }
        if known.contains(pm) {
            let i = choose|i: int| 0 <= i < known.len() && known[i] == pm;
            assert(i == 0 || i == 1 || i == 2 || i == 3 || i == 4 || i == 5 || i == 6 || i == 7 || i == 8 || i == 9 || i == 10 || i == 11 || i == 12 || i == 13);
        }
    }
}

/// The package manager a script is run with.
pub fn normalize_package_manager(
    package_manager: Option<String>,
    files: &ProjectFiles,
    java_main_found: bool,
    pubspec: Option<&str>,
) -> (r: String)
    ensures
        r@ == normalized_manager(
            package_manager.deep_view(),
            *files,
            java_main_found,
            opt_text(pubspec),
        ),
{
    let known = [
        "npm",
        "pnpm",
        "yarn",
        "bun",
        "composer",
        "python",
        "dart",
        "flutter",
        "go",
        "java",
        "maven",
        "gradle",
        "ruby",
        "custom",
    ];
    assert(known.deep_view() =~= known_managers());
    match package_manager {
        Some(pm) => if str_in(pm.as_str(), &known) {
            pm
        } else {
            preferred_package_manager(files, java_main_found, pubspec)
        },
        None => preferred_package_manager(files, java_main_found, pubspec),
    }
}

/// The package managers a project folder offers, in order: Composer, Python,
/// Dart or Flutter, then npm with yarn, pnpm and bun when their lockfiles
/// are there.
pub open spec fn detected_managers(files: ProjectFiles, pubspec: Option<Seq<char>>) -> Seq<Seq<char>> {
    let a = if files.composer_json {
        seq!["composer"@]
    } else {
        Seq::empty()
    };
    let b = if files.pyproject_toml || files.main_py {
        a.push("python"@)
    } else {
        a
    };
    let c = if files.pubspec_yaml {
        b.push(
            match pubspec {
                Some(t) => if flutter_pubspec(t) {
                    "flutter"@
                } else {
                    "dart"@
                },
                None => "dart"@,
            },
        )
    } else {
        b
    };
    if files.package_json {
        let d = c.push("npm"@);
        let e = if files.yarn_lock || files.yarnrc_yml {
            d.push("yarn"@)
        } else {
            d
        };
        let f = if files.pnpm_lock_yaml {
            e.push("pnpm"@)
        } else {
            e
        };
        if files.bun_lockb || files.bun_lock {
            f.push("bun"@)
        } else {
            f
        }
    } else {
        c
    }
}

/// The package managers a project folder offers.
pub fn detect_package_managers(files: &ProjectFiles, pubspec: Option<&str>) -> (r: Vec<String>)
    ensures
        r.deep_view() == detected_managers(*files, opt_text(pubspec)),
{
    let mut managers: Vec<String> = Vec::new();
    if files.composer_json {
        managers.push(owned("composer"));
    }
    if files.pyproject_toml {
        managers.push(owned("python"));
    }
    if !files.pyproject_toml && files.main_py {
        managers.push(owned("python"));
    }
    if files.pubspec_yaml {
        managers.push(crate::langs::dart::preferred_pub_package_manager(pubspec));
    }
    if files.package_json {
        managers.push(owned("npm"));
        if files.yarn_lock || files.yarnrc_yml {
            managers.push(owned("yarn"));
        }
        if files.pnpm_lock_yaml {
            managers.push(owned("pnpm"));
        }
        if files.bun_lockb || files.bun_lock {
            managers.push(owned("bun"));
        }
    }
    assert(managers.deep_view() =~= detected_managers(*files, opt_text(pubspec)));
    managers
}

/// The templates made with npm tooling.
pub open spec fn node_template_ids() -> Seq<Seq<char>> {
    seq![
        "node-ts"@,
        "node-js"@,
        "express-ts"@,
        "express-js"@,
        "vite-react-ts"@,
        "vite-react-js"@,
        "vite-vue-ts"@,
        "vite-vue-js"@,
        "nuxt-ts-latest"@,
        "nuxt-js-latest"@,
        "vite-svelte-ts"@,
        "vite-svelte-js"@,
        "next-ts-latest"@,
        "next-js-latest"@,
        "next-ts-16"@,
        "next-js-16"@,
        "next-ts-15"@,
        "next-js-15"@,
        "next-ts-14"@,
        "next-js-14"@,
        "cra-ts"@,
        "cra-js"@,
        "angular-ts-latest"@,
        "nestjs-ts-latest"@,
        "nestjs-js-latest"@,
        "react-native-ts"@,
        "react-native-js"@,
    ]
}

/// The templates made with Composer.
pub open spec fn php_template_ids() -> Seq<Seq<char>> {
    seq!["laravel-php-latest"@, "symfony-php-latest"@, "slim-php-latest"@, "codeigniter-php-latest"@]
}

/// The templates made with Python.
pub open spec fn python_template_ids() -> Seq<Seq<char>> {
    seq!["python-basic"@, "fastapi-python-latest"@, "flask-python-latest"@, "django-python-latest"@]
}

/// The templates made with Go.
pub open spec fn go_template_ids() -> Seq<Seq<char>> {
    seq!["go-basic-latest"@, "gin-go-latest"@, "fiber-go-latest"@, "echo-go-latest"@, "chi-go-latest"@]
}

/// The tools a template needs, or none for an unknown template.
pub open spec fn requirements_of(template_id: Seq<char>) -> Option<Seq<ToolRequirement>> {
    if node_template_ids().contains(template_id) {
        Some(seq![ToolRequirement::Node, ToolRequirement::Npm, ToolRequirement::Npx])
    } else if php_template_ids().contains(template_id) {
        Some(seq![ToolRequirement::Php, ToolRequirement::Composer])
    } else if python_template_ids().contains(template_id) {
        Some(seq![ToolRequirement::Python])
    } else if template_id == "dart-console-latest"@ {
        Some(seq![ToolRequirement::Dart])
    } else if template_id == "flutter-app-latest"@ {
        Some(seq![ToolRequirement::Flutter])
    } else if go_template_ids().contains(template_id) {
        Some(seq![ToolRequirement::Go])
    } else if template_id == "java-basic-latest"@ {
        Some(seq![ToolRequirement::Java, ToolRequirement::Javac])
    } else if template_id == "maven-java-latest"@ || template_id == "spring-boot-java-latest"@ {
        Some(seq![ToolRequirement::Java, ToolRequirement::Javac, ToolRequirement::Maven])
    } else if template_id == "gradle-java-latest"@ {
        Some(seq![ToolRequirement::Java, ToolRequirement::Javac, ToolRequirement::Gradle])
    } else if template_id == "ruby-basic-latest"@ {
        Some(seq![ToolRequirement::Ruby])
    } else if template_id == "sinatra-ruby-latest"@ || template_id == "rails-ruby-latest"@ {
        Some(seq![ToolRequirement::Ruby, ToolRequirement::Bundler])
    } else {
        None
    }
}

/// The tools a template needs, or that the template is unknown.
pub fn template_requirements(template_id: &str) -> (r: Result<Vec<ToolRequirement>, String>)
    ensures
        match requirements_of(template_id@) {
            Some(reqs) => r matches Ok(v) && v@ == reqs,
            None => r matches Err(e) && e@ == "Unknown project template '"@ + template_id@ + "'"@,
        },
{
    let node = [
        "node-ts",
        "node-js",
        "express-ts",
        "express-js",
        "vite-react-ts",
        "vite-react-js",
        "vite-vue-ts",
        "vite-vue-js",
        "nuxt-ts-latest",
        "nuxt-js-latest",
        "vite-svelte-ts",
        "vite-svelte-js",
        "next-ts-latest",
        "next-js-latest",
        "next-ts-16",
        "next-js-16",
        "next-ts-15",
        "next-js-15",
        "next-ts-14",
        "next-js-14",
        "cra-ts",
        "cra-js",
        "angular-ts-latest",
        "nestjs-ts-latest",
        "nestjs-js-latest",
        "react-native-ts",
        "react-native-js",
    ];
    assert(node.deep_view() =~= node_template_ids());
    let php = ["laravel-php-latest", "symfony-php-latest", "slim-php-latest", "codeigniter-php-latest"];
    assert(php.deep_view() =~= php_template_ids());
    let python = ["python-basic", "fastapi-python-latest", "flask-python-latest", "django-python-latest"];
    assert(python.deep_view() =~= python_template_ids());
    let go = ["go-basic-latest", "gin-go-latest", "fiber-go-latest", "echo-go-latest", "chi-go-latest"];
    assert(go.deep_view() =~= go_template_ids());
    let t = template_id;
    let r = if str_in(t, &node) {
        vec![ToolRequirement::Node, ToolRequirement::Npm, ToolRequirement::Npx]
    } else if str_in(t, &php) {
        vec![ToolRequirement::Php, ToolRequirement::Composer]
    } else if str_in(t, &python) {
        vec![ToolRequirement::Python]
    } else if str_eq(t, "dart-console-latest") {
        vec![ToolRequirement::Dart]
    } else if str_eq(t, "flutter-app-latest") {
        vec![ToolRequirement::Flutter]
    } else if str_in(t, &go) {
        vec![ToolRequirement::Go]
    } else if str_eq(t, "java-basic-latest") {
        vec![ToolRequirement::Java, ToolRequirement::Javac]
    } else if str_eq(t, "maven-java-latest") || str_eq(t, "spring-boot-java-latest") {
        vec![ToolRequirement::Java, ToolRequirement::Javac, ToolRequirement::Maven]
    } else if str_eq(t, "gradle-java-latest") {
        vec![ToolRequirement::Java, ToolRequirement::Javac, ToolRequirement::Gradle]
    } else if str_eq(t, "ruby-basic-latest") {
        vec![ToolRequirement::Ruby]
    } else if str_eq(t, "sinatra-ruby-latest") || str_eq(t, "rails-ruby-latest") {
        vec![ToolRequirement::Ruby, ToolRequirement::Bundler]
    } else {
        return Err(concat3("Unknown project template '", template_id, "'"));
    };
    assert(r@ =~= requirements_of(template_id@)->0);
    Ok(r)
}

/// The length of each template id and its characters at a few positions,
/// enough to tell any two ids apart.
proof fn lemma_template_id_shapes()
    ensures
        "node-ts"@.len() == 7 && "node-ts"@[5] == 't' && "node-ts"@[1] == 'o' && "node-ts"@[4] == '-',
        "node-js"@.len() == 7 && "node-js"@[5] == 'j' && "node-js"@[1] == 'o' && "node-js"@[4] == '-',
        "express-ts"@.len() == 10 && "express-ts"@[5] == 's' && "express-ts"@[9] == 's' && "express-ts"@[1] == 'x' && "express-ts"@[4] == 'e' && "express-ts"@[7] == '-' && "express-ts"@[8] == 't',
        "express-js"@.len() == 10 && "express-js"@[5] == 's' && "express-js"@[9] == 's' && "express-js"@[1] == 'x' && "express-js"@[4] == 'e' && "express-js"@[7] == '-' && "express-js"@[8] == 'j',
        "vite-react-ts"@.len() == 13 && "vite-react-ts"@[5] == 'r' && "vite-react-ts"@[9] == 't' && "vite-react-ts"@[1] == 'i' && "vite-react-ts"@[4] == '-' && "vite-react-ts"@[7] == 'a' && "vite-react-ts"@[8] == 'c' && "vite-react-ts"@[11] == 't' && "vite-react-ts"@[12] == 's',
        "vite-react-js"@.len() == 13 && "vite-react-js"@[5] == 'r' && "vite-react-js"@[9] == 't' && "vite-react-js"@[1] == 'i' && "vite-react-js"@[4] == '-' && "vite-react-js"@[7] == 'a' && "vite-react-js"@[8] == 'c' && "vite-react-js"@[11] == 'j' && "vite-react-js"@[12] == 's',
        "vite-vue-ts"@.len() == 11 && "vite-vue-ts"@[5] == 'v' && "vite-vue-ts"@[9] == 't' && "vite-vue-ts"@[1] == 'i' && "vite-vue-ts"@[4] == '-' && "vite-vue-ts"@[7] == 'e' && "vite-vue-ts"@[8] == '-',
        "vite-vue-js"@.len() == 11 && "vite-vue-js"@[5] == 'v' && "vite-vue-js"@[9] == 'j' && "vite-vue-js"@[1] == 'i' && "vite-vue-js"@[4] == '-' && "vite-vue-js"@[7] == 'e' && "vite-vue-js"@[8] == '-',
        "nuxt-ts-latest"@.len() == 14 && "nuxt-ts-latest"@[5] == 't' && "nuxt-ts-latest"@[9] == 'a' && "nuxt-ts-latest"@[1] == 'u' && "nuxt-ts-latest"@[4] == '-' && "nuxt-ts-latest"@[7] == '-' && "nuxt-ts-latest"@[8] == 'l' && "nuxt-ts-latest"@[11] == 'e' && "nuxt-ts-latest"@[12] == 's' && "nuxt-ts-latest"@[13] == 't',
        "nuxt-js-latest"@.len() == 14 && "nuxt-js-latest"@[5] == 'j' && "nuxt-js-latest"@[9] == 'a' && "nuxt-js-latest"@[1] == 'u' && "nuxt-js-latest"@[4] == '-' && "nuxt-js-latest"@[7] == '-' && "nuxt-js-latest"@[8] == 'l' && "nuxt-js-latest"@[11] == 'e' && "nuxt-js-latest"@[12] == 's' && "nuxt-js-latest"@[13] == 't',
        "vite-svelte-ts"@.len() == 14 && "vite-svelte-ts"@[5] == 's' && "vite-svelte-ts"@[9] == 't' && "vite-svelte-ts"@[1] == 'i' && "vite-svelte-ts"@[4] == '-' && "vite-svelte-ts"@[7] == 'e' && "vite-svelte-ts"@[8] == 'l' && "vite-svelte-ts"@[11] == '-' && "vite-svelte-ts"@[12] == 't' && "vite-svelte-ts"@[13] == 's',
        "vite-svelte-js"@.len() == 14 && "vite-svelte-js"@[5] == 's' && "vite-svelte-js"@[9] == 't' && "vite-svelte-js"@[1] == 'i' && "vite-svelte-js"@[4] == '-' && "vite-svelte-js"@[7] == 'e' && "vite-svelte-js"@[8] == 'l' && "vite-svelte-js"@[11] == '-' && "vite-svelte-js"@[12] == 'j' && "vite-svelte-js"@[13] == 's',
        "next-ts-latest"@.len() == 14 && "next-ts-latest"@[5] == 't' && "next-ts-latest"@[9] == 'a' && "next-ts-latest"@[1] == 'e' && "next-ts-latest"@[4] == '-' && "next-ts-latest"@[7] == '-' && "next-ts-latest"@[8] == 'l' && "next-ts-latest"@[11] == 'e' && "next-ts-latest"@[12] == 's' && "next-ts-latest"@[13] == 't',
        "next-js-latest"@.len() == 14 && "next-js-latest"@[5] == 'j' && "next-js-latest"@[9] == 'a' && "next-js-latest"@[1] == 'e' && "next-js-latest"@[4] == '-' && "next-js-latest"@[7] == '-' && "next-js-latest"@[8] == 'l' && "next-js-latest"@[11] == 'e' && "next-js-latest"@[12] == 's' && "next-js-latest"@[13] == 't',
        "next-ts-16"@.len() == 10 && "next-ts-16"@[5] == 't' && "next-ts-16"@[9] == '6' && "next-ts-16"@[1] == 'e' && "next-ts-16"@[4] == '-' && "next-ts-16"@[7] == '-' && "next-ts-16"@[8] == '1',
        "next-js-16"@.len() == 10 && "next-js-16"@[5] == 'j' && "next-js-16"@[9] == '6' && "next-js-16"@[1] == 'e' && "next-js-16"@[4] == '-' && "next-js-16"@[7] == '-' && "next-js-16"@[8] == '1',
        "next-ts-15"@.len() == 10 && "next-ts-15"@[5] == 't' && "next-ts-15"@[9] == '5' && "next-ts-15"@[1] == 'e' && "next-ts-15"@[4] == '-' && "next-ts-15"@[7] == '-' && "next-ts-15"@[8] == '1',
        "next-js-15"@.len() == 10 && "next-js-15"@[5] == 'j' && "next-js-15"@[9] == '5' && "next-js-15"@[1] == 'e' && "next-js-15"@[4] == '-' && "next-js-15"@[7] == '-' && "next-js-15"@[8] == '1',
        "next-ts-14"@.len() == 10 && "next-ts-14"@[5] == 't' && "next-ts-14"@[9] == '4' && "next-ts-14"@[1] == 'e' && "next-ts-14"@[4] == '-' && "next-ts-14"@[7] == '-' && "next-ts-14"@[8] == '1',
        "next-js-14"@.len() == 10 && "next-js-14"@[5] == 'j' && "next-js-14"@[9] == '4' && "next-js-14"@[1] == 'e' && "next-js-14"@[4] == '-' && "next-js-14"@[7] == '-' && "next-js-14"@[8] == '1',
        "cra-ts"@.len() == 6 && "cra-ts"@[5] == 's' && "cra-ts"@[1] == 'r' && "cra-ts"@[4] == 't',
        "cra-js"@.len() == 6 && "cra-js"@[5] == 's' && "cra-js"@[1] == 'r' && "cra-js"@[4] == 'j',
        "angular-ts-latest"@.len() == 17 && "angular-ts-latest"@[5] == 'a' && "angular-ts-latest"@[9] == 's' && "angular-ts-latest"@[1] == 'n' && "angular-ts-latest"@[4] == 'l' && "angular-ts-latest"@[7] == '-' && "angular-ts-latest"@[8] == 't' && "angular-ts-latest"@[11] == 'l' && "angular-ts-latest"@[12] == 'a' && "angular-ts-latest"@[13] == 't',
        "nestjs-ts-latest"@.len() == 16 && "nestjs-ts-latest"@[5] == 's' && "nestjs-ts-latest"@[9] == '-' && "nestjs-ts-latest"@[1] == 'e' && "nestjs-ts-latest"@[4] == 'j' && "nestjs-ts-latest"@[7] == 't' && "nestjs-ts-latest"@[8] == 's' && "nestjs-ts-latest"@[11] == 'a' && "nestjs-ts-latest"@[12] == 't' && "nestjs-ts-latest"@[13] == 'e',
        "nestjs-js-latest"@.len() == 16 && "nestjs-js-latest"@[5] == 's' && "nestjs-js-latest"@[9] == '-' && "nestjs-js-latest"@[1] == 'e' && "nestjs-js-latest"@[4] == 'j' && "nestjs-js-latest"@[7] == 'j' && "nestjs-js-latest"@[8] == 's' && "nestjs-js-latest"@[11] == 'a' && "nestjs-js-latest"@[12] == 't' && "nestjs-js-latest"@[13] == 'e',
        "react-native-ts"@.len() == 15 && "react-native-ts"@[5] == '-' && "react-native-ts"@[9] == 'i' && "react-native-ts"@[1] == 'e' && "react-native-ts"@[4] == 't' && "react-native-ts"@[7] == 'a' && "react-native-ts"@[8] == 't' && "react-native-ts"@[11] == 'e' && "react-native-ts"@[12] == '-' && "react-native-ts"@[13] == 't',
        "react-native-js"@.len() == 15 && "react-native-js"@[5] == '-' && "react-native-js"@[9] == 'i' && "react-native-js"@[1] == 'e' && "react-native-js"@[4] == 't' && "react-native-js"@[7] == 'a' && "react-native-js"@[8] == 't' && "react-native-js"@[11] == 'e' && "react-native-js"@[12] == '-' && "react-native-js"@[13] == 'j',
        "laravel-php-latest"@.len() == 18 && "laravel-php-latest"@[5] == 'e' && "laravel-php-latest"@[9] == 'h' && "laravel-php-latest"@[1] == 'a' && "laravel-php-latest"@[4] == 'v' && "laravel-php-latest"@[7] == '-' && "laravel-php-latest"@[8] == 'p' && "laravel-php-latest"@[11] == '-' && "laravel-php-latest"@[12] == 'l' && "laravel-php-latest"@[13] == 'a',
        "symfony-php-latest"@.len() == 18 && "symfony-php-latest"@[5] == 'n' && "symfony-php-latest"@[9] == 'h' && "symfony-php-latest"@[1] == 'y' && "symfony-php-latest"@[4] == 'o' && "symfony-php-latest"@[7] == '-' && "symfony-php-latest"@[8] == 'p' && "symfony-php-latest"@[11] == '-' && "symfony-php-latest"@[12] == 'l' && "symfony-php-latest"@[13] == 'a',
        "slim-php-latest"@.len() == 15 && "slim-php-latest"@[5] == 'p' && "slim-php-latest"@[9] == 'l' && "slim-php-latest"@[1] == 'l' && "slim-php-latest"@[4] == '-' && "slim-php-latest"@[7] == 'p' && "slim-php-latest"@[8] == '-' && "slim-php-latest"@[11] == 't' && "slim-php-latest"@[12] == 'e' && "slim-php-latest"@[13] == 's',
        "codeigniter-php-latest"@.len() == 22 && "codeigniter-php-latest"@[5] == 'g' && "codeigniter-php-latest"@[9] == 'e' && "codeigniter-php-latest"@[1] == 'o' && "codeigniter-php-latest"@[4] == 'i' && "codeigniter-php-latest"@[7] == 'i' && "codeigniter-php-latest"@[8] == 't' && "codeigniter-php-latest"@[11] == '-' && "codeigniter-php-latest"@[12] == 'p' && "codeigniter-php-latest"@[13] == 'h',
        "python-basic"@.len() == 12 && "python-basic"@[5] == 'n' && "python-basic"@[9] == 's' && "python-basic"@[1] == 'y' && "python-basic"@[4] == 'o' && "python-basic"@[7] == 'b' && "python-basic"@[8] == 'a' && "python-basic"@[11] == 'c',
        "fastapi-python-latest"@.len() == 21 && "fastapi-python-latest"@[5] == 'p' && "fastapi-python-latest"@[9] == 'y' && "fastapi-python-latest"@[1] == 'a' && "fastapi-python-latest"@[4] == 'a' && "fastapi-python-latest"@[7] == '-' && "fastapi-python-latest"@[8] == 'p' && "fastapi-python-latest"@[11] == 'h' && "fastapi-python-latest"@[12] == 'o' && "fastapi-python-latest"@[13] == 'n',
        "flask-python-latest"@.len() == 19 && "flask-python-latest"@[5] == '-' && "flask-python-latest"@[9] == 'h' && "flask-python-latest"@[1] == 'l' && "flask-python-latest"@[4] == 'k' && "flask-python-latest"@[7] == 'y' && "flask-python-latest"@[8] == 't' && "flask-python-latest"@[11] == 'n' && "flask-python-latest"@[12] == '-' && "flask-python-latest"@[13] == 'l',
        "django-python-latest"@.len() == 20 && "django-python-latest"@[5] == 'o' && "django-python-latest"@[9] == 't' && "django-python-latest"@[1] == 'j' && "django-python-latest"@[4] == 'g' && "django-python-latest"@[7] == 'p' && "django-python-latest"@[8] == 'y' && "django-python-latest"@[11] == 'o' && "django-python-latest"@[12] == 'n' && "django-python-latest"@[13] == '-',
        "go-basic-latest"@.len() == 15 && "go-basic-latest"@[5] == 's' && "go-basic-latest"@[9] == 'l' && "go-basic-latest"@[1] == 'o' && "go-basic-latest"@[4] == 'a' && "go-basic-latest"@[7] == 'c' && "go-basic-latest"@[8] == '-' && "go-basic-latest"@[11] == 't' && "go-basic-latest"@[12] == 'e' && "go-basic-latest"@[13] == 's',
        "gin-go-latest"@.len() == 13 && "gin-go-latest"@[5] == 'o' && "gin-go-latest"@[9] == 't' && "gin-go-latest"@[1] == 'i' && "gin-go-latest"@[4] == 'g' && "gin-go-latest"@[7] == 'l' && "gin-go-latest"@[8] == 'a' && "gin-go-latest"@[11] == 's' && "gin-go-latest"@[12] == 't',
        "fiber-go-latest"@.len() == 15 && "fiber-go-latest"@[5] == '-' && "fiber-go-latest"@[9] == 'l' && "fiber-go-latest"@[1] == 'i' && "fiber-go-latest"@[4] == 'r' && "fiber-go-latest"@[7] == 'o' && "fiber-go-latest"@[8] == '-' && "fiber-go-latest"@[11] == 't' && "fiber-go-latest"@[12] == 'e' && "fiber-go-latest"@[13] == 's',
        "echo-go-latest"@.len() == 14 && "echo-go-latest"@[5] == 'g' && "echo-go-latest"@[9] == 'a' && "echo-go-latest"@[1] == 'c' && "echo-go-latest"@[4] == '-' && "echo-go-latest"@[7] == '-' && "echo-go-latest"@[8] == 'l' && "echo-go-latest"@[11] == 'e' && "echo-go-latest"@[12] == 's' && "echo-go-latest"@[13] == 't',
        "chi-go-latest"@.len() == 13 && "chi-go-latest"@[5] == 'o' && "chi-go-latest"@[9] == 't' && "chi-go-latest"@[1] == 'h' && "chi-go-latest"@[4] == 'g' && "chi-go-latest"@[7] == 'l' && "chi-go-latest"@[8] == 'a' && "chi-go-latest"@[11] == 's' && "chi-go-latest"@[12] == 't',
        "dart-console-latest"@.len() == 19 && "dart-console-latest"@[5] == 'c' && "dart-console-latest"@[9] == 'o' && "dart-console-latest"@[1] == 'a' && "dart-console-latest"@[4] == '-' && "dart-console-latest"@[7] == 'n' && "dart-console-latest"@[8] == 's' && "dart-console-latest"@[11] == 'e' && "dart-console-latest"@[12] == '-' && "dart-console-latest"@[13] == 'l',
        "flutter-app-latest"@.len() == 18 && "flutter-app-latest"@[5] == 'e' && "flutter-app-latest"@[9] == 'p' && "flutter-app-latest"@[1] == 'l' && "flutter-app-latest"@[4] == 't' && "flutter-app-latest"@[7] == '-' && "flutter-app-latest"@[8] == 'a' && "flutter-app-latest"@[11] == '-' && "flutter-app-latest"@[12] == 'l' && "flutter-app-latest"@[13] == 'a',
        "java-basic-latest"@.len() == 17 && "java-basic-latest"@[5] == 'b' && "java-basic-latest"@[9] == 'c' && "java-basic-latest"@[1] == 'a' && "java-basic-latest"@[4] == '-' && "java-basic-latest"@[7] == 's' && "java-basic-latest"@[8] == 'i' && "java-basic-latest"@[11] == 'l' && "java-basic-latest"@[12] == 'a' && "java-basic-latest"@[13] == 't',
        "maven-java-latest"@.len() == 17 && "maven-java-latest"@[5] == '-' && "maven-java-latest"@[9] == 'a' && "maven-java-latest"@[1] == 'a' && "maven-java-latest"@[4] == 'n' && "maven-java-latest"@[7] == 'a' && "maven-java-latest"@[8] == 'v' && "maven-java-latest"@[11] == 'l' && "maven-java-latest"@[12] == 'a' && "maven-java-latest"@[13] == 't',
        "spring-boot-java-latest"@.len() == 23 && "spring-boot-java-latest"@[5] == 'g' && "spring-boot-java-latest"@[9] == 'o' && "spring-boot-java-latest"@[1] == 'p' && "spring-boot-java-latest"@[4] == 'n' && "spring-boot-java-latest"@[7] == 'b' && "spring-boot-java-latest"@[8] == 'o' && "spring-boot-java-latest"@[11] == '-' && "spring-boot-java-latest"@[12] == 'j' && "spring-boot-java-latest"@[13] == 'a',
        "gradle-java-latest"@.len() == 18 && "gradle-java-latest"@[5] == 'e' && "gradle-java-latest"@[9] == 'v' && "gradle-java-latest"@[1] == 'r' && "gradle-java-latest"@[4] == 'l' && "gradle-java-latest"@[7] == 'j' && "gradle-java-latest"@[8] == 'a' && "gradle-java-latest"@[11] == '-' && "gradle-java-latest"@[12] == 'l' && "gradle-java-latest"@[13] == 'a',
        "ruby-basic-latest"@.len() == 17 && "ruby-basic-latest"@[5] == 'b' && "ruby-basic-latest"@[9] == 'c' && "ruby-basic-latest"@[1] == 'u' && "ruby-basic-latest"@[4] == '-' && "ruby-basic-latest"@[7] == 's' && "ruby-basic-latest"@[8] == 'i' && "ruby-basic-latest"@[11] == 'l' && "ruby-basic-latest"@[12] == 'a' && "ruby-basic-latest"@[13] == 't',
        "sinatra-ruby-latest"@.len() == 19 && "sinatra-ruby-latest"@[5] == 'r' && "sinatra-ruby-latest"@[9] == 'u' && "sinatra-ruby-latest"@[1] == 'i' && "sinatra-ruby-latest"@[4] == 't' && "sinatra-ruby-latest"@[7] == '-' && "sinatra-ruby-latest"@[8] == 'r' && "sinatra-ruby-latest"@[11] == 'y' && "sinatra-ruby-latest"@[12] == '-' && "sinatra-ruby-latest"@[13] == 'l',
        "rails-ruby-latest"@.len() == 17 && "rails-ruby-latest"@[5] == '-' && "rails-ruby-latest"@[9] == 'y' && "rails-ruby-latest"@[1] == 'a' && "rails-ruby-latest"@[4] == 's' && "rails-ruby-latest"@[7] == 'u' && "rails-ruby-latest"@[8] == 'b' && "rails-ruby-latest"@[11] == 'l' && "rails-ruby-latest"@[12] == 'a' && "rails-ruby-latest"@[13] == 't',
{
    reveal_strlit("node-ts");
    reveal_strlit("node-js");
    reveal_strlit("express-ts");
    reveal_strlit("express-js");
    reveal_strlit("vite-react-ts");
    reveal_strlit("vite-react-js");
    reveal_strlit("vite-vue-ts");
    reveal_strlit("vite-vue-js");
    reveal_strlit("nuxt-ts-latest");
    reveal_strlit("nuxt-js-latest");
    reveal_strlit("vite-svelte-ts");
    reveal_strlit("vite-svelte-js");
    reveal_strlit("next-ts-latest");
    reveal_strlit("next-js-latest");
    reveal_strlit("next-ts-16");
    reveal_strlit("next-js-16");
    reveal_strlit("next-ts-15");
    reveal_strlit("next-js-15");
    reveal_strlit("next-ts-14");
    reveal_strlit("next-js-14");
    reveal_strlit("cra-ts");
    reveal_strlit("cra-js");
    reveal_strlit("angular-ts-latest");
    reveal_strlit("nestjs-ts-latest");
    reveal_strlit("nestjs-js-latest");
    reveal_strlit("react-native-ts");
    reveal_strlit("react-native-js");
    reveal_strlit("laravel-php-latest");
    reveal_strlit("symfony-php-latest");
    reveal_strlit("slim-php-latest");
    reveal_strlit("codeigniter-php-latest");
    reveal_strlit("python-basic");
    reveal_strlit("fastapi-python-latest");
    reveal_strlit("flask-python-latest");
    reveal_strlit("django-python-latest");
    reveal_strlit("go-basic-latest");
    reveal_strlit("gin-go-latest");
    reveal_strlit("fiber-go-latest");
    reveal_strlit("echo-go-latest");
    reveal_strlit("chi-go-latest");
    reveal_strlit("dart-console-latest");
    reveal_strlit("flutter-app-latest");
    reveal_strlit("java-basic-latest");
    reveal_strlit("maven-java-latest");
    reveal_strlit("spring-boot-java-latest");
    reveal_strlit("gradle-java-latest");
    reveal_strlit("ruby-basic-latest");
    reveal_strlit("sinatra-ruby-latest");
    reveal_strlit("rails-ruby-latest");
}

/// Which tools each list of requirements holds.
proof fn lemma_requirement_lists_hold(x: ToolRequirement)
    ensures
        seq![ToolRequirement::Node, ToolRequirement::Npm, ToolRequirement::Npx].contains(x) <==> (x == ToolRequirement::Node || x == ToolRequirement::Npm || x == ToolRequirement::Npx),
        seq![ToolRequirement::Php, ToolRequirement::Composer].contains(x) <==> (x == ToolRequirement::Php || x == ToolRequirement::Composer),
        seq![ToolRequirement::Python].contains(x) <==> (x == ToolRequirement::Python),
        seq![ToolRequirement::Go].contains(x) <==> (x == ToolRequirement::Go),
        seq![ToolRequirement::Dart].contains(x) <==> (x == ToolRequirement::Dart),
        seq![ToolRequirement::Flutter].contains(x) <==> (x == ToolRequirement::Flutter),
        seq![ToolRequirement::Java, ToolRequirement::Javac].contains(x) <==> (x == ToolRequirement::Java || x == ToolRequirement::Javac),
        seq![ToolRequirement::Java, ToolRequirement::Javac, ToolRequirement::Maven].contains(x) <==> (x == ToolRequirement::Java || x == ToolRequirement::Javac || x == ToolRequirement::Maven),
        seq![ToolRequirement::Java, ToolRequirement::Javac, ToolRequirement::Gradle].contains(x) <==> (x == ToolRequirement::Java || x == ToolRequirement::Javac || x == ToolRequirement::Gradle),
        seq![ToolRequirement::Ruby].contains(x) <==> (x == ToolRequirement::Ruby),
        seq![ToolRequirement::Ruby, ToolRequirement::Bundler].contains(x) <==> (x == ToolRequirement::Ruby || x == ToolRequirement::Bundler),
{
    {
        let s = seq![ToolRequirement::Node, ToolRequirement::Npm, ToolRequirement::Npx];
        if x == ToolRequirement::Node {
            assert(s[0] == x);
        }
        if x == ToolRequirement::Npm {
            assert(s[1] == x);
        }
        if x == ToolRequirement::Npx {
            assert(s[2] == x);
        }
    }
    {
        let s = seq![ToolRequirement::Php, ToolRequirement::Composer];
        if x == ToolRequirement::Php {
            assert(s[0] == x);
        }
        if x == ToolRequirement::Composer {
            assert(s[1] == x);
        }
    }
    {
        let s = seq![ToolRequirement::Python];
        if x == ToolRequirement::Python {
            assert(s[0] == x);
        }
    }
    {
        let s = seq![ToolRequirement::Go];
        if x == ToolRequirement::Go {
            assert(s[0] == x);
        }
    }
    {
        let s = seq![ToolRequirement::Dart];
        if x == ToolRequirement::Dart {
            assert(s[0] == x);
        }
    }
    {
        let s = seq![ToolRequirement::Flutter];
        if x == ToolRequirement::Flutter {
            assert(s[0] == x);
        }
    }
    {
        let s = seq![ToolRequirement::Java, ToolRequirement::Javac];
        if x == ToolRequirement::Java {
            assert(s[0] == x);
        }
        if x == ToolRequirement::Javac {
            assert(s[1] == x);
        }
    }
    {
        let s = seq![ToolRequirement::Java, ToolRequirement::Javac, ToolRequirement::Maven];
        if x == ToolRequirement::Java {
            assert(s[0] == x);
        }
        if x == ToolRequirement::Javac {
            assert(s[1] == x);
        }
        if x == ToolRequirement::Maven {
            assert(s[2] == x);
        }
    }
    {
        let s = seq![ToolRequirement::Java, ToolRequirement::Javac, ToolRequirement::Gradle];
        if x == ToolRequirement::Java {
            assert(s[0] == x);
        }
        if x == ToolRequirement::Javac {
            assert(s[1] == x);
        }
        if x == ToolRequirement::Gradle {
            assert(s[2] == x);
        }
    }
    {
        let s = seq![ToolRequirement::Ruby];
        if x == ToolRequirement::Ruby {
            assert(s[0] == x);
        }
    }
    {
        let s = seq![ToolRequirement::Ruby, ToolRequirement::Bundler];
        if x == ToolRequirement::Ruby {
            assert(s[0] == x);
        }
        if x == ToolRequirement::Bundler {
            assert(s[1] == x);
        }
    }
}

#[verifier::rlimit(60)]
proof fn lemma_node_template_requirements()
    ensures
        requirements_of("node-ts"@) == Some(seq![ToolRequirement::Node, ToolRequirement::Npm, ToolRequirement::Npx]),
        requirements_of("node-js"@) == Some(seq![ToolRequirement::Node, ToolRequirement::Npm, ToolRequirement::Npx]),
        requirements_of("express-ts"@) == Some(seq![ToolRequirement::Node, ToolRequirement::Npm, ToolRequirement::Npx]),
        requirements_of("express-js"@) == Some(seq![ToolRequirement::Node, ToolRequirement::Npm, ToolRequirement::Npx]),
        requirements_of("vite-react-ts"@) == Some(seq![ToolRequirement::Node, ToolRequirement::Npm, ToolRequirement::Npx]),
        requirements_of("vite-react-js"@) == Some(seq![ToolRequirement::Node, ToolRequirement::Npm, ToolRequirement::Npx]),
        requirements_of("vite-vue-ts"@) == Some(seq![ToolRequirement::Node, ToolRequirement::Npm, ToolRequirement::Npx]),
        requirements_of("vite-vue-js"@) == Some(seq![ToolRequirement::Node, ToolRequirement::Npm, ToolRequirement::Npx]),
        requirements_of("nuxt-ts-latest"@) == Some(seq![ToolRequirement::Node, ToolRequirement::Npm, ToolRequirement::Npx]),
        requirements_of("nuxt-js-latest"@) == Some(seq![ToolRequirement::Node, ToolRequirement::Npm, ToolRequirement::Npx]),
        requirements_of("vite-svelte-ts"@) == Some(seq![ToolRequirement::Node, ToolRequirement::Npm, ToolRequirement::Npx]),
        requirements_of("vite-svelte-js"@) == Some(seq![ToolRequirement::Node, ToolRequirement::Npm, ToolRequirement::Npx]),
        requirements_of("next-ts-latest"@) == Some(seq![ToolRequirement::Node, ToolRequirement::Npm, ToolRequirement::Npx]),
        requirements_of("next-js-latest"@) == Some(seq![ToolRequirement::Node, ToolRequirement::Npm, ToolRequirement::Npx]),
        requirements_of("next-ts-16"@) == Some(seq![ToolRequirement::Node, ToolRequirement::Npm, ToolRequirement::Npx]),
        requirements_of("next-js-16"@) == Some(seq![ToolRequirement::Node, ToolRequirement::Npm, ToolRequirement::Npx]),
        requirements_of("next-ts-15"@) == Some(seq![ToolRequirement::Node, ToolRequirement::Npm, ToolRequirement::Npx]),
        requirements_of("next-js-15"@) == Some(seq![ToolRequirement::Node, ToolRequirement::Npm, ToolRequirement::Npx]),
        requirements_of("next-ts-14"@) == Some(seq![ToolRequirement::Node, ToolRequirement::Npm, ToolRequirement::Npx]),
        requirements_of("next-js-14"@) == Some(seq![ToolRequirement::Node, ToolRequirement::Npm, ToolRequirement::Npx]),
        requirements_of("cra-ts"@) == Some(seq![ToolRequirement::Node, ToolRequirement::Npm, ToolRequirement::Npx]),
        requirements_of("cra-js"@) == Some(seq![ToolRequirement::Node, ToolRequirement::Npm, ToolRequirement::Npx]),
        requirements_of("angular-ts-latest"@) == Some(seq![ToolRequirement::Node, ToolRequirement::Npm, ToolRequirement::Npx]),
        requirements_of("nestjs-ts-latest"@) == Some(seq![ToolRequirement::Node, ToolRequirement::Npm, ToolRequirement::Npx]),
        requirements_of("nestjs-js-latest"@) == Some(seq![ToolRequirement::Node, ToolRequirement::Npm, ToolRequirement::Npx]),
        requirements_of("react-native-ts"@) == Some(seq![ToolRequirement::Node, ToolRequirement::Npm, ToolRequirement::Npx]),
        requirements_of("react-native-js"@) == Some(seq![ToolRequirement::Node, ToolRequirement::Npm, ToolRequirement::Npx]),
{
    lemma_template_id_shapes();
    let node = node_template_ids();
    assert(node[0] == "node-ts"@);
    assert(node[1] == "node-js"@);
    assert(node[2] == "express-ts"@);
    assert(node[3] == "express-js"@);
    assert(node[4] == "vite-react-ts"@);
    assert(node[5] == "vite-react-js"@);
    assert(node[6] == "vite-vue-ts"@);
    assert(node[7] == "vite-vue-js"@);
    assert(node[8] == "nuxt-ts-latest"@);
    assert(node[9] == "nuxt-js-latest"@);
    assert(node[10] == "vite-svelte-ts"@);
    assert(node[11] == "vite-svelte-js"@);
    assert(node[12] == "next-ts-latest"@);
    assert(node[13] == "next-js-latest"@);
    assert(node[14] == "next-ts-16"@);
    assert(node[15] == "next-js-16"@);
    assert(node[16] == "next-ts-15"@);
    assert(node[17] == "next-js-15"@);
    assert(node[18] == "next-ts-14"@);
    assert(node[19] == "next-js-14"@);
    assert(node[20] == "cra-ts"@);
    assert(node[21] == "cra-js"@);
    assert(node[22] == "angular-ts-latest"@);
    assert(node[23] == "nestjs-ts-latest"@);
    assert(node[24] == "nestjs-js-latest"@);
    assert(node[25] == "react-native-ts"@);
    assert(node[26] == "react-native-js"@);
    {
        let t = "node-ts"@;
        assert(node[0] == t);
    }
    {
        let t = "node-js"@;
        assert(node[1] == t);
    }
    {
        let t = "express-ts"@;
        assert(node[2] == t);
    }
    {
        let t = "express-js"@;
        assert(node[3] == t);
    }
    {
        let t = "vite-react-ts"@;
        assert(node[4] == t);
    }
    {
        let t = "vite-react-js"@;
        assert(node[5] == t);
    }
    {
        let t = "vite-vue-ts"@;
        assert(node[6] == t);
    }
    {
        let t = "vite-vue-js"@;
        assert(node[7] == t);
    }
    {
        let t = "nuxt-ts-latest"@;
        assert(node[8] == t);
    }
    {
        let t = "nuxt-js-latest"@;
        assert(node[9] == t);
    }
    {
        let t = "vite-svelte-ts"@;
        assert(node[10] == t);
    }
    {
        let t = "vite-svelte-js"@;
        assert(node[11] == t);
    }
    {
        let t = "next-ts-latest"@;
        assert(node[12] == t);
    }
    {
        let t = "next-js-latest"@;
        assert(node[13] == t);
    }
    {
        let t = "next-ts-16"@;
        assert(node[14] == t);
    }
    {
        let t = "next-js-16"@;
        assert(node[15] == t);
    }
    {
        let t = "next-ts-15"@;
        assert(node[16] == t);
    }
    {
        let t = "next-js-15"@;
        assert(node[17] == t);
    }
    {
        let t = "next-ts-14"@;
        assert(node[18] == t);
    }
    {
        let t = "next-js-14"@;
        assert(node[19] == t);
    }
    {
        let t = "cra-ts"@;
        assert(node[20] == t);
    }
    {
        let t = "cra-js"@;
        assert(node[21] == t);
    }
    {
        let t = "angular-ts-latest"@;
        assert(node[22] == t);
    }
    {
        let t = "nestjs-ts-latest"@;
        assert(node[23] == t);
    }
    {
        let t = "nestjs-js-latest"@;
        assert(node[24] == t);
    }
    {
        let t = "react-native-ts"@;
        assert(node[25] == t);
    }
    {
        let t = "react-native-js"@;
        assert(node[26] == t);
    }
}

#[verifier::rlimit(60)]
proof fn lemma_php_template_requirements()
    ensures
        requirements_of("laravel-php-latest"@) == Some(seq![ToolRequirement::Php, ToolRequirement::Composer]),
        requirements_of("symfony-php-latest"@) == Some(seq![ToolRequirement::Php, ToolRequirement::Composer]),
        requirements_of("slim-php-latest"@) == Some(seq![ToolRequirement::Php, ToolRequirement::Composer]),
        requirements_of("codeigniter-php-latest"@) == Some(seq![ToolRequirement::Php, ToolRequirement::Composer]),
{
    lemma_template_id_shapes();
    let node = node_template_ids();
    assert(node[0] == "node-ts"@);
    assert(node[1] == "node-js"@);
    assert(node[2] == "express-ts"@);
    assert(node[3] == "express-js"@);
    assert(node[4] == "vite-react-ts"@);
    assert(node[5] == "vite-react-js"@);
    assert(node[6] == "vite-vue-ts"@);
    assert(node[7] == "vite-vue-js"@);
    assert(node[8] == "nuxt-ts-latest"@);
    assert(node[9] == "nuxt-js-latest"@);
    assert(node[10] == "vite-svelte-ts"@);
    assert(node[11] == "vite-svelte-js"@);
    assert(node[12] == "next-ts-latest"@);
    assert(node[13] == "next-js-latest"@);
    assert(node[14] == "next-ts-16"@);
    assert(node[15] == "next-js-16"@);
    assert(node[16] == "next-ts-15"@);
    assert(node[17] == "next-js-15"@);
    assert(node[18] == "next-ts-14"@);
    assert(node[19] == "next-js-14"@);
    assert(node[20] == "cra-ts"@);
    assert(node[21] == "cra-js"@);
    assert(node[22] == "angular-ts-latest"@);
    assert(node[23] == "nestjs-ts-latest"@);
    assert(node[24] == "nestjs-js-latest"@);
    assert(node[25] == "react-native-ts"@);
    assert(node[26] == "react-native-js"@);
    let php = php_template_ids();
    assert(php[0] == "laravel-php-latest"@);
    assert(php[1] == "symfony-php-latest"@);
    assert(php[2] == "slim-php-latest"@);
    assert(php[3] == "codeigniter-php-latest"@);
    {
        let t = "laravel-php-latest"@;
        assert forall|i: int| 0 <= i < node.len() implies node[i] != t by {
            assert(i == 0 || i == 1 || i == 2 || i == 3 || i == 4 || i == 5 || i == 6 || i == 7 || i == 8 || i == 9 || i == 10 || i == 11 || i == 12 || i == 13 || i == 14 || i == 15 || i == 16 || i == 17 || i == 18 || i == 19 || i == 20 || i == 21 || i == 22 || i == 23 || i == 24 || i == 25 || i == 26);
        }
        assert(php[0] == t);
    }
    {
        let t = "symfony-php-latest"@;
        assert forall|i: int| 0 <= i < node.len() implies node[i] != t by {
            assert(i == 0 || i == 1 || i == 2 || i == 3 || i == 4 || i == 5 || i == 6 || i == 7 || i == 8 || i == 9 || i == 10 || i == 11 || i == 12 || i == 13 || i == 14 || i == 15 || i == 16 || i == 17 || i == 18 || i == 19 || i == 20 || i == 21 || i == 22 || i == 23 || i == 24 || i == 25 || i == 26);
        }
        assert(php[1] == t);
    }
    {
        let t = "slim-php-latest"@;
        assert forall|i: int| 0 <= i < node.len() implies node[i] != t by {
            assert(i == 0 || i == 1 || i == 2 || i == 3 || i == 4 || i == 5 || i == 6 || i == 7 || i == 8 || i == 9 || i == 10 || i == 11 || i == 12 || i == 13 || i == 14 || i == 15 || i == 16 || i == 17 || i == 18 || i == 19 || i == 20 || i == 21 || i == 22 || i == 23 || i == 24 || i == 25 || i == 26);
        }
        assert(php[2] == t);
    }
    {
        let t = "codeigniter-php-latest"@;
        assert forall|i: int| 0 <= i < node.len() implies node[i] != t by {
            assert(i == 0 || i == 1 || i == 2 || i == 3 || i == 4 || i == 5 || i == 6 || i == 7 || i == 8 || i == 9 || i == 10 || i == 11 || i == 12 || i == 13 || i == 14 || i == 15 || i == 16 || i == 17 || i == 18 || i == 19 || i == 20 || i == 21 || i == 22 || i == 23 || i == 24 || i == 25 || i == 26);
        }
        assert(php[3] == t);
    }
}

#[verifier::rlimit(60)]
proof fn lemma_python_template_requirements()
    ensures
        requirements_of("python-basic"@) == Some(seq![ToolRequirement::Python]),
        requirements_of("fastapi-python-latest"@) == Some(seq![ToolRequirement::Python]),
        requirements_of("flask-python-latest"@) == Some(seq![ToolRequirement::Python]),
        requirements_of("django-python-latest"@) == Some(seq![ToolRequirement::Python]),
{
    lemma_template_id_shapes();
    let node = node_template_ids();
    assert(node[0] == "node-ts"@);
    assert(node[1] == "node-js"@);
    assert(node[2] == "express-ts"@);
    assert(node[3] == "express-js"@);
    assert(node[4] == "vite-react-ts"@);
    assert(node[5] == "vite-react-js"@);
    assert(node[6] == "vite-vue-ts"@);
    assert(node[7] == "vite-vue-js"@);
    assert(node[8] == "nuxt-ts-latest"@);
    assert(node[9] == "nuxt-js-latest"@);
    assert(node[10] == "vite-svelte-ts"@);
    assert(node[11] == "vite-svelte-js"@);
    assert(node[12] == "next-ts-latest"@);
    assert(node[13] == "next-js-latest"@);
    assert(node[14] == "next-ts-16"@);
    assert(node[15] == "next-js-16"@);
    assert(node[16] == "next-ts-15"@);
    assert(node[17] == "next-js-15"@);
    assert(node[18] == "next-ts-14"@);
    assert(node[19] == "next-js-14"@);
    assert(node[20] == "cra-ts"@);
    assert(node[21] == "cra-js"@);
    assert(node[22] == "angular-ts-latest"@);
    assert(node[23] == "nestjs-ts-latest"@);
    assert(node[24] == "nestjs-js-latest"@);
    assert(node[25] == "react-native-ts"@);
    assert(node[26] == "react-native-js"@);
    let php = php_template_ids();
    assert(php[0] == "laravel-php-latest"@);
    assert(php[1] == "symfony-php-latest"@);
    assert(php[2] == "slim-php-latest"@);
    assert(php[3] == "codeigniter-php-latest"@);
    let python = python_template_ids();
    assert(python[0] == "python-basic"@);
    assert(python[1] == "fastapi-python-latest"@);
    assert(python[2] == "flask-python-latest"@);
    assert(python[3] == "django-python-latest"@);
    {
        let t = "python-basic"@;
        assert forall|i: int| 0 <= i < node.len() implies node[i] != t by {
            assert(i == 0 || i == 1 || i == 2 || i == 3 || i == 4 || i == 5 || i == 6 || i == 7 || i == 8 || i == 9 || i == 10 || i == 11 || i == 12 || i == 13 || i == 14 || i == 15 || i == 16 || i == 17 || i == 18 || i == 19 || i == 20 || i == 21 || i == 22 || i == 23 || i == 24 || i == 25 || i == 26);
        }
        assert forall|i: int| 0 <= i < php.len() implies php[i] != t by {
            assert(i == 0 || i == 1 || i == 2 || i == 3);
        }
        assert(python[0] == t);
    }
    {
        let t = "fastapi-python-latest"@;
        assert forall|i: int| 0 <= i < node.len() implies node[i] != t by {
            assert(i == 0 || i == 1 || i == 2 || i == 3 || i == 4 || i == 5 || i == 6 || i == 7 || i == 8 || i == 9 || i == 10 || i == 11 || i == 12 || i == 13 || i == 14 || i == 15 || i == 16 || i == 17 || i == 18 || i == 19 || i == 20 || i == 21 || i == 22 || i == 23 || i == 24 || i == 25 || i == 26);
        }
        assert forall|i: int| 0 <= i < php.len() implies php[i] != t by {
            assert(i == 0 || i == 1 || i == 2 || i == 3);
        }
        assert(python[1] == t);
    }
    {
        let t = "flask-python-latest"@;
        assert forall|i: int| 0 <= i < node.len() implies node[i] != t by {
            assert(i == 0 || i == 1 || i == 2 || i == 3 || i == 4 || i == 5 || i == 6 || i == 7 || i == 8 || i == 9 || i == 10 || i == 11 || i == 12 || i == 13 || i == 14 || i == 15 || i == 16 || i == 17 || i == 18 || i == 19 || i == 20 || i == 21 || i == 22 || i == 23 || i == 24 || i == 25 || i == 26);
        }
        assert forall|i: int| 0 <= i < php.len() implies php[i] != t by {
            assert(i == 0 || i == 1 || i == 2 || i == 3);
        }
        assert(python[2] == t);
    }
    {
        let t = "django-python-latest"@;
        assert forall|i: int| 0 <= i < node.len() implies node[i] != t by {
            assert(i == 0 || i == 1 || i == 2 || i == 3 || i == 4 || i == 5 || i == 6 || i == 7 || i == 8 || i == 9 || i == 10 || i == 11 || i == 12 || i == 13 || i == 14 || i == 15 || i == 16 || i == 17 || i == 18 || i == 19 || i == 20 || i == 21 || i == 22 || i == 23 || i == 24 || i == 25 || i == 26);
        }
        assert forall|i: int| 0 <= i < php.len() implies php[i] != t by {
            assert(i == 0 || i == 1 || i == 2 || i == 3);
        }
        assert(python[3] == t);
    }
}

#[verifier::rlimit(60)]
proof fn lemma_go_template_requirements()
    ensures
        requirements_of("go-basic-latest"@) == Some(seq![ToolRequirement::Go]),
        requirements_of("gin-go-latest"@) == Some(seq![ToolRequirement::Go]),
        requirements_of("fiber-go-latest"@) == Some(seq![ToolRequirement::Go]),
        requirements_of("echo-go-latest"@) == Some(seq![ToolRequirement::Go]),
        requirements_of("chi-go-latest"@) == Some(seq![ToolRequirement::Go]),
{
    lemma_template_id_shapes();
    let node = node_template_ids();
    assert(node[0] == "node-ts"@);
    assert(node[1] == "node-js"@);
    assert(node[2] == "express-ts"@);
    assert(node[3] == "express-js"@);
    assert(node[4] == "vite-react-ts"@);
    assert(node[5] == "vite-react-js"@);
    assert(node[6] == "vite-vue-ts"@);
    assert(node[7] == "vite-vue-js"@);
    assert(node[8] == "nuxt-ts-latest"@);
    assert(node[9] == "nuxt-js-latest"@);
    assert(node[10] == "vite-svelte-ts"@);
    assert(node[11] == "vite-svelte-js"@);
    assert(node[12] == "next-ts-latest"@);
    assert(node[13] == "next-js-latest"@);
    assert(node[14] == "next-ts-16"@);
    assert(node[15] == "next-js-16"@);
    assert(node[16] == "next-ts-15"@);
    assert(node[17] == "next-js-15"@);
    assert(node[18] == "next-ts-14"@);
    assert(node[19] == "next-js-14"@);
    assert(node[20] == "cra-ts"@);
    assert(node[21] == "cra-js"@);
    assert(node[22] == "angular-ts-latest"@);
    assert(node[23] == "nestjs-ts-latest"@);
    assert(node[24] == "nestjs-js-latest"@);
    assert(node[25] == "react-native-ts"@);
    assert(node[26] == "react-native-js"@);
    let php = php_template_ids();
    assert(php[0] == "laravel-php-latest"@);
    assert(php[1] == "symfony-php-latest"@);
    assert(php[2] == "slim-php-latest"@);
    assert(php[3] == "codeigniter-php-latest"@);
    let python = python_template_ids();
    assert(python[0] == "python-basic"@);
    assert(python[1] == "fastapi-python-latest"@);
    assert(python[2] == "flask-python-latest"@);
    assert(python[3] == "django-python-latest"@);
    let go = go_template_ids();
    assert(go[0] == "go-basic-latest"@);
    assert(go[1] == "gin-go-latest"@);
    assert(go[2] == "fiber-go-latest"@);
    assert(go[3] == "echo-go-latest"@);
    assert(go[4] == "chi-go-latest"@);
    {
        let t = "go-basic-latest"@;
        assert forall|i: int| 0 <= i < node.len() implies node[i] != t by {
            assert(i == 0 || i == 1 || i == 2 || i == 3 || i == 4 || i == 5 || i == 6 || i == 7 || i == 8 || i == 9 || i == 10 || i == 11 || i == 12 || i == 13 || i == 14 || i == 15 || i == 16 || i == 17 || i == 18 || i == 19 || i == 20 || i == 21 || i == 22 || i == 23 || i == 24 || i == 25 || i == 26);
        }
        assert forall|i: int| 0 <= i < php.len() implies php[i] != t by {
            assert(i == 0 || i == 1 || i == 2 || i == 3);
        }
        assert forall|i: int| 0 <= i < python.len() implies python[i] != t by {
            assert(i == 0 || i == 1 || i == 2 || i == 3);
        }
        assert(go[0] == t);
    }
    {
        let t = "gin-go-latest"@;
        assert forall|i: int| 0 <= i < node.len() implies node[i] != t by {
            assert(i == 0 || i == 1 || i == 2 || i == 3 || i == 4 || i == 5 || i == 6 || i == 7 || i == 8 || i == 9 || i == 10 || i == 11 || i == 12 || i == 13 || i == 14 || i == 15 || i == 16 || i == 17 || i == 18 || i == 19 || i == 20 || i == 21 || i == 22 || i == 23 || i == 24 || i == 25 || i == 26);
        }
        assert forall|i: int| 0 <= i < php.len() implies php[i] != t by {
            assert(i == 0 || i == 1 || i == 2 || i == 3);
        }
        assert forall|i: int| 0 <= i < python.len() implies python[i] != t by {
            assert(i == 0 || i == 1 || i == 2 || i == 3);
        }
        assert(go[1] == t);
    }
    {
        let t = "fiber-go-latest"@;
        assert forall|i: int| 0 <= i < node.len() implies node[i] != t by {
            assert(i == 0 || i == 1 || i == 2 || i == 3 || i == 4 || i == 5 || i == 6 || i == 7 || i == 8 || i == 9 || i == 10 || i == 11 || i == 12 || i == 13 || i == 14 || i == 15 || i == 16 || i == 17 || i == 18 || i == 19 || i == 20 || i == 21 || i == 22 || i == 23 || i == 24 || i == 25 || i == 26);
        }
        assert forall|i: int| 0 <= i < php.len() implies php[i] != t by {
            assert(i == 0 || i == 1 || i == 2 || i == 3);
        }
        assert forall|i: int| 0 <= i < python.len() implies python[i] != t by {
            assert(i == 0 || i == 1 || i == 2 || i == 3);
        }
        assert(go[2] == t);
    }
    {
        let t = "echo-go-latest"@;
        assert forall|i: int| 0 <= i < node.len() implies node[i] != t by {
            assert(i == 0 || i == 1 || i == 2 || i == 3 || i == 4 || i == 5 || i == 6 || i == 7 || i == 8 || i == 9 || i == 10 || i == 11 || i == 12 || i == 13 || i == 14 || i == 15 || i == 16 || i == 17 || i == 18 || i == 19 || i == 20 || i == 21 || i == 22 || i == 23 || i == 24 || i == 25 || i == 26);
        }
        assert forall|i: int| 0 <= i < php.len() implies php[i] != t by {
            assert(i == 0 || i == 1 || i == 2 || i == 3);
        }
        assert forall|i: int| 0 <= i < python.len() implies python[i] != t by {
            assert(i == 0 || i == 1 || i == 2 || i == 3);
        }
        assert(go[3] == t);
    }
    {
        let t = "chi-go-latest"@;
        assert forall|i: int| 0 <= i < node.len() implies node[i] != t by {
            assert(i == 0 || i == 1 || i == 2 || i == 3 || i == 4 || i == 5 || i == 6 || i == 7 || i == 8 || i == 9 || i == 10 || i == 11 || i == 12 || i == 13 || i == 14 || i == 15 || i == 16 || i == 17 || i == 18 || i == 19 || i == 20 || i == 21 || i == 22 || i == 23 || i == 24 || i == 25 || i == 26);
        }
        assert forall|i: int| 0 <= i < php.len() implies php[i] != t by {
            assert(i == 0 || i == 1 || i == 2 || i == 3);
        }
        assert forall|i: int| 0 <= i < python.len() implies python[i] != t by {
            assert(i == 0 || i == 1 || i == 2 || i == 3);
        }
        assert(go[4] == t);
    }
}

#[verifier::rlimit(60)]
proof fn lemma_other_template_requirements()
    ensures
        requirements_of("dart-console-latest"@) == Some(seq![ToolRequirement::Dart]),
        requirements_of("flutter-app-latest"@) == Some(seq![ToolRequirement::Flutter]),
        requirements_of("java-basic-latest"@) == Some(seq![ToolRequirement::Java, ToolRequirement::Javac]),
        requirements_of("maven-java-latest"@) == Some(seq![ToolRequirement::Java, ToolRequirement::Javac, ToolRequirement::Maven]),
        requirements_of("spring-boot-java-latest"@) == Some(seq![ToolRequirement::Java, ToolRequirement::Javac, ToolRequirement::Maven]),
        requirements_of("gradle-java-latest"@) == Some(seq![ToolRequirement::Java, ToolRequirement::Javac, ToolRequirement::Gradle]),
        requirements_of("ruby-basic-latest"@) == Some(seq![ToolRequirement::Ruby]),
        requirements_of("sinatra-ruby-latest"@) == Some(seq![ToolRequirement::Ruby, ToolRequirement::Bundler]),
        requirements_of("rails-ruby-latest"@) == Some(seq![ToolRequirement::Ruby, ToolRequirement::Bundler]),
{
    lemma_template_id_shapes();
    let node = node_template_ids();
    assert(node[0] == "node-ts"@);
    assert(node[1] == "node-js"@);
    assert(node[2] == "express-ts"@);
    assert(node[3] == "express-js"@);
    assert(node[4] == "vite-react-ts"@);
    assert(node[5] == "vite-react-js"@);
    assert(node[6] == "vite-vue-ts"@);
    assert(node[7] == "vite-vue-js"@);
    assert(node[8] == "nuxt-ts-latest"@);
    assert(node[9] == "nuxt-js-latest"@);
    assert(node[10] == "vite-svelte-ts"@);
    assert(node[11] == "vite-svelte-js"@);
    assert(node[12] == "next-ts-latest"@);
    assert(node[13] == "next-js-latest"@);
    assert(node[14] == "next-ts-16"@);
    assert(node[15] == "next-js-16"@);
    assert(node[16] == "next-ts-15"@);
    assert(node[17] == "next-js-15"@);
    assert(node[18] == "next-ts-14"@);
    assert(node[19] == "next-js-14"@);
    assert(node[20] == "cra-ts"@);
    assert(node[21] == "cra-js"@);
    assert(node[22] == "angular-ts-latest"@);
    assert(node[23] == "nestjs-ts-latest"@);
    assert(node[24] == "nestjs-js-latest"@);
    assert(node[25] == "react-native-ts"@);
    assert(node[26] == "react-native-js"@);
    let php = php_template_ids();
    assert(php[0] == "laravel-php-latest"@);
    assert(php[1] == "symfony-php-latest"@);
    assert(php[2] == "slim-php-latest"@);
    assert(php[3] == "codeigniter-php-latest"@);
    let python = python_template_ids();
    assert(python[0] == "python-basic"@);
    assert(python[1] == "fastapi-python-latest"@);
    assert(python[2] == "flask-python-latest"@);
    assert(python[3] == "django-python-latest"@);
    let go = go_template_ids();
    assert(go[0] == "go-basic-latest"@);
    assert(go[1] == "gin-go-latest"@);
    assert(go[2] == "fiber-go-latest"@);
    assert(go[3] == "echo-go-latest"@);
    assert(go[4] == "chi-go-latest"@);
    {
        let t = "dart-console-latest"@;
        assert forall|i: int| 0 <= i < node.len() implies node[i] != t by {
            assert(i == 0 || i == 1 || i == 2 || i == 3 || i == 4 || i == 5 || i == 6 || i == 7 || i == 8 || i == 9 || i == 10 || i == 11 || i == 12 || i == 13 || i == 14 || i == 15 || i == 16 || i == 17 || i == 18 || i == 19 || i == 20 || i == 21 || i == 22 || i == 23 || i == 24 || i == 25 || i == 26);
        }
        assert forall|i: int| 0 <= i < php.len() implies php[i] != t by {
            assert(i == 0 || i == 1 || i == 2 || i == 3);
        }
        assert forall|i: int| 0 <= i < python.len() implies python[i] != t by {
            assert(i == 0 || i == 1 || i == 2 || i == 3);
        }
        assert forall|i: int| 0 <= i < go.len() implies go[i] != t by {
            assert(i == 0 || i == 1 || i == 2 || i == 3 || i == 4);
        }
    }
    {
        let t = "flutter-app-latest"@;
        assert forall|i: int| 0 <= i < node.len() implies node[i] != t by {
            assert(i == 0 || i == 1 || i == 2 || i == 3 || i == 4 || i == 5 || i == 6 || i == 7 || i == 8 || i == 9 || i == 10 || i == 11 || i == 12 || i == 13 || i == 14 || i == 15 || i == 16 || i == 17 || i == 18 || i == 19 || i == 20 || i == 21 || i == 22 || i == 23 || i == 24 || i == 25 || i == 26);
        }
        assert forall|i: int| 0 <= i < php.len() implies php[i] != t by {
            assert(i == 0 || i == 1 || i == 2 || i == 3);
        }
        assert forall|i: int| 0 <= i < python.len() implies python[i] != t by {
            assert(i == 0 || i == 1 || i == 2 || i == 3);
        }
        assert forall|i: int| 0 <= i < go.len() implies go[i] != t by {
            assert(i == 0 || i == 1 || i == 2 || i == 3 || i == 4);
        }
    }
    {
        let t = "java-basic-latest"@;
        assert forall|i: int| 0 <= i < node.len() implies node[i] != t by {
            assert(i == 0 || i == 1 || i == 2 || i == 3 || i == 4 || i == 5 || i == 6 || i == 7 || i == 8 || i == 9 || i == 10 || i == 11 || i == 12 || i == 13 || i == 14 || i == 15 || i == 16 || i == 17 || i == 18 || i == 19 || i == 20 || i == 21 || i == 22 || i == 23 || i == 24 || i == 25 || i == 26);
        }
        assert forall|i: int| 0 <= i < php.len() implies php[i] != t by {
            assert(i == 0 || i == 1 || i == 2 || i == 3);
        }
        assert forall|i: int| 0 <= i < python.len() implies python[i] != t by {
            assert(i == 0 || i == 1 || i == 2 || i == 3);
        }
        assert forall|i: int| 0 <= i < go.len() implies go[i] != t by {
            assert(i == 0 || i == 1 || i == 2 || i == 3 || i == 4);
        }
    }
    {
        let t = "maven-java-latest"@;
        assert forall|i: int| 0 <= i < node.len() implies node[i] != t by {
            assert(i == 0 || i == 1 || i == 2 || i == 3 || i == 4 || i == 5 || i == 6 || i == 7 || i == 8 || i == 9 || i == 10 || i == 11 || i == 12 || i == 13 || i == 14 || i == 15 || i == 16 || i == 17 || i == 18 || i == 19 || i == 20 || i == 21 || i == 22 || i == 23 || i == 24 || i == 25 || i == 26);
        }
        assert forall|i: int| 0 <= i < php.len() implies php[i] != t by {
            assert(i == 0 || i == 1 || i == 2 || i == 3);
        }
        assert forall|i: int| 0 <= i < python.len() implies python[i] != t by {
            assert(i == 0 || i == 1 || i == 2 || i == 3);
        }
        assert forall|i: int| 0 <= i < go.len() implies go[i] != t by {
            assert(i == 0 || i == 1 || i == 2 || i == 3 || i == 4);
        }
    }
    {
        let t = "spring-boot-java-latest"@;
        assert forall|i: int| 0 <= i < node.len() implies node[i] != t by {
            assert(i == 0 || i == 1 || i == 2 || i == 3 || i == 4 || i == 5 || i == 6 || i == 7 || i == 8 || i == 9 || i == 10 || i == 11 || i == 12 || i == 13 || i == 14 || i == 15 || i == 16 || i == 17 || i == 18 || i == 19 || i == 20 || i == 21 || i == 22 || i == 23 || i == 24 || i == 25 || i == 26);
        }
        assert forall|i: int| 0 <= i < php.len() implies php[i] != t by {
            assert(i == 0 || i == 1 || i == 2 || i == 3);
        }
        assert forall|i: int| 0 <= i < python.len() implies python[i] != t by {
            assert(i == 0 || i == 1 || i == 2 || i == 3);
        }
        assert forall|i: int| 0 <= i < go.len() implies go[i] != t by {
            assert(i == 0 || i == 1 || i == 2 || i == 3 || i == 4);
        }
    }
    {
        let t = "gradle-java-latest"@;
        assert forall|i: int| 0 <= i < node.len() implies node[i] != t by {
            assert(i == 0 || i == 1 || i == 2 || i == 3 || i == 4 || i == 5 || i == 6 || i == 7 || i == 8 || i == 9 || i == 10 || i == 11 || i == 12 || i == 13 || i == 14 || i == 15 || i == 16 || i == 17 || i == 18 || i == 19 || i == 20 || i == 21 || i == 22 || i == 23 || i == 24 || i == 25 || i == 26);
        }
        assert forall|i: int| 0 <= i < php.len() implies php[i] != t by {
            assert(i == 0 || i == 1 || i == 2 || i == 3);
        }
        assert forall|i: int| 0 <= i < python.len() implies python[i] != t by {
            assert(i == 0 || i == 1 || i == 2 || i == 3);
        }
        assert forall|i: int| 0 <= i < go.len() implies go[i] != t by {
            assert(i == 0 || i == 1 || i == 2 || i == 3 || i == 4);
        }
    }
    {
        let t = "ruby-basic-latest"@;
        assert forall|i: int| 0 <= i < node.len() implies node[i] != t by {
            assert(i == 0 || i == 1 || i == 2 || i == 3 || i == 4 || i == 5 || i == 6 || i == 7 || i == 8 || i == 9 || i == 10 || i == 11 || i == 12 || i == 13 || i == 14 || i == 15 || i == 16 || i == 17 || i == 18 || i == 19 || i == 20 || i == 21 || i == 22 || i == 23 || i == 24 || i == 25 || i == 26);
        }
        assert forall|i: int| 0 <= i < php.len() implies php[i] != t by {
            assert(i == 0 || i == 1 || i == 2 || i == 3);
        }
        assert forall|i: int| 0 <= i < python.len() implies python[i] != t by {
            assert(i == 0 || i == 1 || i == 2 || i == 3);
        }
        assert forall|i: int| 0 <= i < go.len() implies go[i] != t by {
            assert(i == 0 || i == 1 || i == 2 || i == 3 || i == 4);
        }
    }
    {
        let t = "sinatra-ruby-latest"@;
        assert forall|i: int| 0 <= i < node.len() implies node[i] != t by {
            assert(i == 0 || i == 1 || i == 2 || i == 3 || i == 4 || i == 5 || i == 6 || i == 7 || i == 8 || i == 9 || i == 10 || i == 11 || i == 12 || i == 13 || i == 14 || i == 15 || i == 16 || i == 17 || i == 18 || i == 19 || i == 20 || i == 21 || i == 22 || i == 23 || i == 24 || i == 25 || i == 26);
        }
        assert forall|i: int| 0 <= i < php.len() implies php[i] != t by {
            assert(i == 0 || i == 1 || i == 2 || i == 3);
        }
        assert forall|i: int| 0 <= i < python.len() implies python[i] != t by {
            assert(i == 0 || i == 1 || i == 2 || i == 3);
        }
        assert forall|i: int| 0 <= i < go.len() implies go[i] != t by {
            assert(i == 0 || i == 1 || i == 2 || i == 3 || i == 4);
        }
    }
    {
        let t = "rails-ruby-latest"@;
        assert forall|i: int| 0 <= i < node.len() implies node[i] != t by {
            assert(i == 0 || i == 1 || i == 2 || i == 3 || i == 4 || i == 5 || i == 6 || i == 7 || i == 8 || i == 9 || i == 10 || i == 11 || i == 12 || i == 13 || i == 14 || i == 15 || i == 16 || i == 17 || i == 18 || i == 19 || i == 20 || i == 21 || i == 22 || i == 23 || i == 24 || i == 25 || i == 26);
        }
        assert forall|i: int| 0 <= i < php.len() implies php[i] != t by {
            assert(i == 0 || i == 1 || i == 2 || i == 3);
        }
        assert forall|i: int| 0 <= i < python.len() implies python[i] != t by {
            assert(i == 0 || i == 1 || i == 2 || i == 3);
        }
        assert forall|i: int| 0 <= i < go.len() implies go[i] != t by {
            assert(i == 0 || i == 1 || i == 2 || i == 3 || i == 4);
        }
    }
}

/// The tools that each template needs, in the order in which they are
/// prepared.
pub proof fn law_template_requirement_lists()
    ensures
        requirements_of("node-ts"@) == Some(seq![ToolRequirement::Node, ToolRequirement::Npm, ToolRequirement::Npx]),
        requirements_of("node-js"@) == Some(seq![ToolRequirement::Node, ToolRequirement::Npm, ToolRequirement::Npx]),
        requirements_of("express-ts"@) == Some(seq![ToolRequirement::Node, ToolRequirement::Npm, ToolRequirement::Npx]),
        requirements_of("express-js"@) == Some(seq![ToolRequirement::Node, ToolRequirement::Npm, ToolRequirement::Npx]),
        requirements_of("vite-react-ts"@) == Some(seq![ToolRequirement::Node, ToolRequirement::Npm, ToolRequirement::Npx]),
        requirements_of("vite-react-js"@) == Some(seq![ToolRequirement::Node, ToolRequirement::Npm, ToolRequirement::Npx]),
        requirements_of("vite-vue-ts"@) == Some(seq![ToolRequirement::Node, ToolRequirement::Npm, ToolRequirement::Npx]),
        requirements_of("vite-vue-js"@) == Some(seq![ToolRequirement::Node, ToolRequirement::Npm, ToolRequirement::Npx]),
        requirements_of("nuxt-ts-latest"@) == Some(seq![ToolRequirement::Node, ToolRequirement::Npm, ToolRequirement::Npx]),
        requirements_of("nuxt-js-latest"@) == Some(seq![ToolRequirement::Node, ToolRequirement::Npm, ToolRequirement::Npx]),
        requirements_of("vite-svelte-ts"@) == Some(seq![ToolRequirement::Node, ToolRequirement::Npm, ToolRequirement::Npx]),
        requirements_of("vite-svelte-js"@) == Some(seq![ToolRequirement::Node, ToolRequirement::Npm, ToolRequirement::Npx]),
        requirements_of("next-ts-latest"@) == Some(seq![ToolRequirement::Node, ToolRequirement::Npm, ToolRequirement::Npx]),
        requirements_of("next-js-latest"@) == Some(seq![ToolRequirement::Node, ToolRequirement::Npm, ToolRequirement::Npx]),
        requirements_of("next-ts-16"@) == Some(seq![ToolRequirement::Node, ToolRequirement::Npm, ToolRequirement::Npx]),
        requirements_of("next-js-16"@) == Some(seq![ToolRequirement::Node, ToolRequirement::Npm, ToolRequirement::Npx]),
        requirements_of("next-ts-15"@) == Some(seq![ToolRequirement::Node, ToolRequirement::Npm, ToolRequirement::Npx]),
        requirements_of("next-js-15"@) == Some(seq![ToolRequirement::Node, ToolRequirement::Npm, ToolRequirement::Npx]),
        requirements_of("next-ts-14"@) == Some(seq![ToolRequirement::Node, ToolRequirement::Npm, ToolRequirement::Npx]),
        requirements_of("next-js-14"@) == Some(seq![ToolRequirement::Node, ToolRequirement::Npm, ToolRequirement::Npx]),
        requirements_of("cra-ts"@) == Some(seq![ToolRequirement::Node, ToolRequirement::Npm, ToolRequirement::Npx]),
        requirements_of("cra-js"@) == Some(seq![ToolRequirement::Node, ToolRequirement::Npm, ToolRequirement::Npx]),
        requirements_of("angular-ts-latest"@) == Some(seq![ToolRequirement::Node, ToolRequirement::Npm, ToolRequirement::Npx]),
        requirements_of("nestjs-ts-latest"@) == Some(seq![ToolRequirement::Node, ToolRequirement::Npm, ToolRequirement::Npx]),
        requirements_of("nestjs-js-latest"@) == Some(seq![ToolRequirement::Node, ToolRequirement::Npm, ToolRequirement::Npx]),
        requirements_of("react-native-ts"@) == Some(seq![ToolRequirement::Node, ToolRequirement::Npm, ToolRequirement::Npx]),
        requirements_of("react-native-js"@) == Some(seq![ToolRequirement::Node, ToolRequirement::Npm, ToolRequirement::Npx]),
        requirements_of("laravel-php-latest"@) == Some(seq![ToolRequirement::Php, ToolRequirement::Composer]),
        requirements_of("symfony-php-latest"@) == Some(seq![ToolRequirement::Php, ToolRequirement::Composer]),
        requirements_of("slim-php-latest"@) == Some(seq![ToolRequirement::Php, ToolRequirement::Composer]),
        requirements_of("codeigniter-php-latest"@) == Some(seq![ToolRequirement::Php, ToolRequirement::Composer]),
        requirements_of("python-basic"@) == Some(seq![ToolRequirement::Python]),
        requirements_of("fastapi-python-latest"@) == Some(seq![ToolRequirement::Python]),
        requirements_of("flask-python-latest"@) == Some(seq![ToolRequirement::Python]),
        requirements_of("django-python-latest"@) == Some(seq![ToolRequirement::Python]),
        requirements_of("go-basic-latest"@) == Some(seq![ToolRequirement::Go]),
        requirements_of("gin-go-latest"@) == Some(seq![ToolRequirement::Go]),
        requirements_of("fiber-go-latest"@) == Some(seq![ToolRequirement::Go]),
        requirements_of("echo-go-latest"@) == Some(seq![ToolRequirement::Go]),
        requirements_of("chi-go-latest"@) == Some(seq![ToolRequirement::Go]),
        requirements_of("dart-console-latest"@) == Some(seq![ToolRequirement::Dart]),
        requirements_of("flutter-app-latest"@) == Some(seq![ToolRequirement::Flutter]),
        requirements_of("java-basic-latest"@) == Some(seq![ToolRequirement::Java, ToolRequirement::Javac]),
        requirements_of("maven-java-latest"@) == Some(seq![ToolRequirement::Java, ToolRequirement::Javac, ToolRequirement::Maven]),
        requirements_of("spring-boot-java-latest"@) == Some(seq![ToolRequirement::Java, ToolRequirement::Javac, ToolRequirement::Maven]),
        requirements_of("gradle-java-latest"@) == Some(seq![ToolRequirement::Java, ToolRequirement::Javac, ToolRequirement::Gradle]),
        requirements_of("ruby-basic-latest"@) == Some(seq![ToolRequirement::Ruby]),
        requirements_of("sinatra-ruby-latest"@) == Some(seq![ToolRequirement::Ruby, ToolRequirement::Bundler]),
        requirements_of("rails-ruby-latest"@) == Some(seq![ToolRequirement::Ruby, ToolRequirement::Bundler]),
{
    lemma_node_template_requirements();
    lemma_php_template_requirements();
    lemma_python_template_requirements();
    lemma_go_template_requirements();
    lemma_other_template_requirements();
}

/// A template whose tools are known is one of the templates.
proof fn lemma_known_template_ids(t: Seq<char>)
    requires
        requirements_of(t) is Some,
    ensures
        t == "node-ts"@ || t == "node-js"@ || t == "express-ts"@ || t == "express-js"@ || t == "vite-react-ts"@ || t == "vite-react-js"@ || t == "vite-vue-ts"@ || t == "vite-vue-js"@ || t == "nuxt-ts-latest"@ || t == "nuxt-js-latest"@ || t == "vite-svelte-ts"@ || t == "vite-svelte-js"@ || t == "next-ts-latest"@ || t == "next-js-latest"@ || t == "next-ts-16"@ || t == "next-js-16"@ || t == "next-ts-15"@ || t == "next-js-15"@ || t == "next-ts-14"@ || t == "next-js-14"@ || t == "cra-ts"@ || t == "cra-js"@ || t == "angular-ts-latest"@ || t == "nestjs-ts-latest"@ || t == "nestjs-js-latest"@ || t == "react-native-ts"@ || t == "react-native-js"@ || t == "laravel-php-latest"@ || t == "symfony-php-latest"@ || t == "slim-php-latest"@ || t == "codeigniter-php-latest"@ || t == "python-basic"@ || t == "fastapi-python-latest"@ || t == "flask-python-latest"@ || t == "django-python-latest"@ || t == "go-basic-latest"@ || t == "gin-go-latest"@ || t == "fiber-go-latest"@ || t == "echo-go-latest"@ || t == "chi-go-latest"@ || t == "dart-console-latest"@ || t == "flutter-app-latest"@ || t == "java-basic-latest"@ || t == "maven-java-latest"@ || t == "spring-boot-java-latest"@ || t == "gradle-java-latest"@ || t == "ruby-basic-latest"@ || t == "sinatra-ruby-latest"@ || t == "rails-ruby-latest"@,
{
    let node = node_template_ids();
    assert(node[0] == "node-ts"@);
    assert(node[1] == "node-js"@);
    assert(node[2] == "express-ts"@);
    assert(node[3] == "express-js"@);
    assert(node[4] == "vite-react-ts"@);
    assert(node[5] == "vite-react-js"@);
    assert(node[6] == "vite-vue-ts"@);
    assert(node[7] == "vite-vue-js"@);
    assert(node[8] == "nuxt-ts-latest"@);
    assert(node[9] == "nuxt-js-latest"@);
    assert(node[10] == "vite-svelte-ts"@);
    assert(node[11] == "vite-svelte-js"@);
    assert(node[12] == "next-ts-latest"@);
    assert(node[13] == "next-js-latest"@);
    assert(node[14] == "next-ts-16"@);
    assert(node[15] == "next-js-16"@);
    assert(node[16] == "next-ts-15"@);
    assert(node[17] == "next-js-15"@);
    assert(node[18] == "next-ts-14"@);
    assert(node[19] == "next-js-14"@);
    assert(node[20] == "cra-ts"@);
    assert(node[21] == "cra-js"@);
    assert(node[22] == "angular-ts-latest"@);
    assert(node[23] == "nestjs-ts-latest"@);
    assert(node[24] == "nestjs-js-latest"@);
    assert(node[25] == "react-native-ts"@);
    assert(node[26] == "react-native-js"@);
    if node.contains(t) {
        let i = choose|i: int| 0 <= i < node.len() && node[i] == t;
        assert(i == 0 || i == 1 || i == 2 || i == 3 || i == 4 || i == 5 || i == 6 || i == 7 || i == 8 || i == 9 || i == 10 || i == 11 || i == 12 || i == 13 || i == 14 || i == 15 || i == 16 || i == 17 || i == 18 || i == 19 || i == 20 || i == 21 || i == 22 || i == 23 || i == 24 || i == 25 || i == 26);
    }
    let php = php_template_ids();
    assert(php[0] == "laravel-php-latest"@);
    assert(php[1] == "symfony-php-latest"@);
    assert(php[2] == "slim-php-latest"@);
    assert(php[3] == "codeigniter-php-latest"@);
    if php.contains(t) {
        let i = choose|i: int| 0 <= i < php.len() && php[i] == t;
        assert(i == 0 || i == 1 || i == 2 || i == 3);
    }
    let python = python_template_ids();
    assert(python[0] == "python-basic"@);
    assert(python[1] == "fastapi-python-latest"@);
    assert(python[2] == "flask-python-latest"@);
    assert(python[3] == "django-python-latest"@);
    if python.contains(t) {
        let i = choose|i: int| 0 <= i < python.len() && python[i] == t;
        assert(i == 0 || i == 1 || i == 2 || i == 3);
    }
    let go = go_template_ids();
    assert(go[0] == "go-basic-latest"@);
    assert(go[1] == "gin-go-latest"@);
    assert(go[2] == "fiber-go-latest"@);
    assert(go[3] == "echo-go-latest"@);
    assert(go[4] == "chi-go-latest"@);
    if go.contains(t) {
        let i = choose|i: int| 0 <= i < go.len() && go[i] == t;
        assert(i == 0 || i == 1 || i == 2 || i == 3 || i == 4);
    }
}

/// Whether a template needs a tool.
pub open spec fn template_needs(t: Seq<char>, x: ToolRequirement) -> bool {
    match requirements_of(t) {
        Some(r) => r.contains(x),
        None => false,
    }
}

/// Which templates need each tool: Node, npm and npx the Node templates,
/// PHP and Composer the PHP ones, Python the Python ones, Dart and Flutter
/// their own, Go the Go ones, Java and javac the Java ones, Maven only the
/// Maven and Spring Boot templates, Gradle only the Gradle one, Ruby the Ruby
/// ones and Bundler only Sinatra and Rails.
#[verifier::rlimit(100)]
pub proof fn law_template_tools(t: Seq<char>)
    ensures
        template_needs(t, ToolRequirement::Node) <==> (t == "node-ts"@ || t == "node-js"@ || t == "express-ts"@ || t == "express-js"@ || t == "vite-react-ts"@ || t == "vite-react-js"@ || t == "vite-vue-ts"@ || t == "vite-vue-js"@ || t == "nuxt-ts-latest"@ || t == "nuxt-js-latest"@ || t == "vite-svelte-ts"@ || t == "vite-svelte-js"@ || t == "next-ts-latest"@ || t == "next-js-latest"@ || t == "next-ts-16"@ || t == "next-js-16"@ || t == "next-ts-15"@ || t == "next-js-15"@ || t == "next-ts-14"@ || t == "next-js-14"@ || t == "cra-ts"@ || t == "cra-js"@ || t == "angular-ts-latest"@ || t == "nestjs-ts-latest"@ || t == "nestjs-js-latest"@ || t == "react-native-ts"@ || t == "react-native-js"@),
        template_needs(t, ToolRequirement::Npm) <==> (t == "node-ts"@ || t == "node-js"@ || t == "express-ts"@ || t == "express-js"@ || t == "vite-react-ts"@ || t == "vite-react-js"@ || t == "vite-vue-ts"@ || t == "vite-vue-js"@ || t == "nuxt-ts-latest"@ || t == "nuxt-js-latest"@ || t == "vite-svelte-ts"@ || t == "vite-svelte-js"@ || t == "next-ts-latest"@ || t == "next-js-latest"@ || t == "next-ts-16"@ || t == "next-js-16"@ || t == "next-ts-15"@ || t == "next-js-15"@ || t == "next-ts-14"@ || t == "next-js-14"@ || t == "cra-ts"@ || t == "cra-js"@ || t == "angular-ts-latest"@ || t == "nestjs-ts-latest"@ || t == "nestjs-js-latest"@ || t == "react-native-ts"@ || t == "react-native-js"@),
        template_needs(t, ToolRequirement::Npx) <==> (t == "node-ts"@ || t == "node-js"@ || t == "express-ts"@ || t == "express-js"@ || t == "vite-react-ts"@ || t == "vite-react-js"@ || t == "vite-vue-ts"@ || t == "vite-vue-js"@ || t == "nuxt-ts-latest"@ || t == "nuxt-js-latest"@ || t == "vite-svelte-ts"@ || t == "vite-svelte-js"@ || t == "next-ts-latest"@ || t == "next-js-latest"@ || t == "next-ts-16"@ || t == "next-js-16"@ || t == "next-ts-15"@ || t == "next-js-15"@ || t == "next-ts-14"@ || t == "next-js-14"@ || t == "cra-ts"@ || t == "cra-js"@ || t == "angular-ts-latest"@ || t == "nestjs-ts-latest"@ || t == "nestjs-js-latest"@ || t == "react-native-ts"@ || t == "react-native-js"@),
        template_needs(t, ToolRequirement::Php) <==> (t == "laravel-php-latest"@ || t == "symfony-php-latest"@ || t == "slim-php-latest"@ || t == "codeigniter-php-latest"@),
        template_needs(t, ToolRequirement::Composer) <==> (t == "laravel-php-latest"@ || t == "symfony-php-latest"@ || t == "slim-php-latest"@ || t == "codeigniter-php-latest"@),
        template_needs(t, ToolRequirement::Python) <==> (t == "python-basic"@ || t == "fastapi-python-latest"@ || t == "flask-python-latest"@ || t == "django-python-latest"@),
        template_needs(t, ToolRequirement::Dart) <==> (t == "dart-console-latest"@),
        template_needs(t, ToolRequirement::Flutter) <==> (t == "flutter-app-latest"@),
        template_needs(t, ToolRequirement::Go) <==> (t == "go-basic-latest"@ || t == "gin-go-latest"@ || t == "fiber-go-latest"@ || t == "echo-go-latest"@ || t == "chi-go-latest"@),
        template_needs(t, ToolRequirement::Java) <==> (t == "java-basic-latest"@ || t == "maven-java-latest"@ || t == "spring-boot-java-latest"@ || t == "gradle-java-latest"@),
        template_needs(t, ToolRequirement::Javac) <==> (t == "java-basic-latest"@ || t == "maven-java-latest"@ || t == "spring-boot-java-latest"@ || t == "gradle-java-latest"@),
        template_needs(t, ToolRequirement::Maven) <==> (t == "maven-java-latest"@ || t == "spring-boot-java-latest"@),
        template_needs(t, ToolRequirement::Gradle) <==> (t == "gradle-java-latest"@),
        template_needs(t, ToolRequirement::Ruby) <==> (t == "ruby-basic-latest"@ || t == "sinatra-ruby-latest"@ || t == "rails-ruby-latest"@),
        template_needs(t, ToolRequirement::Bundler) <==> (t == "sinatra-ruby-latest"@ || t == "rails-ruby-latest"@),
{
    law_template_requirement_lists();
    lemma_requirement_lists_hold(ToolRequirement::Node);
    lemma_requirement_lists_hold(ToolRequirement::Npm);
    lemma_requirement_lists_hold(ToolRequirement::Npx);
    lemma_requirement_lists_hold(ToolRequirement::Php);
    lemma_requirement_lists_hold(ToolRequirement::Composer);
    lemma_requirement_lists_hold(ToolRequirement::Python);
    lemma_requirement_lists_hold(ToolRequirement::Dart);
    lemma_requirement_lists_hold(ToolRequirement::Flutter);
    lemma_requirement_lists_hold(ToolRequirement::Go);
    lemma_requirement_lists_hold(ToolRequirement::Java);
    lemma_requirement_lists_hold(ToolRequirement::Javac);
    lemma_requirement_lists_hold(ToolRequirement::Maven);
    lemma_requirement_lists_hold(ToolRequirement::Gradle);
    lemma_requirement_lists_hold(ToolRequirement::Ruby);
    lemma_requirement_lists_hold(ToolRequirement::Bundler);
    if requirements_of(t) is Some {
        lemma_known_template_ids(t);
    }
}

/// The Python project kind a template creates.
pub open spec fn python_kind_of(t: Seq<char>) -> Option<Seq<char>> {
    if t == "python-basic"@ {
        Some("basic"@)
    } else if t == "fastapi-python-latest"@ {
        Some("fastapi"@)
    } else if t == "flask-python-latest"@ {
        Some("flask"@)
    } else if t == "django-python-latest"@ {
        Some("django"@)
    } else {
        None
    }
}

/// The Python project kind a template creates.
fn python_kind(t: &str) -> (r: Option<&'static str>)
    ensures
        opt_text(r) == python_kind_of(t@),
{
    if str_eq(t, "python-basic") {
        Some("basic")
    } else if str_eq(t, "fastapi-python-latest") {
        Some("fastapi")
    } else if str_eq(t, "flask-python-latest") {
        Some("flask")
    } else if str_eq(t, "django-python-latest") {
        Some("django")
    } else {
        None
    }
}

/// The label of the step and the Composer package a template creates its
/// project from.
pub open spec fn composer_package_of(t: Seq<char>) -> Option<(Seq<char>, Seq<char>)> {
    if t == "laravel-php-latest"@ {
        Some(("Create Laravel project"@, "laravel/laravel"@))
    } else if t == "symfony-php-latest"@ {
        Some(("Create Symfony project"@, "symfony/skeleton"@))
    } else if t == "slim-php-latest"@ {
        Some(("Create Slim project"@, "slim/slim-skeleton"@))
    } else if t == "codeigniter-php-latest"@ {
        Some(("Create CodeIgniter project"@, "codeigniter4/appstarter"@))
    } else {
        None
    }
}

/// The label of the step and the Composer package of a template.
fn composer_package(t: &str) -> (r: Option<(&'static str, &'static str)>)
    ensures
        match composer_package_of(t@) {
            Some(lp) => r matches Some(x) && x.0@ == lp.0 && x.1@ == lp.1,
            None => r is None,
        },
{
    if str_eq(t, "laravel-php-latest") {
        Some(("Create Laravel project", "laravel/laravel"))
    } else if str_eq(t, "symfony-php-latest") {
        Some(("Create Symfony project", "symfony/skeleton"))
    } else if str_eq(t, "slim-php-latest") {
        Some(("Create Slim project", "slim/slim-skeleton"))
    } else if str_eq(t, "codeigniter-php-latest") {
        Some(("Create CodeIgniter project", "codeigniter4/appstarter"))
    } else {
        None
    }
}

/// The steps of a template made with npm tooling, or none for another
/// template.
pub open spec fn node_template_view(
    p: Platform,
    t: Seq<char>,
    name: Seq<char>,
    parent: Seq<char>,
    target: Seq<char>,
) -> Option<Seq<StepView>> {
    if t == "node-ts"@ {
        Some(node_backend_steps_view(p, "node"@, true, name, target))
    } else if t == "node-js"@ {
        Some(node_backend_steps_view(p, "node"@, false, name, target))
    } else if t == "express-ts"@ {
        Some(node_backend_steps_view(p, "express"@, true, name, target))
    } else if t == "express-js"@ {
        Some(node_backend_steps_view(p, "express"@, false, name, target))
    } else if t == "vite-react-ts"@ {
        Some(vite_steps_view(p, "react-ts"@, name, parent, target))
    } else if t == "vite-react-js"@ {
        Some(vite_steps_view(p, "react"@, name, parent, target))
    } else if t == "vite-vue-ts"@ {
        Some(vite_steps_view(p, "vue-ts"@, name, parent, target))
    } else if t == "vite-vue-js"@ {
        Some(vite_steps_view(p, "vue"@, name, parent, target))
    } else if t == "nuxt-ts-latest"@ || t == "nuxt-js-latest"@ {
        Some(nuxt_steps_view(p, name, parent))
    } else if t == "vite-svelte-ts"@ {
        Some(vite_steps_view(p, "svelte-ts"@, name, parent, target))
    } else if t == "vite-svelte-js"@ {
        Some(vite_steps_view(p, "svelte"@, name, parent, target))
    } else if t == "next-ts-latest"@ {
        Some(next_steps_view(p, "latest"@, true, name, parent))
    } else if t == "next-js-latest"@ {
        Some(next_steps_view(p, "latest"@, false, name, parent))
    } else if t == "next-ts-16"@ {
        Some(next_steps_view(p, "16"@, true, name, parent))
    } else if t == "next-js-16"@ {
        Some(next_steps_view(p, "16"@, false, name, parent))
    } else if t == "next-ts-15"@ {
        Some(next_steps_view(p, "15"@, true, name, parent))
    } else if t == "next-js-15"@ {
        Some(next_steps_view(p, "15"@, false, name, parent))
    } else if t == "next-ts-14"@ {
        Some(next_steps_view(p, "14"@, true, name, parent))
    } else if t == "next-js-14"@ {
        Some(next_steps_view(p, "14"@, false, name, parent))
    } else if t == "cra-ts"@ {
        Some(cra_steps_view(p, true, name, parent))
    } else if t == "cra-js"@ {
        Some(cra_steps_view(p, false, name, parent))
    } else if t == "nestjs-ts-latest"@ {
        Some(nest_steps_view(p, true, name, parent))
    } else if t == "nestjs-js-latest"@ {
        Some(nest_steps_view(p, false, name, parent))
    } else if t == "angular-ts-latest"@ {
        Some(angular_steps_view(p, name, parent))
    } else {
        None
    }
}

/// The steps of a template made with npm tooling.
#[verifier::rlimit(40)]
fn node_template_steps(p: Platform, t: &str, name: &str, parent: &str, target: &str) -> (r: Option<
    Vec<CreationStep>,
>)
    ensures
        r.deep_view() == node_template_view(p, t@, name@, parent@, target@),
{
    if str_eq(t, "node-ts") {
        Some(node_backend_steps(p, "node", true, name, target))
    } else if str_eq(t, "node-js") {
        Some(node_backend_steps(p, "node", false, name, target))
    } else if str_eq(t, "express-ts") {
        Some(node_backend_steps(p, "express", true, name, target))
    } else if str_eq(t, "express-js") {
        Some(node_backend_steps(p, "express", false, name, target))
    } else if str_eq(t, "vite-react-ts") {
        Some(vite_steps(p, "react-ts", name, parent, target))
    } else if str_eq(t, "vite-react-js") {
        Some(vite_steps(p, "react", name, parent, target))
    } else if str_eq(t, "vite-vue-ts") {
        Some(vite_steps(p, "vue-ts", name, parent, target))
    } else if str_eq(t, "vite-vue-js") {
        Some(vite_steps(p, "vue", name, parent, target))
    } else if str_eq(t, "nuxt-ts-latest") || str_eq(t, "nuxt-js-latest") {
        Some(nuxt_steps(p, name, parent))
    } else if str_eq(t, "vite-svelte-ts") {
        Some(vite_steps(p, "svelte-ts", name, parent, target))
    } else if str_eq(t, "vite-svelte-js") {
        Some(vite_steps(p, "svelte", name, parent, target))
    } else if str_eq(t, "next-ts-latest") {
        Some(next_steps(p, "latest", true, name, parent))
    } else if str_eq(t, "next-js-latest") {
        Some(next_steps(p, "latest", false, name, parent))
    } else if str_eq(t, "next-ts-16") {
        Some(next_steps(p, "16", true, name, parent))
    } else if str_eq(t, "next-js-16") {
        Some(next_steps(p, "16", false, name, parent))
    } else if str_eq(t, "next-ts-15") {
        Some(next_steps(p, "15", true, name, parent))
    } else if str_eq(t, "next-js-15") {
        Some(next_steps(p, "15", false, name, parent))
    } else if str_eq(t, "next-ts-14") {
        Some(next_steps(p, "14", true, name, parent))
    } else if str_eq(t, "next-js-14") {
        Some(next_steps(p, "14", false, name, parent))
    } else if str_eq(t, "cra-ts") {
        Some(cra_steps(p, true, name, parent))
    } else if str_eq(t, "cra-js") {
        Some(cra_steps(p, false, name, parent))
    } else if str_eq(t, "nestjs-ts-latest") {
        Some(nest_steps(p, true, name, parent))
    } else if str_eq(t, "nestjs-js-latest") {
        Some(nest_steps(p, false, name, parent))
    } else if str_eq(t, "angular-ts-latest") {
        Some(angular_steps(p, name, parent))
    } else {
        None
    }
}

/// The steps of a Dart, Flutter, Java, Ruby or Go template, or none for
/// another template.
pub open spec fn native_template_view(
    p: Platform,
    t: Seq<char>,
    name: Seq<char>,
    parent: Seq<char>,
    target: Seq<char>,
) -> Option<Seq<StepView>> {
    if t == "dart-console-latest"@ {
        Some(dart_console_steps_view(p, name, parent))
    } else if t == "flutter-app-latest"@ {
        Some(flutter_app_steps_view(p, name, parent))
    } else if t == "java-basic-latest"@ {
        Some(java_basic_steps_view(p, name, parent, target))
    } else if t == "maven-java-latest"@ {
        Some(maven_java_steps_view(p, name, parent, target))
    } else if t == "gradle-java-latest"@ {
        Some(gradle_java_steps_view(p, name, parent, target))
    } else if t == "spring-boot-java-latest"@ {
        Some(spring_boot_steps_view(p, name, parent, target))
    } else if t == "ruby-basic-latest"@ {
        Some(ruby_basic_steps_view(p, name, parent, target))
    } else if t == "sinatra-ruby-latest"@ {
        Some(sinatra_steps_view(p, name, parent, target))
    } else if t == "rails-ruby-latest"@ {
        Some(rails_steps_view(p, name, parent, target))
    } else if t == "go-basic-latest"@ {
        Some(go_steps_view(p, "basic"@, name, parent, target))
    } else if t == "gin-go-latest"@ {
        Some(go_steps_view(p, "gin"@, name, parent, target))
    } else if t == "fiber-go-latest"@ {
        Some(go_steps_view(p, "fiber"@, name, parent, target))
    } else if t == "echo-go-latest"@ {
        Some(go_steps_view(p, "echo"@, name, parent, target))
    } else if t == "chi-go-latest"@ {
        Some(go_steps_view(p, "chi"@, name, parent, target))
    } else {
        None
    }
}

/// The steps of a Dart, Flutter, Java, Ruby or Go template.
#[verifier::rlimit(40)]
fn native_template_steps(p: Platform, t: &str, name: &str, parent: &str, target: &str) -> (r: Option<
    Vec<CreationStep>,
>)
    ensures
        r.deep_view() == native_template_view(p, t@, name@, parent@, target@),
{
    if str_eq(t, "dart-console-latest") {
        Some(dart_console_steps(p, name, parent))
    } else if str_eq(t, "flutter-app-latest") {
        Some(flutter_app_steps(p, name, parent))
    } else if str_eq(t, "java-basic-latest") {
        Some(java_basic_steps(p, name, parent, target))
    } else if str_eq(t, "maven-java-latest") {
        Some(maven_java_steps(p, name, parent, target))
    } else if str_eq(t, "gradle-java-latest") {
        Some(gradle_java_steps(p, name, parent, target))
    } else if str_eq(t, "spring-boot-java-latest") {
        Some(spring_boot_steps(p, name, parent, target))
    } else if str_eq(t, "ruby-basic-latest") {
        Some(ruby_basic_steps(p, name, parent, target))
    } else if str_eq(t, "sinatra-ruby-latest") {
        Some(sinatra_steps(p, name, parent, target))
    } else if str_eq(t, "rails-ruby-latest") {
        Some(rails_steps(p, name, parent, target))
    } else if str_eq(t, "go-basic-latest") {
        Some(go_project_steps(p, "basic", name, parent, target))
    } else if str_eq(t, "gin-go-latest") {
        Some(go_project_steps(p, "gin", name, parent, target))
    } else if str_eq(t, "fiber-go-latest") {
        Some(go_project_steps(p, "fiber", name, parent, target))
    } else if str_eq(t, "echo-go-latest") {
        Some(go_project_steps(p, "echo", name, parent, target))
    } else if str_eq(t, "chi-go-latest") {
        Some(go_project_steps(p, "chi", name, parent, target))
    } else {
        None
    }
}

/// The message for a template id that no template has.
pub open spec fn unknown_template_message(template_id: Seq<char>) -> Seq<char> {
    "Unknown project template '"@ + template_id + "'"@
}

/// The templates whose tools are known but that no creation steps are
/// defined for yet.
pub open spec fn is_unsupported_template(template_id: Seq<char>) -> bool {
    template_id == "react-native-ts"@ || template_id == "react-native-js"@
}

/// The message for a template that cannot be created yet.
pub open spec fn unsupported_template_message(template_id: Seq<char>) -> Seq<char> {
    "Project template '"@ + template_id + "' is not supported yet"@
}

/// The steps that create a project from a template, given the Composer and
/// the Python that were prepared for it. A Python template without a
/// prepared Python, or a Composer template without a prepared Composer, is
/// refused; so is a template that cannot be created yet, and an id that no
/// template has.
pub open spec fn creation_steps_view(
    p: Platform,
    template_id: Seq<char>,
    name: Seq<char>,
    parent: Seq<char>,
    target: Seq<char>,
    composer: Option<ToolView>,
    python: Option<ToolView>,
) -> Result<Seq<StepView>, Seq<char>> {
    if is_unsupported_template(template_id) {
        Err(unsupported_template_message(template_id))
    } else {
        match python_kind_of(template_id) {
            Some(kind) => match python {
                Some(py) => Ok(python_steps_view(p, kind, name, parent, target, py)),
                None => Err("Python was not prepared"@),
            },
            None => match composer_package_of(template_id) {
                Some(lp) => match composer {
                    Some(c) => Ok(composer_create_project_view(lp.0, lp.1, name, parent, c)),
                    None => Err("Composer was not prepared"@),
                },
                None => match node_template_view(p, template_id, name, parent, target) {
                    Some(steps) => Ok(steps),
                    None => match native_template_view(p, template_id, name, parent, target) {
                        Some(steps) => Ok(steps),
                        None => Err(unknown_template_message(template_id)),
                    },
                },
            },
        }
    }
}

/// Whether `r` is the scaffold of a Vite project: `create-vite` run by npx in
/// the parent folder with the given Vite template, then `npm install` in the
/// new folder.
pub open spec fn is_vite_scaffold(
    r: Result<Seq<StepView>, Seq<char>>,
    p: Platform,
    template: Seq<char>,
    name: Seq<char>,
    parent: Seq<char>,
    target: Seq<char>,
) -> bool {
    &&& r matches Ok(steps)
    &&& steps.len() == 2
    &&& steps[0].program == by_platform(p, "npx"@, "npx.cmd"@)
    &&& steps[0].args == seq![
        "-y"@,
        "create-vite@latest"@,
        name,
        "--template"@,
        template,
        "--no-interactive"@,
    ]
    &&& steps[0].cwd == parent
    &&& steps[1].program == by_platform(p, "npm"@, "npm.cmd"@)
    &&& steps[1].args == seq!["install"@]
    &&& steps[1].cwd == target
}

/// Each Vite template creates its project from the Vite template of the same
/// framework and language: `react-ts`, `react`, `vue-ts`, `vue`, `svelte-ts`
/// and `svelte`, whatever was prepared.
pub proof fn law_vite_templates(
    p: Platform,
    name: Seq<char>,
    parent: Seq<char>,
    target: Seq<char>,
    composer: Option<ToolView>,
    python: Option<ToolView>,
)
    ensures
        is_vite_scaffold(
            creation_steps_view(p, "vite-react-ts"@, name, parent, target, composer, python),
            p,
            "react-ts"@,
            name,
            parent,
            target,
        ),
        is_vite_scaffold(
            creation_steps_view(p, "vite-react-js"@, name, parent, target, composer, python),
            p,
            "react"@,
            name,
            parent,
            target,
        ),
        is_vite_scaffold(
            creation_steps_view(p, "vite-vue-ts"@, name, parent, target, composer, python),
            p,
            "vue-ts"@,
            name,
            parent,
            target,
        ),
        is_vite_scaffold(
            creation_steps_view(p, "vite-vue-js"@, name, parent, target, composer, python),
            p,
            "vue"@,
            name,
            parent,
            target,
        ),
        is_vite_scaffold(
            creation_steps_view(p, "vite-svelte-ts"@, name, parent, target, composer, python),
            p,
            "svelte-ts"@,
            name,
            parent,
            target,
        ),
        is_vite_scaffold(
            creation_steps_view(p, "vite-svelte-js"@, name, parent, target, composer, python),
            p,
            "svelte"@,
            name,
            parent,
            target,
        ),
{
    lemma_template_id_shapes();
}

proof fn lemma_node_template_steps(
    p: Platform,
    name: Seq<char>,
    parent: Seq<char>,
    target: Seq<char>,
    composer: ToolView,
    python: ToolView,
)
    ensures
        creation_steps_view(p, "node-ts"@, name, parent, target, Some(composer), Some(python)) == Ok::<Seq<StepView>, Seq<char>>(node_backend_steps_view(p, "node"@, true, name, target)),
        creation_steps_view(p, "node-js"@, name, parent, target, Some(composer), Some(python)) == Ok::<Seq<StepView>, Seq<char>>(node_backend_steps_view(p, "node"@, false, name, target)),
        creation_steps_view(p, "express-ts"@, name, parent, target, Some(composer), Some(python)) == Ok::<Seq<StepView>, Seq<char>>(node_backend_steps_view(p, "express"@, true, name, target)),
        creation_steps_view(p, "express-js"@, name, parent, target, Some(composer), Some(python)) == Ok::<Seq<StepView>, Seq<char>>(node_backend_steps_view(p, "express"@, false, name, target)),
        creation_steps_view(p, "vite-react-ts"@, name, parent, target, Some(composer), Some(python)) == Ok::<Seq<StepView>, Seq<char>>(vite_steps_view(p, "react-ts"@, name, parent, target)),
        creation_steps_view(p, "vite-react-js"@, name, parent, target, Some(composer), Some(python)) == Ok::<Seq<StepView>, Seq<char>>(vite_steps_view(p, "react"@, name, parent, target)),
        creation_steps_view(p, "vite-vue-ts"@, name, parent, target, Some(composer), Some(python)) == Ok::<Seq<StepView>, Seq<char>>(vite_steps_view(p, "vue-ts"@, name, parent, target)),
        creation_steps_view(p, "vite-vue-js"@, name, parent, target, Some(composer), Some(python)) == Ok::<Seq<StepView>, Seq<char>>(vite_steps_view(p, "vue"@, name, parent, target)),
        creation_steps_view(p, "nuxt-ts-latest"@, name, parent, target, Some(composer), Some(python)) == Ok::<Seq<StepView>, Seq<char>>(nuxt_steps_view(p, name, parent)),
        creation_steps_view(p, "nuxt-js-latest"@, name, parent, target, Some(composer), Some(python)) == Ok::<Seq<StepView>, Seq<char>>(nuxt_steps_view(p, name, parent)),
        creation_steps_view(p, "vite-svelte-ts"@, name, parent, target, Some(composer), Some(python)) == Ok::<Seq<StepView>, Seq<char>>(vite_steps_view(p, "svelte-ts"@, name, parent, target)),
        creation_steps_view(p, "vite-svelte-js"@, name, parent, target, Some(composer), Some(python)) == Ok::<Seq<StepView>, Seq<char>>(vite_steps_view(p, "svelte"@, name, parent, target)),
        creation_steps_view(p, "next-ts-latest"@, name, parent, target, Some(composer), Some(python)) == Ok::<Seq<StepView>, Seq<char>>(next_steps_view(p, "latest"@, true, name, parent)),
        creation_steps_view(p, "next-js-latest"@, name, parent, target, Some(composer), Some(python)) == Ok::<Seq<StepView>, Seq<char>>(next_steps_view(p, "latest"@, false, name, parent)),
        creation_steps_view(p, "next-ts-16"@, name, parent, target, Some(composer), Some(python)) == Ok::<Seq<StepView>, Seq<char>>(next_steps_view(p, "16"@, true, name, parent)),
        creation_steps_view(p, "next-js-16"@, name, parent, target, Some(composer), Some(python)) == Ok::<Seq<StepView>, Seq<char>>(next_steps_view(p, "16"@, false, name, parent)),
        creation_steps_view(p, "next-ts-15"@, name, parent, target, Some(composer), Some(python)) == Ok::<Seq<StepView>, Seq<char>>(next_steps_view(p, "15"@, true, name, parent)),
        creation_steps_view(p, "next-js-15"@, name, parent, target, Some(composer), Some(python)) == Ok::<Seq<StepView>, Seq<char>>(next_steps_view(p, "15"@, false, name, parent)),
        creation_steps_view(p, "next-ts-14"@, name, parent, target, Some(composer), Some(python)) == Ok::<Seq<StepView>, Seq<char>>(next_steps_view(p, "14"@, true, name, parent)),
        creation_steps_view(p, "next-js-14"@, name, parent, target, Some(composer), Some(python)) == Ok::<Seq<StepView>, Seq<char>>(next_steps_view(p, "14"@, false, name, parent)),
        creation_steps_view(p, "cra-ts"@, name, parent, target, Some(composer), Some(python)) == Ok::<Seq<StepView>, Seq<char>>(cra_steps_view(p, true, name, parent)),
        creation_steps_view(p, "cra-js"@, name, parent, target, Some(composer), Some(python)) == Ok::<Seq<StepView>, Seq<char>>(cra_steps_view(p, false, name, parent)),
        creation_steps_view(p, "nestjs-ts-latest"@, name, parent, target, Some(composer), Some(python)) == Ok::<Seq<StepView>, Seq<char>>(nest_steps_view(p, true, name, parent)),
        creation_steps_view(p, "nestjs-js-latest"@, name, parent, target, Some(composer), Some(python)) == Ok::<Seq<StepView>, Seq<char>>(nest_steps_view(p, false, name, parent)),
        creation_steps_view(p, "angular-ts-latest"@, name, parent, target, Some(composer), Some(python)) == Ok::<Seq<StepView>, Seq<char>>(angular_steps_view(p, name, parent)),
{
    lemma_template_id_shapes();
}

proof fn lemma_native_template_steps(
    p: Platform,
    name: Seq<char>,
    parent: Seq<char>,
    target: Seq<char>,
    composer: ToolView,
    python: ToolView,
)
    ensures
        creation_steps_view(p, "dart-console-latest"@, name, parent, target, Some(composer), Some(python)) == Ok::<Seq<StepView>, Seq<char>>(dart_console_steps_view(p, name, parent)),
        creation_steps_view(p, "flutter-app-latest"@, name, parent, target, Some(composer), Some(python)) == Ok::<Seq<StepView>, Seq<char>>(flutter_app_steps_view(p, name, parent)),
        creation_steps_view(p, "java-basic-latest"@, name, parent, target, Some(composer), Some(python)) == Ok::<Seq<StepView>, Seq<char>>(java_basic_steps_view(p, name, parent, target)),
        creation_steps_view(p, "maven-java-latest"@, name, parent, target, Some(composer), Some(python)) == Ok::<Seq<StepView>, Seq<char>>(maven_java_steps_view(p, name, parent, target)),
        creation_steps_view(p, "gradle-java-latest"@, name, parent, target, Some(composer), Some(python)) == Ok::<Seq<StepView>, Seq<char>>(gradle_java_steps_view(p, name, parent, target)),
        creation_steps_view(p, "spring-boot-java-latest"@, name, parent, target, Some(composer), Some(python)) == Ok::<Seq<StepView>, Seq<char>>(spring_boot_steps_view(p, name, parent, target)),
        creation_steps_view(p, "ruby-basic-latest"@, name, parent, target, Some(composer), Some(python)) == Ok::<Seq<StepView>, Seq<char>>(ruby_basic_steps_view(p, name, parent, target)),
        creation_steps_view(p, "sinatra-ruby-latest"@, name, parent, target, Some(composer), Some(python)) == Ok::<Seq<StepView>, Seq<char>>(sinatra_steps_view(p, name, parent, target)),
        creation_steps_view(p, "rails-ruby-latest"@, name, parent, target, Some(composer), Some(python)) == Ok::<Seq<StepView>, Seq<char>>(rails_steps_view(p, name, parent, target)),
        creation_steps_view(p, "go-basic-latest"@, name, parent, target, Some(composer), Some(python)) == Ok::<Seq<StepView>, Seq<char>>(go_steps_view(p, "basic"@, name, parent, target)),
        creation_steps_view(p, "gin-go-latest"@, name, parent, target, Some(composer), Some(python)) == Ok::<Seq<StepView>, Seq<char>>(go_steps_view(p, "gin"@, name, parent, target)),
        creation_steps_view(p, "fiber-go-latest"@, name, parent, target, Some(composer), Some(python)) == Ok::<Seq<StepView>, Seq<char>>(go_steps_view(p, "fiber"@, name, parent, target)),
        creation_steps_view(p, "echo-go-latest"@, name, parent, target, Some(composer), Some(python)) == Ok::<Seq<StepView>, Seq<char>>(go_steps_view(p, "echo"@, name, parent, target)),
        creation_steps_view(p, "chi-go-latest"@, name, parent, target, Some(composer), Some(python)) == Ok::<Seq<StepView>, Seq<char>>(go_steps_view(p, "chi"@, name, parent, target)),
{
    lemma_template_id_shapes();
}

proof fn lemma_python_and_php_template_steps(
    p: Platform,
    name: Seq<char>,
    parent: Seq<char>,
    target: Seq<char>,
    composer: ToolView,
    python: ToolView,
)
    ensures
        creation_steps_view(p, "python-basic"@, name, parent, target, Some(composer), Some(python)) == Ok::<Seq<StepView>, Seq<char>>(python_steps_view(p, "basic"@, name, parent, target, python)),
        creation_steps_view(p, "python-basic"@, name, parent, target, Some(composer), None) == Err::<Seq<StepView>, Seq<char>>("Python was not prepared"@),
        creation_steps_view(p, "fastapi-python-latest"@, name, parent, target, Some(composer), Some(python)) == Ok::<Seq<StepView>, Seq<char>>(python_steps_view(p, "fastapi"@, name, parent, target, python)),
        creation_steps_view(p, "fastapi-python-latest"@, name, parent, target, Some(composer), None) == Err::<Seq<StepView>, Seq<char>>("Python was not prepared"@),
        creation_steps_view(p, "flask-python-latest"@, name, parent, target, Some(composer), Some(python)) == Ok::<Seq<StepView>, Seq<char>>(python_steps_view(p, "flask"@, name, parent, target, python)),
        creation_steps_view(p, "flask-python-latest"@, name, parent, target, Some(composer), None) == Err::<Seq<StepView>, Seq<char>>("Python was not prepared"@),
        creation_steps_view(p, "django-python-latest"@, name, parent, target, Some(composer), Some(python)) == Ok::<Seq<StepView>, Seq<char>>(python_steps_view(p, "django"@, name, parent, target, python)),
        creation_steps_view(p, "django-python-latest"@, name, parent, target, Some(composer), None) == Err::<Seq<StepView>, Seq<char>>("Python was not prepared"@),
        creation_steps_view(p, "laravel-php-latest"@, name, parent, target, Some(composer), Some(python)) == Ok::<Seq<StepView>, Seq<char>>(composer_create_project_view("Create Laravel project"@, "laravel/laravel"@, name, parent, composer)),
        creation_steps_view(p, "laravel-php-latest"@, name, parent, target, None, Some(python)) == Err::<Seq<StepView>, Seq<char>>("Composer was not prepared"@),
        creation_steps_view(p, "symfony-php-latest"@, name, parent, target, Some(composer), Some(python)) == Ok::<Seq<StepView>, Seq<char>>(composer_create_project_view("Create Symfony project"@, "symfony/skeleton"@, name, parent, composer)),
        creation_steps_view(p, "symfony-php-latest"@, name, parent, target, None, Some(python)) == Err::<Seq<StepView>, Seq<char>>("Composer was not prepared"@),
        creation_steps_view(p, "slim-php-latest"@, name, parent, target, Some(composer), Some(python)) == Ok::<Seq<StepView>, Seq<char>>(composer_create_project_view("Create Slim project"@, "slim/slim-skeleton"@, name, parent, composer)),
        creation_steps_view(p, "slim-php-latest"@, name, parent, target, None, Some(python)) == Err::<Seq<StepView>, Seq<char>>("Composer was not prepared"@),
        creation_steps_view(p, "codeigniter-php-latest"@, name, parent, target, Some(composer), Some(python)) == Ok::<Seq<StepView>, Seq<char>>(composer_create_project_view("Create CodeIgniter project"@, "codeigniter4/appstarter"@, name, parent, composer)),
        creation_steps_view(p, "codeigniter-php-latest"@, name, parent, target, None, Some(python)) == Err::<Seq<StepView>, Seq<char>>("Composer was not prepared"@),
{
    lemma_template_id_shapes();
}

/// What each template creates: which scaffold, with which framework,
/// language, version or package, once its tools are prepared; and that a
/// Python or PHP template is refused while Python or Composer was not
/// prepared.
pub proof fn law_template_steps(
    p: Platform,
    name: Seq<char>,
    parent: Seq<char>,
    target: Seq<char>,
    composer: ToolView,
    python: ToolView,
)
    ensures
        creation_steps_view(p, "node-ts"@, name, parent, target, Some(composer), Some(python)) == Ok::<Seq<StepView>, Seq<char>>(node_backend_steps_view(p, "node"@, true, name, target)),
        creation_steps_view(p, "node-js"@, name, parent, target, Some(composer), Some(python)) == Ok::<Seq<StepView>, Seq<char>>(node_backend_steps_view(p, "node"@, false, name, target)),
        creation_steps_view(p, "express-ts"@, name, parent, target, Some(composer), Some(python)) == Ok::<Seq<StepView>, Seq<char>>(node_backend_steps_view(p, "express"@, true, name, target)),
        creation_steps_view(p, "express-js"@, name, parent, target, Some(composer), Some(python)) == Ok::<Seq<StepView>, Seq<char>>(node_backend_steps_view(p, "express"@, false, name, target)),
        creation_steps_view(p, "vite-react-ts"@, name, parent, target, Some(composer), Some(python)) == Ok::<Seq<StepView>, Seq<char>>(vite_steps_view(p, "react-ts"@, name, parent, target)),
        creation_steps_view(p, "vite-react-js"@, name, parent, target, Some(composer), Some(python)) == Ok::<Seq<StepView>, Seq<char>>(vite_steps_view(p, "react"@, name, parent, target)),
        creation_steps_view(p, "vite-vue-ts"@, name, parent, target, Some(composer), Some(python)) == Ok::<Seq<StepView>, Seq<char>>(vite_steps_view(p, "vue-ts"@, name, parent, target)),
        creation_steps_view(p, "vite-vue-js"@, name, parent, target, Some(composer), Some(python)) == Ok::<Seq<StepView>, Seq<char>>(vite_steps_view(p, "vue"@, name, parent, target)),
        creation_steps_view(p, "nuxt-ts-latest"@, name, parent, target, Some(composer), Some(python)) == Ok::<Seq<StepView>, Seq<char>>(nuxt_steps_view(p, name, parent)),
        creation_steps_view(p, "nuxt-js-latest"@, name, parent, target, Some(composer), Some(python)) == Ok::<Seq<StepView>, Seq<char>>(nuxt_steps_view(p, name, parent)),
        creation_steps_view(p, "vite-svelte-ts"@, name, parent, target, Some(composer), Some(python)) == Ok::<Seq<StepView>, Seq<char>>(vite_steps_view(p, "svelte-ts"@, name, parent, target)),
        creation_steps_view(p, "vite-svelte-js"@, name, parent, target, Some(composer), Some(python)) == Ok::<Seq<StepView>, Seq<char>>(vite_steps_view(p, "svelte"@, name, parent, target)),
        creation_steps_view(p, "next-ts-latest"@, name, parent, target, Some(composer), Some(python)) == Ok::<Seq<StepView>, Seq<char>>(next_steps_view(p, "latest"@, true, name, parent)),
        creation_steps_view(p, "next-js-latest"@, name, parent, target, Some(composer), Some(python)) == Ok::<Seq<StepView>, Seq<char>>(next_steps_view(p, "latest"@, false, name, parent)),
        creation_steps_view(p, "next-ts-16"@, name, parent, target, Some(composer), Some(python)) == Ok::<Seq<StepView>, Seq<char>>(next_steps_view(p, "16"@, true, name, parent)),
        creation_steps_view(p, "next-js-16"@, name, parent, target, Some(composer), Some(python)) == Ok::<Seq<StepView>, Seq<char>>(next_steps_view(p, "16"@, false, name, parent)),
        creation_steps_view(p, "next-ts-15"@, name, parent, target, Some(composer), Some(python)) == Ok::<Seq<StepView>, Seq<char>>(next_steps_view(p, "15"@, true, name, parent)),
        creation_steps_view(p, "next-js-15"@, name, parent, target, Some(composer), Some(python)) == Ok::<Seq<StepView>, Seq<char>>(next_steps_view(p, "15"@, false, name, parent)),
        creation_steps_view(p, "next-ts-14"@, name, parent, target, Some(composer), Some(python)) == Ok::<Seq<StepView>, Seq<char>>(next_steps_view(p, "14"@, true, name, parent)),
        creation_steps_view(p, "next-js-14"@, name, parent, target, Some(composer), Some(python)) == Ok::<Seq<StepView>, Seq<char>>(next_steps_view(p, "14"@, false, name, parent)),
        creation_steps_view(p, "cra-ts"@, name, parent, target, Some(composer), Some(python)) == Ok::<Seq<StepView>, Seq<char>>(cra_steps_view(p, true, name, parent)),
        creation_steps_view(p, "cra-js"@, name, parent, target, Some(composer), Some(python)) == Ok::<Seq<StepView>, Seq<char>>(cra_steps_view(p, false, name, parent)),
        creation_steps_view(p, "nestjs-ts-latest"@, name, parent, target, Some(composer), Some(python)) == Ok::<Seq<StepView>, Seq<char>>(nest_steps_view(p, true, name, parent)),
        creation_steps_view(p, "nestjs-js-latest"@, name, parent, target, Some(composer), Some(python)) == Ok::<Seq<StepView>, Seq<char>>(nest_steps_view(p, false, name, parent)),
        creation_steps_view(p, "angular-ts-latest"@, name, parent, target, Some(composer), Some(python)) == Ok::<Seq<StepView>, Seq<char>>(angular_steps_view(p, name, parent)),
        creation_steps_view(p, "dart-console-latest"@, name, parent, target, Some(composer), Some(python)) == Ok::<Seq<StepView>, Seq<char>>(dart_console_steps_view(p, name, parent)),
        creation_steps_view(p, "flutter-app-latest"@, name, parent, target, Some(composer), Some(python)) == Ok::<Seq<StepView>, Seq<char>>(flutter_app_steps_view(p, name, parent)),
        creation_steps_view(p, "java-basic-latest"@, name, parent, target, Some(composer), Some(python)) == Ok::<Seq<StepView>, Seq<char>>(java_basic_steps_view(p, name, parent, target)),
        creation_steps_view(p, "maven-java-latest"@, name, parent, target, Some(composer), Some(python)) == Ok::<Seq<StepView>, Seq<char>>(maven_java_steps_view(p, name, parent, target)),
        creation_steps_view(p, "gradle-java-latest"@, name, parent, target, Some(composer), Some(python)) == Ok::<Seq<StepView>, Seq<char>>(gradle_java_steps_view(p, name, parent, target)),
        creation_steps_view(p, "spring-boot-java-latest"@, name, parent, target, Some(composer), Some(python)) == Ok::<Seq<StepView>, Seq<char>>(spring_boot_steps_view(p, name, parent, target)),
        creation_steps_view(p, "ruby-basic-latest"@, name, parent, target, Some(composer), Some(python)) == Ok::<Seq<StepView>, Seq<char>>(ruby_basic_steps_view(p, name, parent, target)),
        creation_steps_view(p, "sinatra-ruby-latest"@, name, parent, target, Some(composer), Some(python)) == Ok::<Seq<StepView>, Seq<char>>(sinatra_steps_view(p, name, parent, target)),
        creation_steps_view(p, "rails-ruby-latest"@, name, parent, target, Some(composer), Some(python)) == Ok::<Seq<StepView>, Seq<char>>(rails_steps_view(p, name, parent, target)),
        creation_steps_view(p, "go-basic-latest"@, name, parent, target, Some(composer), Some(python)) == Ok::<Seq<StepView>, Seq<char>>(go_steps_view(p, "basic"@, name, parent, target)),
        creation_steps_view(p, "gin-go-latest"@, name, parent, target, Some(composer), Some(python)) == Ok::<Seq<StepView>, Seq<char>>(go_steps_view(p, "gin"@, name, parent, target)),
        creation_steps_view(p, "fiber-go-latest"@, name, parent, target, Some(composer), Some(python)) == Ok::<Seq<StepView>, Seq<char>>(go_steps_view(p, "fiber"@, name, parent, target)),
        creation_steps_view(p, "echo-go-latest"@, name, parent, target, Some(composer), Some(python)) == Ok::<Seq<StepView>, Seq<char>>(go_steps_view(p, "echo"@, name, parent, target)),
        creation_steps_view(p, "chi-go-latest"@, name, parent, target, Some(composer), Some(python)) == Ok::<Seq<StepView>, Seq<char>>(go_steps_view(p, "chi"@, name, parent, target)),
        creation_steps_view(p, "python-basic"@, name, parent, target, Some(composer), Some(python)) == Ok::<Seq<StepView>, Seq<char>>(python_steps_view(p, "basic"@, name, parent, target, python)),
        creation_steps_view(p, "python-basic"@, name, parent, target, Some(composer), None) == Err::<Seq<StepView>, Seq<char>>("Python was not prepared"@),
        creation_steps_view(p, "fastapi-python-latest"@, name, parent, target, Some(composer), Some(python)) == Ok::<Seq<StepView>, Seq<char>>(python_steps_view(p, "fastapi"@, name, parent, target, python)),
        creation_steps_view(p, "fastapi-python-latest"@, name, parent, target, Some(composer), None) == Err::<Seq<StepView>, Seq<char>>("Python was not prepared"@),
        creation_steps_view(p, "flask-python-latest"@, name, parent, target, Some(composer), Some(python)) == Ok::<Seq<StepView>, Seq<char>>(python_steps_view(p, "flask"@, name, parent, target, python)),
        creation_steps_view(p, "flask-python-latest"@, name, parent, target, Some(composer), None) == Err::<Seq<StepView>, Seq<char>>("Python was not prepared"@),
        creation_steps_view(p, "django-python-latest"@, name, parent, target, Some(composer), Some(python)) == Ok::<Seq<StepView>, Seq<char>>(python_steps_view(p, "django"@, name, parent, target, python)),
        creation_steps_view(p, "django-python-latest"@, name, parent, target, Some(composer), None) == Err::<Seq<StepView>, Seq<char>>("Python was not prepared"@),
        creation_steps_view(p, "laravel-php-latest"@, name, parent, target, Some(composer), Some(python)) == Ok::<Seq<StepView>, Seq<char>>(composer_create_project_view("Create Laravel project"@, "laravel/laravel"@, name, parent, composer)),
        creation_steps_view(p, "laravel-php-latest"@, name, parent, target, None, Some(python)) == Err::<Seq<StepView>, Seq<char>>("Composer was not prepared"@),
        creation_steps_view(p, "symfony-php-latest"@, name, parent, target, Some(composer), Some(python)) == Ok::<Seq<StepView>, Seq<char>>(composer_create_project_view("Create Symfony project"@, "symfony/skeleton"@, name, parent, composer)),
        creation_steps_view(p, "symfony-php-latest"@, name, parent, target, None, Some(python)) == Err::<Seq<StepView>, Seq<char>>("Composer was not prepared"@),
        creation_steps_view(p, "slim-php-latest"@, name, parent, target, Some(composer), Some(python)) == Ok::<Seq<StepView>, Seq<char>>(composer_create_project_view("Create Slim project"@, "slim/slim-skeleton"@, name, parent, composer)),
        creation_steps_view(p, "slim-php-latest"@, name, parent, target, None, Some(python)) == Err::<Seq<StepView>, Seq<char>>("Composer was not prepared"@),
        creation_steps_view(p, "codeigniter-php-latest"@, name, parent, target, Some(composer), Some(python)) == Ok::<Seq<StepView>, Seq<char>>(composer_create_project_view("Create CodeIgniter project"@, "codeigniter4/appstarter"@, name, parent, composer)),
        creation_steps_view(p, "codeigniter-php-latest"@, name, parent, target, None, Some(python)) == Err::<Seq<StepView>, Seq<char>>("Composer was not prepared"@),
{
    lemma_node_template_steps(p, name, parent, target, composer, python);
    lemma_native_template_steps(p, name, parent, target, composer, python);
    lemma_python_and_php_template_steps(p, name, parent, target, composer, python);
}

/// Whether `r` is a single step that runs npx in the parent folder with
/// exactly `args`.
pub open spec fn is_npx_scaffold(
    r: Result<Seq<StepView>, Seq<char>>,
    p: Platform,
    args: Seq<Seq<char>>,
    parent: Seq<char>,
) -> bool {
    &&& r matches Ok(steps)
    &&& steps.len() == 1
    &&& steps[0].program == by_platform(p, "npx"@, "npx.cmd"@)
    &&& steps[0].args == args
    &&& steps[0].cwd == parent
}

/// The arguments of `create-next-app` for each version and language that a
/// template asks for.
proof fn lemma_next_args_values(name: Seq<char>)
    ensures
        next_args("latest"@, true, name) == seq!["-y"@, "create-next-app@latest"@, name, "--ts"@, "--eslint"@, "--tailwind"@, "--app"@, "--src-dir"@, "--import-alias"@, "@/*"@, "--use-npm"@, "--yes"@, "--disable-git"@],
        next_args("latest"@, false, name) == seq!["-y"@, "create-next-app@latest"@, name, "--js"@, "--eslint"@, "--tailwind"@, "--app"@, "--src-dir"@, "--import-alias"@, "@/*"@, "--use-npm"@, "--yes"@, "--disable-git"@],
        next_args("16"@, true, name) == seq!["-y"@, "create-next-app@16"@, name, "--ts"@, "--eslint"@, "--tailwind"@, "--app"@, "--src-dir"@, "--import-alias"@, "@/*"@, "--use-npm"@, "--yes"@, "--disable-git"@],
        next_args("16"@, false, name) == seq!["-y"@, "create-next-app@16"@, name, "--js"@, "--eslint"@, "--tailwind"@, "--app"@, "--src-dir"@, "--import-alias"@, "@/*"@, "--use-npm"@, "--yes"@, "--disable-git"@],
        next_args("15"@, true, name) == seq!["-y"@, "create-next-app@15"@, name, "--ts"@, "--eslint"@, "--tailwind"@, "--app"@, "--src-dir"@, "--import-alias"@, "@/*"@, "--use-npm"@, "--yes"@, "--disable-git"@],
        next_args("15"@, false, name) == seq!["-y"@, "create-next-app@15"@, name, "--js"@, "--eslint"@, "--tailwind"@, "--app"@, "--src-dir"@, "--import-alias"@, "@/*"@, "--use-npm"@, "--yes"@, "--disable-git"@],
        next_args("14"@, true, name) == seq!["-y"@, "create-next-app@14"@, name, "--ts"@, "--eslint"@, "--tailwind"@, "--app"@, "--src-dir"@, "--import-alias"@, "@/*"@, "--use-npm"@],
        next_args("14"@, false, name) == seq!["-y"@, "create-next-app@14"@, name, "--js"@, "--eslint"@, "--tailwind"@, "--app"@, "--src-dir"@, "--import-alias"@, "@/*"@, "--use-npm"@],
{
    reveal_strlit("14");
    reveal_strlit("15");
    reveal_strlit("16");
    reveal_strlit("create-next-app@");
    reveal_strlit("create-next-app@14");
    reveal_strlit("create-next-app@15");
    reveal_strlit("create-next-app@16");
    reveal_strlit("create-next-app@latest");
    reveal_strlit("latest");
    assert("create-next-app@"@ + "16"@ =~= "create-next-app@16"@);
    assert("create-next-app@"@ + "15"@ =~= "create-next-app@15"@);
    assert("create-next-app@"@ + "14"@ =~= "create-next-app@14"@);
    assert("latest"@.len() == 6 && "16"@.len() == 2 && "15"@.len() == 2 && "14"@.len() == 2);
    assert("16"@[1] == '6' && "15"@[1] == '5' && "14"@[1] == '4');
    assert(next_args("latest"@, true, name) =~= seq!["-y"@, "create-next-app@latest"@, name, "--ts"@, "--eslint"@, "--tailwind"@, "--app"@, "--src-dir"@, "--import-alias"@, "@/*"@, "--use-npm"@, "--yes"@, "--disable-git"@]);
    assert(next_args("latest"@, false, name) =~= seq!["-y"@, "create-next-app@latest"@, name, "--js"@, "--eslint"@, "--tailwind"@, "--app"@, "--src-dir"@, "--import-alias"@, "@/*"@, "--use-npm"@, "--yes"@, "--disable-git"@]);
    assert(next_args("16"@, true, name) =~= seq!["-y"@, "create-next-app@16"@, name, "--ts"@, "--eslint"@, "--tailwind"@, "--app"@, "--src-dir"@, "--import-alias"@, "@/*"@, "--use-npm"@, "--yes"@, "--disable-git"@]);
    assert(next_args("16"@, false, name) =~= seq!["-y"@, "create-next-app@16"@, name, "--js"@, "--eslint"@, "--tailwind"@, "--app"@, "--src-dir"@, "--import-alias"@, "@/*"@, "--use-npm"@, "--yes"@, "--disable-git"@]);
    assert(next_args("15"@, true, name) =~= seq!["-y"@, "create-next-app@15"@, name, "--ts"@, "--eslint"@, "--tailwind"@, "--app"@, "--src-dir"@, "--import-alias"@, "@/*"@, "--use-npm"@, "--yes"@, "--disable-git"@]);
    assert(next_args("15"@, false, name) =~= seq!["-y"@, "create-next-app@15"@, name, "--js"@, "--eslint"@, "--tailwind"@, "--app"@, "--src-dir"@, "--import-alias"@, "@/*"@, "--use-npm"@, "--yes"@, "--disable-git"@]);
    assert(next_args("14"@, true, name) =~= seq!["-y"@, "create-next-app@14"@, name, "--ts"@, "--eslint"@, "--tailwind"@, "--app"@, "--src-dir"@, "--import-alias"@, "@/*"@, "--use-npm"@]);
    assert(next_args("14"@, false, name) =~= seq!["-y"@, "create-next-app@14"@, name, "--js"@, "--eslint"@, "--tailwind"@, "--app"@, "--src-dir"@, "--import-alias"@, "@/*"@, "--use-npm"@]);
}

/// The Next.js, Create React App and NestJS templates run their generator
/// with the version, the language and the options that each template names:
/// Next.js versions other than 14 also skip prompts and git, TypeScript React
/// apps use the `typescript` template, and TypeScript NestJS projects are
/// strict.
pub proof fn law_npx_generator_templates(
    p: Platform,
    name: Seq<char>,
    parent: Seq<char>,
    target: Seq<char>,
    composer: ToolView,
    python: ToolView,
)
    ensures
        is_npx_scaffold(
            creation_steps_view(p, "next-ts-latest"@, name, parent, target, Some(composer), Some(python)),
            p,
            seq!["-y"@, "create-next-app@latest"@, name, "--ts"@, "--eslint"@, "--tailwind"@, "--app"@, "--src-dir"@, "--import-alias"@, "@/*"@, "--use-npm"@, "--yes"@, "--disable-git"@],
            parent,
        ),
        is_npx_scaffold(
            creation_steps_view(p, "next-js-latest"@, name, parent, target, Some(composer), Some(python)),
            p,
            seq!["-y"@, "create-next-app@latest"@, name, "--js"@, "--eslint"@, "--tailwind"@, "--app"@, "--src-dir"@, "--import-alias"@, "@/*"@, "--use-npm"@, "--yes"@, "--disable-git"@],
            parent,
        ),
        is_npx_scaffold(
            creation_steps_view(p, "next-ts-16"@, name, parent, target, Some(composer), Some(python)),
            p,
            seq!["-y"@, "create-next-app@16"@, name, "--ts"@, "--eslint"@, "--tailwind"@, "--app"@, "--src-dir"@, "--import-alias"@, "@/*"@, "--use-npm"@, "--yes"@, "--disable-git"@],
            parent,
        ),
        is_npx_scaffold(
            creation_steps_view(p, "next-js-16"@, name, parent, target, Some(composer), Some(python)),
            p,
            seq!["-y"@, "create-next-app@16"@, name, "--js"@, "--eslint"@, "--tailwind"@, "--app"@, "--src-dir"@, "--import-alias"@, "@/*"@, "--use-npm"@, "--yes"@, "--disable-git"@],
            parent,
        ),
        is_npx_scaffold(
            creation_steps_view(p, "next-ts-15"@, name, parent, target, Some(composer), Some(python)),
            p,
            seq!["-y"@, "create-next-app@15"@, name, "--ts"@, "--eslint"@, "--tailwind"@, "--app"@, "--src-dir"@, "--import-alias"@, "@/*"@, "--use-npm"@, "--yes"@, "--disable-git"@],
            parent,
        ),
        is_npx_scaffold(
            creation_steps_view(p, "next-js-15"@, name, parent, target, Some(composer), Some(python)),
            p,
            seq!["-y"@, "create-next-app@15"@, name, "--js"@, "--eslint"@, "--tailwind"@, "--app"@, "--src-dir"@, "--import-alias"@, "@/*"@, "--use-npm"@, "--yes"@, "--disable-git"@],
            parent,
        ),
        is_npx_scaffold(
            creation_steps_view(p, "next-ts-14"@, name, parent, target, Some(composer), Some(python)),
            p,
            seq!["-y"@, "create-next-app@14"@, name, "--ts"@, "--eslint"@, "--tailwind"@, "--app"@, "--src-dir"@, "--import-alias"@, "@/*"@, "--use-npm"@],
            parent,
        ),
        is_npx_scaffold(
            creation_steps_view(p, "next-js-14"@, name, parent, target, Some(composer), Some(python)),
            p,
            seq!["-y"@, "create-next-app@14"@, name, "--js"@, "--eslint"@, "--tailwind"@, "--app"@, "--src-dir"@, "--import-alias"@, "@/*"@, "--use-npm"@],
            parent,
        ),
        is_npx_scaffold(
            creation_steps_view(p, "cra-ts"@, name, parent, target, Some(composer), Some(python)),
            p,
            seq!["-y"@, "create-react-app@latest"@, name, "--template"@, "typescript"@],
            parent,
        ),
        is_npx_scaffold(
            creation_steps_view(p, "cra-js"@, name, parent, target, Some(composer), Some(python)),
            p,
            seq!["-y"@, "create-react-app@latest"@, name],
            parent,
        ),
        is_npx_scaffold(
            creation_steps_view(p, "nestjs-ts-latest"@, name, parent, target, Some(composer), Some(python)),
            p,
            seq!["-y"@, "@nestjs/cli@latest"@, "new"@, name, "--package-manager"@, "npm"@, "--skip-git"@, "--language"@, "TS"@, "--strict"@],
            parent,
        ),
        is_npx_scaffold(
            creation_steps_view(p, "nestjs-js-latest"@, name, parent, target, Some(composer), Some(python)),
            p,
            seq!["-y"@, "@nestjs/cli@latest"@, "new"@, name, "--package-manager"@, "npm"@, "--skip-git"@, "--language"@, "JS"@],
            parent,
        ),
{
    lemma_node_template_steps(p, name, parent, target, composer, python);
    lemma_next_args_values(name);
    assert(cra_args(true, name) =~= seq!["-y"@, "create-react-app@latest"@, name, "--template"@, "typescript"@]);
    assert(nest_args(true, name) =~= seq![
        "-y"@,
        "@nestjs/cli@latest"@,
        "new"@,
        name,
        "--package-manager"@,
        "npm"@,
        "--skip-git"@,
        "--language"@,
        "TS"@,
        "--strict"@,
    ]);
}

/// The Node.js and Express templates run the scaffold script with their kind
/// and language, then install Express for Express, prepare the lockfile for
/// plain JavaScript Node.js, and install the TypeScript tools (with Express's
/// types for Express) for TypeScript, each in the new folder.
pub proof fn law_node_backend_templates(
    p: Platform,
    name: Seq<char>,
    parent: Seq<char>,
    target: Seq<char>,
    composer: ToolView,
    python: ToolView,
)
    ensures
        (creation_steps_view(p, "node-ts"@, name, parent, target, Some(composer), Some(python)) matches Ok(steps)
            && steps.len() == 2
            && steps[0].program == "node"@
            && steps[0].args == seq!["-e"@, NODE_BACKEND_SCAFFOLD_SCRIPT@, target, name, "node"@, "ts"@]
            && steps[1].program == by_platform(p, "npm"@, "npm.cmd"@)
            && steps[1].args == seq!["install"@, "--save-dev"@, "typescript"@, "tsx"@, "@types/node"@]
            && steps[1].cwd == target),
        (creation_steps_view(p, "node-js"@, name, parent, target, Some(composer), Some(python)) matches Ok(steps)
            && steps.len() == 2
            && steps[0].program == "node"@
            && steps[0].args == seq!["-e"@, NODE_BACKEND_SCAFFOLD_SCRIPT@, target, name, "node"@, "js"@]
            && steps[1].program == by_platform(p, "npm"@, "npm.cmd"@)
            && steps[1].args == seq!["install"@]
            && steps[1].cwd == target),
        (creation_steps_view(p, "express-ts"@, name, parent, target, Some(composer), Some(python)) matches Ok(steps)
            && steps.len() == 3
            && steps[0].program == "node"@
            && steps[0].args == seq!["-e"@, NODE_BACKEND_SCAFFOLD_SCRIPT@, target, name, "express"@, "ts"@]
            && steps[1].program == by_platform(p, "npm"@, "npm.cmd"@)
            && steps[1].args == seq!["install"@, "express"@]
            && steps[1].cwd == target
            && steps[2].program == by_platform(p, "npm"@, "npm.cmd"@)
            && steps[2].args == seq!["install"@, "--save-dev"@, "typescript"@, "tsx"@, "@types/node"@, "@types/express"@]
            && steps[2].cwd == target),
        (creation_steps_view(p, "express-js"@, name, parent, target, Some(composer), Some(python)) matches Ok(steps)
            && steps.len() == 2
            && steps[0].program == "node"@
            && steps[0].args == seq!["-e"@, NODE_BACKEND_SCAFFOLD_SCRIPT@, target, name, "express"@, "js"@]
            && steps[1].program == by_platform(p, "npm"@, "npm.cmd"@)
            && steps[1].args == seq!["install"@, "express"@]
            && steps[1].cwd == target),
{
    lemma_node_template_steps(p, name, parent, target, composer, python);
    reveal_strlit("express");
    reveal_strlit("node");
    assert("express"@.len() == 7 && "node"@.len() == 4);
}

/// The steps that create a project from a template in `target_dir`, a new
/// folder under `parent_dir`.
pub fn creation_steps(
    p: Platform,
    template_id: &str,
    project_name: &str,
    parent_dir: &str,
    target_dir: &str,
    toolchain: &CreateToolchain,
) -> (r: Result<Vec<CreationStep>, String>)
    ensures
        match creation_steps_view(
            p,
            template_id@,
            project_name@,
            parent_dir@,
            target_dir@,
            toolchain.composer.deep_view(),
            toolchain.python.deep_view(),
        ) {
            Ok(steps) => r matches Ok(v) && v.deep_view() == steps,
            Err(e) => r matches Err(m) && m@ == e,
        },
{
    if str_eq(template_id, "react-native-ts") || str_eq(template_id, "react-native-js") {
        return Err(concat3("Project template '", template_id, "' is not supported yet"));
    }
    if let Some(kind) = python_kind(template_id) {
        return match &toolchain.python {
            Some(py) => Ok(python_project_steps(p, kind, project_name, parent_dir, target_dir, py)),
            None => Err(owned("Python was not prepared")),
        };
    }
    if let Some(lp) = composer_package(template_id) {
        return match &toolchain.composer {
            Some(c) => Ok(composer_create_project_steps(lp.0, lp.1, project_name, parent_dir, c)),
            None => Err(owned("Composer was not prepared")),
        };
    }
    if let Some(steps) = node_template_steps(p, template_id, project_name, parent_dir, target_dir) {
        return Ok(steps);
    }
    match native_template_steps(p, template_id, project_name, parent_dir, target_dir) {
        Some(steps) => Ok(steps),
        None => Err(concat3("Unknown project template '", template_id, "'")),
    }
}

/// What was read of a project folder: which files it holds, the text of
/// each manifest that was there and could be read, and the facts that the
/// scripts of some manifests depend on.
pub struct ProjectScan {
    pub files: ProjectFiles,
    pub composer_json: Option<String>,
    pub pyproject_toml: Option<String>,
    pub package_json: Option<String>,
    pub pubspec_yaml: Option<String>,
    /// Whether the folder has a `test` folder.
    pub test_dir_exists: bool,
    pub go_mod: Option<String>,
    /// Whether the folder holds a Go `main` package.
    pub go_main_package: bool,
    pub pom_xml: Option<String>,
    /// Whether the folder has the Maven wrapper of this platform.
    pub maven_wrapper: bool,
    /// The text of `build.gradle`, or of `build.gradle.kts` when there is no
    /// `build.gradle`.
    pub gradle_build: Option<String>,
    /// Whether the folder has the Gradle wrapper of this platform.
    pub gradle_wrapper: bool,
    pub gemfile: Option<String>,
    pub ruby_files: RubyProjectFiles,
    /// The Java main file found in the folder.
    pub java_main: Option<String>,
}

/// The text of an optional owned string.
pub open spec fn text_of(s: Option<String>) -> Option<Seq<char>> {
    match s {
        Some(t) => Some(t@),
        None => None,
    }
}

/// The scripts of `composer.json`, when its text is there and parses.
pub open spec fn composer_part(text: Option<Seq<char>>) -> Seq<ScriptView> {
    match text {
        Some(t) => match json_document(t) {
            Ok(doc) => composer_scripts_view(doc),
            Err(_) => Seq::empty(),
        },
        None => Seq::empty(),
    }
}

/// The scripts of `pyproject.toml`, when its text is there and parses.
pub open spec fn python_part(text: Option<Seq<char>>) -> Seq<ScriptView> {
    match text {
        Some(t) => match toml_document(t) {
            Ok(doc) => python_scripts_view(doc),
            Err(_) => Seq::empty(),
        },
        None => Seq::empty(),
    }
}

/// The scripts of `package.json`, when its text is there and parses; they
/// run with the Node package manager of the folder's lockfiles.
pub open spec fn node_part(text: Option<Seq<char>>, files: ProjectFiles) -> Seq<ScriptView> {
    match text {
        Some(t) => match json_document(t) {
            Ok(doc) => node_scripts_view(doc, node_package_manager_of(files)),
            Err(_) => Seq::empty(),
        },
        None => Seq::empty(),
    }
}

/// The scripts of `pubspec.yaml`, when its text is there.
pub open spec fn pub_part(text: Option<Seq<char>>, test_dir_exists: bool) -> Seq<ScriptView> {
    match text {
        Some(t) => pub_scripts_view(flutter_pubspec(t), pub_has_tests(t, test_dir_exists)),
        None => Seq::empty(),
    }
}

/// The scripts of `go.mod`, when its text is there.
pub open spec fn go_part(text: Option<Seq<char>>, main_package: bool) -> Seq<ScriptView> {
    match text {
        Some(_) => go_module_scripts_view(main_package),
        None => Seq::empty(),
    }
}

/// The scripts of `pom.xml`, when its text is there.
pub open spec fn maven_part(
    p: Platform,
    project_dir: Seq<char>,
    text: Option<Seq<char>>,
    wrapper: bool,
) -> Seq<ScriptView> {
    match text {
        Some(t) => maven_scripts_view(p, project_dir, wrapper, t),
        None => Seq::empty(),
    }
}

/// The name of the Gradle build file a folder is read from.
pub open spec fn gradle_build_name(files: ProjectFiles) -> Seq<char> {
    if files.build_gradle {
        "build.gradle"@
    } else {
        "build.gradle.kts"@
    }
}

/// The scripts of the Gradle build file, when its text is there.
pub open spec fn gradle_part(
    p: Platform,
    project_dir: Seq<char>,
    text: Option<Seq<char>>,
    files: ProjectFiles,
    wrapper: bool,
) -> Seq<ScriptView> {
    match text {
        Some(t) => gradle_scripts_view(
            p,
            project_dir,
            wrapper,
            t,
            gradle_source_of(p, join_path(p, project_dir, gradle_build_name(files))),
        ),
        None => Seq::empty(),
    }
}

/// The scripts of the Gemfile, when its text is there.
pub open spec fn ruby_part(text: Option<Seq<char>>, ruby_files: &RubyProjectFiles) -> Seq<ScriptView> {
    match text {
        Some(t) => sourced_scripts_view(ruby_script_items(ruby_files, Some(t)), "ruby"@),
        None => Seq::empty(),
    }
}

/// The scripts of a folder's manifests, in the order Composer, Python,
/// Node, pub, Go, Maven, Gradle, Ruby.
pub open spec fn manifest_scripts_view(p: Platform, project_dir: Seq<char>, scan: ProjectScan) -> Seq<
    ScriptView,
> {
    composer_part(text_of(scan.composer_json)) + python_part(text_of(scan.pyproject_toml))
        + node_part(text_of(scan.package_json), scan.files) + pub_part(
        text_of(scan.pubspec_yaml),
        scan.test_dir_exists,
    ) + go_part(text_of(scan.go_mod), scan.go_main_package) + maven_part(
        p,
        project_dir,
        text_of(scan.pom_xml),
        scan.maven_wrapper,
    ) + gradle_part(p, project_dir, text_of(scan.gradle_build), scan.files, scan.gradle_wrapper)
        + ruby_part(text_of(scan.gemfile), &scan.ruby_files)
}

/// The scripts of `composer.json`.
fn composer_scripts_part(p: Platform, project_path: &String, project_dir: &str, text: &Option<String>) -> (r:
    Vec<ScriptInfo>)
    ensures
        r.deep_view() == composer_part(text_of(*text)),
{
    if let Some(t) = text {
        if let Ok(project) = read_composer_project(project_path.clone(), p, project_dir, t.as_str()) {
            return project.scripts;
        }
    }
    Vec::new()
}

/// The scripts of `pyproject.toml`.
fn python_scripts_part(p: Platform, project_path: &String, project_dir: &str, text: &Option<String>) -> (r:
    Vec<ScriptInfo>)
    ensures
        r.deep_view() == python_part(text_of(*text)),
{
    if let Some(t) = text {
        if let Ok(project) = read_python_project(project_path.clone(), p, project_dir, t.as_str()) {
            return project.scripts;
        }
    }
    Vec::new()
}

/// The scripts of `package.json`.
fn node_scripts_part(
    project_path: &String,
    text: &Option<String>,
    files: &ProjectFiles,
    package_manager: &String,
) -> (r: Vec<ScriptInfo>)
    ensures
        r.deep_view() == node_part(text_of(*text), *files),
{
    if let Some(t) = text {
        let node_manager = preferred_node_package_manager(files);
        if let Ok(project) = read_node_project(
            project_path.clone(),
            t.as_str(),
            node_manager.as_str(),
            package_manager.clone(),
        ) {
            return project.scripts;
        }
    }
    Vec::new()
}

/// The scripts of `pubspec.yaml`.
fn pub_scripts_part(
    p: Platform,
    project_path: &String,
    project_dir: &str,
    text: &Option<String>,
    test_dir_exists: bool,
) -> (r: Vec<ScriptInfo>)
    ensures
        r.deep_view() == pub_part(text_of(*text), test_dir_exists),
{
    match text {
        Some(t) => read_pub_project(project_path.clone(), p, project_dir, t.as_str(), test_dir_exists).scripts,
        None => Vec::new(),
    }
}

/// The scripts of `go.mod`.
fn go_scripts_part(
    p: Platform,
    project_path: &String,
    project_dir: &str,
    text: &Option<String>,
    main_package: bool,
) -> (r: Vec<ScriptInfo>)
    ensures
        r.deep_view() == go_part(text_of(*text), main_package),
{
    match text {
        Some(t) => read_go_project(project_path.clone(), p, project_dir, t.as_str(), main_package).scripts,
        None => Vec::new(),
    }
}

/// The scripts of `pom.xml`.
fn maven_scripts_part(
    p: Platform,
    project_path: &String,
    project_dir: &str,
    text: &Option<String>,
    wrapper: bool,
) -> (r: Vec<ScriptInfo>)
    ensures
        r.deep_view() == maven_part(p, project_dir@, text_of(*text), wrapper),
{
    match text {
        Some(t) => read_maven_project(project_path.clone(), p, project_dir, t.as_str(), wrapper).scripts,
        None => Vec::new(),
    }
}

/// The scripts of the Gradle build file.
fn gradle_scripts_part(
    p: Platform,
    project_path: &String,
    project_dir: &str,
    text: &Option<String>,
    files: &ProjectFiles,
    wrapper: bool,
) -> (r: Vec<ScriptInfo>)
    ensures
        r.deep_view() == gradle_part(p, project_dir@, text_of(*text), *files, wrapper),
{
    match text {
        Some(t) => {
            let build_name = if files.build_gradle {
                "build.gradle"
            } else {
                "build.gradle.kts"
            };
            let build_path = join(p, project_dir, build_name);
            read_gradle_project(
                project_path.clone(),
                p,
                project_dir,
                wrapper,
                build_path.as_str(),
                t.as_str(),
                None,
            ).scripts
        },
        None => Vec::new(),
    }
}

/// The scripts of the Gemfile.
fn ruby_scripts_part(
    p: Platform,
    project_path: &String,
    project_dir: &str,
    text: &Option<String>,
    ruby_files: &RubyProjectFiles,
) -> (r: Vec<ScriptInfo>)
    ensures
        r.deep_view() == ruby_part(text_of(*text), ruby_files),
{
    match text {
        Some(t) => read_ruby_project(project_path.clone(), p, project_dir, t.as_str(), ruby_files).scripts,
        None => Vec::new(),
    }
}

/// The scripts of a folder's manifests.
fn manifest_scripts(
    p: Platform,
    project_path: &String,
    project_dir: &str,
    scan: &ProjectScan,
    package_manager: &String,
) -> (r: Vec<ScriptInfo>)
    ensures
        r.deep_view() == manifest_scripts_view(p, project_dir@, *scan),
{
    let mut scripts = composer_scripts_part(p, project_path, project_dir, &scan.composer_json);
    extend_scripts(&mut scripts, python_scripts_part(p, project_path, project_dir, &scan.pyproject_toml));
    extend_scripts(
        &mut scripts,
        node_scripts_part(project_path, &scan.package_json, &scan.files, package_manager),
    );
    extend_scripts(
        &mut scripts,
        pub_scripts_part(p, project_path, project_dir, &scan.pubspec_yaml, scan.test_dir_exists),
    );
    extend_scripts(
        &mut scripts,
        go_scripts_part(p, project_path, project_dir, &scan.go_mod, scan.go_main_package),
    );
    extend_scripts(
        &mut scripts,
        maven_scripts_part(p, project_path, project_dir, &scan.pom_xml, scan.maven_wrapper),
    );
    extend_scripts(
        &mut scripts,
        gradle_scripts_part(
            p,
            project_path,
            project_dir,
            &scan.gradle_build,
            &scan.files,
            scan.gradle_wrapper,
        ),
    );
    extend_scripts(
        &mut scripts,
        ruby_scripts_part(p, project_path, project_dir, &scan.gemfile, &scan.ruby_files),
    );
    scripts
}

/// `scripts` followed by `extra` when `present` holds and no script named
/// `start` runs with `package_manager` yet.
pub open spec fn with_start_fallback(
    scripts: Seq<ScriptView>,
    present: bool,
    package_manager: Seq<char>,
    extra: Seq<ScriptView>,
) -> Seq<ScriptView> {
    if present && !has_start_script(scripts, package_manager) {
        scripts + extra
    } else {
        scripts
    }
}

/// Appends `extra` when `present` holds and no script named `start` runs
/// with `package_manager` yet.
fn add_start_fallback(
    scripts: &mut Vec<ScriptInfo>,
    present: bool,
    package_manager: &str,
    extra: Vec<ScriptInfo>,
)
    ensures
        final(scripts).deep_view() == with_start_fallback(
            old(scripts).deep_view(),
            present,
            package_manager@,
            extra.deep_view(),
        ),
{
    if present && !has_start_for(scripts, package_manager) {
        extend_scripts(scripts, extra);
    }
}

/// The scripts a project folder offers: those of its manifests, then a
/// `start` script for a `main.py`, a `main.go`, a Java main file or a
/// `main.rb` whose language has no `start` script yet.
pub open spec fn project_scripts_view(p: Platform, project_dir: Seq<char>, scan: ProjectScan) -> Seq<
    ScriptView,
> {
    let s1 = manifest_scripts_view(p, project_dir, scan);
    let s2 = with_start_fallback(
        s1,
        scan.files.main_py,
        "python"@,
        seq![script_view("start"@, "python main.py"@, "python"@, "main.py"@)],
    );
    let s3 = with_start_fallback(s2, scan.files.main_go, "go"@, go_scripts_view(false, true));
    let s4 = match scan.java_main {
        Some(f) => with_start_fallback(
            s3,
            true,
            "java"@,
            seq![script_view("start"@, java_command_text(p, f@), "java"@, java_file_of(p, f@))],
        ),
        None => s3,
    };
    with_start_fallback(
        s4,
        scan.files.main_rb,
        "ruby"@,
        seq![script_view("start"@, "ruby main.rb"@, "ruby"@, "main.rb"@)],
    )
}

/// A project folder read from what was found in it: named after the folder,
/// with the scripts of its manifests and of its main files, and run by the
/// package manager the folder points to.
pub fn read_project(p: Platform, project_path: String, project_dir: &str, scan: &ProjectScan) -> (r:
    ProjectInfo)
    ensures
        r.name@ == folder_project_name(p, project_dir@),
        r.path@ == project_path@,
        r.scripts.deep_view() == project_scripts_view(p, project_dir@, *scan),
        r.package_manager@ == preferred_manager(
            scan.files,
            scan.java_main is Some,
            text_of(scan.pubspec_yaml),
        ),
{
    let pubspec = match &scan.pubspec_yaml {
        Some(t) => Some(t.as_str()),
        None => None,
    };
    let package_manager = preferred_package_manager(&scan.files, scan.java_main.is_some(), pubspec);
    let mut scripts = manifest_scripts(p, &project_path, project_dir, scan, &package_manager);
    let python_main = vec![python_main_script()];
    assert(python_main.deep_view() =~= seq![
        script_view("start"@, "python main.py"@, "python"@, "main.py"@),
    ]);
    add_start_fallback(&mut scripts, scan.files.main_py, "python", python_main);
    add_start_fallback(&mut scripts, scan.files.main_go, "go", go_main_scripts(true));
    if let Some(f) = &scan.java_main {
        add_start_fallback(&mut scripts, true, "java", java_main_scripts(p, f.as_str()));
    }
    let ruby_main = vec![ruby_main_script()];
    assert(ruby_main.deep_view() =~= seq![
        script_view("start"@, "ruby main.rb"@, "ruby"@, "main.rb"@),
    ]);
    add_start_fallback(&mut scripts, scan.files.main_rb, "ruby", ruby_main);
    ProjectInfo {
        name: python_folder_project_name(p, project_dir),
        path: project_path,
        scripts,
        package_manager,
    }
}

/// Every package manager a folder can point to is one that scripts run with.
pub proof fn lemma_preferred_is_known(files: ProjectFiles, java_main_found: bool, pubspec: Option<Seq<char>>)
    ensures
        known_managers().contains(preferred_manager(files, java_main_found, pubspec)),
{
    let k = known_managers();
    assert(k[0] == "npm"@ && k[1] == "pnpm"@ && k[2] == "yarn"@ && k[3] == "bun"@);
    assert(k[4] == "composer"@ && k[5] == "python"@ && k[6] == "dart"@ && k[7] == "flutter"@);
    assert(k[8] == "go"@ && k[10] == "maven"@ && k[11] == "gradle"@ && k[9] == "java"@);
    assert(k[12] == "ruby"@);
}

/// The package manager a script runs with is always one that scripts can run
/// with, and settling it again changes nothing.
pub proof fn law_normalized_manager_is_known(
    requested: Option<Seq<char>>,
    files: ProjectFiles,
    java_main_found: bool,
    pubspec: Option<Seq<char>>,
)
    ensures
        known_managers().contains(normalized_manager(requested, files, java_main_found, pubspec)),
        normalized_manager(
            Some(normalized_manager(requested, files, java_main_found, pubspec)),
            files,
            java_main_found,
            pubspec,
        ) == normalized_manager(requested, files, java_main_found, pubspec),
{
    lemma_preferred_is_known(files, java_main_found, pubspec);
}

/// A script list keeps a `start` script of a package manager when scripts
/// are added after it.
proof fn lemma_start_kept(s: Seq<ScriptView>, t: Seq<ScriptView>, package_manager: Seq<char>)
    requires
        has_start_script(s, package_manager),
    ensures
        has_start_script(s + t, package_manager),
{
    let i = choose|i: int|
        0 <= i < s.len() && #[trigger] s[i].package_manager == Some(package_manager) && s[i].name
            == "start"@;
    assert((s + t)[i] == s[i]);
}

/// A fallback keeps every `start` script that was there.
proof fn lemma_fallback_keeps(
    s: Seq<ScriptView>,
    present: bool,
    pm: Seq<char>,
    extra: Seq<ScriptView>,
    other: Seq<char>,
)
    requires
        has_start_script(s, other),
    ensures
        has_start_script(with_start_fallback(s, present, pm, extra), other),
{
    if present && !has_start_script(s, pm) {
        lemma_start_kept(s, extra, other);
    }
}

/// A fallback whose scripts start with a `start` script of its package
/// manager leaves one there when it applies.
proof fn lemma_fallback_gives(s: Seq<ScriptView>, pm: Seq<char>, extra: Seq<ScriptView>)
    requires
        extra.len() > 0,
        extra[0].package_manager == Some(pm),
        extra[0].name == "start"@,
    ensures
        has_start_script(with_start_fallback(s, true, pm, extra), pm),
{
    if !has_start_script(s, pm) {
        let t = s + extra;
        assert(t[s.len() as int] == extra[0]);
    }
}

/// A folder with `main.py`, `main.go`, a Java main file or `main.rb` offers
/// a `start` script run by that language, whatever its manifests give.
pub proof fn law_main_files_have_start(p: Platform, project_dir: Seq<char>, scan: ProjectScan)
    ensures
        scan.files.main_py ==> has_start_script(project_scripts_view(p, project_dir, scan), "python"@),
        scan.files.main_go ==> has_start_script(project_scripts_view(p, project_dir, scan), "go"@),
        scan.java_main is Some ==> has_start_script(
            project_scripts_view(p, project_dir, scan),
            "java"@,
        ),
        scan.files.main_rb ==> has_start_script(project_scripts_view(p, project_dir, scan), "ruby"@),
{
    let s1 = manifest_scripts_view(p, project_dir, scan);
    let py = seq![script_view("start"@, "python main.py"@, "python"@, "main.py"@)];
    let s2 = with_start_fallback(s1, scan.files.main_py, "python"@, py);
    let go = go_scripts_view(false, true);
    let s3 = with_start_fallback(s2, scan.files.main_go, "go"@, go);
    let rb = seq![script_view("start"@, "ruby main.rb"@, "ruby"@, "main.rb"@)];
    let s4 = match scan.java_main {
        Some(f) => with_start_fallback(
            s3,
            true,
            "java"@,
            seq![script_view("start"@, java_command_text(p, f@), "java"@, java_file_of(p, f@))],
        ),
        None => s3,
    };
    let s5 = with_start_fallback(s4, scan.files.main_rb, "ruby"@, rb);
    assert(s5 == project_scripts_view(p, project_dir, scan));
    assert(go[0].package_manager == Some("go"@) && go[0].name == "start"@);
    if scan.files.main_py {
        lemma_fallback_gives(s1, "python"@, py);
        lemma_fallback_keeps(s2, scan.files.main_go, "go"@, go, "python"@);
        if let Some(f) = scan.java_main {
            lemma_fallback_keeps(
                s3,
                true,
                "java"@,
                seq![script_view("start"@, java_command_text(p, f@), "java"@, java_file_of(p, f@))],
                "python"@,
            );
        }
        lemma_fallback_keeps(s4, scan.files.main_rb, "ruby"@, rb, "python"@);
    }
    if scan.files.main_go {
        lemma_fallback_gives(s2, "go"@, go);
        if let Some(f) = scan.java_main {
            lemma_fallback_keeps(
                s3,
                true,
                "java"@,
                seq![script_view("start"@, java_command_text(p, f@), "java"@, java_file_of(p, f@))],
                "go"@,
            );
        }
        lemma_fallback_keeps(s4, scan.files.main_rb, "ruby"@, rb, "go"@);
    }
    if let Some(f) = scan.java_main {
        lemma_fallback_gives(
            s3,
            "java"@,
            seq![script_view("start"@, java_command_text(p, f@), "java"@, java_file_of(p, f@))],
        );
        lemma_fallback_keeps(s4, scan.files.main_rb, "ruby"@, rb, "java"@);
    }
    if scan.files.main_rb {
        lemma_fallback_gives(s4, "ruby"@, rb);
    }
}

/// A template id whose tools are unknown is refused when creating a project,
/// with the same message, whatever was prepared.
pub proof fn law_unknown_template_refused(
    p: Platform,
    template_id: Seq<char>,
    name: Seq<char>,
    parent: Seq<char>,
    target: Seq<char>,
    composer: Option<ToolView>,
    python: Option<ToolView>,
)
    requires
        requirements_of(template_id) is None,
    ensures
        creation_steps_view(p, template_id, name, parent, target, composer, python) == Err::<
            Seq<StepView>,
            Seq<char>,
        >(unknown_template_message(template_id)),
{
    let t = template_id;
    let py = python_template_ids();
    assert(py[0] == "python-basic"@ && py[1] == "fastapi-python-latest"@ && py[2]
        == "flask-python-latest"@ && py[3] == "django-python-latest"@);
    let php = php_template_ids();
    assert(php[0] == "laravel-php-latest"@ && php[1] == "symfony-php-latest"@ && php[2]
        == "slim-php-latest"@ && php[3] == "codeigniter-php-latest"@);
    let go = go_template_ids();
    assert(go[0] == "go-basic-latest"@ && go[1] == "gin-go-latest"@ && go[2] == "fiber-go-latest"@
        && go[3] == "echo-go-latest"@ && go[4] == "chi-go-latest"@);
    let node = node_template_ids();
    assert(node[0] == "node-ts"@ && node[1] == "node-js"@ && node[2] == "express-ts"@ && node[3]
        == "express-js"@ && node[4] == "vite-react-ts"@ && node[5] == "vite-react-js"@);
    assert(node[6] == "vite-vue-ts"@ && node[7] == "vite-vue-js"@ && node[8] == "nuxt-ts-latest"@
        && node[9] == "nuxt-js-latest"@ && node[10] == "vite-svelte-ts"@ && node[11]
        == "vite-svelte-js"@);
    assert(node[12] == "next-ts-latest"@ && node[13] == "next-js-latest"@ && node[14]
        == "next-ts-16"@ && node[15] == "next-js-16"@ && node[16] == "next-ts-15"@ && node[17]
        == "next-js-15"@);
    assert(node[18] == "next-ts-14"@ && node[19] == "next-js-14"@ && node[20] == "cra-ts"@
        && node[21] == "cra-js"@ && node[22] == "angular-ts-latest"@ && node[23]
        == "nestjs-ts-latest"@ && node[24] == "nestjs-js-latest"@);
    assert(!py.contains(t) && !php.contains(t) && !go.contains(t) && !node.contains(t));
    assert(node[25] == "react-native-ts"@ && node[26] == "react-native-js"@);
    assert(!is_unsupported_template(t));
    assert(python_kind_of(t) is None);
    assert(composer_package_of(t) is None);
    assert(node_template_view(p, t, name, parent, target) is None);
    assert(native_template_view(p, t, name, parent, target) is None);
}

/// Once Composer and Python are prepared, every template whose tools are
/// known gives creation steps, but for the React Native templates, which no
/// steps are defined for: those are refused as not supported yet.
pub proof fn law_known_template_has_steps(
    p: Platform,
    template_id: Seq<char>,
    name: Seq<char>,
    parent: Seq<char>,
    target: Seq<char>,
    composer: ToolView,
    python: ToolView,
)
    requires
        requirements_of(template_id) is Some,
    ensures
        !is_unsupported_template(template_id) ==> creation_steps_view(
            p,
            template_id,
            name,
            parent,
            target,
            Some(composer),
            Some(python),
        ) is Ok,
        is_unsupported_template(template_id) ==> creation_steps_view(
            p,
            template_id,
            name,
            parent,
            target,
            Some(composer),
            Some(python),
        ) == Err::<Seq<StepView>, Seq<char>>(unsupported_template_message(template_id)),
{
    let t = template_id;
    let node = node_template_ids();
    if node.contains(t) {
        let i = choose|i: int| 0 <= i < node.len() && node[i] == t;
        assert(node[25] == "react-native-ts"@ && node[26] == "react-native-js"@);
        if !is_unsupported_template(t) {
            assert(i < 25);
        }
    }
    let go = go_template_ids();
    if go.contains(t) {
        let i = choose|i: int| 0 <= i < go.len() && go[i] == t;
    }
    let py = python_template_ids();
    if py.contains(t) {
        let i = choose|i: int| 0 <= i < py.len() && py[i] == t;
    }
    let php = php_template_ids();
    if php.contains(t) {
        let i = choose|i: int| 0 <= i < php.len() && php[i] == t;
    }
}

} // verus!
