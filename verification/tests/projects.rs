use prolaunch::langs::node::read_node_project;
use prolaunch::langs::php::read_composer_project;
use prolaunch::langs::python::read_python_project;
use prolaunch::langs::ruby::RubyProjectFiles;
use prolaunch::model::{CreateToolchain, Platform, ProjectFiles, ScriptInfo, ToolCommand, ToolRequirement};
use prolaunch::prepare::{
    composer_installer_path, composer_plan, creation_preparations, health_outcome,
    project_python_command, python_search_step, tool_check_outcome, ComposerPlan, Preparation,
    ProbeStep, PythonStep,
};
use prolaunch::project::{
    creation_steps, detect_package_managers, normalize_package_manager, preferred_package_manager,
    read_project, template_requirements, ProjectScan,
};

fn no_files() -> ProjectFiles {
    ProjectFiles {
        composer_json: false,
        package_json: false,
        pyproject_toml: false,
        main_py: false,
        pubspec_yaml: false,
        go_mod: false,
        main_go: false,
        pom_xml: false,
        build_gradle: false,
        build_gradle_kts: false,
        gemfile: false,
        main_rb: false,
        pnpm_lock_yaml: false,
        yarn_lock: false,
        yarnrc_yml: false,
        bun_lockb: false,
        bun_lock: false,
    }
}

fn no_ruby() -> RubyProjectFiles {
    RubyProjectFiles {
        has_config_application: false,
        has_bin_rails: false,
        has_app_rb: false,
        has_main_rb: false,
        application_rb: String::new(),
    }
}

fn empty_scan(files: ProjectFiles) -> ProjectScan {
    ProjectScan {
        files,
        composer_json: None,
        pyproject_toml: None,
        package_json: None,
        pubspec_yaml: None,
        test_dir_exists: false,
        go_mod: None,
        go_main_package: false,
        pom_xml: None,
        maven_wrapper: false,
        gradle_build: None,
        gradle_wrapper: false,
        gemfile: None,
        ruby_files: no_ruby(),
        java_main: None,
    }
}

fn script(name: &str, command: &str, pm: &str, source: &str) -> ScriptInfo {
    ScriptInfo {
        name: name.to_string(),
        command: command.to_string(),
        package_manager: Some(pm.to_string()),
        source: Some(source.to_string()),
    }
}

#[test]
fn package_json_scripts_are_read() {
    let text = r#"{"name": "shop", "scripts": {"dev": "vite", "build": "vite build", "odd": 3}}"#;
    let info = read_node_project("/p/shop".to_string(), text, "pnpm", "pnpm".to_string()).unwrap();
    assert_eq!(info.name, "shop");
    assert_eq!(info.path, "/p/shop");
    assert_eq!(info.package_manager, "pnpm");
    assert_eq!(
        info.scripts,
        vec![
            script("build", "vite build", "pnpm", "package.json"),
            script("dev", "vite", "pnpm", "package.json"),
            script("odd", "", "pnpm", "package.json"),
        ]
    );
}

#[test]
fn package_json_without_name_or_scripts() {
    let info = read_node_project("/p".to_string(), "{}", "npm", "npm".to_string()).unwrap();
    assert_eq!(info.name, "Untitled Project");
    assert!(info.scripts.is_empty());
}

#[test]
fn invalid_package_json_is_refused() {
    let err = read_node_project("/p".to_string(), "{not json", "npm", "npm".to_string()).unwrap_err();
    assert!(err.starts_with("Invalid package.json: "));
    assert!(err.len() > "Invalid package.json: ".len());
}

#[test]
fn composer_scripts_skip_lifecycle_hooks() {
    let text = r#"{"name": "acme/site", "scripts": {
        "post-install-cmd": "x", "pre-update-cmd": "y", "auto-scripts": "z",
        "test": ["phpunit", 3, "phpstan"], "serve": "php -S localhost:8000", "empty": []}}"#;
    let info = read_composer_project("/w/site".to_string(), Platform::Unix, "/w/site", text).unwrap();
    assert_eq!(info.name, "site");
    assert_eq!(info.package_manager, "composer");
    assert_eq!(
        info.scripts,
        vec![
            script("serve", "php -S localhost:8000", "composer", "composer.json"),
            script("test", "phpunit && phpstan", "composer", "composer.json"),
        ]
    );
    let bad = read_composer_project("/w".to_string(), Platform::Unix, "/w", "[").unwrap_err();
    assert!(bad.starts_with("Invalid composer.json: "));
}

#[test]
fn pyproject_scripts_are_read() {
    let text = "[project]\nname = \"api\"\n\n[tool.prolaunch.scripts]\nserve = \"uvicorn app:app\"\ncheck = 1\nlint = \"ruff check .\"\n";
    let info = read_python_project("/x/y".to_string(), Platform::Unix, "/x/y", text).unwrap();
    assert_eq!(info.name, "api");
    assert_eq!(
        info.scripts,
        vec![
            script("lint", "ruff check .", "python", "pyproject.toml"),
            script("serve", "uvicorn app:app", "python", "pyproject.toml"),
        ]
    );
    let unnamed = read_python_project("/x/tool".to_string(), Platform::Unix, "/x/tool", "").unwrap();
    assert_eq!(unnamed.name, "tool");
    let bad = read_python_project("/x".to_string(), Platform::Unix, "/x", "[[[").unwrap_err();
    assert!(bad.starts_with("Invalid pyproject.toml: "));
}

#[test]
fn preferred_manager_order() {
    let mut files = no_files();
    assert_eq!(preferred_package_manager(&files, false, None), "npm");
    files.bun_lock = true;
    assert_eq!(preferred_package_manager(&files, false, None), "bun");
    files.yarn_lock = true;
    assert_eq!(preferred_package_manager(&files, false, None), "yarn");
    files.pnpm_lock_yaml = true;
    assert_eq!(preferred_package_manager(&files, false, None), "pnpm");
    files.pubspec_yaml = true;
    assert_eq!(preferred_package_manager(&files, false, None), "dart");
    assert_eq!(
        preferred_package_manager(&files, false, Some("name: app\ndependencies:\n  flutter:\n    sdk: flutter\n")),
        "flutter"
    );
    files.main_rb = true;
    assert_eq!(preferred_package_manager(&files, false, None), "ruby");
    assert_eq!(preferred_package_manager(&files, true, None), "java");
    files.build_gradle_kts = true;
    assert_eq!(preferred_package_manager(&files, true, None), "gradle");
    files.pom_xml = true;
    assert_eq!(preferred_package_manager(&files, true, None), "maven");
    files.main_go = true;
    assert_eq!(preferred_package_manager(&files, true, None), "go");
    files.main_py = true;
    assert_eq!(preferred_package_manager(&files, true, None), "python");
    files.composer_json = true;
    assert_eq!(preferred_package_manager(&files, true, None), "composer");
}

#[test]
fn normalized_manager_is_known() {
    let mut files = no_files();
    files.yarn_lock = true;
    assert_eq!(normalize_package_manager(Some("pnpm".to_string()), &files, false, None), "pnpm");
    assert_eq!(normalize_package_manager(Some("custom".to_string()), &files, false, None), "custom");
    assert_eq!(normalize_package_manager(Some("cargo".to_string()), &files, false, None), "yarn");
    assert_eq!(normalize_package_manager(None, &files, false, None), "yarn");
    let once = normalize_package_manager(Some("deno".to_string()), &files, false, None);
    assert_eq!(normalize_package_manager(Some(once.clone()), &files, false, None), once);
}

#[test]
fn detected_managers_in_order() {
    let mut files = no_files();
    assert!(detect_package_managers(&files, None).is_empty());
    files.package_json = true;
    files.bun_lockb = true;
    files.yarnrc_yml = true;
    files.main_py = true;
    files.composer_json = true;
    assert_eq!(
        detect_package_managers(&files, None),
        vec!["composer", "python", "npm", "yarn", "bun"]
    );
    files.pyproject_toml = true;
    files.pubspec_yaml = true;
    files.pnpm_lock_yaml = true;
    assert_eq!(
        detect_package_managers(&files, None),
        vec!["composer", "python", "dart", "npm", "yarn", "pnpm", "bun"]
    );
}

#[test]
fn template_requirement_lists() {
    assert_eq!(
        template_requirements("next-ts-15"),
        Ok(vec![ToolRequirement::Node, ToolRequirement::Npm, ToolRequirement::Npx])
    );
    assert_eq!(
        template_requirements("spring-boot-java-latest"),
        Ok(vec![ToolRequirement::Java, ToolRequirement::Javac, ToolRequirement::Maven])
    );
    assert_eq!(
        template_requirements("rails-ruby-latest"),
        Ok(vec![ToolRequirement::Ruby, ToolRequirement::Bundler])
    );
    assert_eq!(template_requirements("django-python-latest"), Ok(vec![ToolRequirement::Python]));
    assert_eq!(
        template_requirements("cobol"),
        Err("Unknown project template 'cobol'".to_string())
    );
}

fn toolchain(composer: bool, python: bool) -> CreateToolchain {
    CreateToolchain {
        composer: if composer {
            Some(ToolCommand { program: "php".to_string(), args: vec!["/t/composer.phar".to_string()] })
        } else {
            None
        },
        python: if python {
            Some(ToolCommand { program: "python3".to_string(), args: vec![] })
        } else {
            None
        },
    }
}

#[test]
fn creation_steps_of_templates() {
    let steps = creation_steps(Platform::Unix, "cra-ts", "app", "/w", "/w/app", &toolchain(false, false)).unwrap();
    assert_eq!(steps.len(), 1);
    assert_eq!(steps[0].label, "Create React App project");
    assert_eq!(steps[0].program, "npx");
    assert_eq!(
        steps[0].args,
        vec!["-y", "create-react-app@latest", "app", "--template", "typescript"]
    );
    assert_eq!(steps[0].cwd, "/w");

    let laravel = creation_steps(Platform::Unix, "laravel-php-latest", "site", "/w", "/w/site", &toolchain(true, false)).unwrap();
    assert_eq!(laravel[0].label, "Create Laravel project");
    assert_eq!(laravel[0].program, "php");
    assert_eq!(
        laravel[0].args,
        vec!["/t/composer.phar", "create-project", "--no-interaction", "--no-progress", "laravel/laravel", "site"]
    );

    let dart = creation_steps(Platform::Windows, "dart-console-latest", "cli", "C:\\w", "C:\\w\\cli", &toolchain(false, false)).unwrap();
    assert_eq!(dart[0].program, "dart.exe");
    assert_eq!(dart[0].args, vec!["create", "-t", "console-simple", "cli"]);
}

#[test]
fn creation_steps_need_prepared_tools() {
    assert_eq!(
        creation_steps(Platform::Unix, "flask-python-latest", "a", "/w", "/w/a", &toolchain(true, false)).unwrap_err(),
        "Python was not prepared"
    );
    assert_eq!(
        creation_steps(Platform::Unix, "slim-php-latest", "a", "/w", "/w/a", &toolchain(false, true)).unwrap_err(),
        "Composer was not prepared"
    );
    assert!(creation_steps(Platform::Unix, "flask-python-latest", "a", "/w", "/w/a", &toolchain(false, true)).is_ok());
}

#[test]
fn unknown_templates_are_refused_alike() {
    for id in ["cobol", "", "NODE-TS"] {
        let expected = format!("Unknown project template '{}'", id);
        assert_eq!(template_requirements(id).unwrap_err(), expected);
        assert_eq!(
            creation_steps(Platform::Unix, id, "a", "/w", "/w/a", &toolchain(true, true)).unwrap_err(),
            expected
        );
    }
}

#[test]
fn known_templates_have_steps_once_prepared() {
    let ids = [
        "node-ts", "node-js", "express-ts", "express-js", "vite-react-ts", "vite-react-js",
        "vite-vue-ts", "vite-vue-js", "nuxt-ts-latest", "nuxt-js-latest", "vite-svelte-ts",
        "vite-svelte-js", "next-ts-latest", "next-js-latest", "next-ts-16", "next-js-16",
        "next-ts-15", "next-js-15", "next-ts-14", "next-js-14", "cra-ts", "cra-js",
        "angular-ts-latest", "nestjs-ts-latest", "nestjs-js-latest", "laravel-php-latest",
        "symfony-php-latest", "slim-php-latest", "codeigniter-php-latest", "python-basic",
        "fastapi-python-latest", "flask-python-latest", "django-python-latest",
        "dart-console-latest", "flutter-app-latest", "go-basic-latest", "gin-go-latest",
        "fiber-go-latest", "echo-go-latest", "chi-go-latest", "java-basic-latest",
        "maven-java-latest", "spring-boot-java-latest", "gradle-java-latest",
        "ruby-basic-latest", "sinatra-ruby-latest", "rails-ruby-latest",
    ];
    for id in ids {
        assert!(template_requirements(id).is_ok(), "{}", id);
        let steps = creation_steps(Platform::Unix, id, "a", "/w", "/w/a", &toolchain(true, true));
        assert!(matches!(steps, Ok(ref s) if !s.is_empty()), "{}", id);
    }
    assert!(template_requirements("react-native-ts").is_ok());
    assert_eq!(
        creation_steps(Platform::Unix, "react-native-ts", "a", "/w", "/w/a", &toolchain(true, true)).unwrap_err(),
        "Project template 'react-native-ts' is not supported yet"
    );
    assert_eq!(
        creation_steps(Platform::Unix, "react-native-js", "a", "/w", "/w/a", &toolchain(true, true)).unwrap_err(),
        "Project template 'react-native-js' is not supported yet"
    );
}

#[test]
fn preparations_follow_the_tool_order() {
    let plan = creation_preparations(Platform::Unix, "laravel-php-latest").unwrap();
    assert_eq!(plan.len(), 2);
    match &plan[0] {
        Preparation::Check(c) => {
            assert_eq!(c.label, "PHP CLI");
            assert_eq!(c.program, "php");
            assert_eq!(c.version_args, vec!["--version"]);
        }
        _ => panic!("expected a check"),
    }
    assert!(matches!(plan[1], Preparation::Composer));
    let go = creation_preparations(Platform::Windows, "gin-go-latest").unwrap();
    match &go[0] {
        Preparation::Check(c) => {
            assert_eq!(c.label, "Go");
            assert_eq!(c.program, "go.exe");
            assert_eq!(c.version_args, vec!["version"]);
        }
        _ => panic!("expected a check"),
    }
    let node = creation_preparations(Platform::Windows, "vite-vue-ts").unwrap();
    let labels: Vec<String> = node
        .iter()
        .map(|p| match p {
            Preparation::Check(c) => c.label.clone(),
            _ => String::new(),
        })
        .collect();
    assert_eq!(labels, vec!["Node.js", "npm", "npx"]);
    assert!(matches!(creation_preparations(Platform::Unix, "python-basic").unwrap()[0], Preparation::Python));
    assert_eq!(
        creation_preparations(Platform::Unix, "zig").err(),
        Some("Unknown project template 'zig'".to_string())
    );
}

#[test]
fn tool_checks_report_versions_and_failures() {
    assert_eq!(tool_check_outcome("Go", Ok("\ngo version go1.22\n".to_string())), Ok("go version go1.22".to_string()));
    assert_eq!(
        tool_check_outcome("Ruby", Err("ruby failed to start".to_string())),
        Err("Ruby is required for this template but was not found or could not run.\nruby failed to start".to_string())
    );
}

#[test]
fn project_scan_collects_manifest_scripts() {
    let mut files = no_files();
    files.package_json = true;
    files.composer_json = true;
    files.pnpm_lock_yaml = true;
    let mut scan = empty_scan(files);
    scan.package_json = Some(r#"{"scripts": {"dev": "vite"}}"#.to_string());
    scan.composer_json = Some(r#"{"scripts": {"serve": "php -S x"}}"#.to_string());
    let info = read_project(Platform::Unix, "/w/both".to_string(), "/w/both", &scan);
    assert_eq!(info.name, "both");
    assert_eq!(info.path, "/w/both");
    assert_eq!(info.package_manager, "composer");
    assert_eq!(
        info.scripts,
        vec![
            script("serve", "php -S x", "composer", "composer.json"),
            script("dev", "vite", "pnpm", "package.json"),
        ]
    );
}

#[test]
fn broken_manifests_are_skipped() {
    let mut files = no_files();
    files.package_json = true;
    let mut scan = empty_scan(files);
    scan.package_json = Some("{ broken".to_string());
    let info = read_project(Platform::Unix, "/w/x".to_string(), "/w/x", &scan);
    assert!(info.scripts.is_empty());
    assert_eq!(info.package_manager, "npm");
}

#[test]
fn main_files_get_start_scripts() {
    let mut files = no_files();
    files.main_py = true;
    files.main_rb = true;
    files.main_go = true;
    let mut scan = empty_scan(files);
    scan.java_main = Some("/w/m/Main.java".to_string());
    let info = read_project(Platform::Unix, "/w/m".to_string(), "/w/m", &scan);
    for pm in ["python", "go", "java", "ruby"] {
        assert!(
            info.scripts.iter().any(|s| s.name == "start" && s.package_manager.as_deref() == Some(pm)),
            "{}",
            pm
        );
    }
    assert_eq!(info.scripts[0], script("start", "python main.py", "python", "main.py"));
    assert_eq!(info.scripts.last().unwrap(), &script("start", "ruby main.rb", "ruby", "main.rb"));
    assert_eq!(info.package_manager, "python");
}

#[test]
fn a_manifest_start_script_wins_over_main_py() {
    let mut files = no_files();
    files.main_py = true;
    files.pyproject_toml = true;
    let mut scan = empty_scan(files);
    scan.pyproject_toml = Some("[tool.prolaunch.scripts]\nstart = \"uvicorn main:app\"\n".to_string());
    let info = read_project(Platform::Unix, "/w/api".to_string(), "/w/api", &scan);
    assert_eq!(info.scripts, vec![script("start", "uvicorn main:app", "python", "pyproject.toml")]);
}

#[test]
fn health_checks_stop_at_the_first_failure() {
    assert_eq!(
        health_outcome(&vec![Ok("Python 3.12.2\n".to_string()), Ok("stdlib ok".to_string())]),
        Ok("Python 3.12.2".to_string())
    );
    assert_eq!(
        health_outcome(&vec![Ok("Python 3.9".to_string()), Err("No module named venv".to_string())]),
        Err("No module named venv".to_string())
    );
}

#[test]
fn python_search_takes_the_first_working_candidate() {
    assert!(matches!(python_search_step(Platform::Unix, &vec![]), PythonStep::Check(0)));
    assert!(matches!(
        python_search_step(Platform::Unix, &vec![Err("no".to_string())]),
        PythonStep::Check(1)
    ));
    match python_search_step(Platform::Unix, &vec![Err("no".to_string()), Ok("Python 3.12".to_string())]) {
        PythonStep::Use(python, version) => {
            assert_eq!(python.program, "python3.12");
            assert_eq!(version, "Python 3.12");
        }
        _ => panic!("expected a Python"),
    }
    let failures = vec![Err("a".to_string()), Err("b".to_string()), Err("c".to_string())];
    match python_search_step(Platform::Windows, &failures) {
        PythonStep::Missing(message) => assert_eq!(
            message,
            "A working Python with venv and pip is required for this template but was not found.\npy: a\npython: b\npython3: c"
        ),
        _ => panic!("expected no Python"),
    }
}

#[test]
fn project_python_prefers_the_virtual_environment() {
    match project_python_command(Platform::Unix, "/w/api", true, &vec![]) {
        ProbeStep::Use(t) => assert_eq!(t.program, "/w/api/.venv/bin/python"),
        _ => panic!("expected the venv"),
    }
    assert!(matches!(project_python_command(Platform::Unix, "/w", false, &vec![false, false]), ProbeStep::Probe(2)));
    match project_python_command(Platform::Windows, "C:\\w", false, &vec![false, true]) {
        ProbeStep::Use(t) => assert_eq!(t.program, "python"),
        _ => panic!("expected python"),
    }
    match project_python_command(Platform::Windows, "C:\\w", false, &vec![false, false, false]) {
        ProbeStep::Fail(m) => assert_eq!(m, "Python is required to run this script but was not found."),
        _ => panic!("expected a failure"),
    }
}

#[test]
fn composer_is_found_or_installed() {
    match composer_plan(Platform::Windows, true, false, "C:\\d\\composer.phar").unwrap() {
        ComposerPlan::UseSystem(t) => assert_eq!(t.program, "composer.bat"),
        _ => panic!("expected the system Composer"),
    }
    match composer_plan(Platform::Unix, false, true, "/d/composer.phar").unwrap() {
        ComposerPlan::UseManaged(t) => {
            assert_eq!(t, ToolCommand { program: "php".to_string(), args: vec!["/d/composer.phar".to_string()] })
        }
        _ => panic!("expected the managed Composer"),
    }
    match composer_plan(Platform::Unix, false, false, "/d/composer.phar").unwrap() {
        ComposerPlan::Install(steps, t) => {
            assert_eq!(steps.len(), 4);
            assert_eq!(t.args, vec!["/d/composer.phar".to_string()]);
        }
        _ => panic!("expected an install"),
    }
    assert_eq!(
        composer_plan(Platform::Unix, false, false, "").err(),
        Some("Failed to resolve Composer cache folder".to_string())
    );
    assert_eq!(composer_installer_path(Platform::Unix, "/d/composer.phar"), Some("/d/composer-setup.php".to_string()));
}
