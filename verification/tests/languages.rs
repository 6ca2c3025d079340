use prolaunch::langs::dart::{is_flutter_pubspec, pub_project_name, pub_script_command_line, yaml_top_level_string};
use prolaunch::langs::go::{go_main_source, go_dependency, go_module_name, go_project_steps, go_script_command_line, has_go_main_package};
use prolaunch::langs::java::{
    find_java_main_file, gradle_project_name, gradle_script_args, gradle_script_command_line,
    java_main_class, java_main_command, java_main_command_line, java_script_command_line,
    maven_pom, spring_boot_pom, maven_project_name, maven_script_args, maven_script_command_line, xml_first_text,
};
use prolaunch::langs::php::{composer_install_steps, managed_composer_location};
use prolaunch::langs::python::{
    python_candidates, python_missing_error, python_script_command, python_script_command_line,
};
use prolaunch::langs::ruby::{ruby_script_command_line, ruby_scripts, RubyProjectFiles};
use prolaunch::model::{Platform, ToolCommand};

#[test]
fn xml_texts_and_maven_names() {
    assert_eq!(xml_first_text("<a> x </a><a>y</a>", "a"), Some("x".to_string()));
    assert_eq!(xml_first_text("<a>x", "a"), None);
    let pom = "<project><parent><artifactId>spring-parent</artifactId></parent><artifactId>shop</artifactId></project>";
    assert_eq!(maven_project_name(Platform::Unix, "/w/dir", pom), "shop");
    assert_eq!(maven_project_name(Platform::Unix, "/w/dir", "<project/>"), "dir");
}

#[test]
fn maven_scripts_by_plugins() {
    assert_eq!(maven_script_args("spring-boot-starter-web", "dev"), Some(vec!["spring-boot:run"]));
    assert_eq!(maven_script_args("exec-maven-plugin", "start"), Some(vec!["exec:java"]));
    assert_eq!(maven_script_args("plain", "start"), None);
    assert_eq!(maven_script_args("plain", "package"), Some(vec!["package"]));
    assert_eq!(
        maven_script_command_line(Platform::Unix, "/w/app", true, "plain", "test"),
        Ok("'/w/app/mvnw' 'test'".to_string())
    );
    assert_eq!(
        maven_script_command_line(Platform::Unix, "/w/app", false, "plain", "dev"),
        Err("Maven script 'dev' was not found".to_string())
    );
}

#[test]
fn gradle_scripts_and_names() {
    assert_eq!(gradle_script_args("id 'org.springframework.boot'", "start"), Some(vec!["bootRun"]));
    assert_eq!(gradle_script_args("application { mainClass = 'A' }", "dev"), Some(vec!["run"]));
    assert_eq!(gradle_script_args("", "build"), Some(vec!["build"]));
    assert_eq!(gradle_script_args("", "dev"), None);
    assert_eq!(
        gradle_script_command_line(Platform::Unix, "/w/g", false, "", "clean"),
        Ok("'gradle' 'clean'".to_string())
    );
    assert_eq!(
        gradle_project_name(Platform::Unix, "/w/g", Some("rootProject.name = \"demo\"\n")),
        "demo"
    );
    assert_eq!(gradle_project_name(Platform::Unix, "/w/g", Some("rootProject.name = ''")), "g");
    assert_eq!(gradle_project_name(Platform::Unix, "/w/g", None), "g");
}

#[test]
fn java_main_files() {
    assert_eq!(java_main_class(Platform::Unix, "/w/src/App.java"), "App");
    assert_eq!(
        java_main_command_line(Platform::Unix, "/w/App.java"),
        "'javac' 'App.java' && 'java' 'App'"
    );
    assert_eq!(java_main_command(Platform::Unix, "/w/App.java"), "javac App.java && java App");
    assert_eq!(
        java_script_command_line(Platform::Unix, "test", Some("/w/App.java")),
        Err("Java script 'test' was not found".to_string())
    );
    assert_eq!(
        java_script_command_line(Platform::Unix, "start", None),
        Err("Java main file was not found".to_string())
    );
    assert_eq!(find_java_main_file(Platform::Unix, "/w", true, None), Some("/w/Main.java".to_string()));
}

#[test]
fn go_modules() {
    assert_eq!(go_module_name(Platform::Unix, "/w/svc", "// c\nmodule example.com/svc\n"), "example.com/svc");
    assert_eq!(go_module_name(Platform::Unix, "/w/svc", "module   \n"), "svc");
    assert_eq!(go_dependency("fiber"), Some("github.com/gofiber/fiber/v2"));
    assert_eq!(go_dependency("basic"), None);
    let entries = vec![
        ("main_test.go".to_string(), Some("package main".to_string())),
        ("lib.go".to_string(), Some("package lib".to_string())),
    ];
    assert!(!has_go_main_package(Some(&entries), true));
    let with_main = vec![("cmd.go".to_string(), Some("package main\nfunc main(){}".to_string()))];
    assert!(has_go_main_package(Some(&with_main), false));
    assert!(has_go_main_package(None, true));
    assert_eq!(go_script_command_line(true, true, false, "start"), Err("Go script 'start' was not found".to_string()));
    assert_eq!(go_script_command_line(true, false, true, "start"), Ok("go run .".to_string()));
    assert_eq!(go_script_command_line(false, true, false, "dev"), Ok("go run main.go".to_string()));
    assert_eq!(go_script_command_line(false, true, false, "test"), Err("Go script 'test' was not found".to_string()));
    let steps = go_project_steps(Platform::Unix, "gin", "api", "/w", "/w/api");
    let labels: Vec<&str> = steps.iter().map(|s| s.label.as_str()).collect();
    assert_eq!(
        labels,
        vec!["Create Gin starter files", "Initialize Go module", "Install Gin dependency", "Tidy Go module"]
    );
}

#[test]
fn pubspecs() {
    let flutter = "name: my_app\ndependencies:\n  flutter:\n    sdk: flutter\n";
    assert!(is_flutter_pubspec(flutter));
    assert!(!is_flutter_pubspec("name: cli\n"));
    assert_eq!(yaml_top_level_string("name: 'cli'\n", "name"), Some("cli".to_string()));
    assert_eq!(yaml_top_level_string("  name: x\n", "name"), None);
    assert_eq!(pub_project_name(Platform::Unix, "/w/d", "description: x\n"), "d");
    assert_eq!(pub_script_command_line("flutter", "", false, "start"), Ok("flutter run".to_string()));
    assert!(pub_script_command_line("dart", "name: c\n", false, "nope").is_err());
}

#[test]
fn python_commands() {
    assert_eq!(
        python_script_command(false, true, Err("missing"), "start"),
        Ok("python main.py".to_string())
    );
    assert_eq!(
        python_script_command(false, true, Err("missing"), "test"),
        Err("Python script 'test' was not found. main.py projects only expose the 'start' script.".to_string())
    );
    assert_eq!(
        python_script_command(true, false, Ok("[tool.prolaunch.scripts]\nserve = \"python app.py\"\n"), "serve"),
        Ok("python app.py".to_string())
    );
    assert_eq!(
        python_script_command(true, true, Ok(""), "start"),
        Ok("python main.py".to_string())
    );
    assert_eq!(
        python_script_command(true, false, Ok(""), "lint"),
        Err("Python script 'lint' was not found in pyproject.toml".to_string())
    );
    let python = ToolCommand { program: "/w/.venv/bin/python".to_string(), args: vec![] };
    assert_eq!(
        python_script_command_line(Platform::Unix, "python main.py", &python),
        "'/w/.venv/bin/python' main.py"
    );
    let unix = python_candidates(Platform::Unix);
    assert_eq!(unix[0].program, "python3.13");
    assert_eq!(unix.len(), 7);
    let windows = python_candidates(Platform::Windows);
    assert_eq!(windows[0], ToolCommand { program: "py".to_string(), args: vec!["-3".to_string()] });
    assert_eq!(
        python_missing_error(&vec![("py".to_string(), "not found".to_string())]),
        "A working Python with venv and pip is required for this template but was not found.\npy: not found"
    );
}

#[test]
fn composer_setup() {
    let (dir, file) = managed_composer_location(Platform::Unix, "/data");
    assert_eq!(dir, "/data/tools/composer");
    assert_eq!(file, "/data/tools/composer/composer.phar");
    let steps = composer_install_steps(Platform::Unix, &file).unwrap();
    assert_eq!(steps.len(), 4);
    assert_eq!(steps[0].label, "Download Composer installer");
    assert_eq!(steps[3].args, vec![file.clone(), "--version".to_string()]);
    assert!(steps.iter().all(|s| s.cwd == dir));
}

#[test]
fn ruby_projects() {
    let files = RubyProjectFiles {
        has_config_application: false,
        has_bin_rails: false,
        has_app_rb: false,
        has_main_rb: true,
        application_rb: String::new(),
    };
    let scripts = ruby_scripts(&files, None);
    assert_eq!(scripts[0].name, "start");
    assert_eq!(scripts[0].command, "ruby main.rb");
    assert_eq!(
        ruby_script_command_line(&files, None, "deploy"),
        Err("Ruby script 'deploy' was not found".to_string())
    );
}

#[test]
fn scaffold_poms_read_back_their_name() {
    assert_eq!(maven_project_name(Platform::Unix, "/w/other", &maven_pom("shop-api")), "shop-api");
    assert_eq!(maven_project_name(Platform::Unix, "/w/other", &spring_boot_pom("web.app_2")), "web.app_2");
}

#[test]
fn go_starters_import_their_module() {
    for kind in ["gin", "fiber", "echo", "chi", "basic"] {
        let source = go_main_source(kind);
        assert!(source.starts_with("package main\n"), "{}", kind);
        if let Some(module) = go_dependency(kind) {
            assert!(source.contains(&format!("\"{}\"", module)), "{}", kind);
        }
    }
    assert_eq!(go_dependency("basic"), None);
}
