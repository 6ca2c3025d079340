use prolaunch::common::creation_step;
use prolaunch::model::{Platform, ScriptInfo, ToolCommand};
use prolaunch::runs::{
    creation_command, ensure_not_running, finish_run, input_target, is_current_run, plan_run,
    process_key, project_key_prefix, run_key, script_command, script_invocation,
    script_source_kind, stop_outcome, stop_project_runs, stop_run, RunningScript, ScriptSource,
    ScriptSourceKind,
};
use prolaunch::search_path::{developer_dirs, newest_first, push_path_dir, text_at_most, version_manager_roots};
use prolaunch::stores::{
    clean_custom_commands, custom_script_command, forget_recent_project, open_recent_project,
    saved_custom_commands, saved_pins, KeyedStore, MAX_RECENT_PROJECTS,
};
use prolaunch::terminal::{editor_command, terminal_command, DesktopOs, InstalledTerminals};

fn strings(items: &[&str]) -> Vec<String> {
    items.iter().map(|s| s.to_string()).collect()
}

#[test]
fn pins_read_back_what_was_saved() {
    let mut store: KeyedStore<Vec<String>> = KeyedStore::new();
    assert!(saved_pins(&store, "/p").is_empty());
    store.insert("/p".to_string(), strings(&["npm:dev", "npm:test"]));
    store.insert("/q".to_string(), strings(&["go:start"]));
    assert_eq!(saved_pins(&store, "/p"), strings(&["npm:dev", "npm:test"]));
    store.insert("/p".to_string(), strings(&["npm:build"]));
    assert_eq!(saved_pins(&store, "/p"), strings(&["npm:build"]));
    assert_eq!(saved_pins(&store, "/q"), strings(&["go:start"]));
    assert_eq!(store.len(), 2);
}

#[test]
fn store_remove_and_keys() {
    let mut store: KeyedStore<u32> = KeyedStore::from_entries(vec![
        ("a".to_string(), 1),
        ("b".to_string(), 2),
        ("a".to_string(), 3),
    ]);
    assert_eq!(store.len(), 2);
    assert_eq!(store.get("a"), Some(&3));
    let mut keys = store.keys();
    keys.sort();
    assert_eq!(keys, strings(&["a", "b"]));
    assert_eq!(store.remove("a"), Some(3));
    assert_eq!(store.remove("a"), None);
    assert!(!store.contains_key("a"));
    assert!(store.contains_key("b"));
    let all = store.take_all();
    assert_eq!(all, vec![("b".to_string(), 2)]);
    assert_eq!(store.len(), 0);
}

#[test]
fn recent_projects_put_the_latest_first() {
    let mut list = strings(&["/a", "/b", "/c"]);
    open_recent_project(&mut list, "/b".to_string());
    assert_eq!(list, strings(&["/b", "/a", "/c"]));
    open_recent_project(&mut list, "/d".to_string());
    assert_eq!(list, strings(&["/d", "/b", "/a", "/c"]));
}

#[test]
fn recent_projects_keep_at_most_ten() {
    let mut list: Vec<String> = (0..10).map(|i| format!("/p{}", i)).collect();
    open_recent_project(&mut list, "/new".to_string());
    assert_eq!(list.len(), MAX_RECENT_PROJECTS);
    assert_eq!(list[0], "/new");
    assert_eq!(list[9], "/p8");
    assert_eq!(list.iter().filter(|p| *p == "/new").count(), 1);
}

#[test]
fn forgetting_a_recent_project() {
    let mut list = strings(&["/a", "/b", "/a", "/c"]);
    forget_recent_project(&mut list, "/a");
    assert_eq!(list, strings(&["/b", "/c"]));
    forget_recent_project(&mut list, "/zzz");
    assert_eq!(list, strings(&["/b", "/c"]));
}

fn custom(name: &str, command: &str) -> ScriptInfo {
    ScriptInfo { name: name.to_string(), command: command.to_string(), package_manager: None, source: None }
}

#[test]
fn custom_commands_are_cleaned_when_saved() {
    let cleaned = clean_custom_commands(vec![
        custom("serve", "python -m http.server"),
        custom("  ", "ls"),
        custom("blank", "   "),
        custom(" lint ", "eslint ."),
    ]);
    assert_eq!(cleaned.len(), 2);
    assert_eq!(cleaned[0].name, "serve");
    assert_eq!(cleaned[0].package_manager.as_deref(), Some("custom"));
    assert_eq!(cleaned[0].source.as_deref(), Some("Custom"));
    assert_eq!(cleaned[1].name, " lint ");
    let mut store: KeyedStore<Vec<ScriptInfo>> = KeyedStore::new();
    store.insert("/p".to_string(), cleaned.clone());
    assert_eq!(saved_custom_commands(&store, "/p"), cleaned);
    assert!(saved_custom_commands(&store, "/other").is_empty());
}

#[test]
fn custom_command_lookup() {
    let commands = vec![custom("a", "echo one"), custom("b", "  "), custom("a", "echo two")];
    assert_eq!(custom_script_command(Some(&commands), "a"), Ok("echo one".to_string()));
    assert_eq!(
        custom_script_command(Some(&commands), "b"),
        Err("Custom command 'b' was not found".to_string())
    );
    assert_eq!(
        custom_script_command(Some(&commands), "c"),
        Err("Custom command 'c' was not found".to_string())
    );
    assert_eq!(
        custom_script_command(None, "a"),
        Err("Custom command 'a' was not found".to_string())
    );
}

#[test]
fn run_and_process_keys() {
    assert_eq!(run_key(None, "npm", "dev"), "npm:dev");
    assert_eq!(run_key(Some("custom:x".to_string()), "npm", "dev"), "custom:x");
    let key = process_key("/w/app", "npm:dev");
    assert_eq!(key, "/w/app::npm:dev");
    assert!(key.starts_with(&project_key_prefix("/w/app")));
}

#[test]
fn registry_refuses_a_second_run() {
    let mut registry: KeyedStore<RunningScript> = KeyedStore::new();
    let keys = plan_run(&registry, "/w", "dev", "npm", None).unwrap();
    assert_eq!(keys.run_key, "npm:dev");
    assert_eq!(keys.process_key, "/w::npm:dev");
    registry.insert(keys.process_key.clone(), RunningScript { run_id: 1, pid: 100 });
    assert_eq!(
        plan_run(&registry, "/w", "dev", "npm", None).err(),
        Some("Script 'dev' is already running".to_string())
    );
    assert_eq!(
        ensure_not_running(&registry, "/w::npm:dev", "dev"),
        Err("Script 'dev' is already running".to_string())
    );
    assert_eq!(ensure_not_running(&registry, "/w::npm:test", "test"), Ok(()));
}

#[test]
fn a_stale_run_does_not_end_a_newer_one() {
    let mut registry: KeyedStore<RunningScript> = KeyedStore::new();
    registry.insert("/w::npm:dev".to_string(), RunningScript { run_id: 2, pid: 200 });
    assert!(!is_current_run(&registry, "/w::npm:dev", 1));
    assert_eq!(finish_run(&mut registry, "/w::npm:dev", 1), None);
    assert!(registry.contains_key("/w::npm:dev"));
    assert_eq!(finish_run(&mut registry, "/w::npm:dev", 2), Some(RunningScript { run_id: 2, pid: 200 }));
    assert!(!registry.contains_key("/w::npm:dev"));
}

#[test]
fn stopping_and_input() {
    let mut registry: KeyedStore<RunningScript> = KeyedStore::new();
    registry.insert("/w::npm:dev".to_string(), RunningScript { run_id: 1, pid: 10 });
    assert_eq!(input_target(&registry, "/w::npm:dev", "npm:dev"), Ok(RunningScript { run_id: 1, pid: 10 }));
    assert_eq!(
        input_target(&registry, "/w::x", "x"),
        Err("No running process found for 'x'".to_string())
    );
    assert_eq!(stop_run(&mut registry, "/w::npm:dev", "npm:dev"), Ok(RunningScript { run_id: 1, pid: 10 }));
    assert_eq!(
        stop_run(&mut registry, "/w::npm:dev", "npm:dev"),
        Err("No running process found for 'npm:dev'".to_string())
    );
}

#[test]
fn stopping_a_project_reaches_only_its_runs() {
    let mut registry: KeyedStore<RunningScript> = KeyedStore::new();
    registry.insert("/w/a::npm:dev".to_string(), RunningScript { run_id: 1, pid: 1 });
    registry.insert("/w/a::npm:test".to_string(), RunningScript { run_id: 2, pid: 2 });
    registry.insert("/w/ab::npm:dev".to_string(), RunningScript { run_id: 3, pid: 3 });
    let mut stopped = stop_project_runs(&mut registry, "/w/a");
    stopped.sort_by(|x, y| x.0.cmp(&y.0));
    assert_eq!(
        stopped,
        vec![
            ("/w/a::npm:dev".to_string(), RunningScript { run_id: 1, pid: 1 }),
            ("/w/a::npm:test".to_string(), RunningScript { run_id: 2, pid: 2 }),
        ]
    );
    assert_eq!(registry.keys(), strings(&["/w/ab::npm:dev"]));
    assert_eq!(stop_outcome(&vec![]), Ok(()));
    assert_eq!(
        stop_outcome(&strings(&["a failed", "b failed"])),
        Err("a failed; b failed".to_string())
    );
}

#[test]
fn source_kinds_by_package_manager() {
    assert_eq!(script_source_kind("custom"), ScriptSourceKind::Custom);
    assert_eq!(script_source_kind("composer"), ScriptSourceKind::Composer);
    assert_eq!(script_source_kind("flutter"), ScriptSourceKind::Pub);
    assert_eq!(script_source_kind("dart"), ScriptSourceKind::Pub);
    assert_eq!(script_source_kind("gradle"), ScriptSourceKind::Gradle);
    assert_eq!(script_source_kind("yarn"), ScriptSourceKind::PackageScript);
}

#[test]
fn invocations_of_scripts() {
    let shell = script_invocation(Platform::Unix, "go", "start", ScriptSource::CommandLine(Ok("go run .".to_string()))).unwrap();
    assert_eq!(shell, ToolCommand { program: "sh".to_string(), args: strings(&["-c", "go run ."]) });
    assert_eq!(
        script_invocation(Platform::Unix, "go", "x", ScriptSource::CommandLine(Err("Go script 'x' was not found".to_string()))),
        Err("Go script 'x' was not found".to_string())
    );
    let system = script_invocation(
        Platform::Windows,
        "composer",
        "test",
        ScriptSource::Composer { system_available: true, managed: None },
    )
    .unwrap();
    assert_eq!(system, ToolCommand { program: "composer.bat".to_string(), args: strings(&["run-script", "test"]) });
    let managed = script_invocation(
        Platform::Unix,
        "composer",
        "test",
        ScriptSource::Composer { system_available: false, managed: Some("/d/composer.phar".to_string()) },
    )
    .unwrap();
    assert_eq!(managed, ToolCommand { program: "php".to_string(), args: strings(&["/d/composer.phar", "run-script", "test"]) });
    assert_eq!(
        script_invocation(Platform::Unix, "composer", "test", ScriptSource::Composer { system_available: false, managed: None }),
        Err("Composer is required to run this PHP script. Create a PHP project once with ProLaunch setup, or install Composer on PATH.".to_string())
    );
    let npm = script_invocation(Platform::Windows, "npm", "dev", ScriptSource::PackageScript).unwrap();
    assert_eq!(npm, ToolCommand { program: "npm.cmd".to_string(), args: strings(&["run", "dev"]) });
}

#[test]
fn watched_commands() {
    let invocation = ToolCommand { program: "npm".to_string(), args: strings(&["run", "dev"]) };
    let unix = script_command(Platform::Unix, &invocation, 42);
    assert_eq!(unix.program, "sh");
    assert_eq!(unix.args[0], "-c");
    assert_eq!(&unix.args[2..], &strings(&["prolaunch-runner", "42", "npm", "run", "dev"])[..]);
    let windows = script_command(Platform::Windows, &invocation, 7);
    assert_eq!(windows.program, "powershell.exe");
    assert_eq!(&windows.args[..6], &strings(&["-NoLogo", "-NoProfile", "-NonInteractive", "-ExecutionPolicy", "Bypass", "-Command"])[..]);
    assert_eq!(&windows.args[7..], &strings(&["7", "npm", "run", "dev"])[..]);
    let step = creation_step("Create", "npx".to_string(), vec!["-y", "x"], "/w");
    let create = creation_command(Platform::Unix, &step, 5);
    assert_eq!(&create.args[2..], &strings(&["prolaunch-create-step", "5", "npx", "-y", "x"])[..]);
}

#[test]
fn terminals_by_system() {
    let none = InstalledTerminals { gnome_terminal: false, konsole: false, xfce4_terminal: false, xterm: false };
    let mac = terminal_command(DesktopOs::MacOs, "/w", &none).unwrap().unwrap();
    assert_eq!(mac, ToolCommand { program: "open".to_string(), args: strings(&["-a", "Terminal", "/w"]) });
    let win = terminal_command(DesktopOs::Windows, "C:\\w", &none).unwrap().unwrap();
    assert_eq!(win.program, "cmd");
    assert_eq!(win.args, strings(&["/C", "start", "", "cmd.exe", "/K", "cd", "/d", "C:\\w"]));
    assert_eq!(terminal_command(DesktopOs::Linux, "/w", &none), Err("No supported terminal found".to_string()));
    let some = InstalledTerminals { gnome_terminal: false, konsole: true, xfce4_terminal: true, xterm: true };
    assert_eq!(
        terminal_command(DesktopOs::Linux, "/w", &some).unwrap().unwrap(),
        ToolCommand { program: "konsole".to_string(), args: strings(&["--workdir", "/w"]) }
    );
    let gnome = InstalledTerminals { gnome_terminal: true, ..some };
    assert_eq!(terminal_command(DesktopOs::Linux, "/w", &gnome).unwrap().unwrap().args, strings(&["--working-directory=/w"]));
    assert_eq!(terminal_command(DesktopOs::Other, "/w", &none), Ok(None));
    assert_eq!(editor_command("/w"), ToolCommand { program: "code".to_string(), args: strings(&["/w"]) });
}

#[test]
fn developer_folders() {
    let without_home = developer_dirs(Platform::Unix, None);
    assert_eq!(without_home.len(), 16);
    assert_eq!(without_home[0], "/opt/homebrew/bin");
    assert_eq!(without_home[15], "/snap/bin");
    let with_home = developer_dirs(Platform::Unix, Some("/home/me"));
    assert_eq!(with_home.len(), 28);
    assert_eq!(with_home[16], "/home/me/.local/bin");
    assert_eq!(with_home[27], "/home/me/.sdkman/candidates/gradle/current/bin");
    let roots = version_manager_roots(Platform::Unix, "/home/me");
    assert_eq!(roots[0], ("/home/me/.nvm/versions/node".to_string(), strings(&["bin"])));
    assert_eq!(roots[2].1, strings(&["installation", "bin"]));
}

#[test]
fn newest_versions_first() {
    assert!(text_at_most("v18", "v20"));
    assert!(text_at_most("v1", "v1.0"));
    assert!(!text_at_most("v9", "v10"));
    let sorted = newest_first(strings(&["v18.1.0", "v20.3.1", "v16.0.0", "v20.3.1"]));
    assert_eq!(sorted, strings(&["v20.3.1", "v20.3.1", "v18.1.0", "v16.0.0"]));
    assert!(newest_first(vec![]).is_empty());
}

#[test]
fn opening_the_latest_project_again_changes_nothing() {
    let mut list = strings(&["/b", "/a", "/c"]);
    open_recent_project(&mut list, "/b".to_string());
    assert_eq!(list, strings(&["/b", "/a", "/c"]));
    let mut long: Vec<String> = (0..12).map(|i| format!("/p{}", i)).collect();
    open_recent_project(&mut long, "/x".to_string());
    let once = long.clone();
    open_recent_project(&mut long, "/x".to_string());
    assert_eq!(long, once);
}

#[test]
fn search_path_folders_are_listed_once() {
    let mut dirs = strings(&["/usr/bin"]);
    push_path_dir(Platform::Unix, &mut dirs, "/usr/bin/".to_string(), true);
    push_path_dir(Platform::Unix, &mut dirs, "/usr/./bin".to_string(), true);
    assert_eq!(dirs, strings(&["/usr/bin"]));
    push_path_dir(Platform::Unix, &mut dirs, "/opt/missing".to_string(), false);
    assert_eq!(dirs, strings(&["/usr/bin"]));
    push_path_dir(Platform::Unix, &mut dirs, "usr/bin".to_string(), true);
    push_path_dir(Platform::Unix, &mut dirs, "./usr/bin".to_string(), true);
    assert_eq!(dirs, strings(&["/usr/bin", "usr/bin", "./usr/bin"]));
    push_path_dir(Platform::Windows, &mut dirs, "\\usr\\bin".to_string(), true);
    assert_eq!(dirs.len(), 3);
}

#[test]
fn windows_search_path_folders_compare_drives_without_case() {
    let mut dirs = strings(&["C:\\tools"]);
    push_path_dir(Platform::Windows, &mut dirs, "c:\\tools\\".to_string(), true);
    assert_eq!(dirs, strings(&["C:\\tools"]));
    push_path_dir(Platform::Windows, &mut dirs, "D:\\tools".to_string(), true);
    push_path_dir(Platform::Windows, &mut dirs, "\\tools".to_string(), true);
    assert_eq!(dirs, strings(&["C:\\tools", "D:\\tools", "\\tools"]));
}

#[test]
fn programs_named_by_paths() {
    assert!(!prolaunch::search_path::program_is_path(Platform::Unix, "npm"));
    assert!(!prolaunch::search_path::program_is_path(Platform::Unix, "npm/"));
    assert!(prolaunch::search_path::program_is_path(Platform::Unix, "/usr/bin/npm"));
    assert!(prolaunch::search_path::program_is_path(Platform::Unix, "./mvnw"));
    assert!(prolaunch::search_path::program_is_path(Platform::Unix, "bin/rails"));
    assert!(prolaunch::search_path::program_is_path(Platform::Windows, "C:\\tools\\php.exe"));
    assert!(prolaunch::search_path::program_is_path(Platform::Windows, "C:php.exe"));
    assert!(prolaunch::search_path::program_is_path(Platform::Windows, "\\tools\\php.exe"));
    assert!(!prolaunch::search_path::program_is_path(Platform::Windows, "\\"));
    assert!(!prolaunch::search_path::program_is_path(Platform::Windows, "php.exe"));
    assert!(prolaunch::search_path::program_is_path(Platform::Unix, "/"));
}
