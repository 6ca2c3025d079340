use prolaunch::common::{
    command_outcome, decimal_string, process_id_text, python_folder_project_name, readme_content,
    step_display_line, step_outcome, step_poll_decision, step_timeout_error,
    validate_project_name, StepDecision, StepPoll,
};
use prolaunch::common::{creation_step, creation_step_with_display, file_entry, write_files_step};
use prolaunch::model::Platform;
use prolaunch::output::{
    command_output_excerpt, create_log_line, first_output_line, next_line_break,
    sanitize_log_line, take_complete_lines,
};
use prolaunch::platform::{
    command_display, join, package_manager_command, package_manager_run_command, path_file_name,
    path_parent, shell_quote, shell_tool_command, tool_command_line,
};
use prolaunch::model::ToolCommand;

#[test]
fn sanitize_removes_escape_sequences_and_backspaces() {
    assert_eq!(sanitize_log_line("\u{1b}[32mready\u{1b}[0m  "), "ready");
    assert_eq!(sanitize_log_line("ab\u{8}c"), "abc");
    assert_eq!(sanitize_log_line("   "), "");
}

#[test]
fn sanitized_line_has_no_controls() {
    let shown = sanitize_log_line("\u{1b}[1;31merror\u{1b}[0m: \u{8}failed\u{1b}");
    assert!(!shown.contains('\u{1b}'));
    assert!(!shown.contains('\u{8}'));
    assert_eq!(shown, "error: failed");
}

#[test]
fn create_log_line_skips_empty_lines() {
    assert_eq!(create_log_line("  \u{1b}[0m "), None);
    assert_eq!(create_log_line(" npm install "), Some("npm install".to_string()));
}

#[test]
fn next_line_break_finds_newline_or_return() {
    assert_eq!(next_line_break("abc"), None);
    assert_eq!(next_line_break("ab\ncd"), Some(2));
    assert_eq!(next_line_break("ab\rcd\n"), Some(2));
    assert_eq!(next_line_break("\u{e9}\nx"), Some(2));
    assert_eq!(next_line_break("\u{20ac}a\r"), Some(4));
}

#[test]
fn complete_lines_are_taken_and_the_rest_kept() {
    let mut pending = String::from("one\ntwo\r\nthree");
    let lines = take_complete_lines(&mut pending);
    assert_eq!(lines, vec!["one".to_string(), "two".to_string(), "".to_string()]);
    assert_eq!(pending, "three");
    for line in &lines {
        assert!(!line.contains('\n') && !line.contains('\r'));
    }
    let mut none = String::from("partial");
    assert!(take_complete_lines(&mut none).is_empty());
    assert_eq!(none, "partial");
}

#[test]
fn excerpt_joins_trimmed_outputs() {
    assert_eq!(command_output_excerpt("  out \n", "\n err "), "out\n\nerr");
    assert_eq!(command_output_excerpt("", " err "), "err");
    assert_eq!(command_output_excerpt(" out ", "   "), "out");
    assert_eq!(command_output_excerpt("", ""), "");
}

#[test]
fn excerpt_keeps_the_last_characters_of_long_output() {
    let long = format!("{}{}", "a".repeat(10), "b".repeat(4000));
    let excerpt = command_output_excerpt(&long, "");
    assert_eq!(excerpt.chars().count(), 4003);
    assert_eq!(excerpt, format!("...{}", "b".repeat(4000)));
    let exact = "c".repeat(4000);
    assert_eq!(command_output_excerpt(&exact, ""), exact);
}

#[test]
fn first_output_line_skips_blank_lines() {
    assert_eq!(first_output_line("\n  \n  Python 3.12.1  \nmore"), "Python 3.12.1");
    assert_eq!(first_output_line("   \n"), "ready");
    assert_eq!(first_output_line(""), "ready");
}

#[test]
fn command_outcome_reports_failures() {
    assert_eq!(command_outcome("php", true, "0", " PHP 8 ", ""), Ok("PHP 8".to_string()));
    assert_eq!(
        command_outcome("php", false, "exit status: 1", "", ""),
        Err("php exited with status exit status: 1".to_string())
    );
    assert_eq!(command_outcome("php", false, "1", "", "boom"), Err("boom".to_string()));
}

#[test]
fn step_outcome_reports_exit_code() {
    assert_eq!(step_outcome("Install", true, Some(0), "", ""), Ok(()));
    assert_eq!(
        step_outcome("Install", false, Some(-3), "out", "err"),
        Err("Install failed with exit code -3\nout\n\nerr".to_string())
    );
    assert_eq!(
        step_outcome("Install", false, None, "", ""),
        Err("Install failed with exit code unknown\n".to_string())
    );
}

#[test]
fn step_timeout_message() {
    assert_eq!(
        step_timeout_error("Create", "x", ""),
        "Create timed out after 10 minutes\nx".to_string()
    );
}

#[test]
fn step_poll_decisions() {
    assert!(matches!(
        step_poll_decision("S", StepPoll::Exited { success: false, code: Some(1) }),
        StepDecision::Finish
    ));
    assert!(matches!(
        step_poll_decision("S", StepPoll::Running { elapsed_nanos: 600_000_000_000 }),
        StepDecision::KeepWaiting
    ));
    assert!(matches!(
        step_poll_decision("S", StepPoll::Running { elapsed_nanos: 600_000_000_001 }),
        StepDecision::StopTimedOut
    ));
    match step_poll_decision("S", StepPoll::WaitFailed { error: "gone".to_string() }) {
        StepDecision::StopFailed(m) => assert_eq!(m, "S failed while waiting: gone"),
        _ => panic!("expected a failure"),
    }
}

#[test]
fn decimal_texts() {
    assert_eq!(decimal_string(0), "0");
    assert_eq!(decimal_string(-127), "-127");
    assert_eq!(decimal_string(i32::MIN), "-2147483648");
    assert_eq!(process_id_text(4294967295), "4294967295");
}

#[test]
fn project_names_are_validated() {
    assert_eq!(validate_project_name("my-app_1.0"), Ok(()));
    assert_eq!(validate_project_name(""), Err("Project name is required".to_string()));
    assert_eq!(validate_project_name("   "), Err("Project name is required".to_string()));
    assert_eq!(
        validate_project_name(" app"),
        Err("Project name cannot start or end with whitespace".to_string())
    );
    assert_eq!(validate_project_name(".."), Err("Project name is not valid".to_string()));
    assert_eq!(
        validate_project_name("My-App"),
        Err(
            "Project name can only use lowercase letters, numbers, dots, dashes, or underscores"
                .to_string()
        )
    );
    assert_eq!(
        validate_project_name("-app"),
        Err("Project name must start with a lowercase letter or number".to_string())
    );
}

#[test]
fn folder_names() {
    assert_eq!(python_folder_project_name(Platform::Unix, "/home/me/shop/"), "shop");
    assert_eq!(python_folder_project_name(Platform::Unix, "/"), "Untitled Project");
    assert_eq!(python_folder_project_name(Platform::Windows, "C:\\work\\api"), "api");
}

#[test]
fn readme_text() {
    assert_eq!(readme_content("demo"), "# demo\n\nCreated with ProLaunch.\n");
}

#[test]
fn display_lines_of_steps() {
    let step = creation_step("Create", "npx".to_string(), vec!["-y", "a b"], "/tmp");
    assert_eq!(step_display_line(&step), "$ npx -y a b");
    let shown = creation_step_with_display(
        "Verify",
        "php".to_string(),
        vec!["x".to_string()],
        "/tmp",
        "$ php <file>".to_string(),
    );
    assert_eq!(step_display_line(&shown), "$ php <file>");
    let files = write_files_step("Write files", vec![file_entry(Platform::Unix, "/p", "a.txt", "x".to_string())], "/p", "$ write a.txt".to_string());
    assert_eq!(files.label, "Write files");
    assert_eq!(step_display_line(&files), "$ write a.txt");
}

#[test]
fn paths_join_and_split() {
    assert_eq!(join(Platform::Unix, "/a", "b"), "/a/b");
    assert_eq!(join(Platform::Unix, "/a/", "b"), "/a/b");
    assert_eq!(join(Platform::Windows, "C:\\a", "b"), "C:\\a\\b");
    assert_eq!(path_file_name(Platform::Unix, "/a/b.txt"), Some("b.txt".to_string()));
    assert_eq!(path_file_name(Platform::Unix, "/a/.."), None);
    assert_eq!(path_parent(Platform::Unix, "/a/b"), Some("/a".to_string()));
}

#[test]
fn paths_skip_current_dir_components() {
    assert_eq!(path_file_name(Platform::Unix, "/x/a/."), Some("a".to_string()));
    assert_eq!(path_file_name(Platform::Unix, "/x/./a"), Some("a".to_string()));
    assert_eq!(path_file_name(Platform::Unix, "."), None);
    assert_eq!(path_parent(Platform::Unix, "a/./b"), Some("a".to_string()));
    assert_eq!(path_parent(Platform::Unix, "/x/a/."), Some("/x".to_string()));
    assert_eq!(path_parent(Platform::Unix, "."), Some("".to_string()));
    assert_eq!(path_parent(Platform::Unix, "./a"), Some(".".to_string()));
    assert_eq!(path_parent(Platform::Unix, "a"), Some("".to_string()));
    assert_eq!(path_parent(Platform::Unix, "/"), None);
    assert_eq!(python_folder_project_name(Platform::Unix, "/x/a/."), "a");
}

#[test]
fn windows_paths_keep_their_drive_prefix() {
    assert_eq!(path_file_name(Platform::Windows, "C:\\"), None);
    assert_eq!(path_parent(Platform::Windows, "C:\\"), None);
    assert_eq!(path_parent(Platform::Windows, "C:foo"), Some("C:".to_string()));
    assert_eq!(path_parent(Platform::Windows, "C:\\work\\api"), Some("C:\\work".to_string()));
    assert_eq!(path_file_name(Platform::Windows, "C:\\work\\api"), Some("api".to_string()));
}

#[test]
fn shell_quoting() {
    assert_eq!(shell_quote(Platform::Unix, "it's"), "'it'\\''s'");
    assert_eq!(shell_quote(Platform::Unix, "a b\n$x\\"), "'a b\n$x\\'");
    assert_eq!(shell_quote(Platform::Unix, ""), "''");
    assert_eq!(shell_quote(Platform::Windows, "say \"hi\""), "\"say `\"hi`\"\"");
    let tool = ToolCommand { program: "/usr/bin/python3".to_string(), args: vec!["-X".to_string()] };
    assert_eq!(
        tool_command_line(Platform::Unix, &tool, &vec!["main.py".to_string()]),
        "'/usr/bin/python3' '-X' 'main.py'"
    );
    assert_eq!(command_display(Platform::Unix, &tool), "python3");
}

#[test]
fn package_manager_programs() {
    assert_eq!(package_manager_command(Platform::Unix, "pnpm"), "pnpm");
    assert_eq!(package_manager_command(Platform::Windows, "pnpm"), "pnpm.cmd");
    assert_eq!(package_manager_command(Platform::Windows, "composer"), "composer.bat");
    assert_eq!(package_manager_run_command("composer"), "run-script");
    assert_eq!(package_manager_run_command("npm"), "run");
    let shell = shell_tool_command(Platform::Unix, "echo hi".to_string());
    assert_eq!(shell.program, "sh");
    assert_eq!(shell.args, vec!["-c".to_string(), "echo hi".to_string()]);
    let ps = shell_tool_command(Platform::Windows, "echo hi".to_string());
    assert_eq!(ps.program, "powershell.exe");
    assert_eq!(ps.args.last().unwrap(), "echo hi");
    assert_eq!(ps.args.len(), 7);
}

#[test]
fn sanitizing_twice_changes_nothing() {
    for line in ["\u{1b}[2K  building\u{8}\u{8}  ", "plain", "  \u{1b}[31m  red  "] {
        let once = sanitize_log_line(line);
        assert_eq!(sanitize_log_line(&once), once);
    }
}
