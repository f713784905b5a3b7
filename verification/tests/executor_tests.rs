use lumos_gateway::executor::{
    build_compile_failure_response, build_exec_response, finish_command, parse_language,
    plan_command, plan_execution, step_succeeded, ExecPlan, Language,
};
use lumos_gateway::proc::ProcessOutcome;

#[test]
fn language_identifiers_resolve() {
    assert_eq!(parse_language("python"), Some(Language::Python));
    assert_eq!(parse_language("ruby"), Some(Language::Ruby));
    assert_eq!(parse_language("php"), Some(Language::Php));
    assert_eq!(parse_language("node"), Some(Language::Node));
    assert_eq!(parse_language("javascript"), Some(Language::Node));
    assert_eq!(parse_language("rust"), Some(Language::Rust));
    assert_eq!(parse_language("go"), Some(Language::Go));
    assert_eq!(parse_language("bash"), Some(Language::Shell));
    assert_eq!(parse_language("sh"), Some(Language::Shell));
    assert_eq!(parse_language("cobol"), None);
    assert_eq!(parse_language("Python"), None);
    assert_eq!(parse_language(""), None);
}

#[test]
fn python_plan_passes_the_source_inline() {
    match plan_execution("python", "print(1)", "rid").expect("a plan") {
        ExecPlan::Direct { run } => {
            assert_eq!(run.program, "python3");
            assert_eq!(run.args, vec!["-c".to_string(), "print(1)".to_string()]);
        },
        _ => panic!("expected a direct plan"),
    }
}

#[test]
fn shell_plan_uses_sh() {
    match plan_execution("bash", "echo hi", "rid").expect("a plan") {
        ExecPlan::Direct { run } => {
            assert_eq!(run.program, "sh");
            assert_eq!(run.args, vec!["-c".to_string(), "echo hi".to_string()]);
        },
        _ => panic!("expected a direct plan"),
    }
}

#[test]
fn unsupported_language_is_refused_without_a_plan() {
    let resp = plan_execution("cobol", "anything", "rid").unwrap_err();
    assert!(!resp.success);
    assert!(resp.exit_code.is_none());
    assert!(resp.output.is_none());
    assert!(resp.stdout.is_none());
    assert!(resp.stderr.is_none());
    assert_eq!(resp.error.as_deref(), Some("Unsupported language: cobol"));
}

#[test]
fn rust_plan_stages_compiles_and_runs_under_its_own_paths() {
    match plan_execution("rust", "fn main() {}", "r1").expect("a plan") {
        ExecPlan::CompileThenRun { stage, compile, run } => {
            assert_eq!(stage.path, "/tmp/temp_rust_code_r1.rs");
            assert_eq!(stage.contents, "fn main() {}");
            assert_eq!(compile.program, "rustc");
            assert_eq!(
                compile.args,
                vec![
                    "/tmp/temp_rust_code_r1.rs".to_string(),
                    "-o".to_string(),
                    "/tmp/temp_rust_binary_r1".to_string()
                ]
            );
            assert_eq!(run.program, "/tmp/temp_rust_binary_r1");
            assert!(run.args.is_empty());
        },
        _ => panic!("expected a compile-then-run plan"),
    }
}

#[test]
fn go_plan_stages_and_runs_under_its_own_path() {
    match plan_execution("go", "package main", "g7").expect("a plan") {
        ExecPlan::Staged { stage, run } => {
            assert_eq!(stage.path, "/tmp/temp_go_code_g7.go");
            assert_eq!(stage.contents, "package main");
            assert_eq!(run.program, "go");
            assert_eq!(run.args, vec!["run".to_string(), "/tmp/temp_go_code_g7.go".to_string()]);
        },
        _ => panic!("expected a staged plan"),
    }
}

#[test]
fn distinct_requests_use_distinct_staging_paths() {
    let p1 = match plan_execution("rust", "x", "req-a").expect("a plan") {
        ExecPlan::CompileThenRun { stage, .. } => stage.path,
        _ => panic!("expected a compile-then-run plan"),
    };
    let p2 = match plan_execution("rust", "x", "req-b").expect("a plan") {
        ExecPlan::CompileThenRun { stage, .. } => stage.path,
        _ => panic!("expected a compile-then-run plan"),
    };
    assert_ne!(p1, p2);
}

#[test]
fn successful_run_is_normalized_with_trimmed_output() {
    let outcome = ProcessOutcome::Completed {
        success: true,
        exit_code: Some(0),
        stdout: b"hello\n".to_vec(),
        stderr: Vec::new(),
    };
    let r = build_exec_response(&outcome);
    assert!(r.success);
    assert_eq!(r.stdout.as_deref(), Some("hello\n"));
    assert_eq!(r.stderr.as_deref(), Some(""));
    assert_eq!(r.output.as_deref(), Some("hello"));
    assert_eq!(r.exit_code, Some(0));
    assert!(r.error.is_none());
}

#[test]
fn failed_run_keeps_its_stderr_for_diagnosis() {
    let outcome = ProcessOutcome::Completed {
        success: false,
        exit_code: Some(1),
        stdout: Vec::new(),
        stderr: b"boom\n".to_vec(),
    };
    let r = build_exec_response(&outcome);
    assert!(!r.success);
    assert_eq!(r.stderr.as_deref(), Some("boom\n"));
    assert_eq!(r.output.as_deref(), Some("boom"));
    assert_eq!(r.exit_code, Some(1));
    assert_eq!(r.error.as_deref(), Some("Execution failed"));
}

#[test]
fn spawn_failure_carries_no_exit_code() {
    let outcome =
        ProcessOutcome::SpawnFailed { message: "No such file or directory".to_string() };
    let r = build_exec_response(&outcome);
    assert!(!r.success);
    assert!(r.exit_code.is_none());
    assert!(r.stdout.is_none());
    assert!(r.stderr.is_none());
    assert_eq!(r.error.as_deref(), Some("Execution error: No such file or directory"));
}

#[test]
fn timed_out_run_is_reported_as_such() {
    let r = build_exec_response(&ProcessOutcome::TimedOut);
    assert!(!r.success);
    assert!(r.exit_code.is_none());
    assert_eq!(r.error.as_deref(), Some("Execution timed out"));
}

#[test]
fn whitespace_only_output_trims_to_empty() {
    let outcome = ProcessOutcome::Completed {
        success: true,
        exit_code: Some(0),
        stdout: b"  \n\t".to_vec(),
        stderr: b" \r\n".to_vec(),
    };
    let r = build_exec_response(&outcome);
    assert_eq!(r.output.as_deref(), Some(""));
}

#[test]
fn compile_step_outcomes_are_classified() {
    let ok = ProcessOutcome::Completed {
        success: true,
        exit_code: Some(0),
        stdout: Vec::new(),
        stderr: Vec::new(),
    };
    assert!(step_succeeded(&ok));
    let failed = ProcessOutcome::Completed {
        success: false,
        exit_code: Some(1),
        stdout: Vec::new(),
        stderr: b"expected `;`".to_vec(),
    };
    assert!(!step_succeeded(&failed));
    assert!(!step_succeeded(&ProcessOutcome::TimedOut));
}

#[test]
fn failed_compile_is_reported_distinctly() {
    let failed = ProcessOutcome::Completed {
        success: false,
        exit_code: Some(1),
        stdout: Vec::new(),
        stderr: b"expected `;`\n".to_vec(),
    };
    let r = build_compile_failure_response(&failed);
    assert!(!r.success);
    assert_eq!(r.error.as_deref(), Some("Compilation failed"));
    assert_eq!(r.stderr.as_deref(), Some("expected `;`\n"));
    assert_eq!(r.exit_code, Some(1));
    let spawn = ProcessOutcome::SpawnFailed { message: "rustc not found".to_string() };
    let r2 = build_compile_failure_response(&spawn);
    assert_eq!(r2.error.as_deref(), Some("Compilation error: rustc not found"));
    assert!(r2.exit_code.is_none());
}

#[test]
fn command_plans_follow_the_os_type() {
    let inv = plan_command("ls -l", None).expect("a plan");
    assert_eq!(inv.program, "sh");
    assert_eq!(inv.args, vec!["-c".to_string(), "ls -l".to_string()]);
    let inv2 = plan_command("dir", Some("windows")).expect("a plan");
    assert_eq!(inv2.program, "cmd");
    assert_eq!(inv2.args, vec!["/C".to_string(), "dir".to_string()]);
    let inv3 = plan_command("Get-Date", Some("powershell")).expect("a plan");
    assert_eq!(inv3.program, "powershell");
    assert_eq!(inv3.args, vec!["-Command".to_string(), "Get-Date".to_string()]);
    let inv4 = plan_command("ls", Some("macos")).expect("a plan");
    assert_eq!(inv4.program, "sh");
}

#[test]
fn unknown_os_type_is_refused() {
    let e = plan_command("ls", Some("templeos")).unwrap_err();
    assert_eq!(e, "Unsupported OS type");
}

#[test]
fn command_outcome_reports_exit_code_with_sentinel() {
    let done = ProcessOutcome::Completed {
        success: false,
        exit_code: Some(2),
        stdout: b"a\n".to_vec(),
        stderr: Vec::new(),
    };
    let r = finish_command(&done);
    assert!(r.success);
    assert_eq!(r.output.as_deref(), Some("a"));
    assert_eq!(r.exit_code, Some(2));
    assert!(r.error.is_none());
    let signalled = ProcessOutcome::Completed {
        success: false,
        exit_code: None,
        stdout: Vec::new(),
        stderr: Vec::new(),
    };
    assert_eq!(finish_command(&signalled).exit_code, Some(-1));
    let spawn = ProcessOutcome::SpawnFailed { message: "denied".to_string() };
    let r2 = finish_command(&spawn);
    assert!(!r2.success);
    assert_eq!(r2.error.as_deref(), Some("Command execution failed: denied"));
}
