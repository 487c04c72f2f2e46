use coding_gym_mate::{
    execute_command, run_test, Executable, ExpectedOutput, ProcessOutcome, TestError,
};

fn exited(success: bool, stdout: Option<&str>, stderr: Option<&str>) -> ProcessOutcome {
    ProcessOutcome::Exited {
        success,
        stdout: stdout.map(|s| s.to_string()),
        stderr: stderr.map(|s| s.to_string()),
    }
}

#[test]
fn execute_command_succeeds_on_success_status() {
    assert_eq!(execute_command(&exited(true, Some("x"), Some("y"))), Ok(()));
}

#[test]
fn execute_command_reports_stderr_then_stdout() {
    assert_eq!(
        execute_command(&exited(false, Some("o"), Some("e"))),
        Err("Error executing command \ne\no".to_string())
    );
    assert_eq!(
        execute_command(&exited(false, None, None)),
        Err("Error executing command \n\n".to_string())
    );
}

#[test]
fn run_test_keeps_stdout_unmodified() {
    assert_eq!(
        run_test(&exited(true, Some("  cba\n\n"), Some(""))),
        Ok("  cba\n\n".to_string())
    );
}

#[test]
fn stderr_alone_does_not_fail_a_run() {
    assert_eq!(
        run_test(&exited(true, Some("abc\n"), Some("debug output"))),
        Ok("abc\n".to_string())
    );
}

#[test]
fn run_test_failures_carry_a_diagnostic() {
    assert_eq!(
        run_test(&exited(false, Some(""), Some("thread 'main' panicked"))),
        Err("Program terminated abnormally:\nthread 'main' panicked".to_string())
    );
    assert_eq!(
        run_test(&exited(true, None, Some(""))),
        Err("Output is not valid UTF-8".to_string())
    );
    assert_eq!(
        run_test(&ProcessOutcome::Failed("Permission denied".to_string())),
        Err("Cannot spawn process: Permission denied".to_string())
    );
}

#[test]
fn executable_runs_with_no_arguments_and_the_fixture_on_stdin() {
    let exe = Executable::new("/w/a.rs.exe".to_string());
    let cmd = exe.command("/w/input.txt");
    assert_eq!(cmd.program, "/w/a.rs.exe");
    assert!(cmd.args.is_empty());
    assert_eq!(cmd.stdin, Some("/w/input.txt".to_string()));
}

#[test]
fn execute_maps_the_run() {
    let exe = Executable::new("/w/a.rs.exe".to_string());
    let out = exe.execute(&exited(true, Some("abc\n"), None)).ok().unwrap();
    assert_eq!(out.as_str(), "abc\n");
    let err = exe.execute(&exited(false, None, Some("boom"))).err().unwrap();
    assert_eq!(
        err,
        TestError::RuntimeError("Program terminated abnormally:\nboom".to_string())
    );
}

#[test]
fn check_is_exact() {
    let exe = Executable::new("/w/a".to_string());
    let actual = exe.execute(&exited(true, Some("abc\n"), None)).ok().unwrap();
    assert!(ExpectedOutput::new("abc\n".to_string()).check(&actual));
    assert!(!ExpectedOutput::new("abc".to_string()).check(&actual));
    assert!(!ExpectedOutput::new("abc\n\n".to_string()).check(&actual));
    assert!(!ExpectedOutput::new("abc \n".to_string()).check(&actual));
    assert_eq!(ExpectedOutput::new("q".to_string()).as_str(), "q");
}

#[test]
fn messages_render_each_outcome() {
    let exe = Executable::new("/w/a".to_string());
    let actual = || exe.execute(&exited(true, Some("abc\n"), None)).ok().unwrap();
    assert_eq!(TestError::InvalidLanguage.message(), "Invalid language");
    assert_eq!(TestError::MissingInput.message(), "Missing input");
    assert_eq!(
        TestError::CompilerError("bad".to_string()).message(),
        "Compiler error:\nbad"
    );
    assert_eq!(
        TestError::RuntimeError("boom".to_string()).message(),
        "Runtime error:\nboom"
    );
    assert_eq!(
        TestError::OutputMismatch(ExpectedOutput::new("xyz\n".to_string()), actual()).message(),
        "Expected:\nxyz\n\nActual:\nabc\n"
    );
    assert_eq!(TestError::ManualCheck(actual()).message(), "Actual:\nabc\n");
}
