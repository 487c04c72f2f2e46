use std::path::PathBuf;

use coding_gym_mate::{
    cc_compile_cmd, executable_path, execute_compiler, make_compiler, Compiler, CppCompiler,
    Language, ProcessOutcome, RustCompiler, TestError,
};

#[test]
fn test_exe_path() {
    let exe_path = executable_path(PathBuf::from("/tmp/zzz.cpp").to_str().unwrap());
    assert_eq!(PathBuf::from("/tmp/zzz.cpp.exe"), PathBuf::from(exe_path));
}

#[test]
fn test_cc_compile_command() {
    let src_path = PathBuf::from("/tmp/zzz.cpp");
    let out_path = PathBuf::from("/tmp/zzz.cpp.exe");
    let _cmd = cc_compile_cmd("g++", src_path.to_str().unwrap(), out_path.to_str().unwrap());
}

#[test]
fn cc_command_is_output_flag_artifact_source() {
    let cmd = cc_compile_cmd("g++", "/tmp/zzz.cpp", "/tmp/zzz.cpp.exe");
    assert_eq!(cmd.program, "g++");
    assert_eq!(cmd.args, vec!["-o", "/tmp/zzz.cpp.exe", "/tmp/zzz.cpp"]);
    assert_eq!(cmd.stdin, None);
}

#[test]
fn each_compiler_calls_its_toolchain() {
    let job = RustCompiler::new().compile("/w/main.rs");
    assert_eq!(job.command.program, "rustc");
    assert_eq!(job.command.args, vec!["-o", "/w/main.rs.exe", "/w/main.rs"]);
    assert_eq!(job.artifact, "/w/main.rs.exe");
    let job = CppCompiler::default().compile("/w/main.cpp");
    assert_eq!(job.command.program, "g++");
    assert_eq!(job.command.args, vec!["-o", "/w/main.cpp.exe", "/w/main.cpp"]);
    assert_eq!(job.artifact, "/w/main.cpp.exe");
}

#[test]
fn make_compiler_follows_the_language() {
    assert!(make_compiler(None).is_none());
    let rust = make_compiler(Some(Language::Rust)).unwrap();
    assert_eq!(rust.compile("a.rs").command.program, "rustc");
    let cpp = make_compiler(Some(Language::CPlusPlus)).unwrap();
    assert_eq!(cpp.compile("a.cpp").command.program, "g++");
}

#[test]
fn compiling_twice_asks_for_the_same_call() {
    let first = make_compiler(Some(Language::Rust)).unwrap().compile("/w/a.rs");
    let second = make_compiler(Some(Language::Rust)).unwrap().compile("/w/a.rs");
    assert_eq!(first.command.program, second.command.program);
    assert_eq!(first.command.args, second.command.args);
    assert_eq!(first.artifact, second.artifact);
}

#[test]
fn successful_toolchain_yields_the_artifact() {
    let outcome = ProcessOutcome::Exited {
        success: true,
        stdout: Some(String::new()),
        stderr: Some("warning: unused variable".to_string()),
    };
    let exe = execute_compiler(&outcome, "/w/a.rs.exe").ok().unwrap();
    assert_eq!(exe.path(), "/w/a.rs.exe");
}

#[test]
fn failed_toolchain_yields_its_diagnostic() {
    let outcome = ProcessOutcome::Exited {
        success: false,
        stdout: Some("out".to_string()),
        stderr: Some("error: expected `;`".to_string()),
    };
    let err = execute_compiler(&outcome, "/w/a.rs.exe").err().unwrap();
    assert_eq!(
        err,
        TestError::CompilerError("Error executing command \nerror: expected `;`\nout".to_string())
    );
}

#[test]
fn toolchain_that_cannot_spawn_is_a_compiler_error() {
    let outcome = ProcessOutcome::Failed("No such file or directory".to_string());
    let err = execute_compiler(&outcome, "/w/a.rs.exe").err().unwrap();
    assert_eq!(
        err,
        TestError::CompilerError("Cannot spawn process: No such file or directory".to_string())
    );
}
