//! Compile a single source file with its language's toolchain, run the
//! program on an input fixture and judge its output against an expected one.

pub mod cpp_lang;
pub mod lang;
pub mod launch;
pub mod language;
pub mod process;
pub mod runner;
pub mod rust_lang;

pub use lang::{cc_compile_cmd, executable_path, execute_compiler, CompileJob};
pub use language::Language;
pub use launch::{Action, Launch};
pub use process::{execute_command, run_test, CommandLine, ProcessOutcome};
pub use runner::{
    make_compiler, ActualOutput, AnyCompiler, Compiler, Executable, ExpectedOutput, TestError,
};
pub use cpp_lang::CppCompiler;
pub use rust_lang::RustCompiler;
