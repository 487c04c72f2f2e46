//! Compilers, the artifacts they produce, captured and expected outputs,
//! and the terminal outcomes of a run.
use vstd::prelude::*;

use crate::cpp_lang::CppCompiler;
use crate::lang::{compile_job_of, CompileJob};
use crate::language::Language;
use crate::process::{run_result, run_test, CommandLine, CommandView, ProcessOutcome};
use crate::rust_lang::RustCompiler;

verus! {

/// A compiled, directly runnable artifact. Only a successful compile makes
/// one; it is known by its path alone.
pub struct Executable(String);

impl View for Executable {
    type V = Seq<char>;

    closed spec fn view(&self) -> Seq<char> {
        self.0@
    }
}

/// The standard output captured from one execution.
#[derive(Debug, PartialEq, Eq)]
pub struct ActualOutput(String);

impl View for ActualOutput {
    type V = Seq<char>;

    closed spec fn view(&self) -> Seq<char> {
        self.0@
    }
}

/// The expected output, loaded verbatim from a fixture.
#[derive(Debug, PartialEq, Eq)]
pub struct ExpectedOutput(String);

impl View for ExpectedOutput {
    type V = Seq<char>;

    closed spec fn view(&self) -> Seq<char> {
        self.0@
    }
}

/// Every terminal outcome of a run but success, each with its diagnostic.
#[derive(Debug, PartialEq, Eq)]
pub enum TestError {
    InvalidLanguage,
    MissingInput,
    CompilerError(String),
    RuntimeError(String),
    OutputMismatch(ExpectedOutput, ActualOutput),
    ManualCheck(ActualOutput),
}

/// The terminal outcome of a run, as values.
pub enum Verdict {
    Passed,
    InvalidLanguage,
    MissingInput,
    CompilerError(Seq<char>),
    RuntimeError(Seq<char>),
    OutputMismatch(Seq<char>, Seq<char>),
    ManualCheck(Seq<char>),
}

impl View for TestError {
    type V = Verdict;

    open spec fn view(&self) -> Verdict {
        match self {
            TestError::InvalidLanguage => Verdict::InvalidLanguage,
            TestError::MissingInput => Verdict::MissingInput,
            TestError::CompilerError(d) => Verdict::CompilerError(d@),
            TestError::RuntimeError(d) => Verdict::RuntimeError(d@),
            TestError::OutputMismatch(e, a) => Verdict::OutputMismatch(e@, a@),
            TestError::ManualCheck(a) => Verdict::ManualCheck(a@),
        }
    }
}

/// The verdict of a run's result.
pub open spec fn verdict_of(r: Result<(), TestError>) -> Verdict {
    match r {
        Ok(_) => Verdict::Passed,
        Err(e) => e@,
    }
}

/// The text that reports a failed outcome to the operator.
pub open spec fn message_of(v: Verdict) -> Seq<char> {
    match v {
        Verdict::Passed => "Test Passed"@,
        Verdict::InvalidLanguage => "Invalid language"@,
        Verdict::MissingInput => "Missing input"@,
        Verdict::CompilerError(d) => "Compiler error:\n"@ + d,
        Verdict::RuntimeError(d) => "Runtime error:\n"@ + d,
        Verdict::OutputMismatch(e, a) => "Expected:\n"@ + e + "\nActual:\n"@ + a,
        Verdict::ManualCheck(a) => "Actual:\n"@ + a,
    }
}

impl TestError {
    /// The report of this outcome: its kind, then what it carries.
    pub fn message(&self) -> (r: String)
        ensures
            r@ == message_of(self@),
    {
        match self {
            TestError::InvalidLanguage => "Invalid language".to_owned(),
            TestError::MissingInput => "Missing input".to_owned(),
            TestError::CompilerError(d) => {
                let mut text = "Compiler error:\n".to_owned();
                text.append(d.as_str());
                text
            },
            TestError::RuntimeError(d) => {
                let mut text = "Runtime error:\n".to_owned();
                text.append(d.as_str());
                text
            },
            TestError::OutputMismatch(e, a) => {
                let mut text = "Expected:\n".to_owned();
                text.append(e.0.as_str());
                text.append("\nActual:\n");
                text.append(a.0.as_str());
                text
            },
            TestError::ManualCheck(a) => {
                let mut text = "Actual:\n".to_owned();
                text.append(a.0.as_str());
                text
            },
        }
    }
}

impl ActualOutput {
    /// The captured text.
    pub fn as_str(&self) -> (r: &str)
        ensures
            r@ == self@,
    {
        self.0.as_str()
    }
}

impl ExpectedOutput {
    /// Exact comparison over the full text, whitespace and trailing
    /// newlines included.
    pub fn check(&self, test_output: &ActualOutput) -> (r: bool)
        ensures
            r == (self@ == test_output@),
    {
        self.0 == test_output.0
    }

    pub fn new(s: String) -> (r: ExpectedOutput)
        ensures
            r@ == s@,
    {
        ExpectedOutput(s)
    }

    /// The expected text.
    pub fn as_str(&self) -> (r: &str)
        ensures
            r@ == self@,
    {
        self.0.as_str()
    }
}

/// The command line that runs an artifact: no arguments, the input fixture
/// streamed to its standard input.
pub open spec fn run_command_of(exe: Seq<char>, input: Seq<char>) -> CommandView {
    CommandView { program: exe, args: Seq::empty(), stdin: Some(input) }
}

impl Executable {
    pub fn new(path: String) -> (r: Executable)
        ensures
            r@ == path@,
    {
        Executable(path)
    }

    /// The artifact's path.
    pub fn path(&self) -> (r: &str)
        ensures
            r@ == self@,
    {
        self.0.as_str()
    }

    /// The process that runs this artifact on the input fixture `input_file`.
    pub fn command(&self, input_file: &str) -> (r: CommandLine)
        ensures
            r@ == run_command_of(self@, input_file@),
    {
        let r = CommandLine {
            program: self.0.clone(),
            args: Vec::new(),
            stdin: Some(input_file.to_owned()),
        };
        assert(r@.args =~= Seq::<Seq<char>>::empty());
        r
    }

    /// The outcome of running this artifact, from what the runner observed
    /// of the process: the captured output, or a runtime error with its
    /// diagnostic.
    pub fn execute(&self, outcome: &ProcessOutcome) -> (r: Result<ActualOutput, TestError>)
        ensures
            match run_result(*outcome) {
                Ok(out) => r matches Ok(a) && a@ == out,
                Err(d) => r matches Err(e) && e@ == Verdict::RuntimeError(d),
            },
    {
        match run_test(outcome) {
            Ok(out) => Ok(ActualOutput(out)),
            Err(d) => Err(TestError::RuntimeError(d)),
        }
    }
}

/// A toolchain that turns a source file into an artifact.
pub trait Compiler {
    /// The toolchain binary it invokes.
    spec fn toolchain(&self) -> Seq<char>;

    /// The toolchain run that compiles `source`, and the artifact it yields.
    fn compile(&self, source: &str) -> (job: CompileJob)
        ensures
            job@ == compile_job_of(self.toolchain(), source@),
    ;
}

/// The toolchain binary of a language.
pub open spec fn toolchain_of(lang: Language) -> Seq<char> {
    match lang {
        Language::Rust => "rustc"@,
        Language::CPlusPlus => "g++"@,
    }
}

/// The compiler of one of the supported languages.
pub enum AnyCompiler {
    Rust(RustCompiler),
    CPlusPlus(CppCompiler),
}

impl Compiler for AnyCompiler {
    open spec fn toolchain(&self) -> Seq<char> {
        match self {
            AnyCompiler::Rust(c) => c.toolchain(),
            AnyCompiler::CPlusPlus(c) => c.toolchain(),
        }
    }

    fn compile(&self, source: &str) -> (job: CompileJob) {
        match self {
            AnyCompiler::Rust(c) => c.compile(source),
            AnyCompiler::CPlusPlus(c) => c.compile(source),
        }
    }
}

/// The compiler of the resolved language; `None` when none was resolved.
pub fn make_compiler(lang: Option<Language>) -> (r: Option<AnyCompiler>)
    ensures
        match lang {
            Some(l) => r matches Some(c) && c.toolchain() == toolchain_of(l),
            None => r is None,
        },
{
    match lang {
        Some(Language::Rust) => Some(AnyCompiler::Rust(RustCompiler::new())),
        Some(Language::CPlusPlus) => Some(AnyCompiler::CPlusPlus(CppCompiler::default())),
        None => None,
    }
}

} // verus!
