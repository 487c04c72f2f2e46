//! One pipeline run as a state machine: resolve, compile, execute, compare.
//! The machine decides; its driver performs each action it asks for (spawn
//! a process, read the expected-output fixture) and hands back what came of
//! it, until the machine reports the terminal outcome.
use vstd::prelude::*;

use crate::lang::{cc_command_of, compile_job_of, executable_path_of, execute_compiler};
use crate::language::Language;
use crate::process::{command_result, opt_text, run_result, CommandLine, CommandView, ProcessOutcome};
use crate::runner::{
    make_compiler, run_command_of, toolchain_of, verdict_of, ActualOutput, Compiler, Executable,
    ExpectedOutput, TestError, Verdict,
};

verus! {

/// Where a run stands.
pub enum Stage {
    /// The toolchain is running; it is to leave the artifact at this path.
    Compiling(String),
    /// The artifact is running on the input fixture.
    Executing(Executable),
    /// The expected-output fixture is being read, to judge this output.
    Comparing(ActualOutput),
    /// The outcome was reported.
    Finished,
}

/// A stage as values.
pub enum StageView {
    Compiling(Seq<char>),
    Executing(Seq<char>),
    Comparing(Seq<char>),
    Finished,
}

/// The state of one run: its stage, and the fixtures it was given (paths of
/// files that exist; `None` where none was supplied).
pub struct Launch {
    stage: Stage,
    test_input: Option<String>,
    test_output: Option<String>,
}

/// A run's state as values.
pub struct LaunchView {
    pub stage: StageView,
    pub input: Option<Seq<char>>,
    pub expected: Option<Seq<char>>,
}

impl View for Launch {
    type V = LaunchView;

    closed spec fn view(&self) -> LaunchView {
        LaunchView {
            stage: match self.stage {
                Stage::Compiling(artifact) => StageView::Compiling(artifact@),
                Stage::Executing(exe) => StageView::Executing(exe@),
                Stage::Comparing(actual) => StageView::Comparing(actual@),
                Stage::Finished => StageView::Finished,
            },
            input: opt_text(self.test_input),
            expected: opt_text(self.test_output),
        }
    }
}

/// What the driver is to do next.
pub enum Action {
    /// Spawn this process, wait for it, and hand back what became of it.
    Run(CommandLine),
    /// Read the expected-output fixture at this path and hand back its text.
    ReadExpected(String),
    /// The run is over, with this outcome.
    Report(Result<(), TestError>),
}

/// An action as values.
pub enum ActionView {
    Run(CommandView),
    ReadExpected(Seq<char>),
    Report(Verdict),
}

impl View for Action {
    type V = ActionView;

    open spec fn view(&self) -> ActionView {
        match self {
            Action::Run(c) => ActionView::Run(c@),
            Action::ReadExpected(p) => ActionView::ReadExpected(p@),
            Action::Report(r) => ActionView::Report(verdict_of(*r)),
        }
    }
}

/// The state `s` in stage `stage`.
pub open spec fn at_stage(s: LaunchView, stage: StageView) -> LaunchView {
    LaunchView { stage, ..s }
}

/// How a run starts: with no language it ends at once; otherwise the
/// language's toolchain compiles the source, whatever the fixtures.
pub open spec fn start_of(
    lang: Option<Language>,
    source: Seq<char>,
    input: Option<Seq<char>>,
    expected: Option<Seq<char>>,
) -> (LaunchView, ActionView) {
    let s = LaunchView { stage: StageView::Finished, input, expected };
    match lang {
        None => (s, ActionView::Report(Verdict::InvalidLanguage)),
        Some(l) => {
            let job = compile_job_of(toolchain_of(l), source);
            (at_stage(s, StageView::Compiling(job.artifact)), ActionView::Run(job.command))
        },
    }
}

/// Whether a run waits for a process to end.
pub open spec fn awaits_process(s: LaunchView) -> bool {
    s.stage is Compiling || s.stage is Executing
}

/// How a run goes on once its process ended with `o`.
pub open spec fn after_process(s: LaunchView, o: ProcessOutcome) -> (LaunchView, ActionView) {
    let done = at_stage(s, StageView::Finished);
    match s.stage {
        StageView::Compiling(artifact) => match command_result(o) {
            Err(d) => (done, ActionView::Report(Verdict::CompilerError(d))),
            Ok(_) => match s.input {
                None => (done, ActionView::Report(Verdict::MissingInput)),
                Some(input) => (
                    at_stage(s, StageView::Executing(artifact)),
                    ActionView::Run(run_command_of(artifact, input)),
                ),
            },
        },
        StageView::Executing(_) => match run_result(o) {
            Err(d) => (done, ActionView::Report(Verdict::RuntimeError(d))),
            Ok(out) => match s.expected {
                None => (done, ActionView::Report(Verdict::ManualCheck(out))),
                Some(path) => (
                    at_stage(s, StageView::Comparing(out)),
                    ActionView::ReadExpected(path),
                ),
            },
        },
        // Not reached: a run waits for a process only while compiling or executing.
        _ => (s, ActionView::Report(Verdict::Passed)),
    }
}

/// How a run ends once the expected output `text` was read: it passes
/// exactly when the captured output is the same text.
pub open spec fn after_expected(s: LaunchView, text: Seq<char>) -> (LaunchView, ActionView) {
    let done = at_stage(s, StageView::Finished);
    match s.stage {
        StageView::Comparing(out) => (
            done,
            ActionView::Report(
                if text == out {
                    Verdict::Passed
                } else {
                    Verdict::OutputMismatch(text, out)
                },
            ),
        ),
        // Not reached: a run waits for the fixture only while comparing.
        _ => (s, ActionView::Report(Verdict::Passed)),
    }
}

impl Launch {
    /// Starts a run of `source`, in the resolved language `lang`, with the
    /// fixtures that were supplied.
    pub fn start(
        lang: Option<Language>,
        source: &str,
        test_input: Option<String>,
        test_output: Option<String>,
    ) -> (r: (Launch, Action))
        ensures
            (r.0@, r.1@) == start_of(lang, source@, opt_text(test_input), opt_text(test_output)),
    {
        match make_compiler(lang) {
            None => (
                Launch { stage: Stage::Finished, test_input, test_output },
                Action::Report(Err(TestError::InvalidLanguage)),
            ),
            Some(compiler) => {
                let job = compiler.compile(source);
                (
                    Launch { stage: Stage::Compiling(job.artifact), test_input, test_output },
                    Action::Run(job.command),
                )
            },
        }
    }

    /// Whether the run waits for a process to end.
    pub fn awaits_process(&self) -> (r: bool)
        ensures
            r == awaits_process(self@),
    {
        match self.stage {
            Stage::Compiling(_) | Stage::Executing(_) => true,
            _ => false,
        }
    }

    /// Whether the run waits for the expected-output fixture.
    pub fn awaits_expected(&self) -> (r: bool)
        ensures
            r == (self@.stage is Comparing),
    {
        match self.stage {
            Stage::Comparing(_) => true,
            _ => false,
        }
    }

    /// Goes on once the process that the run waited for ended with `outcome`.
    pub fn process_finished(&mut self, outcome: &ProcessOutcome) -> (r: Action)
        requires
            awaits_process(old(self)@),
        ensures
            (final(self)@, r@) == after_process(old(self)@, *outcome),
    {
        let mut stage = Stage::Finished;
        std::mem::swap(&mut stage, &mut self.stage);
        match stage {
            Stage::Compiling(artifact) => match execute_compiler(outcome, artifact.as_str()) {
                Err(e) => Action::Report(Err(e)),
                Ok(exe) => match &self.test_input {
                    None => Action::Report(Err(TestError::MissingInput)),
                    Some(input) => {
                        let command = exe.command(input.as_str());
                        self.stage = Stage::Executing(exe);
                        Action::Run(command)
                    },
                },
            },
            Stage::Executing(exe) => match exe.execute(outcome) {
                Err(e) => Action::Report(Err(e)),
                Ok(actual) => match &self.test_output {
                    None => Action::Report(Err(TestError::ManualCheck(actual))),
                    Some(path) => {
                        self.stage = Stage::Comparing(actual);
                        Action::ReadExpected(path.clone())
                    },
                },
            },
            _ => {
                self.stage = stage;
                Action::Report(Ok(()))
            },
        }
    }

    /// Ends the run once the expected-output fixture was read as `text`.
    pub fn expected_loaded(&mut self, text: String) -> (r: Action)
        requires
            old(self)@.stage is Comparing,
        ensures
            (final(self)@, r@) == after_expected(old(self)@, text@),
    {
        let mut stage = Stage::Finished;
        std::mem::swap(&mut stage, &mut self.stage);
        match stage {
            Stage::Comparing(actual) => {
                let expected = ExpectedOutput::new(text);
                if expected.check(&actual) {
                    Action::Report(Ok(()))
                } else {
                    Action::Report(Err(TestError::OutputMismatch(expected, actual)))
                }
            },
            _ => {
                self.stage = stage;
                Action::Report(Ok(()))
            },
        }
    }
}

} // verus!

verus! {

/// A source that the toolchain fails to compile ends its run with a
/// compiler error carrying the toolchain's diagnostic: the compile is the
/// only process the run asks for, and the run then waits for nothing more.
pub proof fn lemma_compile_failure_ends_run(
    l: Language,
    source: Seq<char>,
    input: Option<Seq<char>>,
    expected: Option<Seq<char>>,
    o: ProcessOutcome,
)
    requires
        command_result(o) is Err,
    ensures
        ({
            let (s, first) = start_of(Some(l), source, input, expected);
            let (t, next) = after_process(s, o);
            &&& first == ActionView::Run(compile_job_of(toolchain_of(l), source).command)
            &&& next == ActionView::Report(Verdict::CompilerError(command_result(o)->Err_0))
            &&& t.stage is Finished
            &&& !awaits_process(t)
        }),
{
}

/// A run given no input fixture still compiles the source first; once the
/// compile succeeded it ends with `MissingInput`.
pub proof fn lemma_missing_input_after_compile(
    l: Language,
    source: Seq<char>,
    expected: Option<Seq<char>>,
    o: ProcessOutcome,
)
    requires
        command_result(o) is Ok,
    ensures
        ({
            let (s, first) = start_of(Some(l), source, None, expected);
            let (t, next) = after_process(s, o);
            &&& first == ActionView::Run(compile_job_of(toolchain_of(l), source).command)
            &&& next == ActionView::Report(Verdict::MissingInput)
            &&& t.stage is Finished
        }),
{
}

/// Compiling a source is repeatable: each run of it asks for the same
/// toolchain call, whose output path is derived from the source path alone,
/// and judges the compile by that call's outcome alone; what an earlier
/// compile left at that path plays no part.
pub proof fn lemma_compile_is_repeatable(
    l: Language,
    source: Seq<char>,
    input: Option<Seq<char>>,
    expected: Option<Seq<char>>,
    o: ProcessOutcome,
)
    ensures
        ({
            let (s, first) = start_of(Some(l), source, input, expected);
            let (t, next) = after_process(s, o);
            &&& first == ActionView::Run(
                cc_command_of(toolchain_of(l), source, executable_path_of(source)),
            )
            &&& (next matches ActionView::Report(Verdict::CompilerError(_))) <==> command_result(
                o,
            ) is Err
        }),
{
}

} // verus!
