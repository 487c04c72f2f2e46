//! What the compilers share: where the artifact goes, how a C-like
//! toolchain is called, and how its run is judged.
use vstd::prelude::*;

use crate::process::{command_result, execute_command, CommandLine, CommandView, ProcessOutcome};
use crate::runner::{Executable, TestError, Verdict};

verus! {

/// The artifact's path: the source path with `.exe` appended, so that it is
/// the same on every compile of that source.
pub open spec fn executable_path_of(source: Seq<char>) -> Seq<char> {
    source + ".exe"@
}

pub fn executable_path(source_path: &str) -> (r: String)
    ensures
        r@ == executable_path_of(source_path@),
{
    let mut exe = source_path.to_owned();
    exe.append(".exe");
    exe
}

/// The call of a C-like toolchain: `<program> -o <output> <source>`, with
/// nothing on its standard input.
pub open spec fn cc_command_of(program: Seq<char>, source: Seq<char>, output: Seq<char>) -> CommandView {
    CommandView { program, args: seq!["-o"@, output, source], stdin: None }
}

pub fn cc_compile_cmd(program: &str, source: &str, output: &str) -> (r: CommandLine)
    ensures
        r@ == cc_command_of(program@, source@, output@),
{
    let args: Vec<String> = vec!["-o".to_owned(), output.to_owned(), source.to_owned()];
    let r = CommandLine { program: program.to_owned(), args, stdin: None };
    assert(r@.args =~= seq!["-o"@, output@, source@]);
    r
}

/// A toolchain run to perform, and the artifact it is to leave.
pub struct CompileJob {
    pub command: CommandLine,
    pub artifact: String,
}

/// A compile job as values.
pub struct CompileJobView {
    pub command: CommandView,
    pub artifact: Seq<char>,
}

impl View for CompileJob {
    type V = CompileJobView;

    open spec fn view(&self) -> CompileJobView {
        CompileJobView { command: self.command@, artifact: self.artifact@ }
    }
}

/// How a C-like toolchain `program` compiles `source`: the artifact path is
/// derived from the source path, and the toolchain overwrites it.
pub open spec fn compile_job_of(program: Seq<char>, source: Seq<char>) -> CompileJobView {
    CompileJobView {
        command: cc_command_of(program, source, executable_path_of(source)),
        artifact: executable_path_of(source),
    }
}

/// The compile job of a C-like toolchain.
pub fn cc_compile_job(program: &str, source: &str) -> (r: CompileJob)
    ensures
        r@ == compile_job_of(program@, source@),
{
    let exe = executable_path(source);
    let command = cc_compile_cmd(program, source, exe.as_str());
    CompileJob { command, artifact: exe }
}

/// Judges a toolchain run: the artifact at `exe` when the toolchain
/// succeeded (its existence is not checked here), otherwise a compiler
/// error with the toolchain's diagnostic.
pub fn execute_compiler(outcome: &ProcessOutcome, exe: &str) -> (r: Result<Executable, TestError>)
    ensures
        match command_result(*outcome) {
            Ok(_) => r matches Ok(e) && e@ == exe@,
            Err(d) => r matches Err(e) && e@ == Verdict::CompilerError(d),
        },
{
    match execute_command(outcome) {
        Ok(_) => Ok(Executable::new(exe.to_owned())),
        Err(d) => Err(TestError::CompilerError(d)),
    }
}

} // verus!
