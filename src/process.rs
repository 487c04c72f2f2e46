//! The one shape shared by the toolchain and the program under test: a
//! process described by its command line and its standard input, and what
//! became of it once it was spawned and waited for.
use vstd::prelude::*;

verus! {

/// A process to spawn: a program, its arguments, and where its standard
/// input comes from (`None`: nothing; `Some(path)`: that file, streamed).
/// Standard output and standard error are captured in full.
pub struct CommandLine {
    pub program: String,
    pub args: Vec<String>,
    pub stdin: Option<String>,
}

/// A command line as values.
pub struct CommandView {
    pub program: Seq<char>,
    pub args: Seq<Seq<char>>,
    pub stdin: Option<Seq<char>>,
}

/// The text of an optional string.
pub open spec fn opt_text(o: Option<String>) -> Option<Seq<char>> {
    match o {
        Some(s) => Some(s@),
        None => None,
    }
}

/// The text of an optional string, empty when there is none.
pub open spec fn text_or_empty(o: Option<String>) -> Seq<char> {
    match o {
        Some(s) => s@,
        None => Seq::empty(),
    }
}

impl View for CommandLine {
    type V = CommandView;

    open spec fn view(&self) -> CommandView {
        CommandView {
            program: self.program@,
            args: self.args@.map_values(|a: String| a@),
            stdin: opt_text(self.stdin),
        }
    }
}

/// What the process runner observed of one spawned process.
pub enum ProcessOutcome {
    /// The process could not be spawned, or could not be waited for; the
    /// text says why.
    Failed(String),
    /// The process ran to its end. `success` tells whether it exited with a
    /// success status; an output is `None` when it is not valid UTF-8.
    Exited { success: bool, stdout: Option<String>, stderr: Option<String> },
}

/// The diagnostic for a process that could not be run.
pub open spec fn spawn_failure_text(reason: Seq<char>) -> Seq<char> {
    "Cannot spawn process: "@ + reason
}

/// Whether a toolchain run succeeded, and if not, its diagnostic: what it
/// wrote on standard error, then what it wrote on standard output.
pub open spec fn command_result(o: ProcessOutcome) -> Result<(), Seq<char>> {
    match o {
        ProcessOutcome::Failed(reason) => Err(spawn_failure_text(reason@)),
        ProcessOutcome::Exited { success, stdout, stderr } => {
            if success {
                Ok(())
            } else {
                Err("Error executing command \n"@ + text_or_empty(stderr) + "\n"@
                    + text_or_empty(stdout))
            }
        },
    }
}

/// What one run of a program under test produced: its standard output as
/// it was captured, or the diagnostic of why there is none. Standard error
/// is informational; it decides nothing unless the program failed.
pub open spec fn run_result(o: ProcessOutcome) -> Result<Seq<char>, Seq<char>> {
    match o {
        ProcessOutcome::Failed(reason) => Err(spawn_failure_text(reason@)),
        ProcessOutcome::Exited { success, stdout, stderr } => {
            if !success {
                Err("Program terminated abnormally:\n"@ + text_or_empty(stderr))
            } else {
                match stdout {
                    Some(out) => Ok(out@),
                    None => Err("Output is not valid UTF-8"@),
                }
            }
        },
    }
}

/// The text of `o`, or the empty string.
fn str_or_empty(o: &Option<String>) -> (r: &str)
    ensures
        r@ == text_or_empty(*o),
{
    match o {
        Some(s) => s.as_str(),
        None => {
            proof {
                reveal_strlit("");
            }
            ""
        },
    }
}

fn spawn_failure(reason: &String) -> (r: String)
    ensures
        r@ == spawn_failure_text(reason@),
{
    let mut text = "Cannot spawn process: ".to_owned();
    text.append(reason.as_str());
    text
}

/// Judges a toolchain run: `Ok` exactly when it exited with success,
/// otherwise the best diagnostic there is.
pub fn execute_command(outcome: &ProcessOutcome) -> (r: Result<(), String>)
    ensures
        match r {
            Ok(_) => command_result(*outcome) == Ok::<(), Seq<char>>(()),
            Err(e) => command_result(*outcome) == Err::<(), Seq<char>>(e@),
        },
{
    match outcome {
        ProcessOutcome::Failed(reason) => Err(spawn_failure(reason)),
        ProcessOutcome::Exited { success, stdout, stderr } => {
            if *success {
                Ok(())
            } else {
                let mut text = "Error executing command \n".to_owned();
                text.append(str_or_empty(stderr));
                text.append("\n");
                text.append(str_or_empty(stdout));
                Err(text)
            }
        },
    }
}

/// Judges one run of a program under test: its captured standard output,
/// unmodified, or the diagnostic of why there is none.
pub fn run_test(outcome: &ProcessOutcome) -> (r: Result<String, String>)
    ensures
        match r {
            Ok(out) => run_result(*outcome) == Ok::<Seq<char>, Seq<char>>(out@),
            Err(e) => run_result(*outcome) == Err::<Seq<char>, Seq<char>>(e@),
        },
{
    match outcome {
        ProcessOutcome::Failed(reason) => Err(spawn_failure(reason)),
        ProcessOutcome::Exited { success, stdout, stderr } => {
            if !*success {
                let mut text = "Program terminated abnormally:\n".to_owned();
                text.append(str_or_empty(stderr));
                Err(text)
            } else {
                match stdout {
                    Some(out) => Ok(out.clone()),
                    None => Err("Output is not valid UTF-8".to_owned()),
                }
            }
        },
    }
}

} // verus!
