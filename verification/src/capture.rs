//! The capture run: one execution of the target under the tracer.
//!
//! The target script runs once, under the interpreter of the dependency
//! root, while the tracer logs every file that is opened. This module says
//! how the tracer is invoked and how the run is judged. The caller resolves
//! the paths, starts the tracer and waits for it.

use crate::harvest_set::texts;
use crate::layout::{join, joined};
use vstd::prelude::*;

verus! {

/// The tracer's program name.
pub const TRACER: &'static str = "strace";

/// The file that the tracer writes its log to, in the working directory.
pub const TRACE_LOG: &'static str = "strace.log";

/// The interpreter of a dependency root, relative to that root.
pub const INTERPRETER: &'static str = "bin/python3";

/// Why a capture run came to nothing.
#[derive(Clone, Copy, Debug, PartialEq, Eq, Structural)]
pub enum SpyError {
    /// The script to run does not exist.
    ScriptNotFound,
    /// The sample input does not exist.
    SampleNotFound,
    /// The dependency root does not exist.
    RootNotFound,
    /// The tracer could not be started.
    TracerNotStarted,
    /// The traced script ended with a failure.
    ScriptFailed,
}

/// How the tracer's run ended.
#[derive(Clone, Copy, Debug, PartialEq, Eq, Structural)]
pub enum TracerExit {
    /// The tracer could not be started at all.
    NotStarted,
    /// The traced process ran and ended with success.
    Succeeded,
    /// The traced process ran and ended with a failure.
    Failed,
}

/// An invocation of the tracer.
#[derive(Debug, PartialEq, Eq)]
pub struct TracerCommand {
    pub program: String,
    pub arguments: Vec<String>,
}

/// The arguments that the tracer is started with: follow child processes,
/// trace file opening only, write to the log file; then the command to
/// trace, which is the root's interpreter with the script and the sample.
pub open spec fn tracer_arguments(script: Seq<char>, sample: Seq<char>, root: Seq<char>) -> Seq<
    Seq<char>,
> {
    seq![
        "-f"@,
        "-e"@,
        "trace=open,openat"@,
        "-o"@,
        TRACE_LOG@,
        joined(root, INTERPRETER@),
        script,
        sample,
    ]
}

/// What `prepare` answers to the three resolved paths: the first of script,
/// sample and root that is missing is reported, in this order.
pub open spec fn prepared(
    script: Option<Seq<char>>,
    sample: Option<Seq<char>>,
    root: Option<Seq<char>>,
) -> Result<Seq<Seq<char>>, SpyError> {
    if script is None {
        Err(SpyError::ScriptNotFound)
    } else if sample is None {
        Err(SpyError::SampleNotFound)
    } else if root is None {
        Err(SpyError::RootNotFound)
    } else {
        Ok(tracer_arguments(script.unwrap(), sample.unwrap(), root.unwrap()))
    }
}

/// The text of an optional string.
pub open spec fn text_of(string: Option<String>) -> Option<Seq<char>> {
    match string {
        Some(s) => Some(s@),
        None => None,
    }
}

/// The tracer's invocation for a script, a sample input and a dependency
/// root, each given in its canonical form, or as `None` where it could not
/// be resolved.
pub fn prepare(script: Option<String>, sample: Option<String>, root: Option<String>) -> (plan:
    Result<TracerCommand, SpyError>)
    ensures
        match plan {
            Ok(command) => {
                &&& command.program@ == TRACER@
                &&& prepared(text_of(script), text_of(sample), text_of(root)) == Ok::<
                    Seq<Seq<char>>,
                    SpyError,
                >(texts(command.arguments@))
            },
            Err(error) => prepared(text_of(script), text_of(sample), text_of(root)) == Err::<
                Seq<Seq<char>>,
                SpyError,
            >(error),
        },
{
    let script = match script {
        Some(path) => path,
        None => { return Err(SpyError::ScriptNotFound); },
    };
    let sample = match sample {
        Some(path) => path,
        None => { return Err(SpyError::SampleNotFound); },
    };
    let root = match root {
        Some(path) => path,
        None => { return Err(SpyError::RootNotFound); },
    };
    let interpreter = join(root.as_str(), INTERPRETER);
    let mut arguments: Vec<String> = Vec::new();
    arguments.push("-f".to_owned());
    arguments.push("-e".to_owned());
    arguments.push("trace=open,openat".to_owned());
    arguments.push("-o".to_owned());
    arguments.push(TRACE_LOG.to_owned());
    arguments.push(interpreter);
    arguments.push(script);
    arguments.push(sample);
    assert(texts(arguments@) =~= tracer_arguments(script@, sample@, root@));
    Ok(TracerCommand { program: TRACER.to_owned(), arguments })
}

/// The judgement on a tracer run: the log file's name where the traced
/// script succeeded, and the failure otherwise.
pub open spec fn concluded(exit: TracerExit) -> Result<Seq<char>, SpyError> {
    match exit {
        TracerExit::NotStarted => Err(SpyError::TracerNotStarted),
        TracerExit::Failed => Err(SpyError::ScriptFailed),
        TracerExit::Succeeded => Ok(TRACE_LOG@),
    }
}

/// Judges a tracer run. A trace of a failing script is not to be trusted,
/// so only a successful run yields a log.
pub fn conclude(exit: TracerExit) -> (log: Result<String, SpyError>)
    ensures
        match log {
            Ok(name) => concluded(exit) == Ok::<Seq<char>, SpyError>(name@),
            Err(error) => concluded(exit) == Err::<Seq<char>, SpyError>(error),
        },
{
    match exit {
        TracerExit::NotStarted => Err(SpyError::TracerNotStarted),
        TracerExit::Failed => Err(SpyError::ScriptFailed),
        TracerExit::Succeeded => Ok(TRACE_LOG.to_owned()),
    }
}

impl SpyError {
    /// What the operator is told, in specifications.
    pub open spec fn hint(self) -> Seq<char> {
        match self {
            SpyError::ScriptNotFound => "Python script not found"@,
            SpyError::SampleNotFound => "Test image not found (did you add one to assets/?)"@,
            SpyError::RootNotFound => "Venv not found"@,
            SpyError::TracerNotStarted => "Failed to run strace. Is it installed? (sudo apt install strace)"@,
            SpyError::ScriptFailed => "Spy execution failed! The script crashed during execution. Verify first that the script runs on its own, without strace."@,
        }
    }

    /// What the operator is told: what went wrong and what to do about it.
    pub fn message(&self) -> (text: String)
        ensures
            text@ == self.hint(),
    {
        match self {
            SpyError::ScriptNotFound => "Python script not found".to_owned(),
            SpyError::SampleNotFound => "Test image not found (did you add one to assets/?)".to_owned(),
            SpyError::RootNotFound => "Venv not found".to_owned(),
            SpyError::TracerNotStarted => "Failed to run strace. Is it installed? (sudo apt install strace)".to_owned(),
            SpyError::ScriptFailed => "Spy execution failed! The script crashed during execution. Verify first that the script runs on its own, without strace.".to_owned(),
        }
    }
}

} // verus!
