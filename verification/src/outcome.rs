//! What running a formatter child process produced: either the process ran to
//! exit (with its exit flag and captured output streams), or an I/O fault
//! stopped one of the steps — spawning the process, writing the code to its
//! standard input, or waiting for it to exit.
//!
//! Captured output bytes are decoded leniently: invalid sequences are
//! substituted, so arbitrary tool output never fails decoding.

use vstd::prelude::*;

verus! {

/// The step of driving the child process at which an I/O fault occurred.
#[derive(Clone, Copy, Debug, PartialEq, Eq, Structural)]
pub enum FaultStage {
    /// The child process could not be spawned at all.
    Spawn,
    /// Writing the code to the child's standard input failed.
    WriteInput,
    /// Waiting for the child's exit (and collecting its output) failed.
    Wait,
}

/// The error categories a dispatch can end in.
#[derive(Clone, Copy, Debug, PartialEq, Eq, Structural)]
pub enum ErrorKind {
    /// The language token is not in the recognized set; no process was run.
    UnsupportedLanguage,
    /// The formatter binary could not be launched.
    ProcessSpawnFailure,
    /// Writing to the child's input or waiting for its exit failed.
    ProcessIOFailure,
    /// The formatter ran but exited with a failure status.
    FormatterRejection,
}

/// Mathematical model of a run outcome: text as character sequences.
#[verifier::ext_equal]
pub enum RunModel {
    Completed { exited_ok: bool, stdout: Seq<char>, stderr: Seq<char> },
    Fault { stage: FaultStage, text: Seq<char> },
}

/// The outcome of one attempt to run a formatter child process.
#[derive(Debug, Clone)]
pub enum RunOutcome {
    /// The process ran to exit. `exited_ok` is its exit status's success
    /// flag; the two streams are its captured output, decoded leniently.
    Completed { exited_ok: bool, stdout_text: String, stderr_text: String },
    /// An I/O fault at `stage`, with the fault's own description.
    Fault { stage: FaultStage, fault_text: String },
}

impl View for RunOutcome {
    type V = RunModel;

    open spec fn view(&self) -> RunModel {
        match self {
            RunOutcome::Completed { exited_ok, stdout_text, stderr_text } => (
            RunModel::Completed {
                exited_ok: *exited_ok,
                stdout: stdout_text@,
                stderr: stderr_text@,
            }),
            RunOutcome::Fault { stage, fault_text } => (RunModel::Fault {
                stage: *stage,
                text: fault_text@,
            }),
        }
    }
}

/// The text that lenient decoding gives to a byte sequence.
pub uninterp spec fn lossy_of(bytes: Seq<u8>) -> Seq<char>;

/// Relies on String::from_utf8_lossy: invalid sequences are replaced with the
/// replacement character, never failing; valid UTF-8 — in particular, pure
/// ASCII — passes through unchanged.
#[verifier::external_body]
fn decode_lossy(bytes: &[u8]) -> (r: String)
    ensures
        r@ == lossy_of(bytes@),
        bytes@.len() == 0 ==> r@.len() == 0,
        (forall|i: int| 0 <= i < bytes@.len() ==> bytes@[i] < 128) ==> r@ == bytes@.map_values(
            |b: u8| b as char,
        ),
{
    String::from_utf8_lossy(bytes).into_owned()
}

impl RunOutcome {
    /// The outcome of a process that ran to exit, from its exit status's
    /// success flag and its captured output bytes, decoded leniently.
    pub fn process_exited(exited_ok: bool, stdout_bytes: &[u8], stderr_bytes: &[u8]) -> (r:
        RunOutcome)
        ensures
            r@ == (RunModel::Completed {
                exited_ok,
                stdout: lossy_of(stdout_bytes@),
                stderr: lossy_of(stderr_bytes@),
            }),
            (forall|i: int| 0 <= i < stdout_bytes@.len() ==> stdout_bytes@[i] < 128) ==> lossy_of(
                stdout_bytes@,
            ) == stdout_bytes@.map_values(|b: u8| b as char),
            (forall|i: int| 0 <= i < stderr_bytes@.len() ==> stderr_bytes@[i] < 128) ==> lossy_of(
                stderr_bytes@,
            ) == stderr_bytes@.map_values(|b: u8| b as char),
    {
        RunOutcome::Completed {
            exited_ok,
            stdout_text: decode_lossy(stdout_bytes),
            stderr_text: decode_lossy(stderr_bytes),
        }
    }

    /// The outcome of an I/O fault at the given step, with the fault's text.
    pub fn process_fault(stage: FaultStage, fault_text: String) -> (r: RunOutcome)
        ensures
            r@ == (RunModel::Fault { stage, text: fault_text@ }),
    {
        RunOutcome::Fault { stage, fault_text }
    }
}

} // verus!
