//! The execution engine's decisions: which shell runs a command, and what
//! the outcome of a run is. Spawning and waiting are the caller's.

use vstd::prelude::*;
use vstd::string::*;
use crate::error::{AppError, io_error_message};
use crate::model::{ExecutionResult, ExecutionResultView};
use crate::templates::Platform;
use crate::text::{trim, trimmed};

verus! {

/// The program that interprets a command, and the flag after which it takes
/// one command as a single argument.
#[derive(Debug, Clone, Copy)]
pub struct Shell {
    pub program: &'static str,
    pub flag: &'static str,
}

/// The host shell: the command interpreter on Windows, a POSIX shell
/// elsewhere. The command goes to it as it is, in one argument.
pub fn shell(platform: Platform) -> (r: Shell)
    ensures
        platform == Platform::Windows ==> r.program@ == "cmd"@ && r.flag@ == "/C"@,
        platform != Platform::Windows ==> r.program@ == "sh"@ && r.flag@ == "-c"@,
{
    match platform {
        Platform::Windows => Shell { program: "cmd", flag: "/C" },
        _ => Shell { program: "sh", flag: "-c" },
    }
}

/// What a process left behind when it ended: whether its exit status says
/// success, and the bytes of its two output streams.
#[derive(Debug)]
pub struct ProcessOutput {
    pub success: bool,
    pub stdout: Vec<u8>,
    pub stderr: Vec<u8>,
}

/// The text that bytes decode to as UTF-8, with the replacement character in
/// the place of each malformed sequence.
pub uninterp spec fn lossy_text(bytes: Seq<u8>) -> Seq<char>;

/// `String::from_utf8_lossy`: decodes bytes as UTF-8 and puts U+FFFD where
/// they are malformed. The result depends on the bytes alone.
#[verifier::external_body]
fn decode_lossy(bytes: &Vec<u8>) -> (r: String)
    ensures
        r@ == lossy_text(bytes@),
{
    String::from_utf8_lossy(bytes).into_owned()
}

/// Whole milliseconds as they are recorded: the low 64 bits.
pub open spec fn recorded_millis(elapsed_ms: u128) -> u64 {
    (elapsed_ms % 0x1_0000_0000_0000_0000) as u64
}

/// The outcome of a run whose captured stream reads `text`: the text without
/// the white space around it, and the time that the run took.
pub fn execution_result(success: bool, text: &str, elapsed_ms: u128) -> (r: ExecutionResult)
    ensures
        r@ == (ExecutionResultView {
            success,
            output: trimmed(text@),
            duration_ms: recorded_millis(elapsed_ms),
        }),
{
    ExecutionResult {
        success,
        output: trim(text),
        duration_ms: (elapsed_ms % 0x1_0000_0000_0000_0000u128) as u64,
    }
}

/// The stream that tells of the run: standard output if the command
/// succeeded, standard error if it failed.
pub open spec fn telling_stream(output: ProcessOutput) -> Seq<u8> {
    if output.success {
        output.stdout@
    } else {
        output.stderr@
    }
}

/// The outcome of a run that took `elapsed_ms`. A command that ran and
/// failed is an outcome, not an error; a process that could not be started
/// is an execution error.
pub fn execution_outcome(spawned: Result<ProcessOutput, std::io::Error>, elapsed_ms: u128) -> (r:
    Result<ExecutionResult, AppError>)
    ensures
        spawned matches Ok(output) ==> (r matches Ok(result) && result@ == (ExecutionResultView {
            success: output.success,
            output: trimmed(lossy_text(telling_stream(output))),
            duration_ms: recorded_millis(elapsed_ms),
        })),
        spawned is Err ==> r matches Err(AppError::Execution(_)),
{
    match spawned {
        Ok(output) => {
            let text = if output.success {
                decode_lossy(&output.stdout)
            } else {
                decode_lossy(&output.stderr)
            };
            Ok(execution_result(output.success, text.as_str(), elapsed_ms))
        },
        Err(e) => Err(AppError::Execution(io_error_message(&e))),
    }
}

} // verus!
