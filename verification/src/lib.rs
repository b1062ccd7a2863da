#![allow(unused_imports)]
use vstd::prelude::*;

pub mod decimal;
pub mod decode;

use crate::decimal::{i32_decimal, int_dec};
use crate::decode::{all_ascii, ascii_text, decode_lossy, lossy_decode};

verus! {

/// Captured output of a finished shell command: the decoded text of its
/// standard output and standard error streams.
#[derive(Debug, Clone, PartialEq, Eq)]
pub struct Output {
    pub stdout: String,
    pub stderr: String,
}

/// How a spawned shell process came to an end.
#[derive(Debug, Clone, Copy, PartialEq, Eq, Structural)]
pub enum ExitOutcome {
    /// The process exited on its own and reported a status code.
    Exited { code: i32 },
    /// The process was terminated by a signal and has no status code.
    Signaled,
}

/// Why running a shell command produced no `Output`.
#[derive(Debug, Clone, PartialEq, Eq)]
pub enum RunError {
    /// The shell exited with a status code other than zero.
    NonZeroExit { code: i32, stderr: String },
    /// The shell was terminated by a signal, so no status code exists.
    SignalTerminated { stderr: String },
    /// The shell process could not be started; the operating system's own
    /// description of the failure is kept verbatim.
    SpawnFailed { message: String },
}

impl RunError {
    /// The human-readable description of this error.
    pub open spec fn message_spec(self) -> Seq<char> {
        match self {
            RunError::NonZeroExit { code, stderr } => "command failed with status code "@ + int_dec(
                code as int,
            ) + ": "@ + stderr@,
            RunError::SignalTerminated { stderr } => "command terminated by signal with no status code: "@
                + stderr@,
            RunError::SpawnFailed { message } => message@,
        }
    }

    /// Renders the error as the text that `message_spec` describes.
    pub fn message(&self) -> (r: String)
        ensures
            r@ == self.message_spec(),
    {
        match self {
            RunError::NonZeroExit { code, stderr } => {
                let mut s = String::from_str("command failed with status code ");
                let digits = i32_decimal(*code);
                s.append(digits.as_str());
                s.append(": ");
                s.append(stderr.as_str());
                proof {
                    assert(s@ =~= self.message_spec());
                }
                s
            },
            RunError::SignalTerminated { stderr } => {
                let mut s = String::from_str("command terminated by signal with no status code: ");
                s.append(stderr.as_str());
                s
            },
            RunError::SpawnFailed { message } => message.clone(),
        }
    }
}

/// Turns the way the shell ended, together with the bytes captured from its
/// two output streams, into the command's result: the decoded streams on a
/// zero exit, and otherwise an error that keeps the decoded standard error
/// text for diagnosis.
pub fn classify(outcome: ExitOutcome, stdout: Vec<u8>, stderr: Vec<u8>) -> (r: Result<
    Output,
    RunError,
>)
    ensures
        r is Ok <==> outcome == (ExitOutcome::Exited { code: 0 }),
        match r {
            Ok(out) => out.stdout@ == lossy_decode(stdout@) && out.stderr@ == lossy_decode(
                stderr@,
            ),
            Err(e) => match e {
                RunError::NonZeroExit { code, stderr: text } => outcome == (ExitOutcome::Exited {
                    code,
                }) && code != 0 && text@ == lossy_decode(stderr@),
                RunError::SignalTerminated { stderr: text } => outcome == ExitOutcome::Signaled
                    && text@ == lossy_decode(stderr@),
                RunError::SpawnFailed { .. } => false,
            },
        },
        all_ascii(stdout@) ==> lossy_decode(stdout@) == ascii_text(stdout@),
        all_ascii(stderr@) ==> lossy_decode(stderr@) == ascii_text(stderr@),
{
    let stdout_text = decode_lossy(&stdout);
    let stderr_text = decode_lossy(&stderr);
    match outcome {
        ExitOutcome::Exited { code } => {
            if code == 0 {
                Ok(Output { stdout: stdout_text, stderr: stderr_text })
            } else {
                Err(RunError::NonZeroExit { code, stderr: stderr_text })
            }
        },
        ExitOutcome::Signaled => Err(RunError::SignalTerminated { stderr: stderr_text }),
    }
}

/// A failing status code is visible in the error's message: right after the
/// fixed prefix stand exactly the code's decimal digits, followed by a colon
/// and the captured standard error text.
pub proof fn lemma_nonzero_exit_message_shows_code(code: i32, stderr: String)
    ensures
        ({
            let msg = (RunError::NonZeroExit { code, stderr }).message_spec();
            let prefix = "command failed with status code "@;
            let digits = int_dec(code as int);
            &&& msg.len() == prefix.len() + digits.len() + ": "@.len() + stderr@.len()
            &&& msg.take(prefix.len() as int) == prefix
            &&& msg.subrange(prefix.len() as int, (prefix.len() + digits.len()) as int) == digits
        }),
{
    let msg = (RunError::NonZeroExit { code, stderr }).message_spec();
    let prefix = "command failed with status code "@;
    let digits = int_dec(code as int);
    assert(msg.take(prefix.len() as int) =~= prefix);
    assert(msg.subrange(prefix.len() as int, (prefix.len() + digits.len()) as int) =~= digits);
}

/// Termination by a signal is reported in words of its own: the message
/// starts with a fixed phrase that names the missing status code, and that
/// phrase differs from the one used for a non-zero exit.
pub proof fn lemma_signal_message_names_signal(stderr: String)
    ensures
        ({
            let msg = (RunError::SignalTerminated { stderr }).message_spec();
            let phrase = "command terminated by signal with no status code: "@;
            &&& msg == phrase + stderr@
            &&& msg.take(phrase.len() as int) == phrase
            &&& phrase != "command failed with status code "@
        }),
{
    let msg = (RunError::SignalTerminated { stderr }).message_spec();
    let phrase = "command terminated by signal with no status code: "@;
    assert(msg.take(phrase.len() as int) =~= phrase);
    reveal_strlit("command terminated by signal with no status code: ");
    reveal_strlit("command failed with status code ");
    assert(phrase.len() != "command failed with status code "@.len());
}

/// A spawn failure keeps the operating system's description word for word:
/// the error's message is exactly the text it was built from.
pub proof fn lemma_spawn_failure_message_verbatim(message: String)
    ensures
        (RunError::SpawnFailed { message }).message_spec() == message@,
{
}

} // verus!
