use vstd::prelude::*;
use vstd::utf8::*;

use crate::error::GatewayError;
use crate::text::{decimal, decimal_text, joined};

verus! {

/// What the text of a byte stream reads as, invalid sequences replaced by U+FFFD.
pub uninterp spec fn lossy_text(b: Seq<u8>) -> Seq<char>;

/// Relies on `String::from_utf8_lossy`: the decoded text depends on the bytes alone,
/// it is empty exactly where the bytes are (each invalid sequence becomes one
/// U+FFFD), and valid UTF-8 decodes as such.
#[verifier::external_body]
pub(crate) fn decode_lossy(b: &[u8]) -> (r: String)
    ensures
        r@ == lossy_text(b@),
        b@.len() == 0 ==> r@.len() == 0,
        b@.len() > 0 ==> r@.len() > 0,
        valid_utf8(b@) ==> r@ == decode_utf8(b@),
{
    String::from_utf8_lossy(b).into_owned()
}

/// How a spawned process ended, as the host observed it.
pub enum ProcessOutcome {
    /// The process could not be started; carries the system's description.
    SpawnFailed(String),
    /// The process ran to its end.
    Exited {
        /// The exit code, where the process exited on its own; zero is success.
        code: Option<i32>,
        stdout: Vec<u8>,
        stderr: Vec<u8>,
    },
}

/// The message for a failed command that wrote nothing on standard error: its
/// exit code, or that it was ended by a signal where it has none.
pub open spec fn status_message(code: Option<i32>) -> Seq<char> {
    match code {
        Some(c) => "command failed with status "@ + decimal(c as int),
        None => "command terminated by a signal"@,
    }
}

/// The process exited with code zero.
pub open spec fn succeeded(code: Option<i32>) -> bool {
    code == Some(0i32)
}

fn failure_message(code: Option<i32>) -> (r: String)
    ensures
        r@ == status_message(code),
        r@.len() > 0,
{
    proof {
        reveal_strlit("command failed with status ");
        reveal_strlit("command terminated by a signal");
    }
    match code {
        Some(c) => joined("command failed with status ", decimal_text(c).as_str()),
        None => String::from_str("command terminated by a signal"),
    }
}

/// The reply to a shell command, given how its process ended: standard output on
/// success (standard error discarded), standard error on failure, or a status
/// message where standard error is empty.
pub fn command_result(outcome: ProcessOutcome) -> (r: Result<String, GatewayError>)
    ensures
        match outcome {
            ProcessOutcome::SpawnFailed(e) => r == Err::<String, GatewayError>(
                GatewayError::Transport(e),
            ),
            ProcessOutcome::Exited { code, stdout, stderr } => if succeeded(code) {
                r is Ok && r->Ok_0@ == lossy_text(stdout@)
            } else if stderr@.len() > 0 {
                r is Err && r->Err_0 is Command && r->Err_0.text() == lossy_text(stderr@)
            } else {
                r is Err && r->Err_0 is Command && r->Err_0.text() == status_message(code)
                    && r->Err_0.text().len() > 0
            },
        },
{
    match outcome {
        ProcessOutcome::SpawnFailed(e) => Err(GatewayError::Transport(e)),
        ProcessOutcome::Exited { code, stdout, stderr } => {
            if code == Some(0i32) {
                Ok(decode_lossy(stdout.as_slice()))
            } else if stderr.len() > 0 {
                Err(GatewayError::Command(decode_lossy(stderr.as_slice())))
            } else {
                Err(GatewayError::Command(failure_message(code)))
            }
        },
    }
}

} // verus!
