//! How one probe ended, and what that means for the pass.

use vstd::prelude::*;

verus! {

/// What came back from trying to run one probe.
#[derive(Debug, PartialEq, Eq)]
pub enum SpawnOutcome {
    /// The process ran and was waited for. `code` is `None` when the
    /// process ended without an exit code (killed by a signal).
    Exited { code: Option<i32>, stdout: Vec<u8>, stderr: Vec<u8> },
    /// The process could not be started; `error` is the system's message.
    SpawnFailed { error: String },
}

/// The verdict on one probe.
#[derive(Debug, PartialEq, Eq)]
pub enum ExecutionResult {
    /// The probe exited with code 0; its output is not kept.
    Success,
    /// The probe could not be started.
    ExecutionFailure { path: String, error: String },
    /// The probe exited with a code other than 0, or with none; both
    /// streams are kept verbatim.
    NonZeroExit { path: String, code: Option<i32>, stdout: String, stderr: String },
}

/// The text that a lossy UTF-8 decoding gives for `b`.
pub uninterp spec fn utf8_lossy(b: Seq<u8>) -> Seq<char>;

/// Relies on `String::from_utf8_lossy`: the text depends on the bytes alone,
/// and no bytes give no text.
#[verifier::external_body]
fn decode_lossy(b: &Vec<u8>) -> (r: String)
    ensures
        r@ == utf8_lossy(b@),
        b@.len() == 0 ==> r@.len() == 0,
{
    String::from_utf8_lossy(b).into_owned()
}

impl ExecutionResult {
    /// Whether this verdict asks for an alert.
    pub open spec fn is_failure(&self) -> bool {
        !(self is Success)
    }

    /// Whether the probe passed.
    pub fn is_success(&self) -> (r: bool)
        ensures
            r == !self.is_failure(),
    {
        match self {
            ExecutionResult::Success => true,
            _ => false,
        }
    }
}

/// The verdict that `outcome` gives for the probe at `path`.
pub open spec fn classified(path: String, outcome: SpawnOutcome, r: ExecutionResult) -> bool {
    match outcome {
        SpawnOutcome::SpawnFailed { error } => r == (ExecutionResult::ExecutionFailure {
            path,
            error,
        }),
        SpawnOutcome::Exited { code, stdout, stderr } => if code == Some(0i32) {
            r is Success
        } else {
            match r {
                ExecutionResult::NonZeroExit { path: p, code: c, stdout: o, stderr: e } => {
                    &&& p == path
                    &&& c == code
                    &&& o@ == utf8_lossy(stdout@)
                    &&& e@ == utf8_lossy(stderr@)
                },
                _ => false,
            }
        },
    }
}

/// The verdict for the probe at `path`, given how it ended: exit code 0 is a
/// success, any other code or none at all is a failure that keeps both
/// captured streams, and a probe that could not start is a failure that
/// keeps the system's message.
pub fn classify(path: String, outcome: SpawnOutcome) -> (r: ExecutionResult)
    ensures
        classified(path, outcome, r),
{
    match outcome {
        SpawnOutcome::SpawnFailed { error } => ExecutionResult::ExecutionFailure { path, error },
        SpawnOutcome::Exited { code, stdout, stderr } => {
            match code {
                Some(c) => {
                    if c == 0 {
                        return ExecutionResult::Success;
                    }
                },
                None => {},
            }
            let stdout_text = decode_lossy(&stdout);
            let stderr_text = decode_lossy(&stderr);
            ExecutionResult::NonZeroExit { path, code, stdout: stdout_text, stderr: stderr_text }
        },
    }
}

} // verus!
