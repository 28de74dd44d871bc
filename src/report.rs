//! The alert report of one pass.

use vstd::prelude::*;
use crate::decimal::{decimal_text, int_decimal};
use crate::probe::ExecutionResult;

verus! {

/// The report's text for one verdict; a success contributes nothing.
pub open spec fn block(r: ExecutionResult) -> Seq<char> {
    match r {
        ExecutionResult::Success => Seq::empty(),
        ExecutionResult::ExecutionFailure { path, error } => "Check "@ + path@
            + " failed to execute: "@ + error@ + "\n"@,
        ExecutionResult::NonZeroExit { path, code, stdout, stderr } => match code {
            Some(c) => "Check "@ + path@ + " failed with exit code "@ + int_decimal(c as int)
                + ":\n"@ + stdout@ + "\n"@ + stderr@ + "\n"@,
            None => "Check "@ + path@ + " failed without an exit code:\n"@ + stdout@ + "\n"@
                + stderr@ + "\n"@,
        },
    }
}

/// The blocks of all verdicts, in the order the probes ran.
pub open spec fn report_blocks(rs: Seq<ExecutionResult>) -> Seq<char>
    decreases rs.len(),
{
    if rs.len() == 0 {
        Seq::empty()
    } else {
        report_blocks(rs.drop_last()) + block(rs.last())
    }
}

/// Whether some verdict of the pass is a failure.
pub open spec fn any_failure(rs: Seq<ExecutionResult>) -> bool {
    exists|i: int| 0 <= i < rs.len() && (#[trigger] rs[i]).is_failure()
}

/// The message of a pass that found no probe.
pub open spec fn no_checks_message() -> Seq<char> {
    "No checks found"@
}

/// The alert that a pass with these verdicts raises, if any: a pass that
/// found no probe alerts with the no-checks message, a pass with a failure
/// alerts with the blocks of all verdicts, and any other pass is silent.
pub open spec fn pass_alert(rs: Seq<ExecutionResult>) -> Option<Seq<char>> {
    if rs.len() == 0 {
        Some(no_checks_message())
    } else if any_failure(rs) {
        Some(report_blocks(rs))
    } else {
        None
    }
}

/// The view of an optional text.
pub open spec fn opt_text(o: Option<String>) -> Option<Seq<char>> {
    match o {
        Some(s) => Some(s@),
        None => None,
    }
}

/// The block that the report holds for one verdict.
pub fn failure_block(r: &ExecutionResult) -> (s: String)
    ensures
        s@ == block(*r),
{
    let mut s = String::new();
    match r {
        ExecutionResult::Success => {},
        ExecutionResult::ExecutionFailure { path, error } => {
            s.append("Check ");
            s.append(path.as_str());
            s.append(" failed to execute: ");
            s.append(error.as_str());
            s.append("\n");
        },
        ExecutionResult::NonZeroExit { path, code, stdout, stderr } => {
            s.append("Check ");
            s.append(path.as_str());
            match code {
                Some(c) => {
                    s.append(" failed with exit code ");
                    let digits = decimal_text(*c);
                    s.append(digits.as_str());
                    s.append(":\n");
                },
                None => {
                    s.append(" failed without an exit code:\n");
                },
            }
            s.append(stdout.as_str());
            s.append("\n");
            s.append(stderr.as_str());
            s.append("\n");
        },
    }
    assert(s@ =~= block(*r));
    s
}

/// The alert of a pass whose probes gave `results`, in the order they ran:
/// `None` when no alert is due, else the full report text.
pub fn pass_report(results: &Vec<ExecutionResult>) -> (r: Option<String>)
    ensures
        opt_text(r) == pass_alert(results@),
{
    if results.len() == 0 {
        return Some(String::from_str("No checks found"));
    }
    let mut text = String::new();
    let mut failed = false;
    let mut i: usize = 0;
    while i < results.len()
        invariant
            i <= results@.len(),
            text@ == report_blocks(results@.subrange(0, i as int)),
            failed == any_failure(results@.subrange(0, i as int)),
        decreases results@.len() - i,
    {
        let b = failure_block(&results[i]);
        text.append(b.as_str());
        if !results[i].is_success() {
            failed = true;
        }
        proof {
            let next = results@.subrange(0, i + 1);
            assert(next.drop_last() =~= results@.subrange(0, i as int));
            assert(next.last() == results@[i as int]);
            if failed {
                if results@[i as int].is_failure() {
                    assert(next[i as int].is_failure());
                } else {
                    let j = choose|j: int| 0 <= j < i && (#[trigger] results@.subrange(0, i as int)[j]).is_failure();
                    assert(next[j].is_failure());
                }
            } else {
                assert forall|j: int| 0 <= j < i + 1 implies !(#[trigger] next[j]).is_failure() by {
                    if j < i {
                        assert(results@.subrange(0, i as int)[j] == next[j]);
                    }
                }
            }
        }
        i = i + 1;
    }
    assert(results@.subrange(0, results@.len() as int) =~= results@);
    if failed {
        Some(text)
    } else {
        None
    }
}

} // verus!
