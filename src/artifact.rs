//! The status artifact over a run of passes, and the laws of the alerts.

use vstd::prelude::*;
use crate::probe::ExecutionResult;
use crate::report::{block, no_checks_message, pass_alert, report_blocks};

verus! {

/// The texts written to the status artifact by these passes, in order: one
/// for each pass that alerts, and nothing for a silent pass.
pub open spec fn artifact_writes(passes: Seq<Seq<ExecutionResult>>) -> Seq<Seq<char>>
    decreases passes.len(),
{
    if passes.len() == 0 {
        Seq::empty()
    } else {
        let earlier = artifact_writes(passes.drop_last());
        match pass_alert(passes.last()) {
            Some(t) => earlier.push(t),
            None => earlier,
        }
    }
}

/// What the artifact holds after these passes, when it held `initial`
/// before them: each write replaces the whole content.
pub open spec fn artifact_after(
    initial: Option<Seq<char>>,
    passes: Seq<Seq<ExecutionResult>>,
) -> Option<Seq<char>> {
    let w = artifact_writes(passes);
    if w.len() == 0 {
        initial
    } else {
        Some(w.last())
    }
}

/// Whether every probe of a pass succeeded, and there was at least one.
pub open spec fn all_clean(rs: Seq<ExecutionResult>) -> bool {
    &&& rs.len() > 0
    &&& forall|i: int| 0 <= i < rs.len() ==> !(#[trigger] rs[i]).is_failure()
}

/// The report of two runs of probes, one after the other, is the report of
/// the first followed by the report of the second.
pub proof fn report_blocks_concat(a: Seq<ExecutionResult>, b: Seq<ExecutionResult>)
    ensures
        report_blocks(a + b) == report_blocks(a) + report_blocks(b),
    decreases b.len(),
{
    if b.len() == 0 {
        assert(a + b =~= a);
        assert(report_blocks(b) =~= Seq::empty());
        assert(report_blocks(a) + report_blocks(b) =~= report_blocks(a));
    } else {
        report_blocks_concat(a, b.drop_last());
        assert((a + b).drop_last() =~= a + b.drop_last());
        assert((a + b).last() == b.last());
        assert(report_blocks(a) + report_blocks(b) =~= report_blocks(a) + report_blocks(
            b.drop_last(),
        ) + block(b.last()));
    }
}

/// A pass that finds no probe alerts with the no-checks message, and that
/// message is written to the artifact.
pub proof fn empty_pass_alerts(rs: Seq<ExecutionResult>, initial: Option<Seq<char>>)
    requires
        rs.len() == 0,
    ensures
        pass_alert(rs) == Some(no_checks_message()),
        artifact_writes(seq![rs]) == seq![no_checks_message()],
        artifact_after(initial, seq![rs]) == Some(no_checks_message()),
{
    let passes = seq![rs];
    assert(passes.drop_last() =~= Seq::<Seq<ExecutionResult>>::empty());
    assert(artifact_writes(passes.drop_last()) == Seq::<Seq<char>>::empty());
    assert(passes.last() == rs);
    assert(Seq::<Seq<char>>::empty().push(no_checks_message()) =~= seq![no_checks_message()]);
}

/// A pass in which every probe succeeds raises no alert and writes nothing.
pub proof fn clean_pass_is_silent(rs: Seq<ExecutionResult>, initial: Option<Seq<char>>)
    requires
        all_clean(rs),
    ensures
        pass_alert(rs) is None,
        artifact_writes(seq![rs]).len() == 0,
        artifact_after(initial, seq![rs]) == initial,
{
    let passes = seq![rs];
    assert(passes.drop_last() =~= Seq::<Seq<ExecutionResult>>::empty());
    assert(artifact_writes(passes.drop_last()) == Seq::<Seq<char>>::empty());
    assert(passes.last() == rs);
}

/// A failing probe does not cut the pass short: the report holds the blocks
/// of the probes before it, its own block, and the blocks of every probe
/// after it.
pub proof fn failure_keeps_later_probes(
    before: Seq<ExecutionResult>,
    failed: ExecutionResult,
    after: Seq<ExecutionResult>,
)
    requires
        failed.is_failure(),
    ensures
        pass_alert(before + seq![failed] + after) == Some(
            report_blocks(before) + block(failed) + report_blocks(after),
        ),
{
    let rs = before + seq![failed] + after;
    let i = before.len() as int;
    assert(rs[i] == failed);
    report_blocks_concat(before + seq![failed], after);
    report_blocks_concat(before, seq![failed]);
    assert(seq![failed].drop_last() =~= Seq::<ExecutionResult>::empty());
    assert(report_blocks(seq![failed].drop_last()) == Seq::<char>::empty());
    assert(seq![failed].last() == failed);
    assert(report_blocks(seq![failed]) =~= block(failed));
}

/// Running passes in which every probe succeeds, any number of times,
/// never writes the artifact and leaves its content as it was.
pub proof fn clean_passes_never_write(
    passes: Seq<Seq<ExecutionResult>>,
    initial: Option<Seq<char>>,
)
    requires
        forall|k: int| 0 <= k < passes.len() ==> all_clean(#[trigger] passes[k]),
    ensures
        artifact_writes(passes).len() == 0,
        artifact_after(initial, passes) == initial,
    decreases passes.len(),
{
    if passes.len() > 0 {
        let last = passes.last();
        assert(all_clean(passes[passes.len() - 1]));
        assert(pass_alert(last) is None);
        let earlier = passes.drop_last();
        assert forall|k: int| 0 <= k < earlier.len() implies all_clean(#[trigger] earlier[k]) by {
            assert(earlier[k] == passes[k]);
        }
        clean_passes_never_write(earlier, initial);
    }
}

/// When two passes in a row alert, the artifact afterwards holds exactly
/// the second report: the first is replaced, not added to.
pub proof fn second_alert_replaces_first(
    passes: Seq<Seq<ExecutionResult>>,
    initial: Option<Seq<char>>,
    r1: Seq<char>,
    r2: Seq<char>,
)
    requires
        passes.len() >= 2,
        pass_alert(passes[passes.len() - 2]) == Some(r1),
        pass_alert(passes[passes.len() - 1]) == Some(r2),
    ensures
        artifact_after(initial, passes) == Some(r2),
        artifact_writes(passes) == artifact_writes(passes.drop_last().drop_last()).push(r1).push(
            r2,
        ),
{
    let earlier = passes.drop_last();
    assert(earlier.last() == passes[passes.len() - 2]);
    assert(passes.last() == passes[passes.len() - 1]);
    assert(artifact_writes(earlier) == artifact_writes(earlier.drop_last()).push(r1));
    assert(artifact_writes(passes) == artifact_writes(earlier).push(r2));
}

} // verus!
