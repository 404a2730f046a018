//! Dispatcher: fans resolved work items out and joins their outcomes into
//! a run report whose order is the work-item order, never the completion
//! order.
//!
//! The engine dispatches the dry-run path itself: it touches no network,
//! so every work item's outcome is synthesized right here, one per item.
//! A live run's sessions are driven by the connection layer outside the
//! engine, which collects one terminal [`HostOutcome`] per work item in
//! dispatch order and hands the list to [`crate::report::summarize`].

use vstd::prelude::*;
use crate::config::MusshToml;
use crate::report::{report_wf, summarize, AggregateStatus, RunReport};
use crate::resolve::{resolve, resolve_err, resolve_ok, resolved_items, ResolveError, ResolvedWorkItem, WorkItemView};
use crate::session::{execute_dry, HostStatus, OutcomeView};

verus! {

/// The outcome a dry run records for one work item: `Skipped`, with the
/// effective command as the recorded output.
pub open spec fn dry_outcome(w: WorkItemView) -> OutcomeView {
    OutcomeView {
        host: w.name,
        status: HostStatus::Skipped,
        stdout: w.command,
        stderr: Seq::empty(),
        elapsed_ms: 0,
    }
}

/// Dispatches a dry run: no network is touched, and the report carries
/// exactly one `Skipped` outcome per work item, in work-item order, each
/// recording the command that would have run.  Nothing fails, so the
/// aggregate is `Success`.
pub fn run_dry(items: &Vec<ResolvedWorkItem>) -> (r: RunReport)
    ensures
        r.outcomes@.len() == items@.len(),
        forall|i: int|
            0 <= i < items@.len() ==> #[trigger] r.outcomes@[i]@ == dry_outcome(items@[i]@),
        report_wf(r@),
        r.aggregate == AggregateStatus::Success,
{
    let n = items.len();
    let mut outcomes: Vec<crate::session::HostOutcome> = Vec::new();
    let mut i: usize = 0;
    while i < n
        invariant
            n == items@.len(),
            i <= n,
            outcomes@.len() == i,
            forall|j: int| 0 <= j < i ==> #[trigger] outcomes@[j]@ == dry_outcome(items@[j]@),
        decreases n - i,
    {
        outcomes.push(execute_dry(&items[i]));
        i += 1;
    }
    let r = summarize(outcomes);
    proof {
        assert(forall|j: int|
            0 <= j < r@.outcomes.len() ==> !crate::report::is_failing(
                #[trigger] r@.outcomes[j].status,
            ));
    }
    r
}

/// The whole dry-run request in one step: resolve the group and command,
/// then dispatch without opening any connection.  Fails exactly when
/// resolution fails, with the resolution error; succeeds with a report of
/// one `Skipped` outcome per resolved work item, in resolution order.
pub fn dry_run(catalog: &MusshToml, group: &String, cmd_name: &String) -> (r: Result<
    RunReport,
    ResolveError,
>)
    ensures
        r is Ok <==> resolve_ok(catalog@, group@, cmd_name@),
        r matches Ok(rep) ==> {
            let items = resolved_items(catalog@, group@, cmd_name@);
            &&& rep.outcomes@.len() == items.len()
            &&& forall|i: int|
                0 <= i < items.len() ==> #[trigger] rep.outcomes@[i]@ == dry_outcome(items[i])
            &&& report_wf(rep@)
            &&& rep.aggregate == AggregateStatus::Success
        },
        r matches Err(e) ==> e == resolve_err(catalog@, group@, cmd_name@),
{
    match resolve(catalog, group, cmd_name) {
        Ok(items) => Ok(run_dry(&items)),
        Err(e) => Err(e),
    }
}

} // verus!
