//! Run report: aggregates per-host outcomes into a single status and a
//! structured failure record.  Summarization is a pure function over the
//! outcome sequence: no I/O, no further network or process interaction.

use vstd::prelude::*;
use crate::session::{HostOutcome, HostStatus, OutcomeView};

verus! {

/// The run's single aggregate status: `Success` exactly when no host
/// failed.  A `Skipped` outcome (dry run) fails nothing: a previewed run
/// that never attempted a host is not a failed run.
#[derive(Clone, Copy, PartialEq, Eq, Structural, Debug)]
pub enum AggregateStatus {
    Success,
    Failure,
}

/// Why one host failed, for the structured failure record.
#[derive(Clone, Copy, PartialEq, Eq, Structural, Debug)]
pub enum FailReason {
    /// Connection, SSH negotiation or authentication failed.
    ConnectionError,
    /// The remote command exited with the recorded nonzero status.
    NonZeroExit(i32),
    /// The remote command did not finish in time.
    Timeout,
}

/// Spec-level image of a [`FailureDetail`].
#[verifier::ext_equal]
pub struct FailureView {
    pub host: Seq<char>,
    pub reason: FailReason,
}

/// One line of the structured failure record: which host failed, and why.
#[derive(Debug)]
pub struct FailureDetail {
    pub host: String,
    pub reason: FailReason,
}

impl View for FailureDetail {
    type V = FailureView;

    open spec fn view(&self) -> FailureView {
        FailureView { host: self.host@, reason: self.reason }
    }
}

/// Spec-level image of a [`RunReport`].
#[verifier::ext_equal]
pub struct ReportView {
    pub outcomes: Seq<OutcomeView>,
    pub aggregate: AggregateStatus,
    pub failures: Seq<FailureView>,
}

/// The run's result: every host outcome in dispatch order, the aggregate
/// status, and the structured record of the hosts that failed.
#[derive(Debug)]
pub struct RunReport {
    pub outcomes: Vec<HostOutcome>,
    pub aggregate: AggregateStatus,
    pub failures: Vec<FailureDetail>,
}

impl View for RunReport {
    type V = ReportView;

    open spec fn view(&self) -> ReportView {
        ReportView {
            outcomes: outcome_views(self.outcomes@),
            aggregate: self.aggregate,
            failures: failure_views(self.failures@),
        }
    }
}

/// Spec-level image of an outcome list.
pub open spec fn outcome_views(s: Seq<HostOutcome>) -> Seq<OutcomeView> {
    s.map_values(|o: HostOutcome| o@)
}

/// Spec-level image of a failure-record list.
pub open spec fn failure_views(s: Seq<FailureDetail>) -> Seq<FailureView> {
    s.map_values(|f: FailureDetail| f@)
}

/// A status that counts against the run: a connection error, a nonzero
/// exit, or a timeout.  `Success` and `Skipped` do not.
pub open spec fn is_failing(s: HostStatus) -> bool {
    match s {
        HostStatus::Success => false,
        HostStatus::Failure(_) => true,
        HostStatus::ConnectionError => true,
        HostStatus::Timeout => true,
        HostStatus::Skipped => false,
    }
}

/// The failure record's reason for a failing status.
pub open spec fn fail_reason(s: HostStatus) -> FailReason {
    match s {
        HostStatus::Failure(code) => FailReason::NonZeroExit(code),
        HostStatus::Timeout => FailReason::Timeout,
        _ => FailReason::ConnectionError,
    }
}

/// `Success` exactly when no outcome is failing.
pub open spec fn aggregate_of(outs: Seq<OutcomeView>) -> AggregateStatus {
    if forall|i: int| 0 <= i < outs.len() ==> !is_failing(outs[i].status) {
        AggregateStatus::Success
    } else {
        AggregateStatus::Failure
    }
}

/// The structured failure record: one entry per failing outcome, in
/// outcome order, naming the host and the reason.
pub open spec fn failures_of(outs: Seq<OutcomeView>) -> Seq<FailureView>
    decreases outs.len(),
{
    if outs.len() == 0 {
        Seq::empty()
    } else {
        failures_of(outs.drop_last()) + (if is_failing(outs.last().status) {
            seq![FailureView { host: outs.last().host, reason: fail_reason(outs.last().status) }]
        } else {
            Seq::empty()
        })
    }
}

/// A report is well formed when its aggregate status and its failure
/// record are exactly what its outcome sequence dictates.
pub open spec fn report_wf(r: ReportView) -> bool {
    &&& r.aggregate == aggregate_of(r.outcomes)
    &&& r.failures == failures_of(r.outcomes)
}

/// Aggregates outcomes into a run report, in the order given (dispatch
/// order): the outcomes unchanged, the aggregate status, and one failure
/// entry per failing outcome.
pub fn summarize(outcomes: Vec<HostOutcome>) -> (r: RunReport)
    ensures
        r.outcomes@ == outcomes@,
        report_wf(r@),
{
    let ghost all = outcome_views(outcomes@);
    let n = outcomes.len();
    let mut failures: Vec<FailureDetail> = Vec::new();
    let mut all_ok: bool = true;
    let mut i: usize = 0;
    proof {
        assert(all.take(0) =~= Seq::<OutcomeView>::empty());
    }
    while i < n
        invariant
            n == outcomes@.len(),
            all == outcome_views(outcomes@),
            all.len() == n,
            i <= n,
            all_ok <==> (forall|j: int| 0 <= j < i ==> !is_failing(all[j].status)),
            failure_views(failures@) == failures_of(all.take(i as int)),
        decreases n - i,
    {
        proof {
            assert(all[i as int] == outcomes@[i as int]@);
            assert(all.take(i as int + 1).drop_last() =~= all.take(i as int));
            assert(all.take(i as int + 1).last() == all[i as int]);
        }
        let o = &outcomes[i];
        let failing = match o.status {
            HostStatus::Success => false,
            HostStatus::Failure(_) => true,
            HostStatus::ConnectionError => true,
            HostStatus::Timeout => true,
            HostStatus::Skipped => false,
        };
        if failing {
            all_ok = false;
            let reason = match o.status {
                HostStatus::Failure(code) => FailReason::NonZeroExit(code),
                HostStatus::Timeout => FailReason::Timeout,
                _ => FailReason::ConnectionError,
            };
            failures.push(FailureDetail { host: o.host.clone(), reason });
            proof {
                assert(failure_views(failures@) =~= failures_of(all.take(i as int + 1)));
            }
        } else {
            proof {
                assert(failure_views(failures@) =~= failures_of(all.take(i as int + 1)));
            }
        }
        i += 1;
    }
    proof {
        assert(all.take(n as int) =~= all);
    }
    let aggregate = if all_ok {
        AggregateStatus::Success
    } else {
        AggregateStatus::Failure
    };
    RunReport { outcomes, aggregate, failures }
}

/// The process exit code a report dictates: zero exactly on aggregate
/// success, one otherwise.
pub fn exit_code(report: &RunReport) -> (r: i32)
    ensures
        r == 0 <==> report.aggregate == AggregateStatus::Success,
        r == 0 || r == 1,
{
    match report.aggregate {
        AggregateStatus::Success => 0,
        AggregateStatus::Failure => 1,
    }
}

/// A failing outcome is always enumerated in the failure record, with its
/// host and its reason.
pub proof fn lemma_failure_recorded(outs: Seq<OutcomeView>, i: int)
    requires
        0 <= i < outs.len(),
        is_failing(outs[i].status),
    ensures
        exists|k: int|
            0 <= k < failures_of(outs).len() && failures_of(outs)[k] == (FailureView {
                host: outs[i].host,
                reason: fail_reason(outs[i].status),
            }),
    decreases outs.len(),
{
    let fs = failures_of(outs);
    if i == outs.len() - 1 {
        let k = failures_of(outs.drop_last()).len() as int;
        assert(fs[k] == (FailureView { host: outs[i].host, reason: fail_reason(outs[i].status) }));
    } else {
        lemma_failure_recorded(outs.drop_last(), i);
        let k = choose|k: int|
            0 <= k < failures_of(outs.drop_last()).len() && failures_of(outs.drop_last())[k] == (
            FailureView { host: outs.drop_last()[i].host, reason: fail_reason(
                outs.drop_last()[i].status,
            ) });
        assert(fs[k] == failures_of(outs.drop_last())[k]);
    }
}

/// One host's connection error never hides another host's success: in any
/// outcome sequence where host `i` failed to connect and host `j`
/// succeeded, the well-formed report over those outcomes still carries
/// host `j`'s success verbatim, its aggregate is `Failure`, and the
/// failure record names host `i` with a connection error.
pub proof fn lemma_failure_isolated(r: ReportView, i: int, j: int)
    requires
        report_wf(r),
        0 <= i < r.outcomes.len(),
        0 <= j < r.outcomes.len(),
        r.outcomes[i].status == HostStatus::ConnectionError,
        r.outcomes[j].status == HostStatus::Success,
    ensures
        r.aggregate == AggregateStatus::Failure,
        r.outcomes[j].status == HostStatus::Success,
        exists|k: int|
            0 <= k < r.failures.len() && r.failures[k] == (FailureView {
                host: r.outcomes[i].host,
                reason: FailReason::ConnectionError,
            }),
{
    assert(is_failing(r.outcomes[i].status));
    lemma_failure_recorded(r.outcomes, i);
}

} // verus!
