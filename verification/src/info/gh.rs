//! Pull-request and CI state as gathered from the GitHub tooling, and
//! the aggregation of run conclusions into one CI status.

use vstd::prelude::*;

verus! {

/// The GitHub-side snapshot: an open pull request, if any, and the
/// aggregated state of the latest CI runs, if any.
#[derive(Debug)]
pub struct GhInfo {
    pub pull_request: Option<PullRequest>,
    pub actions: Option<Actions>,
}

/// One pull request as the builders consume it.
#[derive(Debug, Clone, Copy, PartialEq, Eq, Structural)]
pub struct PullRequest {
    pub number: i32,
    pub state: PullRequestState,
    pub comments: i32,
    pub is_draft: bool,
    pub is_approved: bool,
}

#[derive(Debug, Clone, Copy, PartialEq, Eq, Structural)]
pub enum PullRequestState {
    Open,
    Closed,
    Merged,
}

/// The aggregated CI state.
#[derive(Debug, Clone, Copy, PartialEq, Eq, Structural)]
pub struct Actions {
    pub status: ActionsStatus,
}

#[derive(Debug, Clone, Copy, PartialEq, Eq, Structural)]
pub enum ActionsStatus {
    InProgress,
    Success,
    Failure,
    Cancelled,
    Skipped,
}

/// What one CI run reports.
#[derive(Debug, Clone, Copy, PartialEq, Eq, Structural)]
pub enum RunConclusion {
    InProgress,
    Success,
    Failure,
    Cancelled,
    Skipped,
}

pub open spec fn has_conclusion(runs: Seq<RunConclusion>, c: RunConclusion) -> bool {
    exists|i: int| 0 <= i < runs.len() && runs[i] == c
}

/// The aggregate of a list of run conclusions, by strict precedence:
/// any failure wins, else any run still in progress, else any cancelled
/// run, else any skipped run, else any success; no runs, no status.
pub open spec fn spec_aggregate_status(runs: Seq<RunConclusion>) -> Option<ActionsStatus> {
    if has_conclusion(runs, RunConclusion::Failure) {
        Some(ActionsStatus::Failure)
    } else if has_conclusion(runs, RunConclusion::InProgress) {
        Some(ActionsStatus::InProgress)
    } else if has_conclusion(runs, RunConclusion::Cancelled) {
        Some(ActionsStatus::Cancelled)
    } else if has_conclusion(runs, RunConclusion::Skipped) {
        Some(ActionsStatus::Skipped)
    } else if has_conclusion(runs, RunConclusion::Success) {
        Some(ActionsStatus::Success)
    } else {
        None
    }
}

/// Aggregates run conclusions into one CI status by the strict
/// precedence failure, in progress, cancelled, skipped, success.
pub fn aggregate_status(runs: &Vec<RunConclusion>) -> (r: Option<ActionsStatus>)
    ensures
        r == spec_aggregate_status(runs@),
{
    let mut any_failure = false;
    let mut any_in_progress = false;
    let mut any_cancelled = false;
    let mut any_skipped = false;
    let mut any_success = false;
    let mut i: usize = 0;
    while i < runs.len()
        invariant
            i <= runs@.len(),
            any_failure == has_conclusion(runs@.subrange(0, i as int), RunConclusion::Failure),
            any_in_progress == has_conclusion(
                runs@.subrange(0, i as int),
                RunConclusion::InProgress,
            ),
            any_cancelled == has_conclusion(runs@.subrange(0, i as int), RunConclusion::Cancelled),
            any_skipped == has_conclusion(runs@.subrange(0, i as int), RunConclusion::Skipped),
            any_success == has_conclusion(runs@.subrange(0, i as int), RunConclusion::Success),
        decreases runs@.len() - i,
    {
        let ghost pre = runs@.subrange(0, i as int);
        let ghost post = runs@.subrange(0, i + 1);
        proof {
            assert(post.drop_last() =~= pre);
            assert(post.last() == runs@[i as int]);
            assert forall|c: RunConclusion| has_conclusion(post, c) == (has_conclusion(pre, c)
                || runs@[i as int] == c) by {
                if has_conclusion(pre, c) {
                    let j = choose|j: int| 0 <= j < pre.len() && pre[j] == c;
                    assert(post[j] == c);
                }
                if runs@[i as int] == c {
                    assert(post[i as int] == c);
                }
                if has_conclusion(post, c) {
                    let j = choose|j: int| 0 <= j < post.len() && post[j] == c;
                    if j < i {
                        assert(pre[j] == c);
                    }
                }
            }
        }
        match runs[i] {
            RunConclusion::Failure => any_failure = true,
            RunConclusion::InProgress => any_in_progress = true,
            RunConclusion::Cancelled => any_cancelled = true,
            RunConclusion::Skipped => any_skipped = true,
            RunConclusion::Success => any_success = true,
        }
        i = i + 1;
    }
    assert(runs@.subrange(0, runs@.len() as int) =~= runs@);
    if any_failure {
        Some(ActionsStatus::Failure)
    } else if any_in_progress {
        Some(ActionsStatus::InProgress)
    } else if any_cancelled {
        Some(ActionsStatus::Cancelled)
    } else if any_skipped {
        Some(ActionsStatus::Skipped)
    } else if any_success {
        Some(ActionsStatus::Success)
    } else {
        None
    }
}

/// A pull request counts as approved exactly when the review decision
/// literally reads `APPROVED`.
pub fn pull_request_is_approved(review_decision: &str) -> (r: bool)
    ensures
        r == (review_decision@ == "APPROVED"@),
{
    let expected = crate::strutil::chars_of("APPROVED");
    let given = crate::strutil::chars_of(review_decision);
    let r = crate::strutil::chars_eq(given.as_slice(), expected.as_slice());
    r
}

} // verus!
