//! Merge-request state as gathered from the GitLab tooling, and the
//! mapping of its textual fields onto the typed model.

use vstd::prelude::*;

verus! {

/// The GitLab-side snapshot: the merge request of the current branch.
#[derive(Debug)]
pub struct GlabInfo {
    pub merge_request: MergeRequest,
}

/// One merge request as the builders consume it.
#[derive(Debug, Clone, Copy, PartialEq, Eq, Structural)]
pub struct MergeRequest {
    pub number: i32,
    pub state: MergeRequestState,
    pub comments: i32,
    pub pipeline: MrPipelineState,
    pub is_draft: bool,
    pub is_approved: bool,
}

#[derive(Debug, Clone, Copy, PartialEq, Eq, Structural)]
pub enum MergeRequestState {
    Open,
    Closed,
    Merged,
}

/// The pipeline state attached to a merge request; `Absent` when the
/// merge request reports no pipeline at all.
#[derive(Debug, Clone, Copy, PartialEq, Eq, Structural)]
pub enum MrPipelineState {
    Absent,
    Pending,
    Running,
    Success,
    Failed,
    Canceled,
}

/// The merge-request state a state field names: `merged` and `closed`
/// map to their own states, everything else counts as open.
pub open spec fn spec_merge_request_state(s: Seq<char>) -> MergeRequestState {
    if s == "merged"@ {
        MergeRequestState::Merged
    } else if s == "closed"@ {
        MergeRequestState::Closed
    } else {
        MergeRequestState::Open
    }
}

/// Maps the textual state of a merge request onto the typed state.
pub fn merge_request_state_of(state: &str) -> (r: MergeRequestState)
    ensures
        r == spec_merge_request_state(state@),
{
    let given = crate::strutil::chars_of(state);
    let merged = crate::strutil::chars_of("merged");
    let closed = crate::strutil::chars_of("closed");
    if crate::strutil::chars_eq(given.as_slice(), merged.as_slice()) {
        MergeRequestState::Merged
    } else if crate::strutil::chars_eq(given.as_slice(), closed.as_slice()) {
        MergeRequestState::Closed
    } else {
        MergeRequestState::Open
    }
}

/// The pipeline state a status field names: `running`, `success`,
/// `failed` and `canceled` map to their own states, any other report
/// counts as pending, and a missing pipeline as none.
pub open spec fn spec_pipeline_state(s: Option<Seq<char>>) -> MrPipelineState {
    match s {
        Option::None => MrPipelineState::Absent,
        Option::Some(t) => if t == "running"@ {
            MrPipelineState::Running
        } else if t == "success"@ {
            MrPipelineState::Success
        } else if t == "failed"@ {
            MrPipelineState::Failed
        } else if t == "canceled"@ {
            MrPipelineState::Canceled
        } else {
            MrPipelineState::Pending
        },
    }
}

/// Maps the textual pipeline status of a merge request, if one is
/// reported, onto the typed state.
pub fn pipeline_state_of(status: Option<&str>) -> (r: MrPipelineState)
    ensures
        r == spec_pipeline_state(
            match status {
                Option::None => Option::<Seq<char>>::None,
                Option::Some(t) => Option::Some(t@),
            },
        ),
{
    match status {
        Option::None => MrPipelineState::Absent,
        Option::Some(t) => {
            let given = crate::strutil::chars_of(t);
            let running = crate::strutil::chars_of("running");
            let success = crate::strutil::chars_of("success");
            let failed = crate::strutil::chars_of("failed");
            let canceled = crate::strutil::chars_of("canceled");
            if crate::strutil::chars_eq(given.as_slice(), running.as_slice()) {
                MrPipelineState::Running
            } else if crate::strutil::chars_eq(given.as_slice(), success.as_slice()) {
                MrPipelineState::Success
            } else if crate::strutil::chars_eq(given.as_slice(), failed.as_slice()) {
                MrPipelineState::Failed
            } else if crate::strutil::chars_eq(given.as_slice(), canceled.as_slice()) {
                MrPipelineState::Canceled
            } else {
                MrPipelineState::Pending
            }
        },
    }
}

/// One note on a merge request: its body and whether the tooling wrote
/// it.
#[derive(Debug)]
pub struct MrNote {
    pub body: String,
    pub system: bool,
}

/// A merge request counts as approved exactly when some note written by
/// the tooling reads `approved this merge request`.
pub open spec fn spec_is_approved(notes: Seq<MrNote>) -> bool {
    exists|i: int|
        0 <= i < notes.len() && notes[i].system && notes[i].body@ == "approved this merge request"@
}

/// Looks for the tooling's approval note.
pub fn merge_request_is_approved(notes: &Vec<MrNote>) -> (r: bool)
    ensures
        r == spec_is_approved(notes@),
{
    let approval = crate::strutil::chars_of("approved this merge request");
    let mut i: usize = 0;
    while i < notes.len()
        invariant
            i <= notes@.len(),
            approval@ == "approved this merge request"@,
            forall|j: int|
                0 <= j < i ==> !(notes@[j].system && notes@[j].body@
                    == "approved this merge request"@),
        decreases notes@.len() - i,
    {
        if notes[i].system {
            let body = crate::strutil::chars_of(notes[i].body.as_str());
            if crate::strutil::chars_eq(body.as_slice(), approval.as_slice()) {
                assert(notes@[i as int].system && notes@[i as int].body@
                    == "approved this merge request"@);
                return true;
            }
        }
        i = i + 1;
    }
    false
}

} // verus!
