use croque::info::gh::{aggregate_status, pull_request_is_approved, ActionsStatus, RunConclusion};
use croque::info::git::WorkspaceStatus;
use croque::info::glab::{
    merge_request_is_approved, merge_request_state_of, pipeline_state_of, MergeRequestState,
    MrNote, MrPipelineState,
};

fn counters(values: [u32; 9]) -> WorkspaceStatus {
    WorkspaceStatus {
        unstaged_new: values[0],
        unstaged_deleted: values[1],
        unstaged_changed: values[2],
        unstaged_renamed: values[3],
        staged_new: values[4],
        staged_deleted: values[5],
        staged_changed: values[6],
        staged_renamed: values[7],
        conflicted: values[8],
    }
}

#[test]
fn unstaged_predicate_tracks_only_unstaged_counters() {
    // all assignments over {0, 1} of the four unstaged counters, with
    // the staged counters and the conflict counter varied independently
    for bits in 0u32..16 {
        for noise in [[0u32, 0, 0, 0, 0], [3, 1, 4, 1, 5]] {
            let w = counters([
                bits & 1,
                (bits >> 1) & 1,
                (bits >> 2) & 1,
                (bits >> 3) & 1,
                noise[0],
                noise[1],
                noise[2],
                noise[3],
                noise[4],
            ]);
            assert_eq!(w.has_unstaged_changes(), bits != 0);
        }
    }
}

#[test]
fn staged_predicate_tracks_only_staged_counters() {
    for bits in 0u32..16 {
        for noise in [[0u32, 0, 0, 0, 0], [2, 7, 1, 8, 2]] {
            let w = counters([
                noise[0],
                noise[1],
                noise[2],
                noise[3],
                bits & 1,
                (bits >> 1) & 1,
                (bits >> 2) & 1,
                (bits >> 3) & 1,
                noise[4],
            ]);
            assert_eq!(w.has_staged_changes(), bits != 0);
        }
    }
}

#[test]
fn remaining_predicates_cross_the_staging_boundary() {
    let w = counters([1, 0, 0, 0, 0, 0, 0, 0, 0]);
    assert!(w.has_new());
    assert!(!w.has_deleted());
    let w = counters([0, 0, 0, 0, 1, 0, 0, 0, 0]);
    assert!(w.has_new());
    let w = counters([0, 0, 0, 0, 0, 0, 0, 0, 2]);
    assert!(w.has_conflict());
    assert!(!w.has_unstaged_changes());
    assert!(!w.has_staged_changes());
}

#[test]
fn run_conclusions_aggregate_by_strict_precedence() {
    assert_eq!(aggregate_status(&vec![]), None);
    assert_eq!(
        aggregate_status(&vec![RunConclusion::Success, RunConclusion::Success]),
        Some(ActionsStatus::Success)
    );
    assert_eq!(
        aggregate_status(&vec![RunConclusion::Success, RunConclusion::Skipped]),
        Some(ActionsStatus::Skipped)
    );
    assert_eq!(
        aggregate_status(&vec![RunConclusion::Skipped, RunConclusion::Cancelled, RunConclusion::Success]),
        Some(ActionsStatus::Cancelled)
    );
    assert_eq!(
        aggregate_status(&vec![RunConclusion::Cancelled, RunConclusion::InProgress, RunConclusion::Skipped]),
        Some(ActionsStatus::InProgress)
    );
    assert_eq!(
        aggregate_status(&vec![RunConclusion::Success, RunConclusion::InProgress, RunConclusion::Failure, RunConclusion::Cancelled]),
        Some(ActionsStatus::Failure)
    );
}

#[test]
fn review_decisions_and_notes_decide_approval() {
    assert!(pull_request_is_approved("APPROVED"));
    assert!(!pull_request_is_approved("CHANGES_REQUESTED"));
    assert!(!pull_request_is_approved(""));

    let notes = vec![
        MrNote {
            body: "looks good".to_string(),
            system: false,
        },
        MrNote {
            body: "approved this merge request".to_string(),
            system: true,
        },
    ];
    assert!(merge_request_is_approved(&notes));

    // the same words from a person do not count
    let impostor = vec![MrNote {
        body: "approved this merge request".to_string(),
        system: false,
    }];
    assert!(!merge_request_is_approved(&impostor));
    assert!(!merge_request_is_approved(&vec![]));
}

#[test]
fn textual_states_map_onto_the_typed_model() {
    assert_eq!(merge_request_state_of("merged"), MergeRequestState::Merged);
    assert_eq!(merge_request_state_of("closed"), MergeRequestState::Closed);
    assert_eq!(merge_request_state_of("opened"), MergeRequestState::Open);
    assert_eq!(merge_request_state_of(""), MergeRequestState::Open);

    assert_eq!(pipeline_state_of(None), MrPipelineState::Absent);
    assert_eq!(pipeline_state_of(Some("running")), MrPipelineState::Running);
    assert_eq!(pipeline_state_of(Some("success")), MrPipelineState::Success);
    assert_eq!(pipeline_state_of(Some("failed")), MrPipelineState::Failed);
    assert_eq!(pipeline_state_of(Some("canceled")), MrPipelineState::Canceled);
    assert_eq!(pipeline_state_of(Some("waiting")), MrPipelineState::Pending);
}
