use croque::info::codec::{
    decode_gh_info, decode_git_info, decode_glab_info, encode_gh_info, encode_git_info,
    encode_glab_info,
};
use croque::info::gh::{Actions, ActionsStatus, GhInfo, PullRequest, PullRequestState};
use croque::info::git::{GitInfo, Head, RemoteStatus, UpstreamStatus, WorkspaceStatus};
use croque::info::glab::{GlabInfo, MergeRequest, MergeRequestState, MrPipelineState};
use croque::info::{decode_base64, encode_base64};

fn sample_git_info() -> GitInfo {
    GitInfo {
        workdir: Some("/home/ayaka/repos/croque".to_string()),
        head: Head::Branch("feature/codec".to_string()),
        workspace: WorkspaceStatus {
            unstaged_new: 1,
            unstaged_deleted: 0,
            unstaged_changed: 2,
            unstaged_renamed: 0,
            staged_new: 0,
            staged_deleted: 3,
            staged_changed: 0,
            staged_renamed: 1,
            conflicted: 0,
        },
        upstream: Some(UpstreamStatus { ahead: 2, behind: 5 }),
        remotes: vec![
            RemoteStatus {
                url: "git@github.com:user/repo.git".to_string(),
            },
            RemoteStatus {
                url: "https://example.org/mirror.git".to_string(),
            },
        ],
        user: Some("John Doe".to_string()),
    }
}

#[test]
fn git_info_round_trips_through_the_blob() {
    let blob = encode_git_info(&sample_git_info());
    let decoded = decode_git_info(&blob).expect("a canonical blob decodes");
    let original = sample_git_info();
    assert_eq!(decoded.workdir, original.workdir);
    match (&decoded.head, &original.head) {
        (Head::Branch(a), Head::Branch(b)) => assert_eq!(a, b),
        _ => panic!("head variant changed in the round trip"),
    }
    assert_eq!(decoded.workspace, original.workspace);
    assert_eq!(decoded.upstream, original.upstream);
    assert_eq!(decoded.remotes.len(), 2);
    assert_eq!(decoded.remotes[0].url, original.remotes[0].url);
    assert_eq!(decoded.remotes[1].url, original.remotes[1].url);
    assert_eq!(decoded.user, original.user);
}

#[test]
fn git_info_round_trips_with_every_option_absent() {
    let bare = GitInfo {
        workdir: None,
        head: Head::Commit("0123abc".to_string()),
        workspace: WorkspaceStatus {
            unstaged_new: 0,
            unstaged_deleted: 0,
            unstaged_changed: 0,
            unstaged_renamed: 0,
            staged_new: 0,
            staged_deleted: 0,
            staged_changed: 0,
            staged_renamed: 0,
            conflicted: 0,
        },
        upstream: None,
        remotes: Vec::new(),
        user: None,
    };
    let blob = encode_git_info(&bare);
    let decoded = decode_git_info(&blob).expect("a canonical blob decodes");
    assert_eq!(decoded.workdir, None);
    match decoded.head {
        Head::Commit(h) => assert_eq!(h, "0123abc"),
        _ => panic!("head variant changed in the round trip"),
    }
    assert_eq!(decoded.upstream, None);
    assert_eq!(decoded.remotes.len(), 0);
    assert_eq!(decoded.user, None);
}

#[test]
fn empty_blob_means_no_data() {
    assert!(decode_git_info("").is_none());
    assert!(decode_gh_info("").is_none());
    assert!(decode_glab_info("").is_none());
}

#[test]
fn corrupt_blobs_decode_to_nothing() {
    // not base64 at all
    assert!(decode_git_info("!!!not-base64!!!").is_none());
    // valid base64, but not an encoding of a snapshot
    assert!(decode_git_info("AAECAwQ=").is_none());
    // a truncated valid blob
    let blob = encode_git_info(&sample_git_info());
    let bytes = decode_base64(&blob).unwrap();
    let truncated = encode_base64(&bytes[..bytes.len() - 3]);
    assert!(decode_git_info(&truncated).is_none());
    // a valid blob with trailing garbage
    let mut extended = bytes.clone();
    extended.push(0);
    let padded = encode_base64(&extended);
    assert!(decode_git_info(&padded).is_none());
}

#[test]
fn gh_info_round_trips_in_every_variant() {
    for (pr, actions) in [
        (None, None),
        (
            Some(PullRequest {
                number: 42,
                state: PullRequestState::Open,
                comments: 7,
                is_draft: true,
                is_approved: false,
            }),
            Some(Actions {
                status: ActionsStatus::Failure,
            }),
        ),
        (
            Some(PullRequest {
                number: -1,
                state: PullRequestState::Merged,
                comments: 0,
                is_draft: false,
                is_approved: true,
            }),
            None,
        ),
        (
            None,
            Some(Actions {
                status: ActionsStatus::Skipped,
            }),
        ),
    ] {
        let info = GhInfo {
            pull_request: pr,
            actions,
        };
        let blob = encode_gh_info(&info);
        let decoded = decode_gh_info(&blob).expect("a canonical blob decodes");
        assert_eq!(decoded.pull_request, pr);
        assert_eq!(decoded.actions, actions);
    }
}

#[test]
fn glab_info_round_trips_in_every_pipeline_state() {
    for pipeline in [
        MrPipelineState::Absent,
        MrPipelineState::Pending,
        MrPipelineState::Running,
        MrPipelineState::Success,
        MrPipelineState::Failed,
        MrPipelineState::Canceled,
    ] {
        let info = GlabInfo {
            merge_request: MergeRequest {
                number: 9,
                state: MergeRequestState::Closed,
                comments: 3,
                pipeline,
                is_draft: false,
                is_approved: true,
            },
        };
        let blob = encode_glab_info(&info);
        let decoded = decode_glab_info(&blob).expect("a canonical blob decodes");
        assert_eq!(decoded.merge_request, info.merge_request);
    }
}

#[test]
fn base64_wrappers_produce_the_standard_alphabet() {
    assert_eq!(encode_base64(b"hello world"), "aGVsbG8gd29ybGQ=");
    assert_eq!(encode_base64(b""), "");
    assert_eq!(decode_base64("aGVsbG8gd29ybGQ=").unwrap(), b"hello world");
    assert!(decode_base64("not base64!").is_err());
    // non-canonical padding is rejected, so decoding accepts exactly
    // what encoding produces
    assert!(decode_base64("aGVsbG8gd29ybGQ").is_err());
}
