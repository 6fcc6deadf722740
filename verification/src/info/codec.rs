//! The deterministic binary codec for the typed info snapshots, and the
//! base64-wrapped blob form that crosses the process boundary.
//!
//! Every number is little-endian; strings carry their character count
//! and then each character as a 32-bit scalar; options and enums carry
//! one tag byte. Decoding rejects anything the encoder cannot produce.

use vstd::prelude::*;

use crate::info::gh::{Actions, ActionsStatus, GhInfo, PullRequest, PullRequestState};
use crate::info::git::{GitInfo, Head, RemoteStatus, UpstreamStatus, WorkspaceStatus};
use crate::info::glab::{GlabInfo, MergeRequest, MergeRequestState, MrPipelineState};

verus! {

pub assume_specification[ char::from_u32 ](v: u32) -> (r: Option<char>)
    ensures
        r is Some <==> (v < 0xD800 || (0xE000 <= v && v < 0x110000)),
        r matches Some(c) ==> c as u32 == v,
;

/// The values `char::from_u32` accepts: every Unicode scalar value.
pub open spec fn valid_scalar(v: u32) -> bool {
    v < 0xD800 || (0xE000 <= v && v < 0x110000)
}

// ---------------------------------------------------------------------
// Ghost models of the info values, with mathematical string contents.
// ---------------------------------------------------------------------

pub ghost enum HeadModel {
    Branch(Seq<char>),
    Tag(Seq<char>),
    Commit(Seq<char>),
}

pub ghost struct GitInfoModel {
    pub workdir: Option<Seq<char>>,
    pub head: HeadModel,
    pub workspace: WorkspaceStatus,
    pub upstream: Option<UpstreamStatus>,
    pub remotes: Seq<Seq<char>>,
    pub user: Option<Seq<char>>,
}

impl View for Head {
    type V = HeadModel;

    open spec fn view(&self) -> HeadModel {
        match self {
            Head::Branch(s) => HeadModel::Branch(s@),
            Head::Tag(s) => HeadModel::Tag(s@),
            Head::Commit(s) => HeadModel::Commit(s@),
        }
    }
}

impl View for GitInfo {
    type V = GitInfoModel;

    open spec fn view(&self) -> GitInfoModel {
        GitInfoModel {
            workdir: match self.workdir {
                Option::Some(ref s) => Option::Some(s@),
                Option::None => Option::None,
            },
            head: self.head@,
            workspace: self.workspace,
            upstream: self.upstream,
            remotes: Seq::new(self.remotes@.len(), |i: int| self.remotes@[i].url@),
            user: match self.user {
                Option::Some(ref s) => Option::Some(s@),
                Option::None => Option::None,
            },
        }
    }
}

/// A string the machine can hold.
pub open spec fn wf_str(s: Seq<char>) -> bool {
    s.len() <= usize::MAX
}

/// A git snapshot every part of which the machine can hold.
pub open spec fn wf_git_info(m: GitInfoModel) -> bool {
    &&& match m.workdir {
        Option::Some(s) => wf_str(s),
        Option::None => true,
    }
    &&& match m.head {
        HeadModel::Branch(s) => wf_str(s),
        HeadModel::Tag(s) => wf_str(s),
        HeadModel::Commit(s) => wf_str(s),
    }
    &&& m.remotes.len() <= usize::MAX
    &&& forall|i: int| 0 <= i < m.remotes.len() ==> wf_str(#[trigger] m.remotes[i])
    &&& match m.user {
        Option::Some(s) => wf_str(s),
        Option::None => true,
    }
}

// ---------------------------------------------------------------------
// Spec encoders.
// ---------------------------------------------------------------------

pub open spec fn enc_u8(v: u8) -> Seq<u8> {
    seq![v]
}

pub open spec fn enc_u32(v: u32) -> Seq<u8> {
    seq![
        (v % 256) as u8,
        ((v / 256) % 256) as u8,
        ((v / 65536) % 256) as u8,
        ((v / 16777216) % 256) as u8,
    ]
}

pub open spec fn enc_u64(v: u64) -> Seq<u8> {
    seq![
        (v % 256) as u8,
        ((v / 256) % 256) as u8,
        ((v / 65536) % 256) as u8,
        ((v / 16777216) % 256) as u8,
        ((v / 4294967296) % 256) as u8,
        ((v / 1099511627776) % 256) as u8,
        ((v / 281474976710656) % 256) as u8,
        ((v / 72057594037927936) % 256) as u8,
    ]
}

/// A signed number, biased into the unsigned range.
pub open spec fn enc_i32(v: i32) -> Seq<u8> {
    enc_u32((v as int + 2147483648) as u32)
}

pub open spec fn enc_bool(v: bool) -> Seq<u8> {
    if v {
        seq![1u8]
    } else {
        seq![0u8]
    }
}

pub open spec fn enc_char(c: char) -> Seq<u8> {
    enc_u32(c as u32)
}

pub open spec fn enc_chars(s: Seq<char>) -> Seq<u8>
    decreases s.len(),
{
    if s.len() == 0 {
        Seq::<u8>::empty()
    } else {
        enc_char(s[0]) + enc_chars(s.skip(1))
    }
}

pub open spec fn enc_string(s: Seq<char>) -> Seq<u8> {
    enc_u64(s.len() as u64) + enc_chars(s)
}

pub open spec fn enc_opt_string(o: Option<Seq<char>>) -> Seq<u8> {
    match o {
        Option::None => seq![0u8],
        Option::Some(s) => seq![1u8] + enc_string(s),
    }
}

pub open spec fn enc_head(h: HeadModel) -> Seq<u8> {
    match h {
        HeadModel::Branch(s) => seq![0u8] + enc_string(s),
        HeadModel::Tag(s) => seq![1u8] + enc_string(s),
        HeadModel::Commit(s) => seq![2u8] + enc_string(s),
    }
}

pub open spec fn enc_workspace(w: WorkspaceStatus) -> Seq<u8> {
    enc_u32(w.unstaged_new) + enc_u32(w.unstaged_deleted) + enc_u32(w.unstaged_changed) + enc_u32(
        w.unstaged_renamed,
    ) + enc_u32(w.staged_new) + enc_u32(w.staged_deleted) + enc_u32(w.staged_changed) + enc_u32(
        w.staged_renamed,
    ) + enc_u32(w.conflicted)
}

pub open spec fn enc_opt_upstream(o: Option<UpstreamStatus>) -> Seq<u8> {
    match o {
        Option::None => seq![0u8],
        Option::Some(u) => seq![1u8] + enc_u32(u.ahead) + enc_u32(u.behind),
    }
}

pub open spec fn enc_remotes(rs: Seq<Seq<char>>) -> Seq<u8>
    decreases rs.len(),
{
    if rs.len() == 0 {
        Seq::<u8>::empty()
    } else {
        enc_string(rs[0]) + enc_remotes(rs.skip(1))
    }
}

#[verifier::opaque]
pub open spec fn enc_git_info(m: GitInfoModel) -> Seq<u8> {
    enc_opt_string(m.workdir) + enc_head(m.head) + enc_workspace(m.workspace) + enc_opt_upstream(
        m.upstream,
    ) + enc_u64(m.remotes.len() as u64) + enc_remotes(m.remotes) + enc_opt_string(m.user)
}

pub open spec fn pr_state_tag(s: PullRequestState) -> u8 {
    match s {
        PullRequestState::Open => 0,
        PullRequestState::Closed => 1,
        PullRequestState::Merged => 2,
    }
}

pub open spec fn enc_pull_request(p: PullRequest) -> Seq<u8> {
    enc_i32(p.number) + enc_u8(pr_state_tag(p.state)) + enc_i32(p.comments) + enc_bool(p.is_draft)
        + enc_bool(p.is_approved)
}

pub open spec fn actions_status_tag(s: ActionsStatus) -> u8 {
    match s {
        ActionsStatus::InProgress => 0,
        ActionsStatus::Success => 1,
        ActionsStatus::Failure => 2,
        ActionsStatus::Cancelled => 3,
        ActionsStatus::Skipped => 4,
    }
}

pub open spec fn enc_gh_info(g: GhInfo) -> Seq<u8> {
    (match g.pull_request {
        Option::None => seq![0u8],
        Option::Some(p) => seq![1u8] + enc_pull_request(p),
    }) + (match g.actions {
        Option::None => seq![0u8],
        Option::Some(a) => seq![1u8, actions_status_tag(a.status)],
    })
}

pub open spec fn mr_state_tag(s: MergeRequestState) -> u8 {
    match s {
        MergeRequestState::Open => 0,
        MergeRequestState::Closed => 1,
        MergeRequestState::Merged => 2,
    }
}

pub open spec fn mr_pipeline_tag(s: MrPipelineState) -> u8 {
    match s {
        MrPipelineState::Absent => 0,
        MrPipelineState::Pending => 1,
        MrPipelineState::Running => 2,
        MrPipelineState::Success => 3,
        MrPipelineState::Failed => 4,
        MrPipelineState::Canceled => 5,
    }
}

pub open spec fn enc_merge_request(p: MergeRequest) -> Seq<u8> {
    enc_i32(p.number) + enc_u8(mr_state_tag(p.state)) + enc_i32(p.comments) + enc_u8(
        mr_pipeline_tag(p.pipeline),
    ) + enc_bool(p.is_draft) + enc_bool(p.is_approved)
}

pub open spec fn enc_glab_info(g: GlabInfo) -> Seq<u8> {
    enc_merge_request(g.merge_request)
}

// ---------------------------------------------------------------------
// Spec decoders, by position into the byte string.
// ---------------------------------------------------------------------

pub open spec fn dec_u8(b: Seq<u8>, i: int) -> Option<(u8, int)> {
    if 0 <= i && i + 1 <= b.len() {
        Some((b[i], i + 1))
    } else {
        None
    }
}

pub open spec fn dec_u32(b: Seq<u8>, i: int) -> Option<(u32, int)> {
    if 0 <= i && i + 4 <= b.len() {
        Some(
            (
                (b[i] + 256 * b[i + 1] + 65536 * b[i + 2] + 16777216 * b[i + 3]) as u32,
                i + 4,
            ),
        )
    } else {
        None
    }
}

pub open spec fn dec_u64(b: Seq<u8>, i: int) -> Option<(u64, int)> {
    if 0 <= i && i + 8 <= b.len() {
        Some(
            (
                (b[i] + 256 * b[i + 1] + 65536 * b[i + 2] + 16777216 * b[i + 3] + 4294967296 * b[i
                    + 4] + 1099511627776 * b[i + 5] + 281474976710656 * b[i + 6]
                    + 72057594037927936 * b[i + 7]) as u64,
                i + 8,
            ),
        )
    } else {
        None
    }
}

pub open spec fn dec_i32(b: Seq<u8>, i: int) -> Option<(i32, int)> {
    match dec_u32(b, i) {
        Some((v, j)) => Some(((v as int - 2147483648) as i32, j)),
        None => None,
    }
}

pub open spec fn dec_bool(b: Seq<u8>, i: int) -> Option<(bool, int)> {
    match dec_u8(b, i) {
        Some((v, j)) => if v == 0 {
            Some((false, j))
        } else if v == 1 {
            Some((true, j))
        } else {
            None
        },
        None => None,
    }
}

pub open spec fn dec_char(b: Seq<u8>, i: int) -> Option<(char, int)> {
    match dec_u32(b, i) {
        Some((v, j)) => if valid_scalar(v) {
            Some((v as char, j))
        } else {
            None
        },
        None => None,
    }
}

pub open spec fn dec_chars(b: Seq<u8>, i: int, n: nat) -> Option<(Seq<char>, int)>
    decreases n,
{
    if n == 0 {
        if 0 <= i <= b.len() {
            Some((Seq::<char>::empty(), i))
        } else {
            None
        }
    } else {
        match dec_char(b, i) {
            Some((c, j)) => match dec_chars(b, j, (n - 1) as nat) {
                Some((s, k)) => Some((seq![c] + s, k)),
                None => None,
            },
            None => None,
        }
    }
}

pub open spec fn dec_string(b: Seq<u8>, i: int) -> Option<(Seq<char>, int)> {
    match dec_u64(b, i) {
        Some((n, j)) => dec_chars(b, j, n as nat),
        None => None,
    }
}

pub open spec fn dec_opt_string(b: Seq<u8>, i: int) -> Option<(Option<Seq<char>>, int)> {
    match dec_u8(b, i) {
        Some((t, j)) => if t == 0 {
            Some((Option::None, j))
        } else if t == 1 {
            match dec_string(b, j) {
                Some((s, k)) => Some((Option::Some(s), k)),
                None => None,
            }
        } else {
            None
        },
        None => None,
    }
}

pub open spec fn dec_head(b: Seq<u8>, i: int) -> Option<(HeadModel, int)> {
    match dec_u8(b, i) {
        Some((t, j)) => match dec_string(b, j) {
            Some((s, k)) => if t == 0 {
                Some((HeadModel::Branch(s), k))
            } else if t == 1 {
                Some((HeadModel::Tag(s), k))
            } else if t == 2 {
                Some((HeadModel::Commit(s), k))
            } else {
                None
            },
            None => None,
        },
        None => None,
    }
}

pub open spec fn dec_workspace(b: Seq<u8>, i: int) -> Option<(WorkspaceStatus, int)> {
    match dec_u32(b, i) {
        Some((un, i1)) => match dec_u32(b, i1) {
            Some((ud, i2)) => match dec_u32(b, i2) {
                Some((uc, i3)) => match dec_u32(b, i3) {
                    Some((ur, i4)) => match dec_u32(b, i4) {
                        Some((sn, i5)) => match dec_u32(b, i5) {
                            Some((sd, i6)) => match dec_u32(b, i6) {
                                Some((sc, i7)) => match dec_u32(b, i7) {
                                    Some((sr, i8)) => match dec_u32(b, i8) {
                                        Some((cf, i9)) => Some(
                                            (
                                                WorkspaceStatus {
                                                    unstaged_new: un,
                                                    unstaged_deleted: ud,
                                                    unstaged_changed: uc,
                                                    unstaged_renamed: ur,
                                                    staged_new: sn,
                                                    staged_deleted: sd,
                                                    staged_changed: sc,
                                                    staged_renamed: sr,
                                                    conflicted: cf,
                                                },
                                                i9,
                                            ),
                                        ),
                                        None => None,
                                    },
                                    None => None,
                                },
                                None => None,
                            },
                            None => None,
                        },
                        None => None,
                    },
                    None => None,
                },
                None => None,
            },
            None => None,
        },
        None => None,
    }
}

pub open spec fn dec_opt_upstream(b: Seq<u8>, i: int) -> Option<(Option<UpstreamStatus>, int)> {
    match dec_u8(b, i) {
        Some((t, j)) => if t == 0 {
            Some((Option::None, j))
        } else if t == 1 {
            match dec_u32(b, j) {
                Some((ahead, k)) => match dec_u32(b, k) {
                    Some((behind, l)) => Some((Option::Some(UpstreamStatus { ahead, behind }), l)),
                    None => None,
                },
                None => None,
            }
        } else {
            None
        },
        None => None,
    }
}

pub open spec fn dec_remotes(b: Seq<u8>, i: int, n: nat) -> Option<(Seq<Seq<char>>, int)>
    decreases n,
{
    if n == 0 {
        if 0 <= i <= b.len() {
            Some((Seq::<Seq<char>>::empty(), i))
        } else {
            None
        }
    } else {
        match dec_string(b, i) {
            Some((s, j)) => match dec_remotes(b, j, (n - 1) as nat) {
                Some((rs, k)) => Some((seq![s] + rs, k)),
                None => None,
            },
            None => None,
        }
    }
}

pub open spec fn dec_git_info(b: Seq<u8>, i: int) -> Option<(GitInfoModel, int)> {
    match dec_opt_string(b, i) {
        Some((workdir, j1)) => match dec_head(b, j1) {
            Some((head, j2)) => match dec_workspace(b, j2) {
                Some((workspace, j3)) => match dec_opt_upstream(b, j3) {
                    Some((upstream, j4)) => match dec_u64(b, j4) {
                        Some((n, j5)) => match dec_remotes(b, j5, n as nat) {
                            Some((remotes, j6)) => match dec_opt_string(b, j6) {
                                Some((user, j7)) => Some(
                                    (
                                        GitInfoModel {
                                            workdir,
                                            head,
                                            workspace,
                                            upstream,
                                            remotes,
                                            user,
                                        },
                                        j7,
                                    ),
                                ),
                                None => None,
                            },
                            None => None,
                        },
                        None => None,
                    },
                    None => None,
                },
                None => None,
            },
            None => None,
        },
        None => None,
    }
}

pub open spec fn dec_pull_request(b: Seq<u8>, i: int) -> Option<(PullRequest, int)> {
    match dec_i32(b, i) {
        Some((number, j1)) => match dec_u8(b, j1) {
            Some((t, j2)) => if t <= 2 {
                let state = if t == 0 {
                    PullRequestState::Open
                } else if t == 1 {
                    PullRequestState::Closed
                } else {
                    PullRequestState::Merged
                };
                match dec_i32(b, j2) {
                    Some((comments, j3)) => match dec_bool(b, j3) {
                        Some((is_draft, j4)) => match dec_bool(b, j4) {
                            Some((is_approved, j5)) => Some(
                                (PullRequest { number, state, comments, is_draft, is_approved }, j5),
                            ),
                            None => None,
                        },
                        None => None,
                    },
                    None => None,
                }
            } else {
                None
            },
            None => None,
        },
        None => None,
    }
}

pub open spec fn dec_gh_info(b: Seq<u8>, i: int) -> Option<(GhInfo, int)> {
    match dec_u8(b, i) {
        Some((t1, j1)) => {
            let pr = if t1 == 0 {
                Some((Option::<PullRequest>::None, j1))
            } else if t1 == 1 {
                match dec_pull_request(b, j1) {
                    Some((p, j2)) => Some((Option::Some(p), j2)),
                    None => None,
                }
            } else {
                None
            };
            match pr {
                Some((pull_request, j2)) => match dec_u8(b, j2) {
                    Some((t2, j3)) => if t2 == 0 {
                        Some((GhInfo { pull_request, actions: Option::None }, j3))
                    } else if t2 == 1 {
                        match dec_u8(b, j3) {
                            Some((t3, j4)) => if t3 <= 4 {
                                let status = if t3 == 0 {
                                    ActionsStatus::InProgress
                                } else if t3 == 1 {
                                    ActionsStatus::Success
                                } else if t3 == 2 {
                                    ActionsStatus::Failure
                                } else if t3 == 3 {
                                    ActionsStatus::Cancelled
                                } else {
                                    ActionsStatus::Skipped
                                };
                                Some(
                                    (
                                        GhInfo {
                                            pull_request,
                                            actions: Option::Some(Actions { status }),
                                        },
                                        j4,
                                    ),
                                )
                            } else {
                                None
                            },
                            None => None,
                        }
                    } else {
                        None
                    },
                    None => None,
                },
                None => None,
            }
        },
        None => None,
    }
}

pub open spec fn dec_merge_request(b: Seq<u8>, i: int) -> Option<(MergeRequest, int)> {
    match dec_i32(b, i) {
        Some((number, j1)) => match dec_u8(b, j1) {
            Some((t, j2)) => if t <= 2 {
                let state = if t == 0 {
                    MergeRequestState::Open
                } else if t == 1 {
                    MergeRequestState::Closed
                } else {
                    MergeRequestState::Merged
                };
                match dec_i32(b, j2) {
                    Some((comments, j3)) => match dec_u8(b, j3) {
                        Some((pt, j4)) => if pt <= 5 {
                            let pipeline = if pt == 0 {
                                MrPipelineState::Absent
                            } else if pt == 1 {
                                MrPipelineState::Pending
                            } else if pt == 2 {
                                MrPipelineState::Running
                            } else if pt == 3 {
                                MrPipelineState::Success
                            } else if pt == 4 {
                                MrPipelineState::Failed
                            } else {
                                MrPipelineState::Canceled
                            };
                            match dec_bool(b, j4) {
                                Some((is_draft, j5)) => match dec_bool(b, j5) {
                                    Some((is_approved, j6)) => Some(
                                        (
                                            MergeRequest {
                                                number,
                                                state,
                                                comments,
                                                pipeline,
                                                is_draft,
                                                is_approved,
                                            },
                                            j6,
                                        ),
                                    ),
                                    None => None,
                                },
                                None => None,
                            }
                        } else {
                            None
                        },
                        None => None,
                    },
                    None => None,
                }
            } else {
                None
            },
            None => None,
        },
        None => None,
    }
}

pub open spec fn dec_glab_info(b: Seq<u8>, i: int) -> Option<(GlabInfo, int)> {
    match dec_merge_request(b, i) {
        Some((merge_request, j)) => Some((GlabInfo { merge_request }, j)),
        None => None,
    }
}

// ---------------------------------------------------------------------
// Executable encoders.
// ---------------------------------------------------------------------

fn put_u8(out: &mut Vec<u8>, v: u8)
    ensures
        final(out)@ == old(out)@ + enc_u8(v),
{
    out.push(v);
    assert(out@ =~= old(out)@ + enc_u8(v));
}

fn put_u32(out: &mut Vec<u8>, v: u32)
    ensures
        final(out)@ == old(out)@ + enc_u32(v),
{
    out.push((v % 256) as u8);
    out.push(((v / 256) % 256) as u8);
    out.push(((v / 65536) % 256) as u8);
    out.push(((v / 16777216) % 256) as u8);
    assert(out@ =~= old(out)@ + enc_u32(v));
}

fn put_u64(out: &mut Vec<u8>, v: u64)
    ensures
        final(out)@ == old(out)@ + enc_u64(v),
{
    out.push((v % 256) as u8);
    out.push(((v / 256) % 256) as u8);
    out.push(((v / 65536) % 256) as u8);
    out.push(((v / 16777216) % 256) as u8);
    out.push(((v / 4294967296) % 256) as u8);
    out.push(((v / 1099511627776) % 256) as u8);
    out.push(((v / 281474976710656) % 256) as u8);
    out.push(((v / 72057594037927936) % 256) as u8);
    assert(out@ =~= old(out)@ + enc_u64(v));
}

fn put_i32(out: &mut Vec<u8>, v: i32)
    ensures
        final(out)@ == old(out)@ + enc_i32(v),
{
    let wide: i64 = v as i64 + 2147483648;
    put_u32(out, wide as u32);
}

fn put_bool(out: &mut Vec<u8>, v: bool)
    ensures
        final(out)@ == old(out)@ + enc_bool(v),
{
    if v {
        out.push(1);
    } else {
        out.push(0);
    }
    assert(out@ =~= old(out)@ + enc_bool(v));
}

/// Appending one more character appends its encoding.
proof fn lemma_enc_chars_snoc(s: Seq<char>, c: char)
    ensures
        enc_chars(s.push(c)) == enc_chars(s) + enc_char(c),
    decreases s.len(),
{
    let ext = s.push(c);
    if s.len() == 0 {
        assert(ext[0] == c);
        assert(ext.skip(1) =~= Seq::<char>::empty());
        assert(enc_chars(ext.skip(1)) == Seq::<u8>::empty());
        assert(enc_chars(ext) == enc_char(c) + enc_chars(ext.skip(1)));
        assert(enc_chars(ext) =~= enc_char(c));
        assert(enc_chars(s) + enc_char(c) =~= enc_char(c));
        assert(enc_chars(s) + enc_char(c) =~= enc_char(c));
    } else {
        lemma_enc_chars_snoc(s.skip(1), c);
        assert(ext[0] == s[0]);
        assert(ext.skip(1) =~= s.skip(1).push(c));
        assert(enc_chars(s) + enc_char(c) =~= enc_char(s[0]) + (enc_chars(s.skip(1)) + enc_char(
            c,
        )));
    }
}

fn put_chars(out: &mut Vec<u8>, s: &Vec<char>)
    ensures
        final(out)@ == old(out)@ + enc_chars(s@),
{
    let ghost base = out@;
    let mut i: usize = 0;
    proof {
        assert(s@.subrange(0, 0) =~= Seq::<char>::empty());
        assert(base + enc_chars(s@.subrange(0, 0)) =~= base);
    }
    while i < s.len()
        invariant
            i <= s@.len(),
            out@ == base + enc_chars(s@.subrange(0, i as int)),
        decreases s@.len() - i,
    {
        let c = s[i];
        put_u32(out, c as u32);
        proof {
            lemma_enc_chars_snoc(s@.subrange(0, i as int), c);
            assert(s@.subrange(0, i + 1) =~= s@.subrange(0, i as int).push(c));
            assert(base + enc_chars(s@.subrange(0, i as int)) + enc_char(c) =~= base + (enc_chars(
                s@.subrange(0, i as int),
            ) + enc_char(c)));
        }
        i = i + 1;
    }
    assert(s@.subrange(0, s@.len() as int) =~= s@);
}

fn put_string(out: &mut Vec<u8>, s: &str)
    ensures
        final(out)@ == old(out)@ + enc_string(s@),
        wf_str(s@),
{
    let n = s.unicode_len();
    put_u64(out, n as u64);
    let chars = crate::strutil::chars_of(s);
    put_chars(out, &chars);
    assert(out@ =~= old(out)@ + enc_string(s@));
}

// ---------------------------------------------------------------------
// Recomposition of little-endian bytes.
// ---------------------------------------------------------------------

proof fn lemma_u32_recompose(v: u32)
    ensures
        (v % 256) + 256 * ((v / 256) % 256) + 65536 * ((v / 65536) % 256) + 16777216 * ((v
            / 16777216) % 256) == v,
{
    assert((v % 256) + 256 * ((v / 256) % 256) + 65536 * ((v / 65536) % 256) + 16777216
        * ((v / 16777216) % 256) == v) by (bit_vector);
}

proof fn lemma_u64_recompose(v: u64)
    ensures
        (v % 256) + 256 * ((v / 256) % 256) + 65536 * ((v / 65536) % 256) + 16777216 * ((v
            / 16777216) % 256) + 4294967296 * ((v / 4294967296) % 256) + 1099511627776 * ((v
            / 1099511627776) % 256) + 281474976710656 * ((v / 281474976710656) % 256)
            + 72057594037927936 * (v / 72057594037927936) == v,
{
    assert((v % 256) + 256 * ((v / 256) % 256) + 65536 * ((v / 65536) % 256) + 16777216
        * ((v / 16777216) % 256) + 4294967296 * ((v / 4294967296) % 256) + 1099511627776
        * ((v / 1099511627776) % 256) + 281474976710656 * ((v / 281474976710656) % 256) +
        72057594037927936 * (v / 72057594037927936) == v) by (bit_vector);
}

/// Four little-endian bytes of a number decode back to it.
proof fn lemma_round_u32(b: Seq<u8>, i: int, v: u32)
    requires
        0 <= i,
        i + 4 <= b.len(),
        b.subrange(i, i + 4) == enc_u32(v),
    ensures
        dec_u32(b, i) == Some((v, i + 4)),
{
    let sub = b.subrange(i, i + 4);
    assert(b[i] == sub[0] && b[i + 1] == sub[1] && b[i + 2] == sub[2] && b[i + 3] == sub[3]);
    lemma_u32_recompose(v);
}

/// Eight little-endian bytes of a number decode back to it.
proof fn lemma_round_u64(b: Seq<u8>, i: int, v: u64)
    requires
        0 <= i,
        i + 8 <= b.len(),
        b.subrange(i, i + 8) == enc_u64(v),
    ensures
        dec_u64(b, i) == Some((v, i + 8)),
{
    let sub = b.subrange(i, i + 8);
    assert(b[i] == sub[0] && b[i + 1] == sub[1] && b[i + 2] == sub[2] && b[i + 3] == sub[3] && b[i
        + 4] == sub[4] && b[i + 5] == sub[5] && b[i + 6] == sub[6] && b[i + 7] == sub[7]);
    assert(v / 72057594037927936 < 256) by (bit_vector);
    assert((v / 72057594037927936) % 256 == v / 72057594037927936) by {
        assert(v / 72057594037927936 < 256) by (bit_vector);
    }
    lemma_u64_recompose(v);
}


/// The model of an optional owned string.
pub open spec fn view_opt_string(o: &Option<String>) -> Option<Seq<char>> {
    match o {
        Option::Some(s) => Option::Some(s@),
        Option::None => Option::None,
    }
}

/// The models of a list of remotes.
pub open spec fn views_of_remotes(rs: Seq<RemoteStatus>) -> Seq<Seq<char>> {
    Seq::new(rs.len(), |i: int| rs[i].url@)
}

/// An optional string is well formed if the string it holds is.
pub open spec fn wf_opt_str(o: Option<Seq<char>>) -> bool {
    match o {
        Option::Some(s) => wf_str(s),
        Option::None => true,
    }
}

fn put_opt_string(out: &mut Vec<u8>, o: &Option<String>)
    ensures
        final(out)@ == old(out)@ + enc_opt_string(view_opt_string(o)),
        wf_opt_str(view_opt_string(o)),
{
    match o {
        Option::None => {
            put_u8(out, 0);
            assert(out@ =~= old(out)@ + enc_opt_string(view_opt_string(o)));
        },
        Option::Some(string) => {
            put_u8(out, 1);
            put_string(out, string.as_str());
            assert(out@ =~= old(out)@ + enc_opt_string(view_opt_string(o)));
        },
    }
}

fn put_head(out: &mut Vec<u8>, h: &Head)
    ensures
        final(out)@ == old(out)@ + enc_head(h@),
        match h@ {
            HeadModel::Branch(s) => wf_str(s),
            HeadModel::Tag(s) => wf_str(s),
            HeadModel::Commit(s) => wf_str(s),
        },
{
    match h {
        Head::Branch(name) => {
            put_u8(out, 0);
            put_string(out, name.as_str());
        },
        Head::Tag(name) => {
            put_u8(out, 1);
            put_string(out, name.as_str());
        },
        Head::Commit(hash) => {
            put_u8(out, 2);
            put_string(out, hash.as_str());
        },
    }
    assert(out@ =~= old(out)@ + enc_head(h@));
}

#[verifier::rlimit(50)]
fn put_workspace(out: &mut Vec<u8>, w: &WorkspaceStatus)
    ensures
        final(out)@ == old(out)@ + enc_workspace(*w),
{
    put_u32(out, w.unstaged_new);
    put_u32(out, w.unstaged_deleted);
    put_u32(out, w.unstaged_changed);
    put_u32(out, w.unstaged_renamed);
    put_u32(out, w.staged_new);
    put_u32(out, w.staged_deleted);
    put_u32(out, w.staged_changed);
    put_u32(out, w.staged_renamed);
    put_u32(out, w.conflicted);
    assert(out@ =~= old(out)@ + enc_workspace(*w));
}

fn put_opt_upstream(out: &mut Vec<u8>, o: &Option<UpstreamStatus>)
    ensures
        final(out)@ == old(out)@ + enc_opt_upstream(*o),
{
    match o {
        Option::None => {
            put_u8(out, 0);
        },
        Option::Some(u) => {
            put_u8(out, 1);
            put_u32(out, u.ahead);
            put_u32(out, u.behind);
        },
    }
    assert(out@ =~= old(out)@ + enc_opt_upstream(*o));
}

/// Appending one more remote appends its encoding.
proof fn lemma_enc_remotes_snoc(rs: Seq<Seq<char>>, s: Seq<char>)
    ensures
        enc_remotes(rs.push(s)) == enc_remotes(rs) + enc_string(s),
    decreases rs.len(),
{
    let ext = rs.push(s);
    if rs.len() == 0 {
        assert(ext[0] == s);
        assert(ext.skip(1) =~= Seq::<Seq<char>>::empty());
        assert(enc_remotes(ext.skip(1)) == Seq::<u8>::empty());
        assert(enc_remotes(ext) == enc_string(s) + enc_remotes(ext.skip(1)));
        assert(enc_string(s) + Seq::<u8>::empty() =~= enc_string(s));
        assert(enc_remotes(rs) + enc_string(s) =~= enc_string(s));
    } else {
        lemma_enc_remotes_snoc(rs.skip(1), s);
        assert(ext[0] == rs[0]);
        assert(ext.skip(1) =~= rs.skip(1).push(s));
        assert(enc_remotes(rs) + enc_string(s) =~= enc_string(rs[0]) + (enc_remotes(rs.skip(1))
            + enc_string(s)));
    }
}

/// Serializes a git snapshot into its binary form.
pub fn encode_git_bytes(info: &GitInfo) -> (r: Vec<u8>)
    ensures
        r@ == enc_git_info(info@),
        wf_git_info(info@),
{
    let ghost m = info@;
    let mut out: Vec<u8> = Vec::new();
    put_opt_string(&mut out, &info.workdir);
    put_head(&mut out, &info.head);
    put_workspace(&mut out, &info.workspace);
    put_opt_upstream(&mut out, &info.upstream);
    let remote_count = info.remotes.len();
    put_u64(&mut out, remote_count as u64);
    let ghost before_remotes = out@;
    let mut k: usize = 0;
    proof {
        assert(m.remotes =~= views_of_remotes(info.remotes@));
        assert(m.remotes.subrange(0, 0) =~= Seq::<Seq<char>>::empty());
        assert(enc_remotes(m.remotes.subrange(0, 0)) == Seq::<u8>::empty());
        assert(before_remotes + Seq::<u8>::empty() =~= before_remotes);
    }
    while k < info.remotes.len()
        invariant
            k <= info.remotes@.len(),
            m == info@,
            m.remotes.len() == info.remotes@.len(),
            forall|j: int|
                0 <= j < m.remotes.len() ==> m.remotes[j] == #[trigger] info.remotes@[j].url@,
            out@ == before_remotes + enc_remotes(m.remotes.subrange(0, k as int)),
            forall|j: int| 0 <= j < k ==> wf_str(#[trigger] m.remotes[j]),
        decreases info.remotes@.len() - k,
    {
        put_string(&mut out, info.remotes[k].url.as_str());
        proof {
            lemma_enc_remotes_snoc(m.remotes.subrange(0, k as int), m.remotes[k as int]);
            assert(m.remotes.subrange(0, k + 1) =~= m.remotes.subrange(0, k as int).push(
                m.remotes[k as int],
            ));
            assert(before_remotes + enc_remotes(m.remotes.subrange(0, k as int)) + enc_string(
                m.remotes[k as int],
            ) =~= before_remotes + (enc_remotes(m.remotes.subrange(0, k as int)) + enc_string(
                m.remotes[k as int],
            )));
        }
        k = k + 1;
    }
    proof {
        assert(m.remotes.subrange(0, m.remotes.len() as int) =~= m.remotes);
    }
    put_opt_string(&mut out, &info.user);
    proof {
        reveal(enc_git_info);
        assert(out@ =~= enc_git_info(m));
    }
    out
}

/// Serializes the GitHub snapshot into its binary form.
pub fn encode_gh_bytes(info: &GhInfo) -> (r: Vec<u8>)
    ensures
        r@ == enc_gh_info(*info),
{
    let mut out: Vec<u8> = Vec::new();
    match &info.pull_request {
        Option::None => {
            put_u8(&mut out, 0);
        },
        Option::Some(p) => {
            put_u8(&mut out, 1);
            put_i32(&mut out, p.number);
            let tag: u8 = match p.state {
                PullRequestState::Open => 0,
                PullRequestState::Closed => 1,
                PullRequestState::Merged => 2,
            };
            put_u8(&mut out, tag);
            put_i32(&mut out, p.comments);
            put_bool(&mut out, p.is_draft);
            put_bool(&mut out, p.is_approved);
            assert(out@ =~= seq![1u8] + enc_pull_request(*p));
        },
    }
    match &info.actions {
        Option::None => {
            put_u8(&mut out, 0);
        },
        Option::Some(a) => {
            put_u8(&mut out, 1);
            let tag: u8 = match a.status {
                ActionsStatus::InProgress => 0,
                ActionsStatus::Success => 1,
                ActionsStatus::Failure => 2,
                ActionsStatus::Cancelled => 3,
                ActionsStatus::Skipped => 4,
            };
            put_u8(&mut out, tag);
        },
    }
    assert(out@ =~= enc_gh_info(*info));
    out
}

/// Serializes the GitLab snapshot into its binary form.
pub fn encode_glab_bytes(info: &GlabInfo) -> (r: Vec<u8>)
    ensures
        r@ == enc_glab_info(*info),
{
    let mut out: Vec<u8> = Vec::new();
    let p = &info.merge_request;
    put_i32(&mut out, p.number);
    let state_tag: u8 = match p.state {
        MergeRequestState::Open => 0,
        MergeRequestState::Closed => 1,
        MergeRequestState::Merged => 2,
    };
    put_u8(&mut out, state_tag);
    put_i32(&mut out, p.comments);
    let pipeline_tag: u8 = match p.pipeline {
        MrPipelineState::Absent => 0,
        MrPipelineState::Pending => 1,
        MrPipelineState::Running => 2,
        MrPipelineState::Success => 3,
        MrPipelineState::Failed => 4,
        MrPipelineState::Canceled => 5,
    };
    put_u8(&mut out, pipeline_tag);
    put_bool(&mut out, p.is_draft);
    put_bool(&mut out, p.is_approved);
    assert(out@ =~= enc_glab_info(*info));
    out
}


// ---------------------------------------------------------------------
// Executable decoders.
// ---------------------------------------------------------------------

fn get_u8(bytes: &Vec<u8>, i: usize) -> (r: Option<(u8, usize)>)
    ensures
        match r {
            Some(p) => dec_u8(bytes@, i as int) == Some((p.0, p.1 as int)),
            None => dec_u8(bytes@, i as int) is None,
        },
{
    if i < bytes.len() {
        Some((bytes[i], i + 1))
    } else {
        None
    }
}

fn get_u32(bytes: &Vec<u8>, i: usize) -> (r: Option<(u32, usize)>)
    ensures
        match r {
            Some(p) => dec_u32(bytes@, i as int) == Some((p.0, p.1 as int)),
            None => dec_u32(bytes@, i as int) is None,
        },
{
    let n = bytes.len();
    if n >= 4 && i <= n - 4 {
        let b0 = bytes[i] as u32;
        let b1 = bytes[i + 1] as u32;
        let b2 = bytes[i + 2] as u32;
        let b3 = bytes[i + 3] as u32;
        let v = b0 + 256 * b1 + 65536 * b2 + 16777216 * b3;
        Some((v, i + 4))
    } else {
        None
    }
}

fn get_u64(bytes: &Vec<u8>, i: usize) -> (r: Option<(u64, usize)>)
    ensures
        match r {
            Some(p) => dec_u64(bytes@, i as int) == Some((p.0, p.1 as int)),
            None => dec_u64(bytes@, i as int) is None,
        },
{
    let n = bytes.len();
    if n >= 8 && i <= n - 8 {
        let b0 = bytes[i] as u64;
        let b1 = bytes[i + 1] as u64;
        let b2 = bytes[i + 2] as u64;
        let b3 = bytes[i + 3] as u64;
        let b4 = bytes[i + 4] as u64;
        let b5 = bytes[i + 5] as u64;
        let b6 = bytes[i + 6] as u64;
        let b7 = bytes[i + 7] as u64;
        let v = b0 + 256 * b1 + 65536 * b2 + 16777216 * b3 + 4294967296 * b4 + 1099511627776 * b5
            + 281474976710656 * b6 + 72057594037927936 * b7;
        Some((v, i + 8))
    } else {
        None
    }
}

fn get_i32(bytes: &Vec<u8>, i: usize) -> (r: Option<(i32, usize)>)
    ensures
        match r {
            Some(p) => dec_i32(bytes@, i as int) == Some((p.0, p.1 as int)),
            None => dec_i32(bytes@, i as int) is None,
        },
{
    match get_u32(bytes, i) {
        Some((v, j)) => {
            let wide: i64 = v as i64 - 2147483648;
            Some((wide as i32, j))
        },
        None => None,
    }
}

fn get_bool(bytes: &Vec<u8>, i: usize) -> (r: Option<(bool, usize)>)
    ensures
        match r {
            Some(p) => dec_bool(bytes@, i as int) == Some((p.0, p.1 as int)),
            None => dec_bool(bytes@, i as int) is None,
        },
{
    match get_u8(bytes, i) {
        Some((v, j)) => {
            if v == 0 {
                Some((false, j))
            } else if v == 1 {
                Some((true, j))
            } else {
                None
            }
        },
        None => None,
    }
}

fn get_char(bytes: &Vec<u8>, i: usize) -> (r: Option<(char, usize)>)
    ensures
        match r {
            Some(p) => dec_char(bytes@, i as int) == Some((p.0, p.1 as int)),
            None => dec_char(bytes@, i as int) is None,
        },
{
    match get_u32(bytes, i) {
        Some((v, j)) => {
            match char::from_u32(v) {
                Some(c) => {
                    proof {
                        vstd::utf8::char_u32_cast(c, v);
                    }
                    Some((c, j))
                },
                None => None,
            }
        },
        None => None,
    }
}

/// A successful character-list decode consumes four bytes per character
/// and stays inside the byte string.
proof fn lemma_dec_chars_props(b: Seq<u8>, i: int, n: nat)
    ensures
        dec_chars(b, i, n) matches Some(p) ==> p.0.len() == n && p.1 == i + 4 * n && 0 <= i && i
            <= p.1 <= b.len(),
    decreases n,
{
    if n > 0 {
        match dec_char(b, i) {
            Some((c, j)) => {
                lemma_dec_chars_props(b, j, (n - 1) as nat);
            },
            None => {},
        }
    }
}

fn get_chars(bytes: &Vec<u8>, i: usize, n: u64) -> (r: Option<(Vec<char>, usize)>)
    ensures
        match r {
            Some(p) => dec_chars(bytes@, i as int, n as nat) == Some((p.0@, p.1 as int)),
            None => dec_chars(bytes@, i as int, n as nat) is None,
        },
{
    let total = bytes.len();
    if i > total {
        return None;
    }
    if n > total as u64 {
        proof {
            lemma_dec_chars_props(bytes@, i as int, n as nat);
        }
        return None;
    }
    let count = n as usize;
    let mut acc: Vec<char> = Vec::new();
    let mut pos: usize = i;
    let mut k: usize = 0;
    proof {
        let res0 = dec_chars(bytes@, i as int, count as nat);
        if res0 is Some {
            let pair = res0->0;
            assert(Seq::<char>::empty() + pair.0 =~= pair.0);
        }
    }
    while k < count
        invariant
            k <= count,
            count == n as nat,
            acc@.len() == k,
            pos <= bytes@.len(),
            ({
                let rest = dec_chars(bytes@, pos as int, (count - k) as nat);
                let whole = dec_chars(bytes@, i as int, count as nat);
                match rest {
                    Some(pair) => whole == Some((acc@ + pair.0, pair.1)),
                    None => whole is None,
                }
            }),
        decreases count - k,
    {
        let ghost rest_before = dec_chars(bytes@, pos as int, (count - k) as nat);
        match get_char(bytes, pos) {
            Some((c, j)) => {
                proof {
                    let tail = dec_chars(bytes@, j as int, (count - k - 1) as nat);
                    assert(rest_before == match tail {
                        Some(tail_pair) => Some((seq![c] + tail_pair.0, tail_pair.1)),
                        None => None::<(Seq<char>, int)>,
                    });
                    if tail is Some {
                        let tail_pair = tail->0;
                        assert(acc@ + (seq![c] + tail_pair.0) =~= acc@.push(c) + tail_pair.0);
                    }
                    lemma_dec_chars_props(bytes@, j as int, (count - k - 1) as nat);
                }
                acc.push(c);
                pos = j;
                k = k + 1;
            },
            None => {
                return None;
            },
        }
    }
    proof {
        assert(dec_chars(bytes@, pos as int, 0) == Some((Seq::<char>::empty(), pos as int)));
        assert(acc@ + Seq::<char>::empty() =~= acc@);
    }
    Some((acc, pos))
}

fn get_string(bytes: &Vec<u8>, i: usize) -> (r: Option<(String, usize)>)
    ensures
        match r {
            Some(p) => dec_string(bytes@, i as int) == Some((p.0@, p.1 as int)),
            None => dec_string(bytes@, i as int) is None,
        },
{
    match get_u64(bytes, i) {
        Some((n, j)) => {
            match get_chars(bytes, j, n) {
                Some((chars, k)) => {
                    let s = crate::strutil::string_from_chars(&chars);
                    Some((s, k))
                },
                None => None,
            }
        },
        None => None,
    }
}

fn get_opt_string(bytes: &Vec<u8>, i: usize) -> (r: Option<(Option<String>, usize)>)
    ensures
        match r {
            Some(p) => dec_opt_string(bytes@, i as int) == Some((view_opt_string(&p.0), p.1 as int)),
            None => dec_opt_string(bytes@, i as int) is None,
        },
{
    match get_u8(bytes, i) {
        Some((t, j)) => {
            if t == 0 {
                Some((None, j))
            } else if t == 1 {
                match get_string(bytes, j) {
                    Some((s, k)) => Some((Some(s), k)),
                    None => None,
                }
            } else {
                None
            }
        },
        None => None,
    }
}

fn get_head(bytes: &Vec<u8>, i: usize) -> (r: Option<(Head, usize)>)
    ensures
        match r {
            Some(p) => dec_head(bytes@, i as int) == Some((p.0@, p.1 as int)),
            None => dec_head(bytes@, i as int) is None,
        },
{
    match get_u8(bytes, i) {
        Some((t, j)) => {
            match get_string(bytes, j) {
                Some((s, k)) => {
                    if t == 0 {
                        Some((Head::Branch(s), k))
                    } else if t == 1 {
                        Some((Head::Tag(s), k))
                    } else if t == 2 {
                        Some((Head::Commit(s), k))
                    } else {
                        None
                    }
                },
                None => None,
            }
        },
        None => None,
    }
}

fn get_workspace(bytes: &Vec<u8>, i: usize) -> (r: Option<(WorkspaceStatus, usize)>)
    ensures
        match r {
            Some(p) => dec_workspace(bytes@, i as int) == Some((p.0, p.1 as int)),
            None => dec_workspace(bytes@, i as int) is None,
        },
{
    match get_u32(bytes, i) {
        Some((un, i1)) => match get_u32(bytes, i1) {
            Some((ud, i2)) => match get_u32(bytes, i2) {
                Some((uc, i3)) => match get_u32(bytes, i3) {
                    Some((ur, i4)) => match get_u32(bytes, i4) {
                        Some((sn, i5)) => match get_u32(bytes, i5) {
                            Some((sd, i6)) => match get_u32(bytes, i6) {
                                Some((sc, i7)) => match get_u32(bytes, i7) {
                                    Some((sr, i8)) => match get_u32(bytes, i8) {
                                        Some((cf, i9)) => Some(
                                            (
                                                WorkspaceStatus {
                                                    unstaged_new: un,
                                                    unstaged_deleted: ud,
                                                    unstaged_changed: uc,
                                                    unstaged_renamed: ur,
                                                    staged_new: sn,
                                                    staged_deleted: sd,
                                                    staged_changed: sc,
                                                    staged_renamed: sr,
                                                    conflicted: cf,
                                                },
                                                i9,
                                            ),
                                        ),
                                        None => None,
                                    },
                                    None => None,
                                },
                                None => None,
                            },
                            None => None,
                        },
                        None => None,
                    },
                    None => None,
                },
                None => None,
            },
            None => None,
        },
        None => None,
    }
}

fn get_opt_upstream(bytes: &Vec<u8>, i: usize) -> (r: Option<(Option<UpstreamStatus>, usize)>)
    ensures
        match r {
            Some(p) => dec_opt_upstream(bytes@, i as int) == Some((p.0, p.1 as int)),
            None => dec_opt_upstream(bytes@, i as int) is None,
        },
{
    match get_u8(bytes, i) {
        Some((t, j)) => {
            if t == 0 {
                Some((None, j))
            } else if t == 1 {
                match get_u32(bytes, j) {
                    Some((ahead, k)) => match get_u32(bytes, k) {
                        Some((behind, l)) => Some((Some(UpstreamStatus { ahead, behind }), l)),
                        None => None,
                    },
                    None => None,
                }
            } else {
                None
            }
        },
        None => None,
    }
}

/// A successful string decode consumes at least its length field and
/// stays inside the byte string.
proof fn lemma_dec_string_props(b: Seq<u8>, i: int)
    ensures
        dec_string(b, i) matches Some(p) ==> 0 <= i && i + 8 <= p.1 <= b.len(),
{
    match dec_u64(b, i) {
        Some((n, j)) => {
            lemma_dec_chars_props(b, j, n as nat);
        },
        None => {},
    }
}

/// A successful remote-list decode consumes at least eight bytes per
/// remote and stays inside the byte string.
proof fn lemma_dec_remotes_props(b: Seq<u8>, i: int, n: nat)
    ensures
        dec_remotes(b, i, n) matches Some(p) ==> p.0.len() == n && 0 <= i && i <= p.1 <= b.len()
            && p.1 - i >= 8 * n,
    decreases n,
{
    if n > 0 {
        lemma_dec_string_props(b, i);
        match dec_string(b, i) {
            Some((s, j)) => {
                lemma_dec_remotes_props(b, j, (n - 1) as nat);
            },
            None => {},
        }
    }
}

fn get_remotes(bytes: &Vec<u8>, i: usize, n: u64) -> (r: Option<(Vec<RemoteStatus>, usize)>)
    ensures
        match r {
            Some(p) => dec_remotes(bytes@, i as int, n as nat) == Some(
                (views_of_remotes(p.0@), p.1 as int),
            ),
            None => dec_remotes(bytes@, i as int, n as nat) is None,
        },
{
    let total = bytes.len();
    if i > total {
        return None;
    }
    if n > total as u64 {
        proof {
            lemma_dec_remotes_props(bytes@, i as int, n as nat);
        }
        return None;
    }
    let count = n as usize;
    let mut acc: Vec<RemoteStatus> = Vec::new();
    let mut pos: usize = i;
    let mut k: usize = 0;
    proof {
        let res0 = dec_remotes(bytes@, i as int, count as nat);
        if res0 is Some {
            let pair = res0->0;
            assert(views_of_remotes(acc@) =~= Seq::<Seq<char>>::empty());
            assert(Seq::<Seq<char>>::empty() + pair.0 =~= pair.0);
        }
    }
    while k < count
        invariant
            k <= count,
            count == n as nat,
            acc@.len() == k,
            pos <= bytes@.len(),
            ({
                let rest = dec_remotes(bytes@, pos as int, (count - k) as nat);
                let whole = dec_remotes(bytes@, i as int, count as nat);
                match rest {
                    Some(pair) => whole == Some((views_of_remotes(acc@) + pair.0, pair.1)),
                    None => whole is None,
                }
            }),
        decreases count - k,
    {
        match get_string(bytes, pos) {
            Some((url, j)) => {
                proof {
                    let tail = dec_remotes(bytes@, j as int, (count - k - 1) as nat);
                    assert(dec_remotes(bytes@, pos as int, (count - k) as nat) == match tail {
                        Some(tail_pair) => Some((seq![url@] + tail_pair.0, tail_pair.1)),
                        None => None::<(Seq<Seq<char>>, int)>,
                    });
                    if tail is Some {
                        let tail_pair = tail->0;
                        assert(views_of_remotes(acc@.push(RemoteStatus { url: url }))
                            =~= views_of_remotes(acc@).push(url@));
                        assert(views_of_remotes(acc@) + (seq![url@] + tail_pair.0)
                            =~= views_of_remotes(acc@).push(url@) + tail_pair.0);
                    }
                    lemma_dec_string_props(bytes@, pos as int);
                    lemma_dec_remotes_props(bytes@, j as int, (count - k - 1) as nat);
                }
                acc.push(RemoteStatus { url });
                pos = j;
                k = k + 1;
            },
            None => {
                return None;
            },
        }
    }
    proof {
        assert(dec_remotes(bytes@, pos as int, 0) == Some(
            (Seq::<Seq<char>>::empty(), pos as int),
        ));
        assert(views_of_remotes(acc@) + Seq::<Seq<char>>::empty() =~= views_of_remotes(acc@));
    }
    Some((acc, pos))
}

/// The model a full binary git blob decodes to, if the whole input is
/// one well-formed encoding.
pub open spec fn spec_decode_git_bytes(b: Seq<u8>) -> Option<GitInfoModel> {
    match dec_git_info(b, 0) {
        Some((m, j)) => if j == b.len() {
            Some(m)
        } else {
            None
        },
        None => None,
    }
}

/// Deserializes a git snapshot; fails on anything the encoder cannot
/// produce, on trailing bytes included.
pub fn decode_git_bytes(bytes: &Vec<u8>) -> (r: Option<GitInfo>)
    ensures
        match r {
            Some(info) => spec_decode_git_bytes(bytes@) == Some(info@),
            None => spec_decode_git_bytes(bytes@) is None,
        },
{
    let (workdir, i1) = match get_opt_string(bytes, 0) {
        Some(p) => p,
        None => {
            return None;
        },
    };
    let (head, i2) = match get_head(bytes, i1) {
        Some(p) => p,
        None => {
            return None;
        },
    };
    let (workspace, i3) = match get_workspace(bytes, i2) {
        Some(p) => p,
        None => {
            return None;
        },
    };
    let (upstream, i4) = match get_opt_upstream(bytes, i3) {
        Some(p) => p,
        None => {
            return None;
        },
    };
    let (remote_count, i5) = match get_u64(bytes, i4) {
        Some(p) => p,
        None => {
            return None;
        },
    };
    let (remotes, i6) = match get_remotes(bytes, i5, remote_count) {
        Some(p) => p,
        None => {
            return None;
        },
    };
    let (user, i7) = match get_opt_string(bytes, i6) {
        Some(p) => p,
        None => {
            return None;
        },
    };
    if i7 != bytes.len() {
        return None;
    }
    let info = GitInfo { workdir, head, workspace, upstream, remotes, user };
    proof {
        assert(info@.remotes =~= views_of_remotes(info.remotes@));
    }
    Some(info)
}

/// The value a full binary GitHub blob decodes to, if the whole input
/// is one well-formed encoding.
pub open spec fn spec_decode_gh_bytes(b: Seq<u8>) -> Option<GhInfo> {
    match dec_gh_info(b, 0) {
        Some((g, j)) => if j == b.len() {
            Some(g)
        } else {
            None
        },
        None => None,
    }
}

/// Reads one pull request at a position.
#[verifier::rlimit(100)]
fn get_pull_request(bytes: &Vec<u8>, i: usize) -> (r: Option<(PullRequest, usize)>)
    ensures
        match r {
            Some(p) => dec_pull_request(bytes@, i as int) == Some((p.0, p.1 as int)),
            None => dec_pull_request(bytes@, i as int) is None,
        },
{
    let (number, j1) = match get_i32(bytes, i) {
        Some(p) => p,
        None => {
            return None;
        },
    };
    let (t, j2) = match get_u8(bytes, j1) {
        Some(p) => p,
        None => {
            return None;
        },
    };
    if t > 2 {
        return None;
    }
    let state = if t == 0 {
        PullRequestState::Open
    } else if t == 1 {
        PullRequestState::Closed
    } else {
        PullRequestState::Merged
    };
    let (comments, j3) = match get_i32(bytes, j2) {
        Some(p) => p,
        None => {
            return None;
        },
    };
    let (is_draft, j4) = match get_bool(bytes, j3) {
        Some(p) => p,
        None => {
            return None;
        },
    };
    let (is_approved, j5) = match get_bool(bytes, j4) {
        Some(p) => p,
        None => {
            return None;
        },
    };
    Some((PullRequest { number, state, comments, is_draft, is_approved }, j5))
}

/// Deserializes the GitHub snapshot; fails on anything the encoder
/// cannot produce, on trailing bytes included.
#[verifier::rlimit(100)]
#[verifier::spinoff_prover]
pub fn decode_gh_bytes(bytes: &Vec<u8>) -> (r: Option<GhInfo>)
    ensures
        match r {
            Some(info) => spec_decode_gh_bytes(bytes@) == Some(info),
            None => spec_decode_gh_bytes(bytes@) is None,
        },
{
    let (t1, i1) = match get_u8(bytes, 0) {
        Some(p) => p,
        None => {
            return None;
        },
    };
    let (pull_request, i2) = if t1 == 0 {
        (None, i1)
    } else if t1 == 1 {
        match get_pull_request(bytes, i1) {
            Some(p) => (Some(p.0), p.1),
            None => {
                return None;
            },
        }
    } else {
        return None;
    };
    let (t2, i3) = match get_u8(bytes, i2) {
        Some(p) => p,
        None => {
            return None;
        },
    };
    let (actions, i4) = if t2 == 0 {
        (None, i3)
    } else if t2 == 1 {
        let (t3, j1) = match get_u8(bytes, i3) {
            Some(p) => p,
            None => {
                return None;
            },
        };
        if t3 > 4 {
            return None;
        }
        let status = if t3 == 0 {
            ActionsStatus::InProgress
        } else if t3 == 1 {
            ActionsStatus::Success
        } else if t3 == 2 {
            ActionsStatus::Failure
        } else if t3 == 3 {
            ActionsStatus::Cancelled
        } else {
            ActionsStatus::Skipped
        };
        (Some(Actions { status }), j1)
    } else {
        return None;
    };
    if i4 != bytes.len() {
        return None;
    }
    Some(GhInfo { pull_request, actions })
}

/// The value a full binary GitLab blob decodes to, if the whole input
/// is one well-formed encoding.
pub open spec fn spec_decode_glab_bytes(b: Seq<u8>) -> Option<GlabInfo> {
    match dec_glab_info(b, 0) {
        Some((g, j)) => if j == b.len() {
            Some(g)
        } else {
            None
        },
        None => None,
    }
}

/// Deserializes the GitLab snapshot; fails on anything the encoder
/// cannot produce, on trailing bytes included.
pub fn decode_glab_bytes(bytes: &Vec<u8>) -> (r: Option<GlabInfo>)
    ensures
        match r {
            Some(info) => spec_decode_glab_bytes(bytes@) == Some(info),
            None => spec_decode_glab_bytes(bytes@) is None,
        },
{
    let (number, j1) = match get_i32(bytes, 0) {
        Some(p) => p,
        None => {
            return None;
        },
    };
    let (t, j2) = match get_u8(bytes, j1) {
        Some(p) => p,
        None => {
            return None;
        },
    };
    if t > 2 {
        return None;
    }
    let state = if t == 0 {
        MergeRequestState::Open
    } else if t == 1 {
        MergeRequestState::Closed
    } else {
        MergeRequestState::Merged
    };
    let (comments, j3) = match get_i32(bytes, j2) {
        Some(p) => p,
        None => {
            return None;
        },
    };
    let (pt, j4) = match get_u8(bytes, j3) {
        Some(p) => p,
        None => {
            return None;
        },
    };
    if pt > 5 {
        return None;
    }
    let pipeline = if pt == 0 {
        MrPipelineState::Absent
    } else if pt == 1 {
        MrPipelineState::Pending
    } else if pt == 2 {
        MrPipelineState::Running
    } else if pt == 3 {
        MrPipelineState::Success
    } else if pt == 4 {
        MrPipelineState::Failed
    } else {
        MrPipelineState::Canceled
    };
    let (is_draft, j5) = match get_bool(bytes, j4) {
        Some(p) => p,
        None => {
            return None;
        },
    };
    let (is_approved, j6) = match get_bool(bytes, j5) {
        Some(p) => p,
        None => {
            return None;
        },
    };
    if j6 != bytes.len() {
        return None;
    }
    Some(
        GlabInfo {
            merge_request: MergeRequest { number, state, comments, pipeline, is_draft, is_approved },
        },
    )
}


// ---------------------------------------------------------------------
// Round trip: whatever the encoders produce, the decoders take back.
// ---------------------------------------------------------------------

/// A range holding a concatenation splits into ranges holding the
/// parts.
proof fn lemma_split(b: Seq<u8>, i: int, x: Seq<u8>, y: Seq<u8>)
    requires
        0 <= i,
        i + x.len() + y.len() <= b.len(),
        b.subrange(i, i + x.len() + y.len()) == x + y,
    ensures
        b.subrange(i, i + x.len()) == x,
        b.subrange(i + x.len(), i + x.len() + y.len()) == y,
{
    let whole = b.subrange(i, i + x.len() + y.len());
    assert forall|m: int| 0 <= m < x.len() implies b.subrange(i, i + x.len())[m] == x[m] by {
        assert(whole[m] == (x + y)[m]);
    }
    assert(b.subrange(i, i + x.len()) =~= x);
    assert forall|m: int| 0 <= m < y.len() implies b.subrange(
        i + x.len(),
        i + x.len() + y.len(),
    )[m] == y[m] by {
        assert(whole[x.len() + m] == (x + y)[x.len() + m]);
    }
    assert(b.subrange(i + x.len(), i + x.len() + y.len()) =~= y);
}

/// The encoding of a character list is four bytes per character.
proof fn lemma_enc_chars_len(s: Seq<char>)
    ensures
        enc_chars(s).len() == 4 * s.len(),
    decreases s.len(),
{
    if s.len() > 0 {
        lemma_enc_chars_len(s.skip(1));
    }
}

proof fn lemma_round_i32(b: Seq<u8>, i: int, v: i32)
    requires
        0 <= i,
        i + 4 <= b.len(),
        b.subrange(i, i + 4) == enc_i32(v),
    ensures
        dec_i32(b, i) == Some((v, i + 4)),
{
    lemma_round_u32(b, i, (v as int + 2147483648) as u32);
}

proof fn lemma_round_bool(b: Seq<u8>, i: int, v: bool)
    requires
        0 <= i,
        i + 1 <= b.len(),
        b.subrange(i, i + 1) == enc_bool(v),
    ensures
        dec_bool(b, i) == Some((v, i + 1)),
{
    assert(b[i] == b.subrange(i, i + 1)[0]);
}

proof fn lemma_round_char(b: Seq<u8>, i: int, c: char)
    requires
        0 <= i,
        i + 4 <= b.len(),
        b.subrange(i, i + 4) == enc_char(c),
    ensures
        dec_char(b, i) == Some((c, i + 4)),
{
    lemma_round_u32(b, i, c as u32);
    assert(valid_scalar(c as u32));
    vstd::utf8::char_u32_cast(c, c as u32);
}

proof fn lemma_round_chars(b: Seq<u8>, i: int, s: Seq<char>)
    requires
        0 <= i,
        i + 4 * s.len() <= b.len(),
        b.subrange(i, i + 4 * s.len()) == enc_chars(s),
    ensures
        dec_chars(b, i, s.len()) == Some((s, i + 4 * s.len())),
    decreases s.len(),
{
    if s.len() == 0 {
    } else {
        lemma_enc_chars_len(s.skip(1));
        lemma_split(b, i, enc_char(s[0]), enc_chars(s.skip(1)));
        lemma_round_char(b, i, s[0]);
        lemma_round_chars(b, i + 4, s.skip(1));
        assert(seq![s[0]] + s.skip(1) =~= s);
        assert(i + 4 + 4 * s.skip(1).len() == i + 4 * s.len());
    }
}

proof fn lemma_round_string(b: Seq<u8>, i: int, s: Seq<char>)
    requires
        wf_str(s),
        0 <= i,
        i + enc_string(s).len() <= b.len(),
        b.subrange(i, i + enc_string(s).len()) == enc_string(s),
    ensures
        dec_string(b, i) == Some((s, i + enc_string(s).len())),
        enc_string(s).len() == 8 + 4 * s.len(),
{
    lemma_enc_chars_len(s);
    lemma_split(b, i, enc_u64(s.len() as u64), enc_chars(s));
    lemma_round_u64(b, i, s.len() as u64);
    assert((s.len() as u64) as nat == s.len());
    lemma_round_chars(b, i + 8, s);
}

proof fn lemma_round_opt_string(b: Seq<u8>, i: int, o: Option<Seq<char>>)
    requires
        wf_opt_str(o),
        0 <= i,
        i + enc_opt_string(o).len() <= b.len(),
        b.subrange(i, i + enc_opt_string(o).len()) == enc_opt_string(o),
    ensures
        dec_opt_string(b, i) == Some((o, i + enc_opt_string(o).len())),
{
    match o {
        Option::None => {
            assert(b[i] == b.subrange(i, i + 1)[0]);
        },
        Option::Some(s) => {
            lemma_split(b, i, seq![1u8], enc_string(s));
            assert(b[i] == b.subrange(i, i + 1)[0]);
            lemma_round_string(b, i + 1, s);
        },
    }
}

proof fn lemma_round_head(b: Seq<u8>, i: int, h: HeadModel)
    requires
        match h {
            HeadModel::Branch(s) => wf_str(s),
            HeadModel::Tag(s) => wf_str(s),
            HeadModel::Commit(s) => wf_str(s),
        },
        0 <= i,
        i + enc_head(h).len() <= b.len(),
        b.subrange(i, i + enc_head(h).len()) == enc_head(h),
    ensures
        dec_head(b, i) == Some((h, i + enc_head(h).len())),
{
    match h {
        HeadModel::Branch(s) => {
            lemma_split(b, i, seq![0u8], enc_string(s));
            assert(b[i] == b.subrange(i, i + 1)[0]);
            lemma_round_string(b, i + 1, s);
        },
        HeadModel::Tag(s) => {
            lemma_split(b, i, seq![1u8], enc_string(s));
            assert(b[i] == b.subrange(i, i + 1)[0]);
            lemma_round_string(b, i + 1, s);
        },
        HeadModel::Commit(s) => {
            lemma_split(b, i, seq![2u8], enc_string(s));
            assert(b[i] == b.subrange(i, i + 1)[0]);
            lemma_round_string(b, i + 1, s);
        },
    }
}

#[verifier::rlimit(100)]
proof fn lemma_round_workspace(b: Seq<u8>, i: int, w: WorkspaceStatus)
    requires
        0 <= i,
        i + 36 <= b.len(),
        b.subrange(i, i + 36) == enc_workspace(w),
    ensures
        dec_workspace(b, i) == Some((w, i + 36)),
{
    let front1 = enc_u32(w.unstaged_new) + enc_u32(w.unstaged_deleted) + enc_u32(w.unstaged_changed)
        + enc_u32(w.unstaged_renamed) + enc_u32(w.staged_new) + enc_u32(w.staged_deleted) + enc_u32(
        w.staged_changed,
    ) + enc_u32(w.staged_renamed);
    lemma_split(b, i, front1, enc_u32(w.conflicted));
    let front2 = enc_u32(w.unstaged_new) + enc_u32(w.unstaged_deleted) + enc_u32(w.unstaged_changed)
        + enc_u32(w.unstaged_renamed) + enc_u32(w.staged_new) + enc_u32(w.staged_deleted) + enc_u32(
        w.staged_changed,
    );
    lemma_split(b, i, front2, enc_u32(w.staged_renamed));
    let front3 = enc_u32(w.unstaged_new) + enc_u32(w.unstaged_deleted) + enc_u32(w.unstaged_changed)
        + enc_u32(w.unstaged_renamed) + enc_u32(w.staged_new) + enc_u32(w.staged_deleted);
    lemma_split(b, i, front3, enc_u32(w.staged_changed));
    let front4 = enc_u32(w.unstaged_new) + enc_u32(w.unstaged_deleted) + enc_u32(w.unstaged_changed)
        + enc_u32(w.unstaged_renamed) + enc_u32(w.staged_new);
    lemma_split(b, i, front4, enc_u32(w.staged_deleted));
    let front5 = enc_u32(w.unstaged_new) + enc_u32(w.unstaged_deleted) + enc_u32(w.unstaged_changed)
        + enc_u32(w.unstaged_renamed);
    lemma_split(b, i, front5, enc_u32(w.staged_new));
    let front6 = enc_u32(w.unstaged_new) + enc_u32(w.unstaged_deleted) + enc_u32(w.unstaged_changed);
    lemma_split(b, i, front6, enc_u32(w.unstaged_renamed));
    let front7 = enc_u32(w.unstaged_new) + enc_u32(w.unstaged_deleted);
    lemma_split(b, i, front7, enc_u32(w.unstaged_changed));
    lemma_split(b, i, enc_u32(w.unstaged_new), enc_u32(w.unstaged_deleted));
    lemma_round_u32(b, i, w.unstaged_new);
    lemma_round_u32(b, i + 4, w.unstaged_deleted);
    lemma_round_u32(b, i + 8, w.unstaged_changed);
    lemma_round_u32(b, i + 12, w.unstaged_renamed);
    lemma_round_u32(b, i + 16, w.staged_new);
    lemma_round_u32(b, i + 20, w.staged_deleted);
    lemma_round_u32(b, i + 24, w.staged_changed);
    lemma_round_u32(b, i + 28, w.staged_renamed);
    lemma_round_u32(b, i + 32, w.conflicted);
}

proof fn lemma_round_opt_upstream(b: Seq<u8>, i: int, o: Option<UpstreamStatus>)
    requires
        0 <= i,
        i + enc_opt_upstream(o).len() <= b.len(),
        b.subrange(i, i + enc_opt_upstream(o).len()) == enc_opt_upstream(o),
    ensures
        dec_opt_upstream(b, i) == Some((o, i + enc_opt_upstream(o).len())),
{
    match o {
        Option::None => {
            assert(b[i] == b.subrange(i, i + 1)[0]);
        },
        Option::Some(u) => {
            lemma_split(b, i, seq![1u8] + enc_u32(u.ahead), enc_u32(u.behind));
            lemma_split(b, i, seq![1u8], enc_u32(u.ahead));
            assert(b[i] == b.subrange(i, i + 1)[0]);
            lemma_round_u32(b, i + 1, u.ahead);
            lemma_round_u32(b, i + 5, u.behind);
        },
    }
}

proof fn lemma_round_remotes(b: Seq<u8>, i: int, rs: Seq<Seq<char>>)
    requires
        forall|k: int| 0 <= k < rs.len() ==> wf_str(#[trigger] rs[k]),
        0 <= i,
        i + enc_remotes(rs).len() <= b.len(),
        b.subrange(i, i + enc_remotes(rs).len()) == enc_remotes(rs),
    ensures
        dec_remotes(b, i, rs.len()) == Some((rs, i + enc_remotes(rs).len())),
    decreases rs.len(),
{
    if rs.len() == 0 {
    } else {
        lemma_split(b, i, enc_string(rs[0]), enc_remotes(rs.skip(1)));
        lemma_round_string(b, i, rs[0]);
        lemma_round_remotes(b, i + enc_string(rs[0]).len(), rs.skip(1));
        assert(seq![rs[0]] + rs.skip(1) =~= rs);
    }
}

/// The pieces of an encoded git snapshot stand at their offsets.
#[verifier::rlimit(100)]
#[verifier::spinoff_prover]
proof fn lemma_git_fields(b: Seq<u8>, m: GitInfoModel)
    requires
        b == enc_git_info(m),
    ensures
        ({
            let e1 = enc_opt_string(m.workdir);
            let e2 = enc_head(m.head);
            let e3 = enc_workspace(m.workspace);
            let e4 = enc_opt_upstream(m.upstream);
            let e5 = enc_u64(m.remotes.len() as u64);
            let e6 = enc_remotes(m.remotes);
            let e7 = enc_opt_string(m.user);
            let i1 = e1.len() as int;
            let i2 = i1 + e2.len();
            let i3 = i2 + e3.len();
            let i4 = i3 + e4.len();
            let i5 = i4 + e5.len();
            let i6 = i5 + e6.len();
            let i7 = i6 + e7.len();
            &&& i7 == b.len()
            &&& b.subrange(0, i1) == e1
            &&& b.subrange(i1, i2) == e2
            &&& b.subrange(i2, i3) == e3
            &&& b.subrange(i3, i4) == e4
            &&& b.subrange(i4, i5) == e5
            &&& b.subrange(i5, i6) == e6
            &&& b.subrange(i6, i7) == e7
        }),
{
    reveal(enc_git_info);
    let e1 = enc_opt_string(m.workdir);
    let e2 = enc_head(m.head);
    let e3 = enc_workspace(m.workspace);
    let e4 = enc_opt_upstream(m.upstream);
    let e5 = enc_u64(m.remotes.len() as u64);
    let e6 = enc_remotes(m.remotes);
    let e7 = enc_opt_string(m.user);
    assert(b.subrange(0, b.len() as int) =~= b);
    lemma_split(b, 0, e1 + e2 + e3 + e4 + e5 + e6, e7);
    lemma_split(b, 0, e1 + e2 + e3 + e4 + e5, e6);
    lemma_split(b, 0, e1 + e2 + e3 + e4, e5);
    lemma_split(b, 0, e1 + e2 + e3, e4);
    lemma_split(b, 0, e1 + e2, e3);
    lemma_split(b, 0, e1, e2);
}

/// Cumulative offsets of the pieces of an encoded git snapshot.
pub open spec fn git_off1(m: GitInfoModel) -> int {
    enc_opt_string(m.workdir).len() as int
}

pub open spec fn git_off2(m: GitInfoModel) -> int {
    git_off1(m) + enc_head(m.head).len()
}

pub open spec fn git_off3(m: GitInfoModel) -> int {
    git_off2(m) + 36
}

pub open spec fn git_off4(m: GitInfoModel) -> int {
    git_off3(m) + enc_opt_upstream(m.upstream).len()
}

pub open spec fn git_off5(m: GitInfoModel) -> int {
    git_off4(m) + 8
}

pub open spec fn git_off6(m: GitInfoModel) -> int {
    git_off5(m) + enc_remotes(m.remotes).len()
}

pub open spec fn git_off7(m: GitInfoModel) -> int {
    git_off6(m) + enc_opt_string(m.user).len()
}

/// The first pieces of an encoded git snapshot decode at their
/// offsets.
#[verifier::rlimit(100)]
#[verifier::spinoff_prover]
proof fn lemma_git_round_part1(b: Seq<u8>, m: GitInfoModel)
    requires
        wf_git_info(m),
        b == enc_git_info(m),
    ensures
        b.len() == git_off7(m),
        dec_opt_string(b, 0) == Some((m.workdir, git_off1(m))),
        dec_head(b, git_off1(m)) == Some((m.head, git_off2(m))),
{
    lemma_git_fields(b, m);
    assert(dec_opt_string(b, 0) == Some((m.workdir, git_off1(m)))) by {
        lemma_round_opt_string(b, 0, m.workdir);
    }
    assert(dec_head(b, git_off1(m)) == Some((m.head, git_off2(m)))) by {
        lemma_round_head(b, git_off1(m), m.head);
    }
}

/// The working-tree piece of an encoded git snapshot decodes at its
/// offset.
#[verifier::rlimit(100)]
#[verifier::spinoff_prover]
proof fn lemma_git_round_workspace(b: Seq<u8>, m: GitInfoModel)
    requires
        wf_git_info(m),
        b == enc_git_info(m),
    ensures
        dec_workspace(b, git_off2(m)) == Some((m.workspace, git_off3(m))),
{
    lemma_git_fields(b, m);
    lemma_round_workspace(b, git_off2(m), m.workspace);
}

/// The upstream piece of an encoded git snapshot decodes at its
/// offset.
#[verifier::rlimit(100)]
#[verifier::spinoff_prover]
proof fn lemma_git_round_upstream(b: Seq<u8>, m: GitInfoModel)
    requires
        wf_git_info(m),
        b == enc_git_info(m),
    ensures
        dec_opt_upstream(b, git_off3(m)) == Some((m.upstream, git_off4(m))),
{
    lemma_git_fields(b, m);
    lemma_round_opt_upstream(b, git_off3(m), m.upstream);
}

/// The last pieces of an encoded git snapshot decode at their offsets.
#[verifier::rlimit(100)]
#[verifier::spinoff_prover]
proof fn lemma_git_round_part2(b: Seq<u8>, m: GitInfoModel)
    requires
        wf_git_info(m),
        b == enc_git_info(m),
    ensures
        dec_u64(b, git_off4(m)) == Some((m.remotes.len() as u64, git_off5(m))),
        (m.remotes.len() as u64) as nat == m.remotes.len(),
        dec_remotes(b, git_off5(m), m.remotes.len()) == Some((m.remotes, git_off6(m))),
        dec_opt_string(b, git_off6(m)) == Some((m.user, git_off7(m))),
{
    lemma_git_fields(b, m);
    assert(dec_u64(b, git_off4(m)) == Some((m.remotes.len() as u64, git_off5(m)))) by {
        lemma_round_u64(b, git_off4(m), m.remotes.len() as u64);
    }
    assert(dec_remotes(b, git_off5(m), m.remotes.len()) == Some((m.remotes, git_off6(m)))) by {
        lemma_round_remotes(b, git_off5(m), m.remotes);
    }
    assert(dec_opt_string(b, git_off6(m)) == Some((m.user, git_off7(m)))) by {
        lemma_round_opt_string(b, git_off6(m), m.user);
    }
}

/// The binary encoding of a git snapshot decodes back to it, with
/// nothing left over.
#[verifier::rlimit(100)]
#[verifier::spinoff_prover]
pub proof fn lemma_git_round_trip(m: GitInfoModel)
    requires
        wf_git_info(m),
    ensures
        spec_decode_git_bytes(enc_git_info(m)) == Some(m),
{
    let b = enc_git_info(m);
    lemma_git_round_part1(b, m);
    lemma_git_round_workspace(b, m);
    lemma_git_round_upstream(b, m);
    lemma_git_round_part2(b, m);
    assert(dec_git_info(b, 0) == Some((m, git_off7(m))));
}

/// A range holding the encoding of one pull request decodes to it.
#[verifier::rlimit(100)]
#[verifier::spinoff_prover]
proof fn lemma_round_pull_request(b: Seq<u8>, i: int, p: PullRequest)
    requires
        0 <= i,
        i + 11 <= b.len(),
        b.subrange(i, i + 11) == enc_pull_request(p),
    ensures
        dec_pull_request(b, i) == Some((p, i + 11)),
{
    assert(enc_i32(p.number).len() == 4);
    assert(enc_u8(pr_state_tag(p.state)).len() == 1);
    assert(enc_i32(p.comments).len() == 4);
    assert(enc_bool(p.is_draft).len() == 1);
    assert(enc_bool(p.is_approved).len() == 1);
    lemma_split(
        b,
        i,
        enc_i32(p.number) + enc_u8(pr_state_tag(p.state)) + enc_i32(p.comments) + enc_bool(
            p.is_draft,
        ),
        enc_bool(p.is_approved),
    );
    lemma_split(
        b,
        i,
        enc_i32(p.number) + enc_u8(pr_state_tag(p.state)) + enc_i32(p.comments),
        enc_bool(p.is_draft),
    );
    lemma_split(b, i, enc_i32(p.number) + enc_u8(pr_state_tag(p.state)), enc_i32(p.comments));
    lemma_split(b, i, enc_i32(p.number), enc_u8(pr_state_tag(p.state)));
    lemma_round_i32(b, i, p.number);
    assert(b[i + 4] == b.subrange(i + 4, i + 5)[0]);
    lemma_round_i32(b, i + 5, p.comments);
    lemma_round_bool(b, i + 9, p.is_draft);
    lemma_round_bool(b, i + 10, p.is_approved);
}

/// The binary encoding of the GitHub snapshot decodes back to it, with
/// nothing left over.
#[verifier::rlimit(100)]
#[verifier::spinoff_prover]
pub proof fn lemma_gh_round_trip(g: GhInfo)
    ensures
        spec_decode_gh_bytes(enc_gh_info(g)) == Some(g),
{
    let b = enc_gh_info(g);
    let e1 = match g.pull_request {
        Option::None => seq![0u8],
        Option::Some(p) => seq![1u8] + enc_pull_request(p),
    };
    let e2 = match g.actions {
        Option::None => seq![0u8],
        Option::Some(a) => seq![1u8, actions_status_tag(a.status)],
    };
    let i1 = e1.len() as int;
    let i2 = i1 + e2.len();
    assert(b.subrange(0, b.len() as int) =~= b);
    lemma_split(b, 0, e1, e2);
    assert(i2 == b.len());
    match g.pull_request {
        Option::None => {
            assert(b[0] == b.subrange(0, i1)[0]);
            assert(dec_u8(b, 0) == Some((0u8, 1int)));
        },
        Option::Some(p) => {
            assert(dec_pull_request(b, 1) == Some((p, i1))) by {
                lemma_split(b, 0, seq![1u8], enc_pull_request(p));
                lemma_round_pull_request(b, 1, p);
            }
            assert(b[0] == b.subrange(0, 1)[0]) by {
                lemma_split(b, 0, seq![1u8], enc_pull_request(p));
            }
            assert(dec_u8(b, 0) == Some((1u8, 1int)));
        },
    }
    match g.actions {
        Option::None => {
            assert(b[i1] == b.subrange(i1, i2)[0]);
            assert(dec_u8(b, i1) == Some((0u8, i1 + 1)));
        },
        Option::Some(a) => {
            assert(b[i1] == b.subrange(i1, i2)[0]);
            assert(b[i1 + 1] == b.subrange(i1, i2)[1]);
            assert(dec_u8(b, i1) == Some((1u8, i1 + 1)));
            assert(dec_u8(b, i1 + 1) == Some((actions_status_tag(a.status), i1 + 2)));
        },
    }
}

/// The binary encoding of the GitLab snapshot decodes back to it, with
/// nothing left over.
#[verifier::rlimit(100)]
pub proof fn lemma_glab_round_trip(g: GlabInfo)
    ensures
        spec_decode_glab_bytes(enc_glab_info(g)) == Some(g),
{
    let b = enc_glab_info(g);
    let p = g.merge_request;
    assert(b.subrange(0, b.len() as int) =~= b);
    assert(b =~= ((((enc_i32(p.number) + enc_u8(mr_state_tag(p.state)) + enc_i32(p.comments)
        + enc_u8(mr_pipeline_tag(p.pipeline))) + enc_bool(p.is_draft)) + enc_bool(p.is_approved))));
    lemma_split(
        b,
        0,
        enc_i32(p.number) + enc_u8(mr_state_tag(p.state)) + enc_i32(p.comments) + enc_u8(
            mr_pipeline_tag(p.pipeline),
        ) + enc_bool(p.is_draft),
        enc_bool(p.is_approved),
    );
    lemma_split(
        b,
        0,
        enc_i32(p.number) + enc_u8(mr_state_tag(p.state)) + enc_i32(p.comments) + enc_u8(
            mr_pipeline_tag(p.pipeline),
        ),
        enc_bool(p.is_draft),
    );
    lemma_split(
        b,
        0,
        enc_i32(p.number) + enc_u8(mr_state_tag(p.state)) + enc_i32(p.comments),
        enc_u8(mr_pipeline_tag(p.pipeline)),
    );
    lemma_split(b, 0, enc_i32(p.number) + enc_u8(mr_state_tag(p.state)), enc_i32(p.comments));
    lemma_split(b, 0, enc_i32(p.number), enc_u8(mr_state_tag(p.state)));
    lemma_round_i32(b, 0, p.number);
    assert(b[4] == b.subrange(4, 5)[0]);
    lemma_round_i32(b, 5, p.comments);
    assert(b[9] == b.subrange(9, 10)[0]);
    lemma_round_bool(b, 10, p.is_draft);
    lemma_round_bool(b, 11, p.is_approved);
}

// ---------------------------------------------------------------------
// The blob form: binary encoding wrapped in base64 for transport.
// ---------------------------------------------------------------------

/// The git snapshot a transport blob decodes to. The empty string is
/// "no data", not an error; anything else must be a canonical base64
/// wrapping of one whole binary encoding.
pub open spec fn spec_decode_git_blob(s: Seq<char>) -> Option<GitInfoModel> {
    if s.len() == 0 {
        None
    } else {
        match crate::info::base64_decode_of(s) {
            Some(b) => spec_decode_git_bytes(b),
            None => None,
        }
    }
}

/// The GitHub snapshot a transport blob decodes to.
pub open spec fn spec_decode_gh_blob(s: Seq<char>) -> Option<GhInfo> {
    if s.len() == 0 {
        None
    } else {
        match crate::info::base64_decode_of(s) {
            Some(b) => spec_decode_gh_bytes(b),
            None => None,
        }
    }
}

/// The GitLab snapshot a transport blob decodes to.
pub open spec fn spec_decode_glab_blob(s: Seq<char>) -> Option<GlabInfo> {
    if s.len() == 0 {
        None
    } else {
        match crate::info::base64_decode_of(s) {
            Some(b) => spec_decode_glab_bytes(b),
            None => None,
        }
    }
}

/// Encodes a git snapshot into its transport blob; decoding the result
/// yields the snapshot back.
pub fn encode_git_info(info: &GitInfo) -> (r: String)
    ensures
        r@ == crate::info::base64_of(enc_git_info(info@)),
        spec_decode_git_blob(r@) == Some(info@),
{
    let bytes = encode_git_bytes(info);
    let blob = crate::info::encode_base64(bytes.as_slice());
    proof {
        assert(enc_git_info(info@).len() >= 1) by {
            reveal(enc_git_info);
            match info@.workdir {
                Option::None => {},
                Option::Some(_s) => {},
            }
        }
        lemma_git_round_trip(info@);
    }
    blob
}

/// Decodes a git transport blob; the empty string means "no data", and
/// every string that is not the canonical encoding of a snapshot yields
/// nothing.
pub fn decode_git_info(encoded: &str) -> (r: Option<GitInfo>)
    ensures
        match r {
            Some(info) => spec_decode_git_blob(encoded@) == Some(info@),
            None => spec_decode_git_blob(encoded@) is None,
        },
{
    if encoded.unicode_len() == 0 {
        return None;
    }
    match crate::info::decode_base64(encoded) {
        Ok(bytes) => decode_git_bytes(&bytes),
        Err(_) => None,
    }
}

/// Encodes the GitHub snapshot into its transport blob; decoding the
/// result yields the snapshot back.
pub fn encode_gh_info(info: &GhInfo) -> (r: String)
    ensures
        r@ == crate::info::base64_of(enc_gh_info(*info)),
        spec_decode_gh_blob(r@) == Some(*info),
{
    let bytes = encode_gh_bytes(info);
    let blob = crate::info::encode_base64(bytes.as_slice());
    proof {
        assert(enc_gh_info(*info).len() >= 1) by {
            match info.pull_request {
                Option::None => {},
                Option::Some(_p) => {},
            }
        }
        lemma_gh_round_trip(*info);
    }
    blob
}

/// Decodes a GitHub transport blob.
pub fn decode_gh_info(encoded: &str) -> (r: Option<GhInfo>)
    ensures
        match r {
            Some(info) => spec_decode_gh_blob(encoded@) == Some(info),
            None => spec_decode_gh_blob(encoded@) is None,
        },
{
    if encoded.unicode_len() == 0 {
        return None;
    }
    match crate::info::decode_base64(encoded) {
        Ok(bytes) => decode_gh_bytes(&bytes),
        Err(_) => None,
    }
}

/// Encodes the GitLab snapshot into its transport blob; decoding the
/// result yields the snapshot back.
pub fn encode_glab_info(info: &GlabInfo) -> (r: String)
    ensures
        r@ == crate::info::base64_of(enc_glab_info(*info)),
        spec_decode_glab_blob(r@) == Some(*info),
{
    let bytes = encode_glab_bytes(info);
    let blob = crate::info::encode_base64(bytes.as_slice());
    proof {
        assert(enc_glab_info(*info).len() >= 1);
        lemma_glab_round_trip(*info);
    }
    blob
}

/// Decodes a GitLab transport blob.
pub fn decode_glab_info(encoded: &str) -> (r: Option<GlabInfo>)
    ensures
        match r {
            Some(info) => spec_decode_glab_blob(encoded@) == Some(info),
            None => spec_decode_glab_blob(encoded@) is None,
        },
{
    if encoded.unicode_len() == 0 {
        return None;
    }
    match crate::info::decode_base64(encoded) {
        Ok(bytes) => decode_glab_bytes(&bytes),
        Err(_) => None,
    }
}

} // verus!
