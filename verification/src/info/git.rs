//! Version-control state: working directory, head, working-tree
//! counters, upstream divergence, remotes and the configured user.

use vstd::prelude::*;

verus! {

/// A snapshot of repository state, built once per invocation.
#[derive(Debug)]
pub struct GitInfo {
    pub workdir: Option<String>,
    pub head: Head,
    pub workspace: WorkspaceStatus,
    pub upstream: Option<UpstreamStatus>,
    pub remotes: Vec<RemoteStatus>,
    pub user: Option<String>,
}

/// Where the head points: exactly one of a branch, a tag or a bare
/// commit.
#[derive(Debug)]
pub enum Head {
    Branch(String),
    Tag(String),
    Commit(String),
}

/// The nine non-negative working-tree counters.
#[derive(Debug, Clone, Copy, PartialEq, Eq, Structural)]
pub struct WorkspaceStatus {
    pub unstaged_new: u32,
    pub unstaged_deleted: u32,
    pub unstaged_changed: u32,
    pub unstaged_renamed: u32,
    pub staged_new: u32,
    pub staged_deleted: u32,
    pub staged_changed: u32,
    pub staged_renamed: u32,
    pub conflicted: u32,
}

/// How far the head has diverged from its upstream.
#[derive(Debug, Clone, Copy, PartialEq, Eq, Structural)]
pub struct UpstreamStatus {
    pub ahead: u32,
    pub behind: u32,
}

/// One configured remote, by its URL.
#[derive(Debug)]
pub struct RemoteStatus {
    pub url: String,
}

pub open spec fn spec_has_new(w: WorkspaceStatus) -> bool {
    w.unstaged_new > 0 || w.staged_new > 0
}

pub open spec fn spec_has_deleted(w: WorkspaceStatus) -> bool {
    w.unstaged_deleted > 0 || w.staged_deleted > 0
}

pub open spec fn spec_has_modified(w: WorkspaceStatus) -> bool {
    w.unstaged_changed > 0 || w.staged_changed > 0
}

pub open spec fn spec_has_renamed(w: WorkspaceStatus) -> bool {
    w.unstaged_renamed > 0 || w.staged_renamed > 0
}

pub open spec fn spec_has_conflict(w: WorkspaceStatus) -> bool {
    w.conflicted > 0
}

pub open spec fn spec_has_unstaged_changes(w: WorkspaceStatus) -> bool {
    w.unstaged_new > 0 || w.unstaged_deleted > 0 || w.unstaged_changed > 0 || w.unstaged_renamed > 0
}

pub open spec fn spec_has_staged_changes(w: WorkspaceStatus) -> bool {
    w.staged_new > 0 || w.staged_deleted > 0 || w.staged_changed > 0 || w.staged_renamed > 0
}

impl WorkspaceStatus {
    /// True iff something new is tracked, staged or not.
    pub fn has_new(&self) -> (r: bool)
        ensures
            r == spec_has_new(*self),
    {
        self.unstaged_new > 0 || self.staged_new > 0
    }

    /// True iff something was deleted, staged or not.
    pub fn has_deleted(&self) -> (r: bool)
        ensures
            r == spec_has_deleted(*self),
    {
        self.unstaged_deleted > 0 || self.staged_deleted > 0
    }

    /// True iff something changed, staged or not.
    pub fn has_modified(&self) -> (r: bool)
        ensures
            r == spec_has_modified(*self),
    {
        self.unstaged_changed > 0 || self.staged_changed > 0
    }

    /// True iff something was renamed, staged or not.
    pub fn has_renamed(&self) -> (r: bool)
        ensures
            r == spec_has_renamed(*self),
    {
        self.unstaged_renamed > 0 || self.staged_renamed > 0
    }

    /// True iff a conflict is recorded.
    pub fn has_conflict(&self) -> (r: bool)
        ensures
            r == spec_has_conflict(*self),
    {
        self.conflicted > 0
    }

    /// True iff at least one of the four unstaged counters is positive.
    pub fn has_unstaged_changes(&self) -> (r: bool)
        ensures
            r == spec_has_unstaged_changes(*self),
    {
        self.unstaged_new > 0 || self.unstaged_deleted > 0 || self.unstaged_changed > 0
            || self.unstaged_renamed > 0
    }

    /// True iff at least one of the four staged counters is positive.
    pub fn has_staged_changes(&self) -> (r: bool)
        ensures
            r == spec_has_staged_changes(*self),
    {
        self.staged_new > 0 || self.staged_deleted > 0 || self.staged_changed > 0
            || self.staged_renamed > 0
    }
}

/// For every assignment of the counters, there are unstaged changes iff
/// one of the four unstaged counters is positive, independent of the
/// staged counters and of the conflict counter; and symmetrically for
/// staged changes.
pub proof fn lemma_workspace_predicates_independent(a: WorkspaceStatus, b: WorkspaceStatus)
    ensures
        spec_has_unstaged_changes(a) == (a.unstaged_new > 0 || a.unstaged_deleted > 0
            || a.unstaged_changed > 0 || a.unstaged_renamed > 0),
        spec_has_staged_changes(a) == (a.staged_new > 0 || a.staged_deleted > 0
            || a.staged_changed > 0 || a.staged_renamed > 0),
        a.unstaged_new == b.unstaged_new && a.unstaged_deleted == b.unstaged_deleted
            && a.unstaged_changed == b.unstaged_changed && a.unstaged_renamed == b.unstaged_renamed
            ==> spec_has_unstaged_changes(a) == spec_has_unstaged_changes(b),
        a.staged_new == b.staged_new && a.staged_deleted == b.staged_deleted && a.staged_changed
            == b.staged_changed && a.staged_renamed == b.staged_renamed
            ==> spec_has_staged_changes(a) == spec_has_staged_changes(b),
{
}

} // verus!
