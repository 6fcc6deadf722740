//! User configuration: one sub-configuration per segment kind, the
//! separator glyphs, and the ordered prompt rows.

use vstd::prelude::*;

pub mod direnv;
pub mod duration;
pub mod gh_actions;
pub mod gh_pull_request;
pub mod git_status;
pub mod git_user;
pub mod glab_merge_request;
pub mod os;
pub mod path;
pub mod status;
pub mod time;
pub mod user;

use self::direnv::DirenvConfig;
use self::duration::DurationConfig;
use self::gh_actions::GhActionsConfig;
use self::gh_pull_request::GhPullRequestConfig;
use self::git_status::GitStatusConfig;
use self::git_user::GitUserConfig;
use self::glab_merge_request::GlabMergeRequestConfig;
use self::os::OsConfig;
use self::path::PathConfig;
use self::status::StatusConfig;
use self::time::TimeConfig;
use self::user::UserConfig;

verus! {

/// The whole user configuration.
#[derive(Debug)]
pub struct Config {
    pub os: OsConfig,
    pub user: UserConfig,
    pub path: PathConfig,
    pub status: StatusConfig,
    pub duration: DurationConfig,
    pub time: TimeConfig,
    pub git_status: GitStatusConfig,
    pub git_user: GitUserConfig,
    pub gh_pull_request: GhPullRequestConfig,
    pub gh_actions: GhActionsConfig,
    pub glab_merge_request: GlabMergeRequestConfig,
    pub direnv: DirenvConfig,
    pub segment_separators: SegmentSeparators,
    pub segments: Vec<Line>,
}

/// The built-in prompt rows: one row of identity and repository
/// segments with the clock on the right, and one row of status and
/// duration.
pub open spec fn spec_default_segments() -> Seq<(Seq<SegmentKind>, Seq<SegmentKind>)> {
    seq![
        (
            seq![
                SegmentKind::Os,
                SegmentKind::User,
                SegmentKind::Path,
                SegmentKind::GitStatus,
                SegmentKind::GhPullRequest,
                SegmentKind::GitUser,
            ],
            seq![SegmentKind::Time],
        ),
        (seq![SegmentKind::Status, SegmentKind::Duration], Seq::<SegmentKind>::empty()),
    ]
}

/// The models of the configured rows.
pub open spec fn views_of_lines(lines: Seq<Line>) -> Seq<(Seq<SegmentKind>, Seq<SegmentKind>)> {
    Seq::new(lines.len(), |i: int| (lines[i].left@, lines[i].right@))
}

impl Config {
    /// True of the built-in configuration.
    pub open spec fn is_default(self) -> bool {
        self.os.is_default() && self.user.is_default() && self.path.is_default()
            && self.status.is_default() && self.duration.is_default() && self.time.is_default()
            && self.git_status.is_default() && self.git_user.is_default()
            && self.gh_pull_request.is_default() && self.gh_actions.is_default()
            && self.glab_merge_request.is_default() && self.direnv.is_default()
            && self.segment_separators.is_default() && views_of_lines(self.segments@)
            == spec_default_segments()
    }

    /// The built-in prompt rows.
    pub fn default_segments() -> (r: Vec<Line>)
        ensures
            views_of_lines(r@) == spec_default_segments(),
    {
        let row1 = Line {
            left: vec![
                SegmentKind::Os,
                SegmentKind::User,
                SegmentKind::Path,
                SegmentKind::GitStatus,
                SegmentKind::GhPullRequest,
                SegmentKind::GitUser,
            ],
            right: vec![SegmentKind::Time],
        };
        let row2 = Line { left: vec![SegmentKind::Status, SegmentKind::Duration], right: Vec::new() };
        let ghost r1l = row1.left@;
        let ghost r1r = row1.right@;
        let ghost r2l = row2.left@;
        let ghost r2r = row2.right@;
        let mut rows: Vec<Line> = Vec::new();
        rows.push(row1);
        rows.push(row2);
        proof {
            assert(r1l =~= spec_default_segments()[0].0);
            assert(r1r =~= spec_default_segments()[0].1);
            assert(r2l =~= spec_default_segments()[1].0);
            assert(r2r =~= spec_default_segments()[1].1);
            assert(views_of_lines(rows@) =~= spec_default_segments());
        }
        rows
    }
}

impl Default for Config {
    fn default() -> (r: Self)
        ensures
            r.is_default(),
    {
        Config {
            os: Default::default(),
            user: Default::default(),
            path: Default::default(),
            status: Default::default(),
            duration: Default::default(),
            time: Default::default(),
            git_status: Default::default(),
            git_user: Default::default(),
            gh_pull_request: Default::default(),
            gh_actions: Default::default(),
            glab_merge_request: Default::default(),
            direnv: Default::default(),
            segment_separators: Default::default(),
            segments: Self::default_segments(),
        }
    }
}

/// The four separator glyphs: the solid chevrons bridging two
/// backgrounds and the thin wires dividing a flat run.
#[derive(Debug)]
pub struct SegmentSeparators {
    pub solid_left: String,
    pub wire_left: String,
    pub solid_right: String,
    pub wire_right: String,
}

impl SegmentSeparators {
    /// True of the built-in glyphs.
    pub open spec fn is_default(self) -> bool {
        self.solid_left@ == "\u{e0b0}"@ && self.wire_left@ == "\u{e0b1}"@ && self.solid_right@
            == "\u{e0b2}"@ && self.wire_right@ == "\u{e0b3}"@
    }

    /// The built-in solid glyph of the left side.
    pub fn default_solid_left() -> (r: String)
        ensures
            r@ == "\u{e0b0}"@,
    {
        String::from_str("\u{e0b0}")
    }

    /// The built-in wire glyph of the left side.
    pub fn default_wire_left() -> (r: String)
        ensures
            r@ == "\u{e0b1}"@,
    {
        String::from_str("\u{e0b1}")
    }

    /// The built-in solid glyph of the right side.
    pub fn default_solid_right() -> (r: String)
        ensures
            r@ == "\u{e0b2}"@,
    {
        String::from_str("\u{e0b2}")
    }

    /// The built-in wire glyph of the right side.
    pub fn default_wire_right() -> (r: String)
        ensures
            r@ == "\u{e0b3}"@,
    {
        String::from_str("\u{e0b3}")
    }
}

impl Default for SegmentSeparators {
    fn default() -> (r: Self)
        ensures
            r.is_default(),
    {
        SegmentSeparators {
            solid_left: Self::default_solid_left(),
            wire_left: Self::default_wire_left(),
            solid_right: Self::default_solid_right(),
            wire_right: Self::default_wire_right(),
        }
    }
}

/// One prompt row: the segment kinds of its left and right side, in
/// order.
#[derive(Debug)]
pub struct Line {
    pub left: Vec<SegmentKind>,
    pub right: Vec<SegmentKind>,
}

/// The closed list of segment kinds.
#[derive(Debug, Clone, Copy, PartialEq, Eq, Structural)]
pub enum SegmentKind {
    Duration,
    Os,
    Path,
    Status,
    Time,
    User,
    GitStatus,
    GitUser,
    GhPullRequest,
    GhActions,
    GlabMergeRequest,
    Direnv,
}

} // verus!
