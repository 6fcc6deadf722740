//! Segments and their builders: each builder turns typed state and
//! configuration into an optional styled fragment, and a single
//! exhaustive dispatch maps every configured kind to its builder.

use vstd::prelude::*;

pub mod direnv;
pub mod duration;
pub mod gh_actions;
pub mod gh_pull_request;
pub mod git_status;
pub mod git_user;
pub mod glab_merge_request;
pub mod os;
pub mod path;
pub mod presenter;
pub mod shrink;
pub mod status;
pub mod time;
pub mod user;

use crate::command::SegmentArgs;
use crate::config::{Config, SegmentKind};
use crate::info::gh::GhInfo;
use crate::info::git::GitInfo;
use crate::info::glab::GlabInfo;
use crate::segment::direnv::DirenvStatus;
use crate::segment::os::Distribution;
use crate::style::Style;

verus! {

/// One styled fragment of the prompt line.
#[derive(Debug)]
pub struct Segment {
    pub content: String,
    pub style: Style,
}

/// The environment values the builders read, gathered once by the
/// caller so that every lookup can be substituted in tests.
#[derive(Debug)]
pub struct EnvInfo {
    pub cwd: Option<String>,
    pub cwd_is_dir: bool,
    pub home: Option<String>,
    pub username: Option<String>,
    pub hostname: Option<String>,
    pub time_text: String,
    pub is_root: bool,
    pub distribution: Distribution,
}

/// Everything one prompt invocation works from.
#[derive(Debug)]
pub struct Context {
    pub config: Config,
    pub args: SegmentArgs,
    pub git_info: Option<GitInfo>,
    pub gh_info: Option<GhInfo>,
    pub glab_info: Option<GlabInfo>,
    pub direnv: Option<DirenvStatus>,
    pub env: EnvInfo,
}

impl Context {
    /// Bundles the configuration, the arguments, the decoded snapshots
    /// and the environment values.
    pub fn new(
        config: Config,
        args: SegmentArgs,
        git_info: Option<GitInfo>,
        gh_info: Option<GhInfo>,
        glab_info: Option<GlabInfo>,
        direnv: Option<DirenvStatus>,
        env: EnvInfo,
    ) -> (r: Context)
        ensures
            r == (Context { config, args, git_info, gh_info, glab_info, direnv, env }),
    {
        Context { config, args, git_info, gh_info, glab_info, direnv, env }
    }
}


/// The model of the segment one kind builds, or nothing when that
/// builder yields no segment; one exhaustive match over the closed
/// kind list.
pub open spec fn spec_build_model(ctx: Context, kind: SegmentKind) -> Option<
    crate::segment::presenter::SegModel,
> {
    match kind {
        SegmentKind::Duration => if ctx.args.duration_ns == 0 {
            None
        } else {
            Some(
                crate::segment::presenter::SegModel {
                    content: crate::segment::duration::spec_build_duration(
                        ctx.config.duration.content@,
                        ctx.args.duration_ns as nat,
                    ),
                    fg: ctx.config.duration.style.foreground,
                    bg: ctx.config.duration.style.background,
                    decos: ctx.config.duration.style.decoration@,
                },
            )
        },
        SegmentKind::Os => {
            let c = ctx.config.os;
            let (content, style) = match ctx.env.distribution {
                Distribution::Alpine => (c.alpine.content@, c.alpine.style),
                Distribution::Amazon => (c.amazon.content@, c.amazon.style),
                Distribution::Arch => (c.arch.content@, c.arch.style),
                Distribution::CentOS => (c.centos.content@, c.centos.style),
                Distribution::Debian => (c.debian.content@, c.debian.style),
                Distribution::Gentoo => (c.gentoo.content@, c.gentoo.style),
                Distribution::NixOS => (c.nix.content@, c.nix.style),
                Distribution::Raspbian => (c.raspbian.content@, c.raspbian.style),
                Distribution::Ubuntu => (c.ubuntu.content@, c.ubuntu.style),
                Distribution::Unknown => (c.linux.content@, c.linux.style),
                Distribution::Mac => (c.mac.content@, c.mac.style),
                Distribution::Windows => (c.windows.content@, c.windows.style),
            };
            Some(
                crate::segment::presenter::SegModel {
                    content,
                    fg: style.foreground,
                    bg: style.background,
                    decos: style.decoration@,
                },
            )
        },
        SegmentKind::Path => {
            let style = if ctx.env.cwd_is_dir {
                ctx.config.path.normal.style
            } else {
                ctx.config.path.error.style
            };
            Some(
                crate::segment::presenter::SegModel {
                    content: crate::segment::path::spec_build_path(
                        ctx.config.path.content@,
                        crate::segment::path::view_opt(ctx.env.cwd),
                        crate::segment::path::view_opt(ctx.env.home),
                        ctx.config.path.aliases@,
                        ctx.config.path.shrink.enabled,
                        ctx.config.path.shrink.length as nat,
                    ),
                    fg: style.foreground,
                    bg: style.background,
                    decos: style.decoration@,
                },
            )
        },
        SegmentKind::Status => {
            let c = ctx.config.status;
            let style = if ctx.args.exit_status == 0 {
                c.success.style
            } else {
                c.error.style
            };
            Some(
                crate::segment::presenter::SegModel {
                    content: crate::segment::status::spec_build_status(
                        c.content@,
                        c.icons.success@,
                        c.icons.error@,
                        c.icons.root@,
                        c.icons.jobs@,
                        c.error.display_exit_code,
                        ctx.args.exit_status as int,
                        ctx.env.is_root,
                        ctx.args.jobs as int,
                    ),
                    fg: style.foreground,
                    bg: style.background,
                    decos: style.decoration@,
                },
            )
        },
        SegmentKind::Time => Some(
            crate::segment::presenter::SegModel {
                content: crate::segment::time::spec_build_time(
                    ctx.config.time.content@,
                    ctx.env.time_text@,
                ),
                fg: ctx.config.time.style.foreground,
                bg: ctx.config.time.style.background,
                decos: ctx.config.time.style.decoration@,
            },
        ),
        SegmentKind::User => Some(
            crate::segment::presenter::SegModel {
                content: crate::segment::user::spec_build_user(
                    ctx.config.user.content@,
                    crate::segment::user::view_opt(ctx.env.username),
                    crate::segment::user::view_opt(ctx.env.hostname),
                ),
                fg: ctx.config.user.style.foreground,
                bg: ctx.config.user.style.background,
                decos: ctx.config.user.style.decoration@,
            },
        ),
        SegmentKind::GitStatus => match ctx.git_info {
            Some(info) => {
                let style = crate::segment::git_status::spec_git_style(
                    ctx.config.git_status,
                    info.workspace,
                );
                Some(
                    crate::segment::presenter::SegModel {
                        content: crate::segment::git_status::spec_build_git_status(
                            ctx.config.git_status,
                            info.head@,
                            info.workspace,
                            info.upstream,
                            crate::segment::git_status::views_of_urls(info.remotes@),
                        ),
                        fg: style.foreground,
                        bg: style.background,
                        decos: style.decoration@,
                    },
                )
            },
            None => None,
        },
        SegmentKind::GitUser => match ctx.git_info {
            Some(info) => match info.user {
                Some(name) => Some(
                    crate::segment::presenter::SegModel {
                        content: crate::segment::git_user::spec_build_git_user(
                            ctx.config.git_user.content@,
                            name@,
                        ),
                        fg: ctx.config.git_user.style.foreground,
                        bg: ctx.config.git_user.style.background,
                        decos: ctx.config.git_user.style.decoration@,
                    },
                ),
                None => None,
            },
            None => None,
        },
        SegmentKind::GhPullRequest => match ctx.gh_info {
            Some(info) => match info.pull_request {
                Some(p) => {
                    let style = crate::segment::gh_pull_request::spec_pr_style(
                        ctx.config.gh_pull_request,
                        p,
                    );
                    Some(
                        crate::segment::presenter::SegModel {
                            content: crate::segment::gh_pull_request::spec_build_pr(
                                ctx.config.gh_pull_request,
                                p,
                            ),
                            fg: style.foreground,
                            bg: style.background,
                            decos: style.decoration@,
                        },
                    )
                },
                None => None,
            },
            None => None,
        },
        SegmentKind::GhActions => match ctx.gh_info {
            Some(info) => match info.actions {
                Some(actions) => {
                    let c = ctx.config.gh_actions;
                    let (icon, style) = match actions.status {
                        crate::info::gh::ActionsStatus::InProgress => (
                            c.icons.in_progress@,
                            c.in_progress.style,
                        ),
                        crate::info::gh::ActionsStatus::Success => (
                            c.icons.success@,
                            c.success.style,
                        ),
                        crate::info::gh::ActionsStatus::Failure => (
                            c.icons.failure@,
                            c.failure.style,
                        ),
                        crate::info::gh::ActionsStatus::Cancelled => (
                            c.icons.cancelled@,
                            c.cancelled.style,
                        ),
                        crate::info::gh::ActionsStatus::Skipped => (
                            c.icons.skipped@,
                            c.skipped.style,
                        ),
                    };
                    Some(
                        crate::segment::presenter::SegModel {
                            content: crate::template::spec_substitute(
                                c.content@,
                                seq!["{{.status}}"@],
                                seq![icon],
                            ),
                            fg: style.foreground,
                            bg: style.background,
                            decos: style.decoration@,
                        },
                    )
                },
                None => None,
            },
            None => None,
        },
        SegmentKind::GlabMergeRequest => match ctx.glab_info {
            Some(info) => {
                let style = crate::segment::glab_merge_request::spec_mr_style(
                    ctx.config.glab_merge_request,
                    info.merge_request,
                );
                Some(
                    crate::segment::presenter::SegModel {
                        content: crate::segment::glab_merge_request::spec_build_mr(
                            ctx.config.glab_merge_request,
                            info.merge_request,
                        ),
                        fg: style.foreground,
                        bg: style.background,
                        decos: style.decoration@,
                    },
                )
            },
            None => None,
        },
        SegmentKind::Direnv => match ctx.direnv {
            Some(st) => match st.found_rc {
                Some(_) => {
                    let c = ctx.config.direnv;
                    let (icon, style) = match st.loaded_rc {
                        Some(rc) => if rc.allowed == crate::segment::direnv::DIRENV_ALLOWED {
                            (c.icons.loaded@, c.loaded.style)
                        } else if rc.allowed == crate::segment::direnv::DIRENV_DENIED {
                            (c.icons.disallowed@, c.disallowed.style)
                        } else {
                            (c.icons.found@, c.found.style)
                        },
                        None => (c.icons.found@, c.found.style),
                    };
                    Some(
                        crate::segment::presenter::SegModel {
                            content: crate::template::spec_substitute(
                                c.content@,
                                seq!["{{.status}}"@],
                                seq![icon],
                            ),
                            fg: style.foreground,
                            bg: style.background,
                            decos: style.decoration@,
                        },
                    )
                },
                None => None,
            },
            None => None,
        },
    }
}

/// Dispatches one configured kind to its builder.
pub fn build_segment(ctx: &Context, kind: SegmentKind) -> (r: Option<Segment>)
    ensures
        match r {
            Some(seg) => spec_build_model(*ctx, kind) == Some(seg@),
            None => spec_build_model(*ctx, kind) is None,
        },
{
    match kind {
        SegmentKind::Duration => crate::segment::duration::DurationSegmentBuilder {  }.build(ctx),
        SegmentKind::Os => crate::segment::os::OsSegmentBuilder {  }.build(ctx),
        SegmentKind::Path => crate::segment::path::PathSegmentBuilder {  }.build(ctx),
        SegmentKind::Status => crate::segment::status::StatusSegmentBuilder {  }.build(ctx),
        SegmentKind::Time => crate::segment::time::TimeSegmentBuilder {  }.build(ctx),
        SegmentKind::User => crate::segment::user::UserSegmentBuilder {  }.build(ctx),
        SegmentKind::GitStatus => crate::segment::git_status::GitStatusSegmentBuilder {  }.build(
            ctx,
        ),
        SegmentKind::GitUser => crate::segment::git_user::GitUserSegmentBuilder {  }.build(ctx),
        SegmentKind::GhPullRequest => crate::segment::gh_pull_request::GhPullRequestSegmentBuilder {

        }.build(ctx),
        SegmentKind::GhActions => crate::segment::gh_actions::GhActionsSegmentBuilder {  }.build(
            ctx,
        ),
        SegmentKind::GlabMergeRequest =>
            crate::segment::glab_merge_request::GlabMergeRequestSegmentBuilder {  }.build(ctx),
        SegmentKind::Direnv => crate::segment::direnv::DirenvSegmentBuilder {  }.build(ctx),
    }
}

/// The models of the segments a kind list builds, kinds that build
/// nothing skipped.
pub open spec fn spec_row_models(ctx: Context, kinds: Seq<SegmentKind>) -> Seq<
    crate::segment::presenter::SegModel,
>
    decreases kinds.len(),
{
    if kinds.len() == 0 {
        Seq::<crate::segment::presenter::SegModel>::empty()
    } else {
        (match spec_build_model(ctx, kinds[0]) {
            Some(m) => seq![m],
            None => Seq::<crate::segment::presenter::SegModel>::empty(),
        }) + spec_row_models(ctx, kinds.skip(1))
    }
}

/// Builds the segments of one kind list, in order, dropping the kinds
/// that build nothing.
pub fn build_segments(ctx: &Context, kinds: &Vec<SegmentKind>) -> (r: Vec<Segment>)
    ensures
        crate::segment::presenter::views_of_segments(r@) == spec_row_models(*ctx, kinds@),
{
    let mut out: Vec<Segment> = Vec::new();
    let mut i: usize = 0;
    proof {
        assert(kinds@.skip(0) =~= kinds@);
        assert(crate::segment::presenter::views_of_segments(out@) =~= Seq::<
            crate::segment::presenter::SegModel,
        >::empty());
        assert(Seq::<crate::segment::presenter::SegModel>::empty() + spec_row_models(*ctx, kinds@)
            =~= spec_row_models(*ctx, kinds@));
    }
    while i < kinds.len()
        invariant
            i <= kinds@.len(),
            spec_row_models(*ctx, kinds@) == crate::segment::presenter::views_of_segments(out@)
                + spec_row_models(*ctx, kinds@.skip(i as int)),
        decreases kinds@.len() - i,
    {
        let ghost rest = kinds@.skip(i as int);
        proof {
            assert(rest[0] == kinds@[i as int]);
            assert(rest.skip(1) =~= kinds@.skip(i + 1));
        }
        match build_segment(ctx, kinds[i]) {
            Some(seg) => {
                out.push(seg);
            },
            None => {
            },
        }
        proof {
            let vs = crate::segment::presenter::views_of_segments(out@);
            assert(spec_row_models(*ctx, kinds@) =~= vs + spec_row_models(
                *ctx,
                kinds@.skip(i + 1),
            ));
        }
        i = i + 1;
    }
    proof {
        assert(kinds@.skip(kinds@.len() as int) =~= Seq::<SegmentKind>::empty());
        assert(crate::segment::presenter::views_of_segments(out@) + Seq::<
            crate::segment::presenter::SegModel,
        >::empty() =~= crate::segment::presenter::views_of_segments(out@));
    }
    out
}


/// The models of a row's inline right side: the configured right kinds
/// for the last row on a shell without a separate right-prompt slot,
/// nothing otherwise.
pub open spec fn spec_inline_right(
    ctx: Context,
    rows: Seq<(Seq<SegmentKind>, Seq<SegmentKind>)>,
    i: int,
) -> Seq<crate::segment::presenter::SegModel> {
    if i == rows.len() - 1 && ctx.args.shell == crate::shell::Shell::Bash {
        spec_row_models(ctx, rows[i].1)
    } else {
        Seq::<crate::segment::presenter::SegModel>::empty()
    }
}

/// The rendered rows from `i` on: a row break before every row after
/// the first, then the laid-out line.
pub open spec fn spec_prompt_rows(
    ctx: Context,
    rows: Seq<(Seq<SegmentKind>, Seq<SegmentKind>)>,
    i: int,
) -> Seq<char>
    decreases rows.len() - i,
{
    if i < 0 || i >= rows.len() {
        Seq::<char>::empty()
    } else {
        (if i > 0 {
            seq!['\n']
        } else {
            Seq::<char>::empty()
        }) + crate::segment::presenter::spec_display_line(
            ctx.args.shell,
            ctx.config.segment_separators.solid_left@,
            ctx.config.segment_separators.wire_left@,
            ctx.config.segment_separators.solid_right@,
            ctx.config.segment_separators.wire_right@,
            ctx.args.width as int,
            spec_row_models(ctx, rows[i].0),
            spec_inline_right(ctx, rows, i),
        ) + spec_prompt_rows(ctx, rows, i + 1)
    }
}

/// The whole prompt: in right mode, the last row's right side alone;
/// otherwise every configured row, a trailing space closing the left
/// prompt.
pub open spec fn spec_render_prompt(ctx: Context) -> Seq<char> {
    let rows = crate::config::views_of_lines(ctx.config.segments@);
    if ctx.args.right {
        if rows.len() == 0 {
            Seq::<char>::empty()
        } else {
            crate::segment::presenter::spec_right_from(
                ctx.args.shell,
                ctx.config.segment_separators.solid_left@,
                ctx.config.segment_separators.wire_left@,
                ctx.config.segment_separators.solid_right@,
                ctx.config.segment_separators.wire_right@,
                spec_row_models(ctx, rows[rows.len() - 1].1),
                0,
                crate::style::Color::Named(crate::style::NamedColor::Default),
            ).0
        }
    } else {
        spec_prompt_rows(ctx, rows, 0) + seq![' ']
    }
}

/// Renders the whole prompt into one string: every configured row with
/// its separators and alignment, or, in right mode, the standalone
/// right prompt of the last row.
pub fn render_prompt(ctx: &Context) -> (r: String)
    ensures
        r@ == spec_render_prompt(*ctx),
{
    let ghost rows = crate::config::views_of_lines(ctx.config.segments@);
    let presenter = crate::segment::presenter::Presenter::new(
        &ctx.config,
        &ctx.args.shell,
        ctx.args.width,
    );
    if ctx.args.right {
        if ctx.config.segments.len() == 0 {
            return String::new();
        }
        let last = &ctx.config.segments[ctx.config.segments.len() - 1];
        let right_segments = build_segments(ctx, &last.right);
        proof {
            assert(rows[rows.len() - 1].1 == last.right@);
        }
        let out = presenter.display_right(&right_segments);
        return out;
    }
    let mut out = String::new();
    let mut i: usize = 0;
    proof {
        assert(Seq::<char>::empty() + spec_prompt_rows(*ctx, rows, 0) =~= spec_prompt_rows(
            *ctx,
            rows,
            0,
        ));
    }
    while i < ctx.config.segments.len()
        invariant
            i <= ctx.config.segments@.len(),
            rows == crate::config::views_of_lines(ctx.config.segments@),
            rows.len() == ctx.config.segments@.len(),
            presenter.config == &ctx.config,
            presenter.shell == ctx.args.shell,
            presenter.width == ctx.args.width,
            !ctx.args.right,
            spec_prompt_rows(*ctx, rows, 0) == out@ + spec_prompt_rows(*ctx, rows, i as int),
        decreases ctx.config.segments@.len() - i,
    {
        if i > 0 {
            let br = presenter.next_line();
            out.append(br.as_str());
        }
        let line = &ctx.config.segments[i];
        proof {
            assert(rows[i as int].0 == line.left@);
            assert(rows[i as int].1 == line.right@);
        }
        let left_segments = build_segments(ctx, &line.left);
        let inline_right: Vec<Segment> = if i == ctx.config.segments.len() - 1 && matches!(
            ctx.args.shell,
            crate::shell::Shell::Bash,
        ) {
            build_segments(ctx, &line.right)
        } else {
            Vec::new()
        };
        proof {
            assert(crate::segment::presenter::views_of_segments(inline_right@)
                =~= spec_inline_right(*ctx, rows, i as int));
        }
        let rendered = presenter.display_line(&left_segments, &inline_right);
        out.append(rendered.as_str());
        proof {
            assert(spec_prompt_rows(*ctx, rows, 0) =~= out@ + spec_prompt_rows(
                *ctx,
                rows,
                i + 1,
            ));
        }
        i = i + 1;
    }
    proof {
        assert(spec_prompt_rows(*ctx, rows, rows.len() as int) =~= Seq::<char>::empty());
        assert(out@ + Seq::<char>::empty() =~= out@);
    }
    let tail = presenter.finish_left();
    out.append(tail.as_str());
    out
}

} // verus!
