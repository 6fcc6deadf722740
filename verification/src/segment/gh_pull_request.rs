//! The pull-request segment: number, state and comment count of the
//! branch's pull request.

use vstd::prelude::*;

use crate::config::gh_pull_request::GhPullRequestConfig;
use crate::info::gh::{PullRequest, PullRequestState};
use crate::segment::{Context, Segment};
use crate::strutil::{i64_to_string, push_char, spec_decimal_int};
use crate::style::{style_like, Style};
use crate::template::{spec_substitute, substitute, views_of_strs};

verus! {

/// The icon of the state-and-draft pair; nothing when the configured
/// icon is empty.
pub open spec fn spec_pr_state_icon(c: GhPullRequestConfig, p: PullRequest) -> Seq<char> {
    let icon = match (p.state, p.is_draft) {
        (PullRequestState::Open, false) => c.icons.open@,
        (PullRequestState::Open, true) => c.icons.draft@,
        (PullRequestState::Closed, _) => c.icons.closed@,
        (PullRequestState::Merged, _) => c.icons.merged@,
    };
    if icon.len() == 0 {
        Seq::<char>::empty()
    } else {
        seq![' '] + icon
    }
}

/// The comment fragment: the comment icon and count when there are
/// comments, else nothing.
pub open spec fn spec_pr_comments(c: GhPullRequestConfig, p: PullRequest) -> Seq<char> {
    if p.comments > 0 {
        seq![' '] + c.icons.comment@ + spec_decimal_int(p.comments as int)
    } else {
        Seq::<char>::empty()
    }
}

/// The style of the state-and-draft pair.
pub open spec fn spec_pr_style(c: GhPullRequestConfig, p: PullRequest) -> Style {
    match (p.state, p.is_draft) {
        (PullRequestState::Open, false) => c.open.style,
        (PullRequestState::Open, true) => c.draft.style,
        (PullRequestState::Closed, _) => c.closed.style,
        (PullRequestState::Merged, _) => c.merged.style,
    }
}

/// The content of the pull-request segment.
pub open spec fn spec_build_pr(c: GhPullRequestConfig, p: PullRequest) -> Seq<char> {
    spec_substitute(
        c.content@,
        seq!["{{.number}}"@, "{{.state}}"@, "{{.comments}}"@],
        seq![spec_decimal_int(p.number as int), spec_pr_state_icon(c, p), spec_pr_comments(c, p)],
    )
}

/// The builder of the pull-request segment.
#[derive(Debug, Default)]
pub struct GhPullRequestSegmentBuilder {}

impl GhPullRequestSegmentBuilder {
    pub fn new() -> (r: Self) {
        GhPullRequestSegmentBuilder {  }
    }

    /// Renders number, state and comments; no segment without a pull
    /// request.
    pub fn build(&self, ctx: &Context) -> (r: Option<Segment>)
        ensures
            match r {
                Some(seg) => {
                    &&& ctx.gh_info matches Some(info)
                    &&& info.pull_request matches Some(p)
                    &&& seg.content@ == spec_build_pr(ctx.config.gh_pull_request, p)
                    &&& style_like(seg.style, spec_pr_style(ctx.config.gh_pull_request, p))
                },
                None => match ctx.gh_info {
                    Some(info) => info.pull_request is None,
                    None => true,
                },
            },
    {
        let config = &ctx.config.gh_pull_request;
        let info = match &ctx.gh_info {
            Option::Some(info) => info,
            Option::None => {
                return None;
            },
        };
        let p = match &info.pull_request {
            Option::Some(p) => p,
            Option::None => {
                return None;
            },
        };
        let number = i64_to_string(p.number as i64);
        let icon = match (&p.state, p.is_draft) {
            (PullRequestState::Open, false) => &config.icons.open,
            (PullRequestState::Open, true) => &config.icons.draft,
            (PullRequestState::Closed, _) => &config.icons.closed,
            (PullRequestState::Merged, _) => &config.icons.merged,
        };
        let state_text: String = if icon.unicode_len() == 0 {
            String::new()
        } else {
            let mut t = String::new();
            push_char(&mut t, ' ');
            t.append(icon.as_str());
            assert(t@ =~= seq![' '] + icon@);
            t
        };
        let comments_text: String = if p.comments > 0 {
            let mut t = String::new();
            push_char(&mut t, ' ');
            t.append(config.icons.comment.as_str());
            let n = i64_to_string(p.comments as i64);
            t.append(n.as_str());
            assert(t@ =~= seq![' '] + config.icons.comment@ + spec_decimal_int(p.comments as int));
            t
        } else {
            String::new()
        };
        let patterns: Vec<&str> = vec!["{{.number}}", "{{.state}}", "{{.comments}}"];
        let replacements: Vec<&str> = vec![
            number.as_str(),
            state_text.as_str(),
            comments_text.as_str(),
        ];
        proof {
            assert(views_of_strs(patterns@) =~= seq![
                "{{.number}}"@,
                "{{.state}}"@,
                "{{.comments}}"@,
            ]);
            assert(views_of_strs(replacements@) =~= seq![
                spec_decimal_int(p.number as int),
                spec_pr_state_icon(ctx.config.gh_pull_request, *p),
                spec_pr_comments(ctx.config.gh_pull_request, *p),
            ]);
        }
        let content = substitute(config.content.as_str(), &patterns, &replacements);
        let style = match (&p.state, p.is_draft) {
            (PullRequestState::Open, false) => config.open.style.duplicate(),
            (PullRequestState::Open, true) => config.draft.style.duplicate(),
            (PullRequestState::Closed, _) => config.closed.style.duplicate(),
            (PullRequestState::Merged, _) => config.merged.style.duplicate(),
        };
        Some(Segment { content, style })
    }
}

} // verus!
