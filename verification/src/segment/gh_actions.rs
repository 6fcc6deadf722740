//! The CI segment: one icon and style for the aggregated state of the
//! latest runs.

use vstd::prelude::*;

use crate::info::gh::ActionsStatus;
use crate::segment::{Context, Segment};
use crate::style::{style_like, Style};
use crate::template::{spec_substitute, substitute, views_of_strs};

verus! {

/// The builder of the CI segment.
#[derive(Debug, Default)]
pub struct GhActionsSegmentBuilder {}

impl GhActionsSegmentBuilder {
    pub fn new() -> (r: Self) {
        GhActionsSegmentBuilder {  }
    }

    /// Shows the aggregated run state; no segment without CI data.
    pub fn build(&self, ctx: &Context) -> (r: Option<Segment>)
        ensures
            match r {
                Some(seg) => {
                    &&& ctx.gh_info matches Some(info)
                    &&& info.actions matches Some(actions)
                    &&& {
                        let c = ctx.config.gh_actions;
                        let (icon, style): (Seq<char>, Style) = match actions.status {
                            ActionsStatus::InProgress => (c.icons.in_progress@, c.in_progress.style),
                            ActionsStatus::Success => (c.icons.success@, c.success.style),
                            ActionsStatus::Failure => (c.icons.failure@, c.failure.style),
                            ActionsStatus::Cancelled => (c.icons.cancelled@, c.cancelled.style),
                            ActionsStatus::Skipped => (c.icons.skipped@, c.skipped.style),
                        };
                        seg.content@ == spec_substitute(c.content@, seq!["{{.status}}"@], seq![icon])
                            && style_like(seg.style, style)
                    }
                },
                None => match ctx.gh_info {
                    Some(info) => info.actions is None,
                    None => true,
                },
            },
    {
        let config = &ctx.config.gh_actions;
        let info = match &ctx.gh_info {
            Option::Some(info) => info,
            Option::None => {
                return None;
            },
        };
        let actions = match &info.actions {
            Option::Some(a) => a,
            Option::None => {
                return None;
            },
        };
        let (icon, style) = match actions.status {
            ActionsStatus::InProgress => (&config.icons.in_progress, &config.in_progress.style),
            ActionsStatus::Success => (&config.icons.success, &config.success.style),
            ActionsStatus::Failure => (&config.icons.failure, &config.failure.style),
            ActionsStatus::Cancelled => (&config.icons.cancelled, &config.cancelled.style),
            ActionsStatus::Skipped => (&config.icons.skipped, &config.skipped.style),
        };
        let patterns: Vec<&str> = vec!["{{.status}}"];
        let replacements: Vec<&str> = vec![icon.as_str()];
        proof {
            assert(views_of_strs(patterns@) =~= seq!["{{.status}}"@]);
            assert(views_of_strs(replacements@) =~= seq![icon@]);
        }
        let content = substitute(config.content.as_str(), &patterns, &replacements);
        Some(Segment { content, style: style.duplicate() })
    }
}

} // verus!
