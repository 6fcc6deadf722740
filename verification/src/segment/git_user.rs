//! The committer segment: the user name the repository is configured
//! with, when inside a repository that has one.

use vstd::prelude::*;

use crate::segment::{Context, Segment};
use crate::style::style_like;
use crate::template::{spec_substitute, substitute, views_of_strs};

verus! {

/// The content of the committer segment for a given name.
pub open spec fn spec_build_git_user(template: Seq<char>, name: Seq<char>) -> Seq<char> {
    spec_substitute(template, seq!["{{.name}}"@], seq![name])
}

/// The builder of the committer segment.
#[derive(Debug, Default)]
pub struct GitUserSegmentBuilder {}

impl GitUserSegmentBuilder {
    /// Splices the configured user name into the template; no segment
    /// outside a repository or without a configured name.
    pub fn build(&self, ctx: &Context) -> (r: Option<Segment>)
        ensures
            match r {
                Some(seg) => {
                    &&& ctx.git_info matches Some(info)
                    &&& info.user matches Some(name)
                    &&& seg.content@ == spec_build_git_user(ctx.config.git_user.content@, name@)
                    &&& style_like(seg.style, ctx.config.git_user.style)
                },
                None => match ctx.git_info {
                    Some(info) => info.user is None,
                    None => true,
                },
            },
    {
        let config = &ctx.config.git_user;
        let info = match &ctx.git_info {
            Option::Some(info) => info,
            Option::None => {
                return None;
            },
        };
        let name = match &info.user {
            Option::Some(name) => name,
            Option::None => {
                return None;
            },
        };
        let patterns: Vec<&str> = vec!["{{.name}}"];
        let replacements: Vec<&str> = vec![name.as_str()];
        proof {
            assert(views_of_strs(patterns@) =~= seq!["{{.name}}"@]);
            assert(views_of_strs(replacements@) =~= seq![name@]);
        }
        let content = substitute(config.content.as_str(), &patterns, &replacements);
        Some(Segment { content, style: config.style.duplicate() })
    }
}

} // verus!
