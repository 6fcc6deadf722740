//! The working-directory segment: the current path, shrunk for
//! display, with a sentinel when no directory is known.

use vstd::prelude::*;

use crate::segment::shrink::{shrink_path, spec_shrink_path, view_opt_str};
use crate::segment::{Context, Segment};
use crate::style::style_like;
use crate::template::{spec_substitute, substitute, views_of_strs};

verus! {

/// The path text shown: the shrunk working directory, or a sentinel
/// when none is known.
pub open spec fn spec_path_text(
    cwd: Option<Seq<char>>,
    home: Option<Seq<char>>,
    aliases: Seq<crate::config::path::PathAlias>,
    enabled: bool,
    n: nat,
) -> Seq<char> {
    match cwd {
        Option::Some(p) => spec_shrink_path(p, home, Option::None, aliases, enabled, n),
        Option::None => "<unknown>"@,
    }
}

/// The content of the path segment.
pub open spec fn spec_build_path(
    template: Seq<char>,
    cwd: Option<Seq<char>>,
    home: Option<Seq<char>>,
    aliases: Seq<crate::config::path::PathAlias>,
    enabled: bool,
    n: nat,
) -> Seq<char> {
    spec_substitute(
        template,
        seq!["{{.path}}"@],
        seq![spec_path_text(cwd, home, aliases, enabled, n)],
    )
}

/// The model of an optional owned string.
pub open spec fn view_opt(o: Option<String>) -> Option<Seq<char>> {
    match o {
        Option::Some(s) => Option::Some(s@),
        Option::None => Option::None,
    }
}

/// The builder of the working-directory segment.
#[derive(Debug, Default)]
pub struct PathSegmentBuilder {}

impl PathSegmentBuilder {
    /// Splices the shrunk path into the template; there is always a
    /// segment, styled by whether the directory still exists.
    pub fn build(&self, ctx: &Context) -> (r: Option<Segment>)
        ensures
            r matches Some(seg) && seg.content@ == spec_build_path(
                ctx.config.path.content@,
                view_opt(ctx.env.cwd),
                view_opt(ctx.env.home),
                ctx.config.path.aliases@,
                ctx.config.path.shrink.enabled,
                ctx.config.path.shrink.length as nat,
            ) && style_like(
                seg.style,
                if ctx.env.cwd_is_dir {
                    ctx.config.path.normal.style
                } else {
                    ctx.config.path.error.style
                },
            ),
    {
        let config = &ctx.config.path;
        let home: Option<&str> = match &ctx.env.home {
            Option::Some(h) => Some(h.as_str()),
            Option::None => None,
        };
        assert(view_opt_str(home) == view_opt(ctx.env.home));
        let shrunk: String = match &ctx.env.cwd {
            Option::Some(cwd) => shrink_path(
                cwd.as_str(),
                home,
                None,
                &config.aliases,
                config.shrink.enabled,
                config.shrink.length,
            ),
            Option::None => String::from_str("<unknown>"),
        };
        let patterns: Vec<&str> = vec!["{{.path}}"];
        let replacements: Vec<&str> = vec![shrunk.as_str()];
        proof {
            assert(views_of_strs(patterns@) =~= seq!["{{.path}}"@]);
            assert(views_of_strs(replacements@) =~= seq![
                spec_path_text(
                    view_opt(ctx.env.cwd),
                    view_opt(ctx.env.home),
                    ctx.config.path.aliases@,
                    ctx.config.path.shrink.enabled,
                    ctx.config.path.shrink.length as nat,
                ),
            ]);
        }
        let content = substitute(config.content.as_str(), &patterns, &replacements);
        let style = if ctx.env.cwd_is_dir {
            config.normal.style.duplicate()
        } else {
            config.error.style.duplicate()
        };
        Some(Segment { content, style })
    }
}

} // verus!
