//! The user segment: who is logged in on which machine, with a
//! question mark for whatever could not be determined.

use vstd::prelude::*;

use crate::segment::{Context, Segment};
use crate::style::style_like;
use crate::template::{spec_substitute, substitute, views_of_strs};

verus! {

/// The text standing in for an unknown user or host.
pub open spec fn spec_or_question(v: Option<Seq<char>>) -> Seq<char> {
    match v {
        Option::Some(s) => s,
        Option::None => seq!['?'],
    }
}

/// The content of the user segment for the given lookups.
pub open spec fn spec_build_user(
    template: Seq<char>,
    username: Option<Seq<char>>,
    hostname: Option<Seq<char>>,
) -> Seq<char> {
    spec_substitute(
        template,
        seq!["{{.user}}"@, "{{.host}}"@],
        seq![spec_or_question(username), spec_or_question(hostname)],
    )
}

/// The model of an optional owned string.
pub open spec fn view_opt(o: Option<String>) -> Option<Seq<char>> {
    match o {
        Option::Some(s) => Option::Some(s@),
        Option::None => Option::None,
    }
}

/// The builder of the user segment.
#[derive(Debug, Default)]
pub struct UserSegmentBuilder {}

impl UserSegmentBuilder {
    /// Splices user and host into the template, each falling back to a
    /// question mark; there is always a segment.
    pub fn build(&self, ctx: &Context) -> (r: Option<Segment>)
        ensures
            r matches Some(seg) && seg.content@ == spec_build_user(
                ctx.config.user.content@,
                view_opt(ctx.env.username),
                view_opt(ctx.env.hostname),
            ) && style_like(seg.style, ctx.config.user.style),
    {
        let config = &ctx.config.user;
        let user: &str = match &ctx.env.username {
            Option::Some(u) => u.as_str(),
            Option::None => "?",
        };
        let host: &str = match &ctx.env.hostname {
            Option::Some(h) => h.as_str(),
            Option::None => "?",
        };
        proof {
            reveal_strlit("?");
            assert("?"@ =~= seq!['?']);
        }
        let patterns: Vec<&str> = vec!["{{.user}}", "{{.host}}"];
        let replacements: Vec<&str> = vec![user, host];
        proof {
            assert(views_of_strs(patterns@) =~= seq!["{{.user}}"@, "{{.host}}"@]);
            assert(views_of_strs(replacements@) =~= seq![
                spec_or_question(view_opt(ctx.env.username)),
                spec_or_question(view_opt(ctx.env.hostname)),
            ]);
        }
        let content = substitute(config.content.as_str(), &patterns, &replacements);
        Some(Segment { content, style: config.style.duplicate() })
    }
}

} // verus!
