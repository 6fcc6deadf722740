//! The clock segment: splices the already formatted time text into the
//! configured template.

use vstd::prelude::*;

use crate::segment::{Context, Segment};
use crate::style::style_like;
use crate::template::{spec_substitute, substitute, views_of_strs};

verus! {

/// The content of the clock segment for a given time text.
pub open spec fn spec_build_time(template: Seq<char>, time_text: Seq<char>) -> Seq<char> {
    spec_substitute(template, seq!["{{.time}}"@], seq![time_text])
}

/// The builder of the clock segment.
#[derive(Debug, Default)]
pub struct TimeSegmentBuilder {}

impl TimeSegmentBuilder {
    /// Splices the gathered time text into the template; there is
    /// always a segment.
    pub fn build(&self, ctx: &Context) -> (r: Option<Segment>)
        ensures
            r matches Some(seg) && seg.content@ == spec_build_time(
                ctx.config.time.content@,
                ctx.env.time_text@,
            ) && style_like(seg.style, ctx.config.time.style),
    {
        let config = &ctx.config.time;
        let patterns: Vec<&str> = vec!["{{.time}}"];
        let replacements: Vec<&str> = vec![ctx.env.time_text.as_str()];
        proof {
            assert(views_of_strs(patterns@) =~= seq!["{{.time}}"@]);
            assert(views_of_strs(replacements@) =~= seq![ctx.env.time_text@]);
        }
        let content = substitute(config.content.as_str(), &patterns, &replacements);
        Some(Segment { content, style: config.style.duplicate() })
    }
}

} // verus!
