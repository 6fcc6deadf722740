//! The exit-status segment: success or failure of the last command,
//! with root and background-job indicators.

use vstd::prelude::*;

use crate::segment::{Context, Segment};
use crate::strutil::spec_decimal_int;
use crate::style::style_like;
use crate::template::{spec_substitute, substitute, views_of_strs};

verus! {

/// The exit-status fragment: the success icon for zero, else the
/// failure icon, with the numeric code appended when configured.
pub open spec fn spec_status_exit_text(
    success_icon: Seq<char>,
    error_icon: Seq<char>,
    display_exit_code: bool,
    exit_status: int,
) -> Seq<char> {
    if exit_status == 0 {
        success_icon
    } else if display_exit_code {
        error_icon + seq![' '] + spec_decimal_int(exit_status)
    } else {
        error_icon
    }
}

/// The root fragment: the root icon when running as root, else
/// nothing.
pub open spec fn spec_status_root_text(root_icon: Seq<char>, is_root: bool) -> Seq<char> {
    if is_root {
        seq![' '] + root_icon
    } else {
        Seq::<char>::empty()
    }
}

/// The jobs fragment: the jobs icon when background jobs exist, else
/// nothing.
pub open spec fn spec_status_jobs_text(jobs_icon: Seq<char>, jobs: int) -> Seq<char> {
    if jobs > 0 {
        seq![' '] + jobs_icon
    } else {
        Seq::<char>::empty()
    }
}

/// The content of the status segment.
pub open spec fn spec_build_status(
    template: Seq<char>,
    success_icon: Seq<char>,
    error_icon: Seq<char>,
    root_icon: Seq<char>,
    jobs_icon: Seq<char>,
    display_exit_code: bool,
    exit_status: int,
    is_root: bool,
    jobs: int,
) -> Seq<char> {
    spec_substitute(
        template,
        seq!["{{.exit_status}}"@, "{{.root}}"@, "{{.jobs}}"@],
        seq![
            spec_status_exit_text(success_icon, error_icon, display_exit_code, exit_status),
            spec_status_root_text(root_icon, is_root),
            spec_status_jobs_text(jobs_icon, jobs),
        ],
    )
}

/// The builder of the exit-status segment.
#[derive(Debug, Default)]
pub struct StatusSegmentBuilder {}

impl StatusSegmentBuilder {
    pub fn new() -> (r: Self) {
        StatusSegmentBuilder {  }
    }

    /// Renders status, root and jobs indicators into the template;
    /// there is always a segment, styled by success or failure.
    pub fn build(&self, ctx: &Context) -> (r: Option<Segment>)
        ensures
            r matches Some(seg) && {
                let c = ctx.config.status;
                &&& seg.content@ == spec_build_status(
                    c.content@,
                    c.icons.success@,
                    c.icons.error@,
                    c.icons.root@,
                    c.icons.jobs@,
                    c.error.display_exit_code,
                    ctx.args.exit_status as int,
                    ctx.env.is_root,
                    ctx.args.jobs as int,
                )
                &&& style_like(
                    seg.style,
                    if ctx.args.exit_status == 0 {
                        c.success.style
                    } else {
                        c.error.style
                    },
                )
            },
    {
        let config = &ctx.config.status;
        let icons = &config.icons;
        let exit_status = ctx.args.exit_status;

        let exit_text: String = if exit_status == 0 {
            let c = crate::strutil::chars_of(icons.success.as_str());
            crate::strutil::string_from_chars(&c)
        } else if config.error.display_exit_code {
            let c = crate::strutil::chars_of(icons.error.as_str());
            let mut t = crate::strutil::string_from_chars(&c);
            crate::strutil::push_char(&mut t, ' ');
            let num = crate::strutil::i64_to_string(exit_status as i64);
            t.append(num.as_str());
            assert(t@ =~= icons.error@ + seq![' '] + spec_decimal_int(exit_status as int));
            t
        } else {
            let c = crate::strutil::chars_of(icons.error.as_str());
            crate::strutil::string_from_chars(&c)
        };

        let root_text: String = if ctx.env.is_root {
            let mut t = String::new();
            crate::strutil::push_char(&mut t, ' ');
            t.append(icons.root.as_str());
            assert(t@ =~= seq![' '] + icons.root@);
            t
        } else {
            String::new()
        };

        let jobs_text: String = if ctx.args.jobs > 0 {
            let mut t = String::new();
            crate::strutil::push_char(&mut t, ' ');
            t.append(icons.jobs.as_str());
            assert(t@ =~= seq![' '] + icons.jobs@);
            t
        } else {
            String::new()
        };

        let patterns: Vec<&str> = vec!["{{.exit_status}}", "{{.root}}", "{{.jobs}}"];
        let replacements: Vec<&str> = vec![
            exit_text.as_str(),
            root_text.as_str(),
            jobs_text.as_str(),
        ];
        proof {
            assert(views_of_strs(patterns@) =~= seq![
                "{{.exit_status}}"@,
                "{{.root}}"@,
                "{{.jobs}}"@,
            ]);
            assert(views_of_strs(replacements@) =~= seq![
                spec_status_exit_text(
                    config.icons.success@,
                    config.icons.error@,
                    config.error.display_exit_code,
                    ctx.args.exit_status as int,
                ),
                spec_status_root_text(config.icons.root@, ctx.env.is_root),
                spec_status_jobs_text(config.icons.jobs@, ctx.args.jobs as int),
            ]);
        }
        let content = substitute(config.content.as_str(), &patterns, &replacements);
        let style = if exit_status == 0 {
            config.success.style.duplicate()
        } else {
            config.error.style.duplicate()
        };
        Some(Segment { content, style })
    }
}

} // verus!
