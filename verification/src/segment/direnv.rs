//! The directory-environment segment: whether an environment file is
//! found, loaded, or blocked.

use vstd::prelude::*;

use crate::segment::{Context, Segment};
use crate::style::{style_like, Style};
use crate::template::{spec_substitute, substitute, views_of_strs};

verus! {

/// The permission value meaning the found file is allowed to load.
pub const DIRENV_ALLOWED: i32 = 0;

/// The permission value meaning the found file was explicitly denied.
pub const DIRENV_DENIED: i32 = 2;

/// One environment file as the tooling reports it: its recorded
/// permission.
#[derive(Debug, Clone, Copy, PartialEq, Eq, Structural)]
pub struct DirenvRc {
    pub allowed: i32,
}

/// The tooling's report: the file found for the directory and the file
/// currently loaded, each optional.
#[derive(Debug, Clone, Copy, PartialEq, Eq, Structural)]
pub struct DirenvStatus {
    pub found_rc: Option<DirenvRc>,
    pub loaded_rc: Option<DirenvRc>,
}

/// The builder of the directory-environment segment.
#[derive(Debug, Default)]
pub struct DirenvSegmentBuilder {}

impl DirenvSegmentBuilder {
    pub fn new() -> (r: Self) {
        DirenvSegmentBuilder {  }
    }

    /// Shows the state of the found environment file: loaded, denied,
    /// or merely found; no segment without a report or without a found
    /// file.
    pub fn build(&self, ctx: &Context) -> (r: Option<Segment>)
        ensures
            match r {
                Some(seg) => {
                    &&& ctx.direnv matches Some(st)
                    &&& st.found_rc is Some
                    &&& {
                        let c = ctx.config.direnv;
                        let (icon, style): (Seq<char>, Style) = match st.loaded_rc {
                            Some(rc) => if rc.allowed == DIRENV_ALLOWED {
                                (c.icons.loaded@, c.loaded.style)
                            } else if rc.allowed == DIRENV_DENIED {
                                (c.icons.disallowed@, c.disallowed.style)
                            } else {
                                (c.icons.found@, c.found.style)
                            },
                            None => (c.icons.found@, c.found.style),
                        };
                        seg.content@ == spec_substitute(c.content@, seq!["{{.status}}"@], seq![icon])
                            && style_like(seg.style, style)
                    }
                },
                None => match ctx.direnv {
                    Some(st) => st.found_rc is None,
                    None => true,
                },
            },
    {
        let config = &ctx.config.direnv;
        let status = match &ctx.direnv {
            Option::Some(st) => st,
            Option::None => {
                return None;
            },
        };
        if status.found_rc.is_none() {
            return None;
        }
        let (icon, style) = match &status.loaded_rc {
            Option::Some(rc) => {
                if rc.allowed == DIRENV_ALLOWED {
                    (&config.icons.loaded, &config.loaded.style)
                } else if rc.allowed == DIRENV_DENIED {
                    (&config.icons.disallowed, &config.disallowed.style)
                } else {
                    (&config.icons.found, &config.found.style)
                }
            },
            Option::None => (&config.icons.found, &config.found.style),
        };
        let patterns: Vec<&str> = vec!["{{.status}}"];
        let replacements: Vec<&str> = vec![icon.as_str()];
        proof {
            assert(views_of_strs(patterns@) =~= seq!["{{.status}}"@]);
            assert(views_of_strs(replacements@) =~= seq![icon@]);
        }
        let content = substitute(config.content.as_str(), &patterns, &replacements);
        Some(Segment { content, style: style.duplicate() })
    }
}

} // verus!
