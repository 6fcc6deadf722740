use vstd::prelude::*;

use crate::style::{plain_style, Color, NamedColor, Style};

verus! {

/// Configuration of the merge-request segment.
#[derive(Debug)]
pub struct GlabMergeRequestConfig {
    pub icons: MergeRequestIcons,
    pub open: OpenStateConfig,
    pub draft: DraftStateConfig,
    pub closed: ClosedStateConfig,
    pub merged: MergedStateConfig,
    pub content: String,
}

impl GlabMergeRequestConfig {
    /// True of the built-in configuration.
    pub open spec fn is_default(self) -> bool {
        self.icons.is_default()
            && self.open.is_default()
            && self.draft.is_default()
            && self.closed.is_default()
            && self.merged.is_default()
            && self.content@ == " \u{f296} !{{.number}}{{.state}}{{.pipeline}}{{.approved}}{{.comments}} "@
    }

    /// The built-in content template.
    pub fn default_content() -> (r: String)
        ensures
            r@ == " \u{f296} !{{.number}}{{.state}}{{.pipeline}}{{.approved}}{{.comments}} "@,
    {
        String::from_str(" \u{f296} !{{.number}}{{.state}}{{.pipeline}}{{.approved}}{{.comments}} ")
    }
}

impl Default for GlabMergeRequestConfig {
    fn default() -> (r: Self)
        ensures
            r.is_default(),
    {
        GlabMergeRequestConfig {
            icons: Default::default(),
            open: Default::default(),
            draft: Default::default(),
            closed: Default::default(),
            merged: Default::default(),
            content: Self::default_content(),
        }
    }
}

/// The icons of the merge-request segment.
#[derive(Debug)]
pub struct MergeRequestIcons {
    pub open: String,
    pub draft: String,
    pub closed: String,
    pub merged: String,
    pub approved: String,
    pub pipeline_pending: String,
    pub pipeline_running: String,
    pub pipeline_success: String,
    pub pipeline_failed: String,
    pub pipeline_canceled: String,
    pub comment: String,
}

impl MergeRequestIcons {
    /// True of the built-in icons.
    pub open spec fn is_default(self) -> bool {
        self.open@ == ""@
            && self.draft@ == "\u{f0ad}"@
            && self.closed@ == "\u{f05e}"@
            && self.merged@ == "\u{f419}"@
            && self.approved@ == "\u{f164}"@
            && self.pipeline_pending@ == "\u{f28c}"@
            && self.pipeline_running@ == "\u{f192}"@
            && self.pipeline_success@ == "\u{f05d}"@
            && self.pipeline_failed@ == "\u{f05c}"@
            && self.pipeline_canceled@ == "\u{f28e}"@
            && self.comment@ == "\u{f41f} "@
    }

    /// The built-in `open` icon.
    pub fn default_open() -> (r: String)
        ensures
            r@ == ""@,
    {
        String::from_str("")
    }

    /// The built-in `draft` icon.
    pub fn default_draft() -> (r: String)
        ensures
            r@ == "\u{f0ad}"@,
    {
        String::from_str("\u{f0ad}")
    }

    /// The built-in `closed` icon.
    pub fn default_closed() -> (r: String)
        ensures
            r@ == "\u{f05e}"@,
    {
        String::from_str("\u{f05e}")
    }

    /// The built-in `merged` icon.
    pub fn default_merged() -> (r: String)
        ensures
            r@ == "\u{f419}"@,
    {
        String::from_str("\u{f419}")
    }

    /// The built-in `approved` icon.
    pub fn default_approved() -> (r: String)
        ensures
            r@ == "\u{f164}"@,
    {
        String::from_str("\u{f164}")
    }

    /// The built-in `pipeline_pending` icon.
    pub fn default_pipeline_pending() -> (r: String)
        ensures
            r@ == "\u{f28c}"@,
    {
        String::from_str("\u{f28c}")
    }

    /// The built-in `pipeline_running` icon.
    pub fn default_pipeline_running() -> (r: String)
        ensures
            r@ == "\u{f192}"@,
    {
        String::from_str("\u{f192}")
    }

    /// The built-in `pipeline_success` icon.
    pub fn default_pipeline_success() -> (r: String)
        ensures
            r@ == "\u{f05d}"@,
    {
        String::from_str("\u{f05d}")
    }

    /// The built-in `pipeline_failed` icon.
    pub fn default_pipeline_failed() -> (r: String)
        ensures
            r@ == "\u{f05c}"@,
    {
        String::from_str("\u{f05c}")
    }

    /// The built-in `pipeline_canceled` icon.
    pub fn default_pipeline_canceled() -> (r: String)
        ensures
            r@ == "\u{f28e}"@,
    {
        String::from_str("\u{f28e}")
    }

    /// The built-in `comment` icon.
    pub fn default_comment() -> (r: String)
        ensures
            r@ == "\u{f41f} "@,
    {
        String::from_str("\u{f41f} ")
    }
}

impl Default for MergeRequestIcons {
    fn default() -> (r: Self)
        ensures
            r.is_default(),
    {
        MergeRequestIcons {
            open: Self::default_open(),
            draft: Self::default_draft(),
            closed: Self::default_closed(),
            merged: Self::default_merged(),
            approved: Self::default_approved(),
            pipeline_pending: Self::default_pipeline_pending(),
            pipeline_running: Self::default_pipeline_running(),
            pipeline_success: Self::default_pipeline_success(),
            pipeline_failed: Self::default_pipeline_failed(),
            pipeline_canceled: Self::default_pipeline_canceled(),
            comment: Self::default_comment(),
        }
    }
}

/// Styling of an open merge request.
#[derive(Debug)]
pub struct OpenStateConfig {
    pub style: Style,
}

impl OpenStateConfig {
    /// True of the built-in style.
    pub open spec fn is_default(self) -> bool {
        plain_style(self.style, Color::Named(NamedColor::Black), Color::Fixed(214))
    }

    /// The built-in style.
    pub fn default_style() -> (r: Style)
        ensures
            plain_style(r, Color::Named(NamedColor::Black), Color::Fixed(214)),
    {
        Style {
            foreground: Color::Named(NamedColor::Black),
            background: Color::Fixed(214),
            decoration: Vec::new(),
        }
    }
}

impl Default for OpenStateConfig {
    fn default() -> (r: Self)
        ensures
            r.is_default(),
    {
        OpenStateConfig { style: Self::default_style() }
    }
}

/// Styling of a draft merge request.
#[derive(Debug)]
pub struct DraftStateConfig {
    pub style: Style,
}

impl DraftStateConfig {
    /// True of the built-in style.
    pub open spec fn is_default(self) -> bool {
        plain_style(self.style, Color::Named(NamedColor::Black), Color::Fixed(249))
    }

    /// The built-in style.
    pub fn default_style() -> (r: Style)
        ensures
            plain_style(r, Color::Named(NamedColor::Black), Color::Fixed(249)),
    {
        Style {
            foreground: Color::Named(NamedColor::Black),
            background: Color::Fixed(249),
            decoration: Vec::new(),
        }
    }
}

impl Default for DraftStateConfig {
    fn default() -> (r: Self)
        ensures
            r.is_default(),
    {
        DraftStateConfig { style: Self::default_style() }
    }
}

/// Styling of a closed merge request.
#[derive(Debug)]
pub struct ClosedStateConfig {
    pub style: Style,
}

impl ClosedStateConfig {
    /// True of the built-in style.
    pub open spec fn is_default(self) -> bool {
        plain_style(self.style, Color::Named(NamedColor::Black), Color::Fixed(196))
    }

    /// The built-in style.
    pub fn default_style() -> (r: Style)
        ensures
            plain_style(r, Color::Named(NamedColor::Black), Color::Fixed(196)),
    {
        Style {
            foreground: Color::Named(NamedColor::Black),
            background: Color::Fixed(196),
            decoration: Vec::new(),
        }
    }
}

impl Default for ClosedStateConfig {
    fn default() -> (r: Self)
        ensures
            r.is_default(),
    {
        ClosedStateConfig { style: Self::default_style() }
    }
}

/// Styling of a merged merge request.
#[derive(Debug)]
pub struct MergedStateConfig {
    pub style: Style,
}

impl MergedStateConfig {
    /// True of the built-in style.
    pub open spec fn is_default(self) -> bool {
        plain_style(self.style, Color::Named(NamedColor::Black), Color::Fixed(141))
    }

    /// The built-in style.
    pub fn default_style() -> (r: Style)
        ensures
            plain_style(r, Color::Named(NamedColor::Black), Color::Fixed(141)),
    {
        Style {
            foreground: Color::Named(NamedColor::Black),
            background: Color::Fixed(141),
            decoration: Vec::new(),
        }
    }
}

impl Default for MergedStateConfig {
    fn default() -> (r: Self)
        ensures
            r.is_default(),
    {
        MergedStateConfig { style: Self::default_style() }
    }
}

} // verus!
