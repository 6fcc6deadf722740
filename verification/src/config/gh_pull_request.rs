use vstd::prelude::*;

use crate::style::{plain_style, Color, NamedColor, Style};

verus! {

/// Configuration of the pull-request segment.
#[derive(Debug)]
pub struct GhPullRequestConfig {
    pub icons: PullRequestIcons,
    pub open: OpenPrConfig,
    pub draft: DraftPrConfig,
    pub closed: ClosedPrConfig,
    pub merged: MergedPrConfig,
    pub content: String,
}

impl GhPullRequestConfig {
    /// True of the built-in configuration.
    pub open spec fn is_default(self) -> bool {
        self.icons.is_default()
            && self.open.is_default()
            && self.draft.is_default()
            && self.closed.is_default()
            && self.merged.is_default()
            && self.content@ == " \u{f407} #{{.number}}{{.state}}{{.comments}} "@
    }

    /// The built-in content template.
    pub fn default_content() -> (r: String)
        ensures
            r@ == " \u{f407} #{{.number}}{{.state}}{{.comments}} "@,
    {
        String::from_str(" \u{f407} #{{.number}}{{.state}}{{.comments}} ")
    }
}

impl Default for GhPullRequestConfig {
    fn default() -> (r: Self)
        ensures
            r.is_default(),
    {
        GhPullRequestConfig {
            icons: Default::default(),
            open: Default::default(),
            draft: Default::default(),
            closed: Default::default(),
            merged: Default::default(),
            content: Self::default_content(),
        }
    }
}

/// The icons of the pull-request segment.
#[derive(Debug)]
pub struct PullRequestIcons {
    pub open: String,
    pub draft: String,
    pub closed: String,
    pub merged: String,
    pub comment: String,
}

impl PullRequestIcons {
    /// True of the built-in icons.
    pub open spec fn is_default(self) -> bool {
        self.open@ == ""@
            && self.draft@ == "\u{f0ad}"@
            && self.closed@ == "\u{f05e}"@
            && self.merged@ == "\u{f419}"@
            && self.comment@ == "\u{f41f} "@
    }

    /// The built-in `open` icon.
    pub fn default_open() -> (r: String)
        ensures
            r@ == ""@,
    {
        String::from_str("")
    }

    /// The built-in `draft` icon.
    pub fn default_draft() -> (r: String)
        ensures
            r@ == "\u{f0ad}"@,
    {
        String::from_str("\u{f0ad}")
    }

    /// The built-in `closed` icon.
    pub fn default_closed() -> (r: String)
        ensures
            r@ == "\u{f05e}"@,
    {
        String::from_str("\u{f05e}")
    }

    /// The built-in `merged` icon.
    pub fn default_merged() -> (r: String)
        ensures
            r@ == "\u{f419}"@,
    {
        String::from_str("\u{f419}")
    }

    /// The built-in `comment` icon.
    pub fn default_comment() -> (r: String)
        ensures
            r@ == "\u{f41f} "@,
    {
        String::from_str("\u{f41f} ")
    }
}

impl Default for PullRequestIcons {
    fn default() -> (r: Self)
        ensures
            r.is_default(),
    {
        PullRequestIcons {
            open: Self::default_open(),
            draft: Self::default_draft(),
            closed: Self::default_closed(),
            merged: Self::default_merged(),
            comment: Self::default_comment(),
        }
    }
}

/// Styling of an open pull request.
#[derive(Debug)]
pub struct OpenPrConfig {
    pub style: Style,
}

impl OpenPrConfig {
    /// True of the built-in style.
    pub open spec fn is_default(self) -> bool {
        plain_style(self.style, Color::Named(NamedColor::Black), Color::Fixed(214))
    }

    /// The built-in style.
    pub fn default_style() -> (r: Style)
        ensures
            plain_style(r, Color::Named(NamedColor::Black), Color::Fixed(214)),
    {
        Style {
            foreground: Color::Named(NamedColor::Black),
            background: Color::Fixed(214),
            decoration: Vec::new(),
        }
    }
}

impl Default for OpenPrConfig {
    fn default() -> (r: Self)
        ensures
            r.is_default(),
    {
        OpenPrConfig { style: Self::default_style() }
    }
}

/// Styling of a draft pull request.
#[derive(Debug)]
pub struct DraftPrConfig {
    pub style: Style,
}

impl DraftPrConfig {
    /// True of the built-in style.
    pub open spec fn is_default(self) -> bool {
        plain_style(self.style, Color::Named(NamedColor::Black), Color::Fixed(249))
    }

    /// The built-in style.
    pub fn default_style() -> (r: Style)
        ensures
            plain_style(r, Color::Named(NamedColor::Black), Color::Fixed(249)),
    {
        Style {
            foreground: Color::Named(NamedColor::Black),
            background: Color::Fixed(249),
            decoration: Vec::new(),
        }
    }
}

impl Default for DraftPrConfig {
    fn default() -> (r: Self)
        ensures
            r.is_default(),
    {
        DraftPrConfig { style: Self::default_style() }
    }
}

/// Styling of a closed pull request.
#[derive(Debug)]
pub struct ClosedPrConfig {
    pub style: Style,
}

impl ClosedPrConfig {
    /// True of the built-in style.
    pub open spec fn is_default(self) -> bool {
        plain_style(self.style, Color::Named(NamedColor::Black), Color::Fixed(196))
    }

    /// The built-in style.
    pub fn default_style() -> (r: Style)
        ensures
            plain_style(r, Color::Named(NamedColor::Black), Color::Fixed(196)),
    {
        Style {
            foreground: Color::Named(NamedColor::Black),
            background: Color::Fixed(196),
            decoration: Vec::new(),
        }
    }
}

impl Default for ClosedPrConfig {
    fn default() -> (r: Self)
        ensures
            r.is_default(),
    {
        ClosedPrConfig { style: Self::default_style() }
    }
}

/// Styling of a merged pull request.
#[derive(Debug)]
pub struct MergedPrConfig {
    pub style: Style,
}

impl MergedPrConfig {
    /// True of the built-in style.
    pub open spec fn is_default(self) -> bool {
        plain_style(self.style, Color::Named(NamedColor::Black), Color::Fixed(141))
    }

    /// The built-in style.
    pub fn default_style() -> (r: Style)
        ensures
            plain_style(r, Color::Named(NamedColor::Black), Color::Fixed(141)),
    {
        Style {
            foreground: Color::Named(NamedColor::Black),
            background: Color::Fixed(141),
            decoration: Vec::new(),
        }
    }
}

impl Default for MergedPrConfig {
    fn default() -> (r: Self)
        ensures
            r.is_default(),
    {
        MergedPrConfig { style: Self::default_style() }
    }
}

} // verus!
