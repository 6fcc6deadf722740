use vstd::prelude::*;

use crate::style::{plain_style, Color, NamedColor, Style};

verus! {

/// Configuration of the CI segment.
#[derive(Debug)]
pub struct GhActionsConfig {
    pub icons: ActionsIcons,
    pub in_progress: InProgressConfig,
    pub success: SuccessConfig,
    pub failure: FailureConfig,
    pub cancelled: CancelledConfig,
    pub skipped: SkippedConfig,
    pub content: String,
}

impl GhActionsConfig {
    /// True of the built-in configuration.
    pub open spec fn is_default(self) -> bool {
        self.icons.is_default()
            && self.in_progress.is_default()
            && self.success.is_default()
            && self.failure.is_default()
            && self.cancelled.is_default()
            && self.skipped.is_default()
            && self.content@ == " {{.status}} "@
    }

    /// The built-in content template.
    pub fn default_content() -> (r: String)
        ensures
            r@ == " {{.status}} "@,
    {
        String::from_str(" {{.status}} ")
    }
}

impl Default for GhActionsConfig {
    fn default() -> (r: Self)
        ensures
            r.is_default(),
    {
        GhActionsConfig {
            icons: Default::default(),
            in_progress: Default::default(),
            success: Default::default(),
            failure: Default::default(),
            cancelled: Default::default(),
            skipped: Default::default(),
            content: Self::default_content(),
        }
    }
}

/// The icons of the CI segment.
#[derive(Debug)]
pub struct ActionsIcons {
    pub in_progress: String,
    pub success: String,
    pub failure: String,
    pub cancelled: String,
    pub skipped: String,
}

impl ActionsIcons {
    /// True of the built-in icons.
    pub open spec fn is_default(self) -> bool {
        self.in_progress@ == "\u{f192}"@
            && self.success@ == "\u{f05d}"@
            && self.failure@ == "\u{f05c}"@
            && self.cancelled@ == "\u{f06a}"@
            && self.skipped@ == "\u{f10c}"@
    }

    /// The built-in `in_progress` icon.
    pub fn default_in_progress() -> (r: String)
        ensures
            r@ == "\u{f192}"@,
    {
        String::from_str("\u{f192}")
    }

    /// The built-in `success` icon.
    pub fn default_success() -> (r: String)
        ensures
            r@ == "\u{f05d}"@,
    {
        String::from_str("\u{f05d}")
    }

    /// The built-in `failure` icon.
    pub fn default_failure() -> (r: String)
        ensures
            r@ == "\u{f05c}"@,
    {
        String::from_str("\u{f05c}")
    }

    /// The built-in `cancelled` icon.
    pub fn default_cancelled() -> (r: String)
        ensures
            r@ == "\u{f06a}"@,
    {
        String::from_str("\u{f06a}")
    }

    /// The built-in `skipped` icon.
    pub fn default_skipped() -> (r: String)
        ensures
            r@ == "\u{f10c}"@,
    {
        String::from_str("\u{f10c}")
    }
}

impl Default for ActionsIcons {
    fn default() -> (r: Self)
        ensures
            r.is_default(),
    {
        ActionsIcons {
            in_progress: Self::default_in_progress(),
            success: Self::default_success(),
            failure: Self::default_failure(),
            cancelled: Self::default_cancelled(),
            skipped: Self::default_skipped(),
        }
    }
}

/// Styling while runs are in progress.
#[derive(Debug)]
pub struct InProgressConfig {
    pub style: Style,
}

impl InProgressConfig {
    /// True of the built-in style.
    pub open spec fn is_default(self) -> bool {
        plain_style(self.style, Color::Named(NamedColor::Black), Color::Fixed(226))
    }

    /// The built-in style.
    pub fn default_style() -> (r: Style)
        ensures
            plain_style(r, Color::Named(NamedColor::Black), Color::Fixed(226)),
    {
        Style {
            foreground: Color::Named(NamedColor::Black),
            background: Color::Fixed(226),
            decoration: Vec::new(),
        }
    }
}

impl Default for InProgressConfig {
    fn default() -> (r: Self)
        ensures
            r.is_default(),
    {
        InProgressConfig { style: Self::default_style() }
    }
}

/// Styling when all runs succeeded.
#[derive(Debug)]
pub struct SuccessConfig {
    pub style: Style,
}

impl SuccessConfig {
    /// True of the built-in style.
    pub open spec fn is_default(self) -> bool {
        plain_style(self.style, Color::Named(NamedColor::White), Color::Fixed(34))
    }

    /// The built-in style.
    pub fn default_style() -> (r: Style)
        ensures
            plain_style(r, Color::Named(NamedColor::White), Color::Fixed(34)),
    {
        Style {
            foreground: Color::Named(NamedColor::White),
            background: Color::Fixed(34),
            decoration: Vec::new(),
        }
    }
}

impl Default for SuccessConfig {
    fn default() -> (r: Self)
        ensures
            r.is_default(),
    {
        SuccessConfig { style: Self::default_style() }
    }
}

/// Styling when a run failed.
#[derive(Debug)]
pub struct FailureConfig {
    pub style: Style,
}

impl FailureConfig {
    /// True of the built-in style.
    pub open spec fn is_default(self) -> bool {
        plain_style(self.style, Color::Named(NamedColor::White), Color::Fixed(196))
    }

    /// The built-in style.
    pub fn default_style() -> (r: Style)
        ensures
            plain_style(r, Color::Named(NamedColor::White), Color::Fixed(196)),
    {
        Style {
            foreground: Color::Named(NamedColor::White),
            background: Color::Fixed(196),
            decoration: Vec::new(),
        }
    }
}

impl Default for FailureConfig {
    fn default() -> (r: Self)
        ensures
            r.is_default(),
    {
        FailureConfig { style: Self::default_style() }
    }
}

/// Styling when a run was cancelled.
#[derive(Debug)]
pub struct CancelledConfig {
    pub style: Style,
}

impl CancelledConfig {
    /// True of the built-in style.
    pub open spec fn is_default(self) -> bool {
        plain_style(self.style, Color::Named(NamedColor::White), Color::Fixed(244))
    }

    /// The built-in style.
    pub fn default_style() -> (r: Style)
        ensures
            plain_style(r, Color::Named(NamedColor::White), Color::Fixed(244)),
    {
        Style {
            foreground: Color::Named(NamedColor::White),
            background: Color::Fixed(244),
            decoration: Vec::new(),
        }
    }
}

impl Default for CancelledConfig {
    fn default() -> (r: Self)
        ensures
            r.is_default(),
    {
        CancelledConfig { style: Self::default_style() }
    }
}

/// Styling when runs were skipped.
#[derive(Debug)]
pub struct SkippedConfig {
    pub style: Style,
}

impl SkippedConfig {
    /// True of the built-in style.
    pub open spec fn is_default(self) -> bool {
        plain_style(self.style, Color::Named(NamedColor::White), Color::Fixed(244))
    }

    /// The built-in style.
    pub fn default_style() -> (r: Style)
        ensures
            plain_style(r, Color::Named(NamedColor::White), Color::Fixed(244)),
    {
        Style {
            foreground: Color::Named(NamedColor::White),
            background: Color::Fixed(244),
            decoration: Vec::new(),
        }
    }
}

impl Default for SkippedConfig {
    fn default() -> (r: Self)
        ensures
            r.is_default(),
    {
        SkippedConfig { style: Self::default_style() }
    }
}

} // verus!
