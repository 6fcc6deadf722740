use vstd::prelude::*;

use crate::style::{Color, Decoration, NamedColor, Style};

verus! {

/// Configuration of the exit-status segment.
#[derive(Debug)]
pub struct StatusConfig {
    pub icons: StatusIcons,
    pub success: SuccessStatusConfig,
    pub error: ErrorStatusConfig,
    pub content: String,
}

/// A style holding exactly the given colors and no decoration.
pub open spec fn plain_style(s: Style, fg: Color, bg: Color) -> bool {
    s.foreground == fg && s.background == bg && s.decoration@.len() == 0
}

impl StatusConfig {
    /// True of the built-in configuration.
    pub open spec fn is_default(self) -> bool {
        self.icons.is_default() && self.success.is_default() && self.error.is_default()
            && self.content@ == " {{.exit_status}}{{.root}}{{.jobs}} "@
    }

    /// The built-in content template.
    pub fn default_content() -> (r: String)
        ensures
            r@ == " {{.exit_status}}{{.root}}{{.jobs}} "@,
    {
        String::from_str(" {{.exit_status}}{{.root}}{{.jobs}} ")
    }
}

impl Default for StatusConfig {
    fn default() -> (r: Self)
        ensures
            r.is_default(),
    {
        StatusConfig {
            icons: Default::default(),
            success: Default::default(),
            error: Default::default(),
            content: Self::default_content(),
        }
    }
}

/// The icons of the exit-status segment.
#[derive(Debug)]
pub struct StatusIcons {
    pub success: String,
    pub error: String,
    pub root: String,
    pub jobs: String,
}

impl StatusIcons {
    /// True of the built-in icons.
    pub open spec fn is_default(self) -> bool {
        self.success@ == "\u{2713}"@ && self.error@ == "\u{f06a}"@ && self.root@ == "\u{e00a}"@
            && self.jobs@ == "\u{f013}"@
    }

    pub fn default_success() -> (r: String)
        ensures
            r@ == "\u{2713}"@,
    {
        String::from_str("\u{2713}")
    }

    pub fn default_error() -> (r: String)
        ensures
            r@ == "\u{f06a}"@,
    {
        String::from_str("\u{f06a}")
    }

    pub fn default_root() -> (r: String)
        ensures
            r@ == "\u{e00a}"@,
    {
        String::from_str("\u{e00a}")
    }

    pub fn default_jobs() -> (r: String)
        ensures
            r@ == "\u{f013}"@,
    {
        String::from_str("\u{f013}")
    }
}

impl Default for StatusIcons {
    fn default() -> (r: Self)
        ensures
            r.is_default(),
    {
        StatusIcons {
            success: Self::default_success(),
            error: Self::default_error(),
            root: Self::default_root(),
            jobs: Self::default_jobs(),
        }
    }
}

/// Styling of the segment after a successful command.
#[derive(Debug)]
pub struct SuccessStatusConfig {
    pub style: Style,
}

impl SuccessStatusConfig {
    /// True of the built-in style: Green on White, no decoration.
    pub open spec fn is_default(self) -> bool {
        plain_style(self.style, Color::Named(NamedColor::Green), Color::Named(NamedColor::White))
    }

    /// The built-in style.
    pub fn default_style() -> (r: Style)
        ensures
            plain_style(r, Color::Named(NamedColor::Green), Color::Named(NamedColor::White)),
    {
        Style {
            foreground: Color::Named(NamedColor::Green),
            background: Color::Named(NamedColor::White),
            decoration: Vec::new(),
        }
    }
}

impl Default for SuccessStatusConfig {
    fn default() -> (r: Self)
        ensures
            r.is_default(),
    {
        SuccessStatusConfig { style: Self::default_style() }
    }
}

/// Styling of the segment after a failed command.
#[derive(Debug)]
pub struct ErrorStatusConfig {
    pub style: Style,
    pub display_exit_code: bool,
}

impl ErrorStatusConfig {
    /// True of the built-in configuration: white on red, and the
    /// numeric exit code shown.
    pub open spec fn is_default(self) -> bool {
        plain_style(self.style, Color::Named(NamedColor::White), Color::Named(NamedColor::Red))
            && self.display_exit_code
    }

    /// The built-in style.
    pub fn default_style() -> (r: Style)
        ensures
            plain_style(r, Color::Named(NamedColor::White), Color::Named(NamedColor::Red)),
    {
        Style {
            foreground: Color::Named(NamedColor::White),
            background: Color::Named(NamedColor::Red),
            decoration: Vec::new(),
        }
    }

    /// By default the numeric exit code is appended to the icon.
    pub fn default_display_exit_code() -> (r: bool)
        ensures
            r,
    {
        true
    }
}

impl Default for ErrorStatusConfig {
    fn default() -> (r: Self)
        ensures
            r.is_default(),
    {
        ErrorStatusConfig {
            style: Self::default_style(),
            display_exit_code: Self::default_display_exit_code(),
        }
    }
}

} // verus!
