use vstd::prelude::*;

use crate::style::{plain_style, Color, NamedColor, Style};

verus! {

/// Configuration of the working-directory segment.
#[derive(Debug)]
pub struct PathConfig {
    pub normal: NormalPathConfig,
    pub error: ErrorPathConfig,
    pub shrink: ShrinkPathConfig,
    pub aliases: Vec<PathAlias>,
    pub content: String,
}

impl PathConfig {
    /// True of the built-in configuration: one alias folding the home
    /// directory to a tilde.
    pub open spec fn is_default(self) -> bool {
        self.normal.is_default() && self.error.is_default() && self.shrink.is_default()
            && self.aliases@.len() == 1 && self.aliases@[0].path@ == "~"@
            && self.aliases@[0].alias@ == "~"@ && self.content@ == " {{.path}} "@
    }

    /// The built-in alias list: the home directory shown as a tilde.
    pub fn default_aliases() -> (r: Vec<PathAlias>)
        ensures
            r@.len() == 1,
            r@[0].path@ == "~"@,
            r@[0].alias@ == "~"@,
    {
        let mut v: Vec<PathAlias> = Vec::new();
        v.push(PathAlias { path: String::from_str("~"), alias: String::from_str("~") });
        v
    }

    /// The built-in content template.
    pub fn default_content() -> (r: String)
        ensures
            r@ == " {{.path}} "@,
    {
        String::from_str(" {{.path}} ")
    }
}

impl Default for PathConfig {
    fn default() -> (r: Self)
        ensures
            r.is_default(),
    {
        PathConfig {
            normal: Default::default(),
            error: Default::default(),
            shrink: Default::default(),
            aliases: Self::default_aliases(),
            content: Self::default_content(),
        }
    }
}

/// Styling of the path segment for an existing directory.
#[derive(Debug)]
pub struct NormalPathConfig {
    pub style: Style,
}

impl NormalPathConfig {
    /// True of the built-in style.
    pub open spec fn is_default(self) -> bool {
        plain_style(self.style, Color::Named(NamedColor::Black), Color::Named(NamedColor::Blue))
    }

    /// The built-in style.
    pub fn default_style() -> (r: Style)
        ensures
            plain_style(r, Color::Named(NamedColor::Black), Color::Named(NamedColor::Blue)),
    {
        Style {
            foreground: Color::Named(NamedColor::Black),
            background: Color::Named(NamedColor::Blue),
            decoration: Vec::new(),
        }
    }
}

impl Default for NormalPathConfig {
    fn default() -> (r: Self)
        ensures
            r.is_default(),
    {
        NormalPathConfig { style: Self::default_style() }
    }
}

/// Styling of the path segment when the directory is gone.
#[derive(Debug)]
pub struct ErrorPathConfig {
    pub style: Style,
}

impl ErrorPathConfig {
    /// True of the built-in style.
    pub open spec fn is_default(self) -> bool {
        plain_style(self.style, Color::Named(NamedColor::Black), Color::Named(NamedColor::Red))
    }

    /// The built-in style.
    pub fn default_style() -> (r: Style)
        ensures
            plain_style(r, Color::Named(NamedColor::Black), Color::Named(NamedColor::Red)),
    {
        Style {
            foreground: Color::Named(NamedColor::Black),
            background: Color::Named(NamedColor::Red),
            decoration: Vec::new(),
        }
    }
}

impl Default for ErrorPathConfig {
    fn default() -> (r: Self)
        ensures
            r.is_default(),
    {
        ErrorPathConfig { style: Self::default_style() }
    }
}

/// How path components are shrunk.
#[derive(Debug, Clone, Copy, PartialEq, Eq, Structural)]
pub struct ShrinkPathConfig {
    pub enabled: bool,
    pub length: usize,
}

impl ShrinkPathConfig {
    /// True of the built-in configuration: shrinking on, one character
    /// per component.
    pub open spec fn is_default(self) -> bool {
        self.enabled && self.length == 1
    }

    /// Shrinking is on by default.
    pub fn default_enabled() -> (r: bool)
        ensures
            r,
    {
        true
    }

    /// One character per shrunk component by default.
    pub fn default_length() -> (r: usize)
        ensures
            r == 1,
    {
        1
    }
}

impl Default for ShrinkPathConfig {
    fn default() -> (r: Self)
        ensures
            r.is_default(),
    {
        ShrinkPathConfig { enabled: Self::default_enabled(), length: Self::default_length() }
    }
}

/// One configured path alias: a prefix and its replacement.
#[derive(Debug)]
pub struct PathAlias {
    pub path: String,
    pub alias: String,
}

} // verus!
