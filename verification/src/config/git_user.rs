use vstd::prelude::*;

use crate::style::{plain_style, Color, NamedColor, Style};

verus! {

/// Configuration of the configured-committer segment.
#[derive(Debug)]
pub struct GitUserConfig {
    pub style: Style,
    pub content: String,
}

impl GitUserConfig {
    /// True of the built-in configuration.
    pub open spec fn is_default(self) -> bool {
        plain_style(self.style, Color::Named(NamedColor::Black), Color::Fixed(117)) && self.content@ == " \u{f2c0} {{.name}} "@
    }

    /// The built-in style.
    pub fn default_style() -> (r: Style)
        ensures
            plain_style(r, Color::Named(NamedColor::Black), Color::Fixed(117)),
    {
        Style {
            foreground: Color::Named(NamedColor::Black),
            background: Color::Fixed(117),
            decoration: Vec::new(),
        }
    }

    /// The built-in content template.
    pub fn default_content() -> (r: String)
        ensures
            r@ == " \u{f2c0} {{.name}} "@,
    {
        String::from_str(" \u{f2c0} {{.name}} ")
    }
}

impl Default for GitUserConfig {
    fn default() -> (r: Self)
        ensures
            r.is_default(),
    {
        GitUserConfig { style: Self::default_style(), content: Self::default_content() }
    }
}

} // verus!
