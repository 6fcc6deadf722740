use vstd::prelude::*;

use crate::style::{plain_style, Color, NamedColor, Style};

verus! {

/// Configuration of the duration segment.
#[derive(Debug)]
pub struct DurationConfig {
    pub style: Style,
    pub content: String,
}

impl DurationConfig {
    /// True of the built-in configuration.
    pub open spec fn is_default(self) -> bool {
        plain_style(self.style, Color::Named(NamedColor::White), Color::Fixed(242))
            && self.content@ == " \u{fa1a}{{.duration}} "@
    }

    /// The built-in style.
    pub fn default_style() -> (r: Style)
        ensures
            plain_style(r, Color::Named(NamedColor::White), Color::Fixed(242)),
    {
        Style {
            foreground: Color::Named(NamedColor::White),
            background: Color::Fixed(242),
            decoration: Vec::new(),
        }
    }

    /// The built-in content template.
    pub fn default_content() -> (r: String)
        ensures
            r@ == " \u{fa1a}{{.duration}} "@,
    {
        String::from_str(" \u{fa1a}{{.duration}} ")
    }
}

impl Default for DurationConfig {
    fn default() -> (r: Self)
        ensures
            r.is_default(),
    {
        DurationConfig { style: Self::default_style(), content: Self::default_content() }
    }
}

} // verus!
