use vstd::prelude::*;

use crate::style::{plain_style, Color, NamedColor, Style};

verus! {

/// Configuration of the user-and-host segment.
#[derive(Debug)]
pub struct UserConfig {
    pub style: Style,
    pub content: String,
}

impl UserConfig {
    /// True of the built-in configuration.
    pub open spec fn is_default(self) -> bool {
        plain_style(self.style, Color::Named(NamedColor::White), Color::Fixed(8)) && self.content@ == " {{.user}}@{{.host}} "@
    }

    /// The built-in style.
    pub fn default_style() -> (r: Style)
        ensures
            plain_style(r, Color::Named(NamedColor::White), Color::Fixed(8)),
    {
        Style {
            foreground: Color::Named(NamedColor::White),
            background: Color::Fixed(8),
            decoration: Vec::new(),
        }
    }

    /// The built-in content template.
    pub fn default_content() -> (r: String)
        ensures
            r@ == " {{.user}}@{{.host}} "@,
    {
        String::from_str(" {{.user}}@{{.host}} ")
    }
}

impl Default for UserConfig {
    fn default() -> (r: Self)
        ensures
            r.is_default(),
    {
        UserConfig { style: Self::default_style(), content: Self::default_content() }
    }
}

} // verus!
