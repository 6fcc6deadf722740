use vstd::prelude::*;

use crate::style::{plain_style, Color, NamedColor, Style};

verus! {

/// Configuration of the clock segment.
#[derive(Debug)]
pub struct TimeConfig {
    pub format: String,
    pub utc: bool,
    pub style: Style,
    pub content: String,
}

impl TimeConfig {
    /// True of the built-in configuration.
    pub open spec fn is_default(self) -> bool {
        self.format@ == "%Y/%m/%d %H:%M:%S"@ && !self.utc && plain_style(
            self.style,
            Color::Fixed(8),
            Color::Named(NamedColor::White),
        ) && self.content@ == " \u{f017} {{.time}} "@
    }

    /// The built-in time format.
    pub fn default_format() -> (r: String)
        ensures
            r@ == "%Y/%m/%d %H:%M:%S"@,
    {
        String::from_str("%Y/%m/%d %H:%M:%S")
    }

    /// Local time by default.
    pub fn default_utc() -> (r: bool)
        ensures
            !r,
    {
        false
    }

    /// The built-in style.
    pub fn default_style() -> (r: Style)
        ensures
            plain_style(r, Color::Fixed(8), Color::Named(NamedColor::White)),
    {
        Style {
            foreground: Color::Fixed(8),
            background: Color::Named(NamedColor::White),
            decoration: Vec::new(),
        }
    }

    /// The built-in content template.
    pub fn default_content() -> (r: String)
        ensures
            r@ == " \u{f017} {{.time}} "@,
    {
        String::from_str(" \u{f017} {{.time}} ")
    }
}

impl Default for TimeConfig {
    fn default() -> (r: Self)
        ensures
            r.is_default(),
    {
        TimeConfig {
            format: Self::default_format(),
            utc: Self::default_utc(),
            style: Self::default_style(),
            content: Self::default_content(),
        }
    }
}

} // verus!
