use vstd::prelude::*;

use crate::style::{plain_style, Color, HexColor, NamedColor, Style};

verus! {

/// Configuration of the directory-environment segment.
#[derive(Debug)]
pub struct DirenvConfig {
    pub icons: DirenvIcons,
    pub loaded: LoadedDirenvConfig,
    pub found: FoundDirenvConfig,
    pub disallowed: DisallowedDirenvConfig,
    pub content: String,
}

impl DirenvConfig {
    /// True of the built-in configuration.
    pub open spec fn is_default(self) -> bool {
        self.icons.is_default()
            && self.loaded.is_default()
            && self.found.is_default()
            && self.disallowed.is_default()
            && self.content@ == " .{{.status}} "@
    }

    /// The built-in content template.
    pub fn default_content() -> (r: String)
        ensures
            r@ == " .{{.status}} "@,
    {
        String::from_str(" .{{.status}} ")
    }
}

impl Default for DirenvConfig {
    fn default() -> (r: Self)
        ensures
            r.is_default(),
    {
        DirenvConfig {
            icons: Default::default(),
            loaded: Default::default(),
            found: Default::default(),
            disallowed: Default::default(),
            content: Self::default_content(),
        }
    }
}

/// The icons of the directory-environment segment.
#[derive(Debug)]
pub struct DirenvIcons {
    pub loaded: String,
    pub found: String,
    pub disallowed: String,
}

impl DirenvIcons {
    /// True of the built-in icons.
    pub open spec fn is_default(self) -> bool {
        self.loaded@ == "\u{f444}"@
            && self.found@ == "\u{eba5}"@
            && self.disallowed@ == "\u{f05e}"@
    }

    /// The built-in `loaded` icon.
    pub fn default_loaded() -> (r: String)
        ensures
            r@ == "\u{f444}"@,
    {
        String::from_str("\u{f444}")
    }

    /// The built-in `found` icon.
    pub fn default_found() -> (r: String)
        ensures
            r@ == "\u{eba5}"@,
    {
        String::from_str("\u{eba5}")
    }

    /// The built-in `disallowed` icon.
    pub fn default_disallowed() -> (r: String)
        ensures
            r@ == "\u{f05e}"@,
    {
        String::from_str("\u{f05e}")
    }
}

impl Default for DirenvIcons {
    fn default() -> (r: Self)
        ensures
            r.is_default(),
    {
        DirenvIcons {
            loaded: Self::default_loaded(),
            found: Self::default_found(),
            disallowed: Self::default_disallowed(),
        }
    }
}

/// Styling when an environment file is loaded.
#[derive(Debug)]
pub struct LoadedDirenvConfig {
    pub style: Style,
}

impl LoadedDirenvConfig {
    /// True of the built-in style.
    pub open spec fn is_default(self) -> bool {
        plain_style(self.style, Color::Named(NamedColor::White), Color::Hex(HexColor(0x96, 0xa1, 0xb5)))
    }

    /// The built-in style.
    pub fn default_style() -> (r: Style)
        ensures
            plain_style(r, Color::Named(NamedColor::White), Color::Hex(HexColor(0x96, 0xa1, 0xb5))),
    {
        Style {
            foreground: Color::Named(NamedColor::White),
            background: Color::Hex(HexColor(0x96, 0xa1, 0xb5)),
            decoration: Vec::new(),
        }
    }
}

impl Default for LoadedDirenvConfig {
    fn default() -> (r: Self)
        ensures
            r.is_default(),
    {
        LoadedDirenvConfig { style: Self::default_style() }
    }
}

/// Styling when an environment file is found but not loaded.
#[derive(Debug)]
pub struct FoundDirenvConfig {
    pub style: Style,
}

impl FoundDirenvConfig {
    /// True of the built-in style.
    pub open spec fn is_default(self) -> bool {
        plain_style(self.style, Color::Named(NamedColor::White), Color::Fixed(243))
    }

    /// The built-in style.
    pub fn default_style() -> (r: Style)
        ensures
            plain_style(r, Color::Named(NamedColor::White), Color::Fixed(243)),
    {
        Style {
            foreground: Color::Named(NamedColor::White),
            background: Color::Fixed(243),
            decoration: Vec::new(),
        }
    }
}

impl Default for FoundDirenvConfig {
    fn default() -> (r: Self)
        ensures
            r.is_default(),
    {
        FoundDirenvConfig { style: Self::default_style() }
    }
}

/// Styling when the found environment file is blocked.
#[derive(Debug)]
pub struct DisallowedDirenvConfig {
    pub style: Style,
}

impl DisallowedDirenvConfig {
    /// True of the built-in style.
    pub open spec fn is_default(self) -> bool {
        plain_style(self.style, Color::Named(NamedColor::White), Color::Fixed(243))
    }

    /// The built-in style.
    pub fn default_style() -> (r: Style)
        ensures
            plain_style(r, Color::Named(NamedColor::White), Color::Fixed(243)),
    {
        Style {
            foreground: Color::Named(NamedColor::White),
            background: Color::Fixed(243),
            decoration: Vec::new(),
        }
    }
}

impl Default for DisallowedDirenvConfig {
    fn default() -> (r: Self)
        ensures
            r.is_default(),
    {
        DisallowedDirenvConfig { style: Self::default_style() }
    }
}

} // verus!
