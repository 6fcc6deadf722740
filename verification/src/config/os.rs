use vstd::prelude::*;

use crate::style::{plain_style, Color, NamedColor, Style};

verus! {

/// Configuration of the operating-system segment, one entry per
/// recognized system.
#[derive(Debug)]
pub struct OsConfig {
    pub alpine: AlpineOsConfig,
    pub amazon: AmazonOsConfig,
    pub arch: ArchOsConfig,
    pub centos: CentOSOsConfig,
    pub gentoo: GentooOsConfig,
    pub nix: NixOsConfig,
    pub raspbian: RaspbianOsConfig,
    pub debian: DebianOsConfig,
    pub ubuntu: UbuntuOsConfig,
    pub linux: LinuxOsConfig,
    pub mac: MacOsConfig,
    pub windows: WindowsOsConfig,
}

impl OsConfig {
    /// True of the built-in configuration.
    pub open spec fn is_default(self) -> bool {
        self.alpine.is_default()
            && self.amazon.is_default()
            && self.arch.is_default()
            && self.centos.is_default()
            && self.gentoo.is_default()
            && self.nix.is_default()
            && self.raspbian.is_default()
            && self.debian.is_default()
            && self.ubuntu.is_default()
            && self.linux.is_default()
            && self.mac.is_default()
            && self.windows.is_default()
    }
}

impl Default for OsConfig {
    fn default() -> (r: Self)
        ensures
            r.is_default(),
    {
        OsConfig {
            alpine: Default::default(),
            amazon: Default::default(),
            arch: Default::default(),
            centos: Default::default(),
            gentoo: Default::default(),
            nix: Default::default(),
            raspbian: Default::default(),
            debian: Default::default(),
            ubuntu: Default::default(),
            linux: Default::default(),
            mac: Default::default(),
            windows: Default::default(),
        }
    }
}

/// The style every system entry starts from.
pub fn default_style() -> (r: Style)
    ensures
        plain_style(r, Color::Named(NamedColor::White), Color::Fixed(33)),
{
    Style {
        foreground: Color::Named(NamedColor::White),
        background: Color::Fixed(33),
        decoration: Vec::new(),
    }
}

/// Configuration of the `alpine` entry.
#[derive(Debug)]
pub struct AlpineOsConfig {
    pub style: Style,
    pub content: String,
}

impl AlpineOsConfig {
    /// True of the built-in configuration.
    pub open spec fn is_default(self) -> bool {
        plain_style(self.style, Color::Named(NamedColor::White), Color::Fixed(33)) && self.content@
            == " \u{f300} "@
    }

    /// The built-in content.
    pub fn default_content() -> (r: String)
        ensures
            r@ == " \u{f300} "@,
    {
        String::from_str(" \u{f300} ")
    }
}

impl Default for AlpineOsConfig {
    fn default() -> (r: Self)
        ensures
            r.is_default(),
    {
        AlpineOsConfig { style: default_style(), content: Self::default_content() }
    }
}

/// Configuration of the `amazon` entry.
#[derive(Debug)]
pub struct AmazonOsConfig {
    pub style: Style,
    pub content: String,
}

impl AmazonOsConfig {
    /// True of the built-in configuration.
    pub open spec fn is_default(self) -> bool {
        plain_style(self.style, Color::Named(NamedColor::White), Color::Fixed(33)) && self.content@
            == " \u{f270} "@
    }

    /// The built-in content.
    pub fn default_content() -> (r: String)
        ensures
            r@ == " \u{f270} "@,
    {
        String::from_str(" \u{f270} ")
    }
}

impl Default for AmazonOsConfig {
    fn default() -> (r: Self)
        ensures
            r.is_default(),
    {
        AmazonOsConfig { style: default_style(), content: Self::default_content() }
    }
}

/// Configuration of the `arch` entry.
#[derive(Debug)]
pub struct ArchOsConfig {
    pub style: Style,
    pub content: String,
}

impl ArchOsConfig {
    /// True of the built-in configuration.
    pub open spec fn is_default(self) -> bool {
        plain_style(self.style, Color::Named(NamedColor::White), Color::Fixed(33)) && self.content@
            == " \u{f303} "@
    }

    /// The built-in content.
    pub fn default_content() -> (r: String)
        ensures
            r@ == " \u{f303} "@,
    {
        String::from_str(" \u{f303} ")
    }
}

impl Default for ArchOsConfig {
    fn default() -> (r: Self)
        ensures
            r.is_default(),
    {
        ArchOsConfig { style: default_style(), content: Self::default_content() }
    }
}

/// Configuration of the `centos` entry.
#[derive(Debug)]
pub struct CentOSOsConfig {
    pub style: Style,
    pub content: String,
}

impl CentOSOsConfig {
    /// True of the built-in configuration.
    pub open spec fn is_default(self) -> bool {
        plain_style(self.style, Color::Named(NamedColor::White), Color::Fixed(33)) && self.content@
            == " \u{f304} "@
    }

    /// The built-in content.
    pub fn default_content() -> (r: String)
        ensures
            r@ == " \u{f304} "@,
    {
        String::from_str(" \u{f304} ")
    }
}

impl Default for CentOSOsConfig {
    fn default() -> (r: Self)
        ensures
            r.is_default(),
    {
        CentOSOsConfig { style: default_style(), content: Self::default_content() }
    }
}

/// Configuration of the `gentoo` entry.
#[derive(Debug)]
pub struct GentooOsConfig {
    pub style: Style,
    pub content: String,
}

impl GentooOsConfig {
    /// True of the built-in configuration.
    pub open spec fn is_default(self) -> bool {
        plain_style(self.style, Color::Named(NamedColor::White), Color::Fixed(33)) && self.content@
            == " \u{f30d} "@
    }

    /// The built-in content.
    pub fn default_content() -> (r: String)
        ensures
            r@ == " \u{f30d} "@,
    {
        String::from_str(" \u{f30d} ")
    }
}

impl Default for GentooOsConfig {
    fn default() -> (r: Self)
        ensures
            r.is_default(),
    {
        GentooOsConfig { style: default_style(), content: Self::default_content() }
    }
}

/// Configuration of the `nix` entry.
#[derive(Debug)]
pub struct NixOsConfig {
    pub style: Style,
    pub content: String,
}

impl NixOsConfig {
    /// True of the built-in configuration.
    pub open spec fn is_default(self) -> bool {
        plain_style(self.style, Color::Named(NamedColor::White), Color::Fixed(33)) && self.content@
            == " \u{f313} "@
    }

    /// The built-in content.
    pub fn default_content() -> (r: String)
        ensures
            r@ == " \u{f313} "@,
    {
        String::from_str(" \u{f313} ")
    }
}

impl Default for NixOsConfig {
    fn default() -> (r: Self)
        ensures
            r.is_default(),
    {
        NixOsConfig { style: default_style(), content: Self::default_content() }
    }
}

/// Configuration of the `raspbian` entry.
#[derive(Debug)]
pub struct RaspbianOsConfig {
    pub style: Style,
    pub content: String,
}

impl RaspbianOsConfig {
    /// True of the built-in configuration.
    pub open spec fn is_default(self) -> bool {
        plain_style(self.style, Color::Named(NamedColor::White), Color::Fixed(33)) && self.content@
            == " \u{f315} "@
    }

    /// The built-in content.
    pub fn default_content() -> (r: String)
        ensures
            r@ == " \u{f315} "@,
    {
        String::from_str(" \u{f315} ")
    }
}

impl Default for RaspbianOsConfig {
    fn default() -> (r: Self)
        ensures
            r.is_default(),
    {
        RaspbianOsConfig { style: default_style(), content: Self::default_content() }
    }
}

/// Configuration of the `debian` entry.
#[derive(Debug)]
pub struct DebianOsConfig {
    pub style: Style,
    pub content: String,
}

impl DebianOsConfig {
    /// True of the built-in configuration.
    pub open spec fn is_default(self) -> bool {
        plain_style(self.style, Color::Named(NamedColor::White), Color::Fixed(33)) && self.content@
            == " \u{f306} "@
    }

    /// The built-in content.
    pub fn default_content() -> (r: String)
        ensures
            r@ == " \u{f306} "@,
    {
        String::from_str(" \u{f306} ")
    }
}

impl Default for DebianOsConfig {
    fn default() -> (r: Self)
        ensures
            r.is_default(),
    {
        DebianOsConfig { style: default_style(), content: Self::default_content() }
    }
}

/// Configuration of the `ubuntu` entry.
#[derive(Debug)]
pub struct UbuntuOsConfig {
    pub style: Style,
    pub content: String,
}

impl UbuntuOsConfig {
    /// True of the built-in configuration.
    pub open spec fn is_default(self) -> bool {
        plain_style(self.style, Color::Named(NamedColor::White), Color::Fixed(33)) && self.content@
            == " \u{f31b} "@
    }

    /// The built-in content.
    pub fn default_content() -> (r: String)
        ensures
            r@ == " \u{f31b} "@,
    {
        String::from_str(" \u{f31b} ")
    }
}

impl Default for UbuntuOsConfig {
    fn default() -> (r: Self)
        ensures
            r.is_default(),
    {
        UbuntuOsConfig { style: default_style(), content: Self::default_content() }
    }
}

/// Configuration of the `linux` entry.
#[derive(Debug)]
pub struct LinuxOsConfig {
    pub style: Style,
    pub content: String,
}

impl LinuxOsConfig {
    /// True of the built-in configuration.
    pub open spec fn is_default(self) -> bool {
        plain_style(self.style, Color::Named(NamedColor::White), Color::Fixed(33)) && self.content@
            == " \u{e712} "@
    }

    /// The built-in content.
    pub fn default_content() -> (r: String)
        ensures
            r@ == " \u{e712} "@,
    {
        String::from_str(" \u{e712} ")
    }
}

impl Default for LinuxOsConfig {
    fn default() -> (r: Self)
        ensures
            r.is_default(),
    {
        LinuxOsConfig { style: default_style(), content: Self::default_content() }
    }
}

/// Configuration of the `mac` entry.
#[derive(Debug)]
pub struct MacOsConfig {
    pub style: Style,
    pub content: String,
}

impl MacOsConfig {
    /// True of the built-in configuration.
    pub open spec fn is_default(self) -> bool {
        plain_style(self.style, Color::Named(NamedColor::White), Color::Fixed(33)) && self.content@
            == " \u{f179} "@
    }

    /// The built-in content.
    pub fn default_content() -> (r: String)
        ensures
            r@ == " \u{f179} "@,
    {
        String::from_str(" \u{f179} ")
    }
}

impl Default for MacOsConfig {
    fn default() -> (r: Self)
        ensures
            r.is_default(),
    {
        MacOsConfig { style: default_style(), content: Self::default_content() }
    }
}

/// Configuration of the `windows` entry.
#[derive(Debug)]
pub struct WindowsOsConfig {
    pub style: Style,
    pub content: String,
}

impl WindowsOsConfig {
    /// True of the built-in configuration.
    pub open spec fn is_default(self) -> bool {
        plain_style(self.style, Color::Named(NamedColor::White), Color::Fixed(33)) && self.content@
            == " \u{f17a} "@
    }

    /// The built-in content.
    pub fn default_content() -> (r: String)
        ensures
            r@ == " \u{f17a} "@,
    {
        String::from_str(" \u{f17a} ")
    }
}

impl Default for WindowsOsConfig {
    fn default() -> (r: Self)
        ensures
            r.is_default(),
    {
        WindowsOsConfig { style: default_style(), content: Self::default_content() }
    }
}

} // verus!
