use vstd::prelude::*;

use crate::style::{plain_style, Color, NamedColor, Style};

verus! {

/// Configuration of the repository-status segment.
#[derive(Debug)]
pub struct GitStatusConfig {
    pub icons: GitStatusIcons,
    pub clean: CleanStatusConfig,
    pub unstaged: UnstagedStatusConfig,
    pub staged: StagedStatusConfig,
    pub conflicted: ConflictedStatusConfig,
    pub remotes: Vec<RemoteConfig>,
    pub display_master: bool,
    pub commit_hash_length: usize,
    pub content: String,
}

impl GitStatusConfig {
    /// True of the built-in configuration.
    pub open spec fn is_default(self) -> bool {
        self.icons.is_default() && self.clean.is_default() && self.unstaged.is_default()
            && self.staged.is_default() && self.conflicted.is_default() && self.remotes@.len() == 2
            && self.remotes@[0].pattern@ == "github.com"@ && self.remotes@[0].icon@
            == "\u{eba1} "@ && self.remotes@[1].pattern@ == ""@ && self.remotes@[1].icon@
            == "\u{f0c2} "@ && self.display_master && self.commit_hash_length == 7
            && self.content@ == " {{.remote}}{{.head}}{{.working_tree}}{{.upstream}} "@
    }

    /// The built-in remote icons: one for the best-known host, one
    /// catch-all.
    pub fn default_remotes() -> (r: Vec<RemoteConfig>)
        ensures
            r@.len() == 2,
            r@[0].pattern@ == "github.com"@,
            r@[0].icon@ == "\u{eba1} "@,
            r@[1].pattern@ == ""@,
            r@[1].icon@ == "\u{f0c2} "@,
    {
        let mut v: Vec<RemoteConfig> = Vec::new();
        v.push(
            RemoteConfig {
                pattern: String::from_str("github.com"),
                icon: String::from_str("\u{eba1} "),
            },
        );
        v.push(RemoteConfig { pattern: String::from_str(""), icon: String::from_str("\u{f0c2} ") });
        v
    }

    /// The conventional default branch names are hidden by default.
    pub fn default_display_master() -> (r: bool)
        ensures
            r,
    {
        true
    }

    /// Commit hashes are cut to seven characters by default.
    pub fn default_commit_hash_length() -> (r: usize)
        ensures
            r == 7,
    {
        7
    }

    /// The built-in content template.
    pub fn default_content() -> (r: String)
        ensures
            r@ == " {{.remote}}{{.head}}{{.working_tree}}{{.upstream}} "@,
    {
        String::from_str(" {{.remote}}{{.head}}{{.working_tree}}{{.upstream}} ")
    }
}

impl Default for GitStatusConfig {
    fn default() -> (r: Self)
        ensures
            r.is_default(),
    {
        GitStatusConfig {
            icons: Default::default(),
            clean: Default::default(),
            unstaged: Default::default(),
            staged: Default::default(),
            conflicted: Default::default(),
            remotes: Self::default_remotes(),
            display_master: Self::default_display_master(),
            commit_hash_length: Self::default_commit_hash_length(),
            content: Self::default_content(),
        }
    }
}

/// The icons of the repository-status segment.
#[derive(Debug)]
pub struct GitStatusIcons {
    pub branch: String,
    pub tag: String,
    pub commit: String,
    pub modified: String,
    pub added: String,
    pub deleted: String,
    pub renamed: String,
    pub conflicted: String,
    pub behind: String,
    pub ahead: String,
}

impl GitStatusIcons {
    /// True of the built-in icons.
    pub open spec fn is_default(self) -> bool {
        self.branch@ == "\u{e725}"@
            && self.tag@ == "\u{f412}"@
            && self.commit@ == "\u{f417}"@
            && self.modified@ == "\u{2026}"@
            && self.added@ == "+"@
            && self.deleted@ == "-"@
            && self.renamed@ == "\u{2192}"@
            && self.conflicted@ == "\u{f47f}"@
            && self.behind@ == "\u{f175}"@
            && self.ahead@ == "\u{f176}"@
    }

    /// The built-in `branch` icon.
    pub fn default_branch() -> (r: String)
        ensures
            r@ == "\u{e725}"@,
    {
        String::from_str("\u{e725}")
    }

    /// The built-in `tag` icon.
    pub fn default_tag() -> (r: String)
        ensures
            r@ == "\u{f412}"@,
    {
        String::from_str("\u{f412}")
    }

    /// The built-in `commit` icon.
    pub fn default_commit() -> (r: String)
        ensures
            r@ == "\u{f417}"@,
    {
        String::from_str("\u{f417}")
    }

    /// The built-in `modified` icon.
    pub fn default_modified() -> (r: String)
        ensures
            r@ == "\u{2026}"@,
    {
        String::from_str("\u{2026}")
    }

    /// The built-in `added` icon.
    pub fn default_added() -> (r: String)
        ensures
            r@ == "+"@,
    {
        String::from_str("+")
    }

    /// The built-in `deleted` icon.
    pub fn default_deleted() -> (r: String)
        ensures
            r@ == "-"@,
    {
        String::from_str("-")
    }

    /// The built-in `renamed` icon.
    pub fn default_renamed() -> (r: String)
        ensures
            r@ == "\u{2192}"@,
    {
        String::from_str("\u{2192}")
    }

    /// The built-in `conflicted` icon.
    pub fn default_conflicted() -> (r: String)
        ensures
            r@ == "\u{f47f}"@,
    {
        String::from_str("\u{f47f}")
    }

    /// The built-in `behind` icon.
    pub fn default_behind() -> (r: String)
        ensures
            r@ == "\u{f175}"@,
    {
        String::from_str("\u{f175}")
    }

    /// The built-in `ahead` icon.
    pub fn default_ahead() -> (r: String)
        ensures
            r@ == "\u{f176}"@,
    {
        String::from_str("\u{f176}")
    }
}

impl Default for GitStatusIcons {
    fn default() -> (r: Self)
        ensures
            r.is_default(),
    {
        GitStatusIcons {
            branch: Self::default_branch(),
            tag: Self::default_tag(),
            commit: Self::default_commit(),
            modified: Self::default_modified(),
            added: Self::default_added(),
            deleted: Self::default_deleted(),
            renamed: Self::default_renamed(),
            conflicted: Self::default_conflicted(),
            behind: Self::default_behind(),
            ahead: Self::default_ahead(),
        }
    }
}

/// Styling of a clean working tree.
#[derive(Debug)]
pub struct CleanStatusConfig {
    pub style: Style,
}

impl CleanStatusConfig {
    /// True of the built-in style.
    pub open spec fn is_default(self) -> bool {
        plain_style(self.style, Color::Named(NamedColor::Black), Color::Named(NamedColor::Green))
    }

    /// The built-in style.
    pub fn default_style() -> (r: Style)
        ensures
            plain_style(r, Color::Named(NamedColor::Black), Color::Named(NamedColor::Green)),
    {
        Style {
            foreground: Color::Named(NamedColor::Black),
            background: Color::Named(NamedColor::Green),
            decoration: Vec::new(),
        }
    }
}

impl Default for CleanStatusConfig {
    fn default() -> (r: Self)
        ensures
            r.is_default(),
    {
        CleanStatusConfig { style: Self::default_style() }
    }
}

/// Styling when unstaged changes exist.
#[derive(Debug)]
pub struct UnstagedStatusConfig {
    pub style: Style,
}

impl UnstagedStatusConfig {
    /// True of the built-in style.
    pub open spec fn is_default(self) -> bool {
        plain_style(self.style, Color::Named(NamedColor::Black), Color::Named(NamedColor::Yellow))
    }

    /// The built-in style.
    pub fn default_style() -> (r: Style)
        ensures
            plain_style(r, Color::Named(NamedColor::Black), Color::Named(NamedColor::Yellow)),
    {
        Style {
            foreground: Color::Named(NamedColor::Black),
            background: Color::Named(NamedColor::Yellow),
            decoration: Vec::new(),
        }
    }
}

impl Default for UnstagedStatusConfig {
    fn default() -> (r: Self)
        ensures
            r.is_default(),
    {
        UnstagedStatusConfig { style: Self::default_style() }
    }
}

/// Styling when only staged changes exist.
#[derive(Debug)]
pub struct StagedStatusConfig {
    pub style: Style,
}

impl StagedStatusConfig {
    /// True of the built-in style.
    pub open spec fn is_default(self) -> bool {
        plain_style(self.style, Color::Named(NamedColor::Black), Color::Named(NamedColor::Green))
    }

    /// The built-in style.
    pub fn default_style() -> (r: Style)
        ensures
            plain_style(r, Color::Named(NamedColor::Black), Color::Named(NamedColor::Green)),
    {
        Style {
            foreground: Color::Named(NamedColor::Black),
            background: Color::Named(NamedColor::Green),
            decoration: Vec::new(),
        }
    }
}

impl Default for StagedStatusConfig {
    fn default() -> (r: Self)
        ensures
            r.is_default(),
    {
        StagedStatusConfig { style: Self::default_style() }
    }
}

/// Styling when conflicts exist.
#[derive(Debug)]
pub struct ConflictedStatusConfig {
    pub style: Style,
}

impl ConflictedStatusConfig {
    /// True of the built-in style.
    pub open spec fn is_default(self) -> bool {
        plain_style(self.style, Color::Named(NamedColor::Black), Color::Named(NamedColor::Red))
    }

    /// The built-in style.
    pub fn default_style() -> (r: Style)
        ensures
            plain_style(r, Color::Named(NamedColor::Black), Color::Named(NamedColor::Red)),
    {
        Style {
            foreground: Color::Named(NamedColor::Black),
            background: Color::Named(NamedColor::Red),
            decoration: Vec::new(),
        }
    }
}

impl Default for ConflictedStatusConfig {
    fn default() -> (r: Self)
        ensures
            r.is_default(),
    {
        ConflictedStatusConfig { style: Self::default_style() }
    }
}

/// One remote pattern with the icon shown for it.
#[derive(Debug)]
pub struct RemoteConfig {
    pub pattern: String,
    pub icon: String,
}

} // verus!
