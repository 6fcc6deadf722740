//! The already-parsed command surface: plain argument records for each
//! operation.

use vstd::prelude::*;

use crate::shell::Shell;

verus! {

/// Arguments of the operation that prints an initialization script.
#[derive(Debug, Clone, Copy)]
pub struct InitArgs {
    pub shell: Shell,
}

/// Arguments of the prompt-rendering operation. The duration is carried
/// in whole nanoseconds.
#[derive(Debug)]
pub struct SegmentArgs {
    pub right: bool,
    pub exit_status: i32,
    pub duration_ns: u64,
    pub jobs: i32,
    pub width: usize,
    pub encoded_git_info: Option<String>,
    pub encoded_gh_info: Option<String>,
    pub encoded_glab_info: Option<String>,
    pub shell: Shell,
}

/// Arguments of the data-gathering operation.
#[derive(Debug, Clone, Copy)]
pub struct PrepareArgs {
    pub source: DataSource,
}

/// Which external source to gather and encode.
#[derive(Debug, Clone, Copy, PartialEq, Eq, Structural)]
pub enum DataSource {
    Git,
    Gh,
    Glab,
}

/// Arguments of the operation that prints a configuration preset.
#[derive(Debug, Clone, Copy)]
pub struct ConfigArgs {
    pub theme: ConfigTheme,
    pub print_config_path: bool,
}

/// The configuration presets on offer.
#[derive(Debug, Clone, Copy, PartialEq, Eq, Structural)]
pub enum ConfigTheme {
    Agnoster,
}

impl ConfigTheme {
    /// The name under which the preset is announced.
    pub fn name(&self) -> (r: String)
        ensures
            r@ == "agnoster"@,
    {
        String::from_str("agnoster")
    }
}

} // verus!
