//! Verified core of a segment-based shell prompt renderer.
//!
//! The crate models externally gathered repository, review and CI state,
//! a compact binary codec for passing that state between invocations,
//! a style model rendering to terminal attribute sequences, template
//! substitution, a path-shrinking algorithm, per-segment builders and a
//! presenter that lays the styled segments out into one terminal line.

pub mod command;
pub mod config;
pub mod info;
pub mod segment;
pub mod shell;
pub mod strutil;
pub mod style;
pub mod template;
