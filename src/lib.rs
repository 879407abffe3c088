//! Models a package manifest and a modification directive, and applies the
//! directive's glob-style package patterns to the manifest's dependency maps.
//!
//! - `glob`: what a glob accepts, and the regular expression that runs it.
//! - `pattern`: package patterns, compiled once and compared by raw text.
//! - `maps`: insertion-ordered maps with unique keys.
//! - `select`: selecting map entries by patterns, under four merge policies.
//! - `manifest` and `directive`: the two documents.
//! - `apply`: a directive applied to a manifest.
//! - `command` and `paths`: the decisions of the command surface.

pub mod apply;
pub mod command;
pub mod directive;
pub mod glob;
pub mod manifest;
pub mod maps;
pub mod paths;
pub mod pattern;
pub mod select;
