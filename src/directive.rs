//! The modification directive: up to four sections, each naming package
//! patterns of `require` and `require-dev` with version constraints.

use std::collections::HashMap;

use vstd::prelude::*;

use crate::command::ParseFileType;
use crate::manifest::{AllowPlugins, PlatformConstraint, PlatformPackage};
use crate::maps::PatternMap;

verus! {

/// A directive document. Every section is optional.
#[derive(Debug)]
pub struct ModifyComposerJson {
    /// Overrides: constraints set on the keys the patterns select, entries
    /// added where they select none.
    pub modify: Option<ModifyConfig>,
    /// Additions: entries added where their pattern selects no key.
    pub add: Option<AddConfig>,
    /// Removals: every entry that some pattern selects goes.
    pub remove: Option<RemoveConfig>,
    /// Replacements: constraints set on the keys the patterns select.
    pub replace: Option<ReplaceConfig>,
}

impl ModifyComposerJson {
    /// The kind of document a directive is.
    pub fn parse_file_type() -> (r: ParseFileType)
        ensures
            r == ParseFileType::ModifyComposerJson,
    {
        ParseFileType::ModifyComposerJson
    }
}

/// The `modify` section.
#[derive(Debug)]
pub struct ModifyConfig {
    pub require: Option<PatternMap>,
    pub require_dev: Option<PatternMap>,
    /// Free-form configuration overrides.
    pub config: Option<HashMap<String, String>>,
}

/// The `add` section.
#[derive(Debug)]
pub struct AddConfig {
    pub require: Option<PatternMap>,
    pub require_dev: Option<PatternMap>,
}

/// The `remove` section.
#[derive(Debug)]
pub struct RemoveConfig {
    pub require: Option<PatternMap>,
    pub require_dev: Option<PatternMap>,
}

/// The `replace` section.
#[derive(Debug)]
pub struct ReplaceConfig {
    pub require: Option<PatternMap>,
    pub require_dev: Option<PatternMap>,
}

/// Settings a directive may carry for the tool that applies it.
#[derive(Debug)]
pub struct ModifierConfig {
    pub platform: Option<HashMap<PlatformPackage, PlatformConstraint>>,
    pub allow_plugins: Option<AllowPlugins>,
}

} // verus!
