//! What the launcher remembers next to a piece of installed content.

use std::collections::BTreeMap;
use std::collections::BTreeSet;
use vstd::prelude::*;

verus! {

/// The side record of one piece of content.
#[derive(Debug)]
pub struct AuxiliaryContentMeta {
    pub applied_overrides: AuxAppliedOverrides,
    pub disabled_children: AuxDisabledChildren,
}

/// The override files that were written, each file name with the hash it had.
#[derive(Debug)]
pub struct AuxAppliedOverrides {
    pub filename_to_hash: BTreeMap<String, String>,
}

/// The children of a pack that the user switched off, by id, name and file name.
#[derive(Debug)]
pub struct AuxDisabledChildren {
    pub disabled_ids: BTreeSet<String>,
    pub disabled_names: BTreeSet<String>,
    pub disabled_filenames: BTreeSet<String>,
}

impl AuxAppliedOverrides {
    /// Whether no override was recorded.
    pub fn is_default(&self) -> (r: bool)
        ensures
            r == (self.filename_to_hash@.is_empty()),
    {
        self.filename_to_hash.is_empty()
    }
}

impl AuxDisabledChildren {
    /// Whether nothing is switched off.
    pub fn is_default(&self) -> (r: bool)
        ensures
            r == (self.disabled_ids@.is_empty() && self.disabled_names@.is_empty()
                && self.disabled_filenames@.is_empty()),
    {
        self.disabled_ids.is_empty() && self.disabled_names.is_empty()
            && self.disabled_filenames.is_empty()
    }
}

impl Default for AuxAppliedOverrides {
    fn default() -> (r: AuxAppliedOverrides)
        ensures
            r.filename_to_hash@.is_empty(),
    {
        AuxAppliedOverrides { filename_to_hash: BTreeMap::new() }
    }
}

impl Default for AuxDisabledChildren {
    fn default() -> (r: AuxDisabledChildren)
        ensures
            r.disabled_ids@.is_empty(),
            r.disabled_names@.is_empty(),
            r.disabled_filenames@.is_empty(),
    {
        AuxDisabledChildren {
            disabled_ids: BTreeSet::new(),
            disabled_names: BTreeSet::new(),
            disabled_filenames: BTreeSet::new(),
        }
    }
}

impl Default for AuxiliaryContentMeta {
    fn default() -> (r: AuxiliaryContentMeta)
        ensures
            r.applied_overrides.filename_to_hash@.is_empty(),
            r.disabled_children.disabled_ids@.is_empty(),
            r.disabled_children.disabled_names@.is_empty(),
            r.disabled_children.disabled_filenames@.is_empty(),
    {
        AuxiliaryContentMeta {
            applied_overrides: AuxAppliedOverrides::default(),
            disabled_children: AuxDisabledChildren::default(),
        }
    }
}

} // verus!
