//! The mods loader: which files in a mods folder are mods, and how a rescan of
//! the changed files is merged with the snapshot before it. Mods are listed in
//! the order of their identifiers.

use crate::fs_path::FsPath;
use crate::fs_path::FsPathView;
use crate::ids::InstanceModID;
use crate::path_set::PathSet;
use crate::sorting::stable_sort;
use crate::sorting::stable_sorted;
use crate::sorting::views;
use crate::sorting::Ranked;
use crate::summaries::InstanceModSummary;
use crate::summaries::InstanceModView;
use crate::summaries::ModSummary;
use crate::summaries::ModSummaryView;
use crate::text::ends_with;
use crate::text::lemma_text_le_total;
use crate::text::lemma_text_le_transitive;
use crate::text::text_before_or_same;
use crate::text::text_le;
use vstd::prelude::*;

verus! {

impl Ranked for InstanceModSummary {
    /// A mod stands in front of those whose identifier sorts no earlier.
    open spec fn before(a: InstanceModView, b: InstanceModView) -> bool {
        text_le(a.mod_summary.id, b.mod_summary.id)
    }

    proof fn lemma_before_total(a: InstanceModView, b: InstanceModView) {
        lemma_text_le_total(a.mod_summary.id, b.mod_summary.id);
    }

    proof fn lemma_before_transitive(a: InstanceModView, b: InstanceModView, c: InstanceModView) {
        lemma_text_le_transitive(a.mod_summary.id, b.mod_summary.id, c.mod_summary.id);
    }

    fn is_before(&self, other: &InstanceModSummary) -> (r: bool) {
        text_before_or_same(self.mod_summary.id.as_str(), other.mod_summary.id.as_str())
    }
}

/// Whether a file of this name is a mod, and a switched-on one: a name that
/// ends in `.jar.disabled` is a mod that is switched off, one that ends in
/// `.jar` a mod that is on, any other name is no mod.
pub open spec fn mod_file_enabled(file_name: Seq<char>) -> Option<bool> {
    if ".jar.disabled"@.is_suffix_of(file_name) {
        Some(false)
    } else if ".jar"@.is_suffix_of(file_name) {
        Some(true)
    } else {
        None
    }
}

/// Whether the entry at `path` is a mod, and a switched-on one: only a file
/// with a name can be a mod.
pub open spec fn mod_entry_enabled(path: FsPathView, is_file: bool) -> Option<bool> {
    if is_file && path.names.len() > 0 {
        mod_file_enabled(path.names.last())
    } else {
        None
    }
}

/// Whether the entry at `path` is a mod worth opening, and a switched-on one.
/// `is_file` says whether the entry is a file.
pub fn mod_file_kind(path: &FsPath, is_file: bool) -> (r: Option<bool>)
    ensures
        r == mod_entry_enabled(path@, is_file),
{
    if !is_file {
        return None;
    }
    let file_name = match path.file_name() {
        Some(name) => name,
        None => {
            return None;
        },
    };
    if ends_with(file_name.as_str(), ".jar.disabled") {
        Some(false)
    } else if ends_with(file_name.as_str(), ".jar") {
        Some(true)
    } else {
        None
    }
}

/// The entry of a scan for the mod file at `path` that says `summary` of
/// itself, before any handle is given to it.
pub open spec fn scanned_mod(summary: ModSummaryView, path: FsPathView, enabled: bool) -> InstanceModView
    recommends
        path.names.len() > 0,
{
    InstanceModView {
        mod_summary: summary,
        id: InstanceModID::dangling(),
        file_name: path.names.last(),
        path,
        enabled,
    }
}

/// The entry of a scan for the file at `path`, which says `summary` of itself;
/// `None` where the file is no mod.
pub fn mod_summary_for(summary: ModSummary, path: FsPath, is_file: bool) -> (r: Option<
    InstanceModSummary,
>)
    ensures
        r is Some == mod_entry_enabled(path@, is_file) is Some,
        r matches Some(entry) ==> entry@ == scanned_mod(
            summary@,
            path@,
            mod_entry_enabled(path@, is_file)->0,
        ),
{
    let enabled = match mod_file_kind(&path, is_file) {
        Some(enabled) => enabled,
        None => {
            return None;
        },
    };
    let file_name = match path.file_name() {
        Some(name) => name.clone(),
        None => String::new(),
    };
    Some(
        InstanceModSummary {
            mod_summary: summary,
            id: InstanceModID::dangling(),
            file_name,
            path,
            enabled,
        },
    )
}

/// The entries of `previous` that a rescan carries over: those whose file did
/// not change and is still there. `exists[i]` says whether the file of
/// `previous[i]` is there. Only the first `n` entries are looked at.
pub open spec fn carried_mods(
    previous: Seq<InstanceModView>,
    dirty: Set<FsPathView>,
    exists: Seq<bool>,
    n: nat,
) -> Seq<InstanceModView>
    recommends
        n <= previous.len(),
        previous.len() == exists.len(),
    decreases n,
{
    if n == 0 {
        Seq::empty()
    } else {
        let front = carried_mods(previous, dirty, exists, (n - 1) as nat);
        if !dirty.contains(previous[n - 1].path) && exists[n - 1] {
            front.push(previous[n - 1])
        } else {
            front
        }
    }
}

/// The snapshot after a rescan: what the rescan found together with what is
/// carried over from the snapshot before, in the order of the identifiers.
pub open spec fn merged_mods(
    scanned: Seq<InstanceModView>,
    previous: Seq<InstanceModView>,
    dirty: Set<FsPathView>,
    exists: Seq<bool>,
) -> Seq<InstanceModView>
    recommends
        previous.len() == exists.len(),
{
    stable_sorted::<InstanceModSummary>(
        scanned + carried_mods(previous, dirty, exists, previous.len()),
    )
}

/// Ends a first scan: the mods that were found, in the order of their
/// identifiers.
pub fn finish_mods_initial(found: Vec<InstanceModSummary>) -> (r: Vec<InstanceModSummary>)
    ensures
        views(r@) == stable_sorted::<InstanceModSummary>(views(found@)),
{
    stable_sort(found)
}

/// Ends a rescan of the changed files `dirty`: what was found is merged with
/// the entries of `previous` whose file did not change and is still there
/// (`exists[i]` says so for `previous[i]`), in the order of the identifiers.
pub fn finish_mods_reload(
    found: Vec<InstanceModSummary>,
    previous: &Vec<InstanceModSummary>,
    dirty: &PathSet,
    exists: &Vec<bool>,
) -> (r: Vec<InstanceModSummary>)
    requires
        previous.len() == exists.len(),
    ensures
        views(r@) == merged_mods(views(found@), views(previous@), dirty@, exists@),
{
    let ghost scanned = views(found@);
    let mut all = found;
    let mut i: usize = 0;
    assert(scanned + Seq::<InstanceModView>::empty() =~= scanned);
    while i < previous.len()
        invariant
            i <= previous.len(),
            previous.len() == exists.len(),
            views(all@) == scanned + carried_mods(views(previous@), dirty@, exists@, i as nat),
        decreases previous.len() - i,
    {
        let ghost before = views(all@);
        let ghost front = carried_mods(views(previous@), dirty@, exists@, i as nat);
        if !dirty.contains(&previous[i].path) && exists[i] {
            all.push(previous[i].clone());
            assert(views(all@) =~= before.push(previous@[i as int]@));
            assert(scanned + front.push(previous@[i as int]@) =~= (scanned + front).push(
                previous@[i as int]@,
            ));
        }
        i += 1;
    }
    stable_sort(all)
}

} // verus!
