//! The watch registry: which meaning each watched path has.

use crate::fs_path::FsPath;
use crate::fs_path::FsPathView;
use crate::ids::InstanceID;
use vstd::prelude::*;

verus! {

/// What a watched path means to the launcher.
#[derive(Debug, Clone, Copy, PartialEq, Eq, Structural)]
pub enum WatchTarget {
    /// The directory that holds all instances.
    InstancesRoot,
    /// The root directory of a loaded instance.
    InstanceDir { id: InstanceID },
    /// A directory below the instances root that holds no loadable instance.
    InvalidInstanceDir,
    /// The folder of one world.
    InstanceLevelDir { id: InstanceID },
    /// The folder that holds the worlds of an instance.
    InstanceSavesDir { id: InstanceID },
    /// The folder that holds the mods of an instance.
    InstanceModsDir { id: InstanceID },
    /// The server list file of an instance.
    ServersFile { id: InstanceID },
}

/// One watched path with its meaning.
#[derive(Debug)]
pub struct WatchEntry {
    pub path: FsPath,
    pub target: WatchTarget,
}

/// The paths of `entries`, in order.
pub open spec fn entry_paths(entries: Seq<WatchEntry>) -> Seq<FsPathView> {
    Seq::new(entries.len(), |i: int| entries[i].path@)
}

/// The map that `entries` spell out, a later entry overriding an earlier one.
pub open spec fn map_of(entries: Seq<WatchEntry>) -> Map<FsPathView, WatchTarget>
    decreases entries.len(),
{
    if entries.len() == 0 {
        Map::empty()
    } else {
        map_of(entries.drop_last()).insert(entries.last().path@, entries.last().target)
    }
}

/// The map holds exactly the paths of the entries.
proof fn lemma_map_of_domain(entries: Seq<WatchEntry>, p: FsPathView)
    ensures
        map_of(entries).contains_key(p) <==> entry_paths(entries).contains(p),
    decreases entries.len(),
{
    let paths = entry_paths(entries);
    if entries.len() > 0 {
        let front = entries.drop_last();
        lemma_map_of_domain(front, p);
        assert(entry_paths(front) =~= paths.drop_last());
        if paths.contains(p) {
            let k = choose|k: int| 0 <= k < paths.len() && paths[k] == p;
            if k < paths.len() - 1 {
                assert(paths.drop_last()[k] == p);
            }
        }
        if paths.drop_last().contains(p) {
            let k = choose|k: int| 0 <= k < paths.len() - 1 && paths.drop_last()[k] == p;
            assert(paths[k] == p);
        }
        if entries.last().path@ == p {
            assert(paths[paths.len() - 1] == p);
        }
    }
}

/// Where no path occurs twice, the map gives each entry's path that entry's
/// meaning.
proof fn lemma_map_of_value(entries: Seq<WatchEntry>, i: int)
    requires
        entry_paths(entries).no_duplicates(),
        0 <= i < entries.len(),
    ensures
        map_of(entries).contains_key(entries[i].path@),
        map_of(entries)[entries[i].path@] == entries[i].target,
    decreases entries.len(),
{
    let paths = entry_paths(entries);
    let front = entries.drop_last();
    assert(entry_paths(front) =~= paths.drop_last());
    if i < entries.len() - 1 {
        assert(entry_paths(front).no_duplicates());
        lemma_map_of_value(front, i);
        assert(paths[i] != paths[paths.len() - 1]);
    }
}

/// Taking an entry out of a list without repeated paths takes its path out of
/// the map and leaves the rest as it was.
proof fn lemma_map_of_remove(entries: Seq<WatchEntry>, i: int)
    requires
        entry_paths(entries).no_duplicates(),
        0 <= i < entries.len(),
    ensures
        entry_paths(entries.remove(i)).no_duplicates(),
        map_of(entries.remove(i)) == map_of(entries).remove(entries[i].path@),
{
    let paths = entry_paths(entries);
    let rest = entries.remove(i);
    assert(entry_paths(rest) =~= paths.remove(i));
    assert forall|p: FsPathView| #[trigger]
        map_of(rest).contains_key(p) == map_of(entries).remove(entries[i].path@).contains_key(
            p,
        ) by {
        lemma_map_of_domain(rest, p);
        lemma_map_of_domain(entries, p);
        if paths.remove(i).contains(p) {
            let k = choose|k: int| 0 <= k < paths.len() - 1 && paths.remove(i)[k] == p;
            if k < i {
                assert(paths[k] == p);
            } else {
                assert(paths[k + 1] == p);
            }
        }
        if paths.contains(p) && p != paths[i] {
            let k = choose|k: int| 0 <= k < paths.len() && paths[k] == p;
            if k < i {
                assert(paths.remove(i)[k] == p);
            } else {
                assert(paths.remove(i)[k - 1] == p);
            }
        }
    }
    assert forall|p: FsPathView| #[trigger] map_of(rest).contains_key(p) implies map_of(rest)[p]
        == map_of(entries).remove(entries[i].path@)[p] by {
        lemma_map_of_domain(rest, p);
        let k = choose|k: int| 0 <= k < paths.len() - 1 && entry_paths(rest)[k] == p;
        lemma_map_of_value(rest, k);
        if k < i {
            lemma_map_of_value(entries, k);
        } else {
            lemma_map_of_value(entries, k + 1);
        }
    }
    assert(map_of(rest) =~= map_of(entries).remove(entries[i].path@));
}

/// The watch registry: every watched path with the one meaning it has.
#[derive(Debug)]
pub struct WatchRegistry {
    entries: Vec<WatchEntry>,
}

impl View for WatchRegistry {
    type V = Map<FsPathView, WatchTarget>;

    closed spec fn view(&self) -> Map<FsPathView, WatchTarget> {
        map_of(self.entries@)
    }
}

impl WatchRegistry {
    #[verifier::type_invariant]
    spec fn distinct(self) -> bool {
        entry_paths(self.entries@).no_duplicates()
    }

    /// A registry that watches nothing.
    pub fn new() -> (r: WatchRegistry)
        ensures
            r@ == Map::<FsPathView, WatchTarget>::empty(),
    {
        WatchRegistry { entries: Vec::new() }
    }

    /// Where `path` stands among the entries, if it is watched.
    fn position(&self, path: &FsPath) -> (r: Option<usize>)
        ensures
            r is Some == self@.contains_key(path@),
            r matches Some(i) ==> i < self.entries@.len() && self.entries@[i as int].path@
                == path@,
    {
        proof {
            lemma_map_of_domain(self.entries@, path@);
        }
        let mut i: usize = 0;
        while i < self.entries.len()
            invariant
                i <= self.entries.len(),
                self@.contains_key(path@) <==> entry_paths(self.entries@).contains(path@),
                forall|j: int| 0 <= j < i ==> self.entries@[j].path@ != path@,
            decreases self.entries.len() - i,
        {
            if self.entries[i].path == *path {
                assert(entry_paths(self.entries@)[i as int] == path@);
                return Some(i);
            }
            i += 1;
        }
        None
    }

    /// The meaning of `path`, if it is watched.
    pub fn get(&self, path: &FsPath) -> (r: Option<WatchTarget>)
        ensures
            r == if self@.contains_key(path@) {
                Some(self@[path@])
            } else {
                None
            },
    {
        match self.position(path) {
            Some(i) => {
                proof {
                    use_type_invariant(self);
                    lemma_map_of_value(self.entries@, i as int);
                }
                Some(self.entries[i].target)
            },
            None => None,
        }
    }

    /// Whether `path` is watched.
    pub fn contains_key(&self, path: &FsPath) -> (r: bool)
        ensures
            r == self@.contains_key(path@),
    {
        self.position(path).is_some()
    }

    /// Stops watching `path`. Returns the meaning it had, if it was watched.
    pub fn remove(&mut self, path: &FsPath) -> (r: Option<WatchTarget>)
        ensures
            r == if old(self)@.contains_key(path@) {
                Some(old(self)@[path@])
            } else {
                None
            },
            final(self)@ == old(self)@.remove(path@),
    {
        proof {
            use_type_invariant(&*self);
        }
        match self.position(path) {
            None => {
                assert(self@.remove(path@) =~= self@);
                None
            },
            Some(i) => {
                let ghost before = self.entries@;
                proof {
                    lemma_map_of_value(before, i as int);
                    lemma_map_of_remove(before, i as int);
                }
                let mut entries: Vec<WatchEntry> = Vec::new();
                std::mem::swap(&mut self.entries, &mut entries);
                assert(entry_paths(self.entries@) =~= Seq::empty());
                let entry = entries.remove(i);
                self.entries = entries;
                Some(entry.target)
            },
        }
    }

    /// Watches `path` with the meaning `target`, replacing the meaning it had.
    /// Returns the meaning it had, if it was watched.
    pub fn insert(&mut self, path: FsPath, target: WatchTarget) -> (r: Option<WatchTarget>)
        ensures
            r == if old(self)@.contains_key(path@) {
                Some(old(self)@[path@])
            } else {
                None
            },
            final(self)@ == old(self)@.insert(path@, target),
    {
        let previous = self.remove(&path);
        proof {
            use_type_invariant(&*self);
        }
        let ghost before = self.entries@;
        let mut entries: Vec<WatchEntry> = Vec::new();
        std::mem::swap(&mut self.entries, &mut entries);
        assert(entry_paths(self.entries@) =~= Seq::empty());
        entries.push(WatchEntry { path, target });
        proof {
            let after = entries@;
            assert(after.drop_last() =~= before);
            lemma_map_of_domain(before, path@);
            assert(entry_paths(after) =~= entry_paths(before).push(path@));
            assert(entry_paths(after).no_duplicates()) by {
                let paths = entry_paths(after);
                assert forall|i: int, j: int| 0 <= i < paths.len() && 0 <= j < paths.len() && i != j
                    implies paths[i] != paths[j] by {
                    if i < before.len() {
                        assert(entry_paths(before).contains(entry_paths(before)[i]));
                    }
                    if j < before.len() {
                        assert(entry_paths(before).contains(entry_paths(before)[j]));
                    }
                }
            }
            assert(old(self)@.remove(path@).insert(path@, target) =~= old(self)@.insert(
                path@,
                target,
            ));
        }
        self.entries = entries;
        previous
    }

    /// How many paths are watched.
    pub fn len(&self) -> (n: usize)
        ensures
            n == self@.len(),
            self@.dom().finite(),
    {
        proof {
            use_type_invariant(self);
            lemma_map_of_len(self.entries@);
        }
        self.entries.len()
    }
}

/// A list without repeated paths spells out a map with as many keys as the
/// list has entries.
proof fn lemma_map_of_len(entries: Seq<WatchEntry>)
    requires
        entry_paths(entries).no_duplicates(),
    ensures
        map_of(entries).dom().finite(),
        map_of(entries).len() == entries.len(),
    decreases entries.len(),
{
    if entries.len() > 0 {
        let front = entries.drop_last();
        assert(entry_paths(front) =~= entry_paths(entries).drop_last());
        lemma_map_of_len(front);
        lemma_map_of_domain(front, entries.last().path@);
        if entry_paths(front).contains(entries.last().path@) {
            let k = choose|k: int|
                0 <= k < front.len() && entry_paths(front)[k] == entries.last().path@;
            assert(entry_paths(entries)[k] == entry_paths(entries)[entries.len() - 1]);
        }
    }
}

} // verus!
