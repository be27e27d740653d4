//! A set of paths, kept in the order in which the paths arrived.

use crate::fs_path::FsPath;
use crate::fs_path::FsPathView;
use vstd::prelude::*;

verus! {

/// What each of `paths` is to the contracts.
pub open spec fn path_views(paths: Seq<FsPath>) -> Seq<FsPathView> {
    Seq::new(paths.len(), |i: int| paths[i]@)
}

/// A set of paths. No path is held twice.
#[derive(Debug)]
pub struct PathSet {
    paths: Vec<FsPath>,
}

impl View for PathSet {
    type V = Set<FsPathView>;

    closed spec fn view(&self) -> Set<FsPathView> {
        path_views(self.paths@).to_set()
    }
}

impl PathSet {
    #[verifier::type_invariant]
    spec fn distinct(self) -> bool {
        path_views(self.paths@).no_duplicates()
    }

    /// The paths of the set in the order in which they were inserted.
    pub closed spec fn in_order(self) -> Seq<FsPathView> {
        path_views(self.paths@)
    }

    /// The empty set.
    pub fn new() -> (r: PathSet)
        ensures
            r@ == Set::<FsPathView>::empty(),
            r.in_order() == Seq::<FsPathView>::empty(),
    {
        let r = PathSet { paths: Vec::new() };
        assert(path_views(r.paths@) =~= Seq::empty());
        assert(r@ =~= Set::empty());
        r
    }

    /// How many paths the set holds. The order of insertion holds each of them
    /// once, and nothing else.
    pub fn len(&self) -> (n: usize)
        ensures
            n == self@.len(),
            n == self.in_order().len(),
            self@.finite(),
            self.in_order().no_duplicates(),
            self.in_order().to_set() == self@,
    {
        proof {
            use_type_invariant(self);
            path_views(self.paths@).unique_seq_to_set();
        }
        self.paths.len()
    }

    /// Whether the set holds no path.
    pub fn is_empty(&self) -> (r: bool)
        ensures
            r == self@.is_empty(),
            r == (self.in_order().len() == 0),
    {
        proof {
            use_type_invariant(self);
            path_views(self.paths@).unique_seq_to_set();
            if self.paths@.len() > 0 {
                assert(path_views(self.paths@)[0] == self.paths@[0]@);
                assert(self@.contains(self.paths@[0]@));
            } else {
                assert(self@ =~= Set::empty());
            }
        }
        self.paths.len() == 0
    }

    /// Whether `path` is in the set.
    pub fn contains(&self, path: &FsPath) -> (r: bool)
        ensures
            r == self@.contains(path@),
    {
        let mut i: usize = 0;
        while i < self.paths.len()
            invariant
                i <= self.paths.len(),
                forall|j: int| 0 <= j < i ==> self.paths@[j]@ != path@,
            decreases self.paths.len() - i,
        {
            if self.paths[i] == *path {
                assert(path_views(self.paths@)[i as int] == path@);
                return true;
            }
            i += 1;
        }
        false
    }

    /// Puts `path` into the set. Returns whether it was new to the set.
    pub fn insert(&mut self, path: FsPath) -> (r: bool)
        ensures
            r == !old(self)@.contains(path@),
            final(self)@ == old(self)@.insert(path@),
            final(self).in_order() == if r {
                old(self).in_order().push(path@)
            } else {
                old(self).in_order()
            },
    {
        proof {
            use_type_invariant(&*self);
        }
        if self.contains(&path) {
            assert(self@.insert(path@) =~= self@);
            return false;
        }
        let ghost before = path_views(self.paths@);
        let mut paths: Vec<FsPath> = Vec::new();
        std::mem::swap(&mut self.paths, &mut paths);
        assert(path_views(self.paths@) =~= Seq::empty());
        paths.push(path);
        proof {
            let after = path_views(paths@);
            assert(after =~= before.push(path@));
            assert(after.no_duplicates()) by {
                assert forall|i: int, j: int| 0 <= i < after.len() && 0 <= j < after.len() && i != j
                    implies after[i] != after[j] by {
                    if i < before.len() {
                        assert(before.contains(before[i]));
                    }
                    if j < before.len() {
                        assert(before.contains(before[j]));
                    }
                }
            }
        }
        self.paths = paths;
        proof {
            let after = path_views(self.paths@);
            assert(after.to_set() =~= before.to_set().insert(path@)) by {
                assert forall|p: FsPathView| after.to_set().contains(p) implies before.to_set().insert(
                    path@,
                ).contains(p) by {
                    let k = choose|k: int| 0 <= k < after.len() && after[k] == p;
                    if k < before.len() {
                        assert(before[k] == p);
                    }
                }
                assert forall|p: FsPathView| before.to_set().insert(path@).contains(
                    p,
                ) implies after.to_set().contains(p) by {
                    if p == path@ {
                        assert(after[before.len() as int] == p);
                    } else {
                        let k = choose|k: int| 0 <= k < before.len() && before[k] == p;
                        assert(after[k] == p);
                    }
                }
            }
        }
        true
    }

    /// Empties the set and hands out what it held.
    pub fn take(&mut self) -> (r: PathSet)
        ensures
            r@ == old(self)@,
            r.in_order() == old(self).in_order(),
            final(self)@ == Set::<FsPathView>::empty(),
            final(self).in_order() == Seq::<FsPathView>::empty(),
    {
        proof {
            use_type_invariant(&*self);
        }
        let mut paths: Vec<FsPath> = Vec::new();
        std::mem::swap(&mut self.paths, &mut paths);
        assert(path_views(self.paths@) =~= Seq::empty());
        assert(self@ =~= Set::empty());
        PathSet { paths }
    }

    /// The `i`-th path in order of insertion.
    pub fn get(&self, i: usize) -> (r: &FsPath)
        requires
            i < self.in_order().len(),
        ensures
            r@ == self.in_order()[i as int],
    {
        &self.paths[i]
    }
}

} // verus!
