//! Handles: a slot number together with the generation that the slot had when
//! the handle was given out.

use vstd::prelude::*;

verus! {

/// Names an instance in the instance store.
#[derive(Debug, Clone, Copy, PartialEq, Eq, Hash, Structural)]
pub struct InstanceID {
    pub index: usize,
    pub generation: usize,
}

/// Names a mod in the mod list that an instance published last.
#[derive(Debug, Clone, Copy, PartialEq, Eq, Hash, Structural)]
pub struct InstanceModID {
    pub index: usize,
    pub generation: usize,
}

impl InstanceID {
    /// The handle of an instance that no store has taken in yet.
    pub open spec fn spec_dangling() -> InstanceID {
        InstanceID { index: usize::MAX, generation: usize::MAX }
    }

    /// The handle of an instance that no store has taken in yet.
    #[verifier::when_used_as_spec(spec_dangling)]
    pub fn dangling() -> (r: InstanceID)
        ensures
            r == InstanceID::spec_dangling(),
    {
        InstanceID { index: usize::MAX, generation: usize::MAX }
    }
}

impl InstanceModID {
    /// The handle of a mod that no list holds yet.
    pub open spec fn spec_dangling() -> InstanceModID {
        InstanceModID { index: usize::MAX, generation: usize::MAX }
    }

    /// The handle of a mod that no list holds yet.
    #[verifier::when_used_as_spec(spec_dangling)]
    pub fn dangling() -> (r: InstanceModID)
        ensures
            r == InstanceModID::spec_dangling(),
    {
        InstanceModID { index: usize::MAX, generation: usize::MAX }
    }
}

/// A set of instance handles, in the order in which they arrived.
#[derive(Debug)]
pub struct IdSet {
    ids: Vec<InstanceID>,
}

impl View for IdSet {
    type V = Set<InstanceID>;

    closed spec fn view(&self) -> Set<InstanceID> {
        self.ids@.to_set()
    }
}

impl IdSet {
    #[verifier::type_invariant]
    spec fn distinct(self) -> bool {
        self.ids@.no_duplicates()
    }

    /// The handles of the set in the order in which they were inserted.
    pub closed spec fn in_order(self) -> Seq<InstanceID> {
        self.ids@
    }

    /// The empty set.
    pub fn new() -> (r: IdSet)
        ensures
            r@ == Set::<InstanceID>::empty(),
            r.in_order() == Seq::<InstanceID>::empty(),
    {
        let r = IdSet { ids: Vec::new() };
        assert(r@ =~= Set::empty());
        r
    }

    /// How many handles the set holds. The order of insertion holds each of
    /// them once, and nothing else.
    pub fn len(&self) -> (n: usize)
        ensures
            n == self@.len(),
            n == self.in_order().len(),
            self@.finite(),
            self.in_order().no_duplicates(),
            self.in_order().to_set() == self@,
    {
        proof {
            use_type_invariant(self);
            self.ids@.unique_seq_to_set();
        }
        self.ids.len()
    }

    /// Where `id` stands in `ids`, if it does.
    fn position(&self, id: InstanceID) -> (r: Option<usize>)
        ensures
            r is Some == self@.contains(id),
            r matches Some(i) ==> i < self.ids@.len() && self.ids@[i as int] == id,
    {
        let mut i: usize = 0;
        while i < self.ids.len()
            invariant
                i <= self.ids.len(),
                forall|j: int| 0 <= j < i ==> self.ids@[j] != id,
            decreases self.ids.len() - i,
        {
            if self.ids[i] == id {
                return Some(i);
            }
            i += 1;
        }
        None
    }

    /// Whether `id` is in the set.
    pub fn contains(&self, id: InstanceID) -> (r: bool)
        ensures
            r == self@.contains(id),
    {
        self.position(id).is_some()
    }

    /// Puts `id` into the set. Returns whether it was new to the set.
    pub fn insert(&mut self, id: InstanceID) -> (r: bool)
        ensures
            r == !old(self)@.contains(id),
            final(self)@ == old(self)@.insert(id),
            final(self).in_order() == if r {
                old(self).in_order().push(id)
            } else {
                old(self).in_order()
            },
    {
        proof {
            use_type_invariant(&*self);
        }
        if self.contains(id) {
            assert(self@.insert(id) =~= self@);
            return false;
        }
        let ghost before = self.ids@;
        let mut ids: Vec<InstanceID> = Vec::new();
        std::mem::swap(&mut self.ids, &mut ids);
        ids.push(id);
        assert(ids@.no_duplicates()) by {
            assert forall|i: int, j: int| 0 <= i < ids@.len() && 0 <= j < ids@.len() && i != j
                implies ids@[i] != ids@[j] by {
                if i < before.len() {
                    assert(before.contains(before[i]));
                }
                if j < before.len() {
                    assert(before.contains(before[j]));
                }
            }
        }
        self.ids = ids;
        proof {
            let after = self.ids@;
            assert(after.to_set() =~= before.to_set().insert(id)) by {
                assert forall|p: InstanceID| after.to_set().contains(p) implies before.to_set().insert(
                    id,
                ).contains(p) by {
                    let k = choose|k: int| 0 <= k < after.len() && after[k] == p;
                    if k < before.len() {
                        assert(before[k] == p);
                    }
                }
                assert forall|p: InstanceID| before.to_set().insert(id).contains(
                    p,
                ) implies after.to_set().contains(p) by {
                    if p == id {
                        assert(after[before.len() as int] == p);
                    } else {
                        let k = choose|k: int| 0 <= k < before.len() && before[k] == p;
                        assert(after[k] == p);
                    }
                }
            }
        }
        true
    }

    /// Takes `id` out of the set. Returns it if the set held it.
    pub fn take(&mut self, id: InstanceID) -> (r: Option<InstanceID>)
        ensures
            r == if old(self)@.contains(id) {
                Some(id)
            } else {
                None
            },
            final(self)@ == old(self)@.remove(id),
    {
        proof {
            use_type_invariant(&*self);
        }
        match self.position(id) {
            None => {
                assert(self@.remove(id) =~= self@);
                None
            },
            Some(i) => {
                let ghost before = self.ids@;
                let mut ids: Vec<InstanceID> = Vec::new();
                std::mem::swap(&mut self.ids, &mut ids);
                ids.remove(i);
                assert(ids@ =~= before.remove(i as int));
                assert(ids@.no_duplicates());
                self.ids = ids;
                proof {
                    let after = self.ids@;
                    assert(after.to_set() =~= before.to_set().remove(id)) by {
                        assert forall|p: InstanceID| after.to_set().contains(
                            p,
                        ) implies before.to_set().remove(id).contains(p) by {
                            let k = choose|k: int| 0 <= k < after.len() && after[k] == p;
                            if k < i {
                                assert(before[k] == p);
                            } else {
                                assert(before[k + 1] == p);
                            }
                        }
                        assert forall|p: InstanceID| before.to_set().remove(id).contains(
                            p,
                        ) implies after.to_set().contains(p) by {
                            let k = choose|k: int| 0 <= k < before.len() && before[k] == p;
                            if k < i {
                                assert(after[k] == p);
                            } else {
                                assert(after[k - 1] == p);
                            }
                        }
                    }
                }
                Some(id)
            },
        }
    }

    /// The `i`-th handle in order of insertion.
    pub fn get(&self, i: usize) -> (r: InstanceID)
        requires
            i < self.in_order().len(),
        ensures
            r == self.in_order()[i as int],
    {
        self.ids[i]
    }
}

} // verus!
