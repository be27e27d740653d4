//! The instance store: numbered slots that hold the live instances. A handle
//! names a slot together with the generation that its instance got when it
//! came in, so that a handle of an instance that is gone names nothing.

use crate::fs_path::FsPath;
use crate::ids::InstanceID;
use crate::instance::Instance;
use crate::instance::InstanceView;
use crate::load_state::StartLoadResult;
use crate::messages::MessageToFrontend;
use crate::path_set::PathSet;
use crate::summaries::mods_view;
use crate::summaries::servers_view;
use crate::summaries::worlds_view;
use crate::summaries::InstanceModSummary;
use crate::summaries::InstanceServerSummary;
use crate::summaries::InstanceWorldSummary;
use vstd::prelude::*;

verus! {

/// The live instances, each under its handle.
#[derive(Debug)]
pub struct InstanceStore {
    slots: Vec<Option<Instance>>,
    next_generation: usize,
}

/// Whether `slots` hold an instance under the handle `id`.
pub open spec fn holds(slots: Seq<Option<Instance>>, id: InstanceID) -> bool {
    &&& id.index < slots.len()
    &&& slots[id.index as int] matches Some(instance)
    &&& instance.id == id
}

/// The instances in `slots`, each under its handle.
pub open spec fn map_of_slots(slots: Seq<Option<Instance>>) -> Map<InstanceID, InstanceView> {
    Map::new(|id: InstanceID| holds(slots, id), |id: InstanceID| slots[id.index as int]->0@)
}

impl View for InstanceStore {
    type V = Map<InstanceID, InstanceView>;

    closed spec fn view(&self) -> Map<InstanceID, InstanceView> {
        map_of_slots(self.slots@)
    }
}

/// What holds of the slots of a store: an instance sits in the slot that its
/// handle names, its generation is one that was given out, and its pipelines
/// are consistent.
pub open spec fn slots_wf(slots: Seq<Option<Instance>>, next_generation: usize) -> bool {
    forall|i: int|
        0 <= i < slots.len() ==> (#[trigger] slots[i] matches Some(instance) ==> {
            &&& instance.id.index == i
            &&& instance.id.generation < next_generation
            &&& instance@.wf()
        })
}

impl InstanceStore {
    #[verifier::type_invariant]
    spec fn wf(self) -> bool {
        slots_wf(self.slots@, self.next_generation)
    }

    /// The generation that the next instance gets. Every handle in the store
    /// has a smaller one.
    pub closed spec fn next_generation(self) -> usize {
        self.next_generation
    }

    /// An empty store.
    pub fn new() -> (r: InstanceStore)
        ensures
            r@ == Map::<InstanceID, InstanceView>::empty(),
            r.next_generation() == 0,
    {
        let r = InstanceStore { slots: Vec::new(), next_generation: 0 };
        assert(r@ =~= Map::empty());
        r
    }

    /// Whether the store holds an instance under `id`. Only a handle whose
    /// generation was given out can name one.
    pub fn contains(&self, id: InstanceID) -> (r: bool)
        ensures
            r == self@.contains_key(id),
            r ==> id.generation < self.next_generation(),
    {
        proof {
            use_type_invariant(self);
        }
        if id.index >= self.slots.len() {
            return false;
        }
        match &self.slots[id.index] {
            Some(instance) => instance.id == id,
            None => false,
        }
    }

    /// The instance under `id`, if the store holds one.
    pub fn get(&self, id: InstanceID) -> (r: Option<&Instance>)
        ensures
            r is Some == self@.contains_key(id),
            r matches Some(instance) ==> instance@ == self@[id] && instance.id == id
                && instance@.wf(),
    {
        proof {
            use_type_invariant(self);
        }
        if id.index >= self.slots.len() {
            return None;
        }
        match &self.slots[id.index] {
            Some(instance) => {
                if instance.id == id {
                    Some(instance)
                } else {
                    None
                }
            },
            None => None,
        }
    }

    /// The first empty slot, or the number of slots if none is empty.
    fn free_slot(&self) -> (r: usize)
        ensures
            r <= self.slots@.len(),
            r < self.slots@.len() ==> self.slots@[r as int] is None,
    {
        let mut i: usize = 0;
        while i < self.slots.len()
            invariant
                i <= self.slots.len(),
            decreases self.slots.len() - i,
        {
            if self.slots[i].is_none() {
                return i;
            }
            i += 1;
        }
        i
    }

    /// Takes `instance` in and gives it a handle that the store has never
    /// given out. Hands the instance back where no generation is left to give.
    pub fn insert(&mut self, instance: Instance) -> (r: Result<InstanceID, Instance>)
        requires
            instance@.wf(),
        ensures
            r is Ok == (old(self).next_generation() < usize::MAX),
            r matches Ok(id) ==> {
                &&& !old(self)@.contains_key(id)
                &&& id.generation == old(self).next_generation()
                &&& final(self).next_generation() == old(self).next_generation() + 1
                &&& final(self)@ == old(self)@.insert(id, InstanceView { id, ..instance@ })
            },
            r matches Err(back) ==> {
                &&& back == instance
                &&& final(self)@ == old(self)@
                &&& final(self).next_generation() == old(self).next_generation()
            },
    {
        proof {
            use_type_invariant(&*self);
        }
        if self.next_generation == usize::MAX {
            return Err(instance);
        }
        let index = self.free_slot();
        let id = InstanceID { index, generation: self.next_generation };
        let mut instance = instance;
        instance.id = id;
        let ghost before = self.slots@;
        let mut slots: Vec<Option<Instance>> = Vec::new();
        std::mem::swap(&mut self.slots, &mut slots);
        self.next_generation = self.next_generation + 1;
        if index < slots.len() {
            slots[index] = Some(instance);
        } else {
            slots.push(Some(instance));
        }
        assert(slots_wf(slots@, self.next_generation));
        assert(map_of_slots(slots@) =~= map_of_slots(before).insert(id, instance@));
        self.slots = slots;
        Ok(id)
    }

    /// Takes the instance under `id` out of the store, if it holds one.
    pub fn remove(&mut self, id: InstanceID) -> (r: Option<Instance>)
        ensures
            r is Some == old(self)@.contains_key(id),
            r matches Some(instance) ==> instance@ == old(self)@[id] && instance@.wf(),
            final(self)@ == old(self)@.remove(id),
            final(self).next_generation() == old(self).next_generation(),
    {
        proof {
            use_type_invariant(&*self);
        }
        if !self.contains(id) {
            assert(self@.remove(id) =~= self@);
            return None;
        }
        let ghost before = self.slots@;
        let mut slots: Vec<Option<Instance>> = Vec::new();
        std::mem::swap(&mut self.slots, &mut slots);
        let mut taken: Option<Instance> = None;
        std::mem::swap(&mut slots[id.index], &mut taken);
        assert(slots_wf(slots@, self.next_generation));
        assert(map_of_slots(slots@) =~= map_of_slots(before).remove(id));
        self.slots = slots;
        taken
    }

    /// Puts back an instance that was taken out, changed or not, under the
    /// handle it had.
    fn put_back(&mut self, instance: Instance, Ghost(before): Ghost<Map<InstanceID, InstanceView>>)
        requires
            instance@.wf(),
            instance.id.index < old(self).slots@.len(),
            old(self).slots@[instance.id.index as int] is None,
            instance.id.generation < old(self).next_generation,
            old(self)@ == before.remove(instance.id),
            before.contains_key(instance.id),
        ensures
            final(self)@ == before.insert(instance.id, instance@),
            final(self).next_generation() == old(self).next_generation(),
    {
        proof {
            use_type_invariant(&*self);
        }
        let ghost id = instance.id;
        let ghost view = instance@;
        let ghost emptied = self.slots@;
        let index = instance.id.index;
        let mut slots: Vec<Option<Instance>> = Vec::new();
        std::mem::swap(&mut self.slots, &mut slots);
        slots[index] = Some(instance);
        assert(slots_wf(slots@, self.next_generation));
        assert(map_of_slots(slots@) =~= map_of_slots(emptied).insert(id, view));
        assert(before.remove(id).insert(id, view) =~= before.insert(id, view));
        self.slots = slots;
    }

    /// Takes out the instance under `id` in order to change it; `put_back`
    /// returns it.
    fn take_out(&mut self, id: InstanceID) -> (r: Instance)
        requires
            old(self)@.contains_key(id),
        ensures
            r@ == old(self)@[id],
            r.id == id,
            r@.wf(),
            id.index < final(self).slots@.len(),
            final(self).slots@[id.index as int] is None,
            id.generation < final(self).next_generation,
            final(self)@ == old(self)@.remove(id),
            final(self).next_generation == old(self).next_generation,
    {
        proof {
            use_type_invariant(&*self);
        }
        let ghost before = self.slots@;
        let mut slots: Vec<Option<Instance>> = Vec::new();
        std::mem::swap(&mut self.slots, &mut slots);
        let mut taken: Option<Instance> = None;
        std::mem::swap(&mut slots[id.index], &mut taken);
        assert(slots_wf(slots@, self.next_generation));
        assert(map_of_slots(slots@) =~= map_of_slots(before).remove(id));
        self.slots = slots;
        taken.unwrap()
    }

    /// Marks the server list of the instance under `id` as behind. Returns
    /// whether the store holds that instance.
    pub fn mark_server_state_dirty(&mut self, id: InstanceID) -> (r: bool)
        ensures
            r == old(self)@.contains_key(id),
            final(self)@ == if r {
                old(self)@.insert(id, old(self)@[id].mark_server_state_dirty())
            } else {
                old(self)@
            },
            final(self).next_generation() == old(self).next_generation(),
    {
        if !self.contains(id) {
            return false;
        }
        let ghost before = self@;
        let mut instance = self.take_out(id);
        instance.mark_server_state_dirty();
        self.put_back(instance, Ghost(before));
        true
    }

    /// Notes a change at the world path `path` for the instance under `id`.
    /// Returns whether the store holds that instance and the path was not
    /// pending before.
    pub fn note_world_change(&mut self, id: InstanceID, path: FsPath) -> (r: bool)
        ensures
            r == (old(self)@.contains_key(id) && !old(self)@[id].dirty_worlds.contains(path@)),
            final(self)@ == if old(self)@.contains_key(id) {
                old(self)@.insert(id, old(self)@[id].note_world_change(path@))
            } else {
                old(self)@
            },
            final(self).next_generation() == old(self).next_generation(),
    {
        if !self.contains(id) {
            return false;
        }
        let ghost before = self@;
        let mut instance = self.take_out(id);
        let fresh = instance.note_world_change(path);
        self.put_back(instance, Ghost(before));
        fresh
    }

    /// Notes a change at the mod path `path` for the instance under `id`.
    /// Returns whether the store holds that instance and the path was not
    /// pending before.
    pub fn note_mod_change(&mut self, id: InstanceID, path: FsPath) -> (r: bool)
        ensures
            r == (old(self)@.contains_key(id) && !old(self)@[id].dirty_mods.contains(path@)),
            final(self)@ == if old(self)@.contains_key(id) {
                old(self)@.insert(id, old(self)@[id].note_mod_change(path@))
            } else {
                old(self)@
            },
            final(self).next_generation() == old(self).next_generation(),
    {
        if !self.contains(id) {
            return false;
        }
        let ghost before = self@;
        let mut instance = self.take_out(id);
        let fresh = instance.note_mod_change(path);
        self.put_back(instance, Ghost(before));
        fresh
    }

    /// Notes that the world folder `from` of the instance under `id` was
    /// renamed: `from` is pending, `to` too where one is given, and the worlds
    /// are marked as behind. Returns whether the store holds that instance.
    pub fn note_world_renamed(&mut self, id: InstanceID, from: FsPath, to: Option<FsPath>) -> (r:
        bool)
        ensures
            r == old(self)@.contains_key(id),
            final(self)@ == if r {
                old(self)@.insert(
                    id,
                    old(self)@[id].note_world_renamed(
                        from@,
                        match to {
                            Some(t) => Some(t@),
                            None => None,
                        },
                    ),
                )
            } else {
                old(self)@
            },
            final(self).next_generation() == old(self).next_generation(),
    {
        if !self.contains(id) {
            return false;
        }
        let ghost before = self@;
        let mut instance = self.take_out(id);
        instance.dirty_worlds.insert(from);
        match to {
            Some(to) => {
                instance.dirty_worlds.insert(to);
            },
            None => {},
        }
        instance.mark_world_state_dirty();
        self.put_back(instance, Ghost(before));
        true
    }

    /// Gives the instance under `id` the name `name`. Returns the notification
    /// that tells of the instance as it is then, if the store holds it.
    pub fn rename(&mut self, id: InstanceID, name: String) -> (r: Option<MessageToFrontend>)
        ensures
            r is Some == old(self)@.contains_key(id),
            final(self)@ == if r is Some {
                old(self)@.insert(id, InstanceView { name: name@, ..old(self)@[id] })
            } else {
                old(self)@
            },
            r matches Some(message) ==> message@ == final(self)@[id].modify_message(
                final(self)@[id].status(),
            ),
            final(self).next_generation() == old(self).next_generation(),
    {
        if !self.contains(id) {
            return None;
        }
        let ghost before = self@;
        let mut instance = self.take_out(id);
        instance.name = name;
        let message = instance.create_modify_message();
        self.put_back(instance, Ghost(before));
        Some(message)
    }

    /// Lets the instance under `id` take over where it lives, its name, version
    /// and loader from `new`, which was just read. Returns the notification
    /// that tells of the instance as it is then, if the store holds it.
    pub fn copy_basic_attributes_from(&mut self, id: InstanceID, new: Instance) -> (r: Option<
        MessageToFrontend,
    >)
        requires
            new.id == InstanceID::dangling(),
        ensures
            r is Some == old(self)@.contains_key(id),
            final(self)@ == if r is Some {
                old(self)@.insert(
                    id,
                    InstanceView {
                        root_path: new@.root_path,
                        name: new@.name,
                        version: new@.version,
                        loader: new@.loader,
                        ..old(self)@[id]
                    },
                )
            } else {
                old(self)@
            },
            r matches Some(message) ==> message@ == final(self)@[id].modify_message(
                final(self)@[id].status(),
            ),
            final(self).next_generation() == old(self).next_generation(),
    {
        if !self.contains(id) {
            return None;
        }
        let ghost before = self@;
        let mut instance = self.take_out(id);
        instance.copy_basic_attributes_from(new);
        let message = instance.create_modify_message();
        self.put_back(instance, Ghost(before));
        Some(message)
    }

    /// Starts a load of the worlds of the instance under `id` if one is due.
    /// Returns what was started and, for a reload, the changed paths to scan.
    pub fn start_load_worlds(&mut self, id: InstanceID) -> (r: (StartLoadResult, PathSet))
        ensures
            r.0 == if old(self)@.contains_key(id) {
                old(self)@[id].start_load_worlds_result()
            } else {
                StartLoadResult::Skipped
            },
            final(self)@ == if old(self)@.contains_key(id) {
                old(self)@.insert(id, old(self)@[id].start_load_worlds())
            } else {
                old(self)@
            },
            r.1@ == if r.0 == StartLoadResult::Reload {
                old(self)@[id].dirty_worlds
            } else {
                Set::empty()
            },
            final(self).next_generation() == old(self).next_generation(),
    {
        if !self.contains(id) {
            return (StartLoadResult::Skipped, PathSet::new());
        }
        let ghost before = self@;
        let mut instance = self.take_out(id);
        let started = instance.start_load_worlds();
        self.put_back(instance, Ghost(before));
        started
    }

    /// Starts a load of the server list of the instance under `id` if one is
    /// due. Returns what was started.
    pub fn start_load_servers(&mut self, id: InstanceID) -> (r: StartLoadResult)
        ensures
            r == if old(self)@.contains_key(id) {
                old(self)@[id].start_load_servers_result()
            } else {
                StartLoadResult::Skipped
            },
            final(self)@ == if old(self)@.contains_key(id) {
                old(self)@.insert(id, old(self)@[id].start_load_servers())
            } else {
                old(self)@
            },
            final(self).next_generation() == old(self).next_generation(),
    {
        if !self.contains(id) {
            return StartLoadResult::Skipped;
        }
        let ghost before = self@;
        let mut instance = self.take_out(id);
        let started = instance.start_load_servers();
        self.put_back(instance, Ghost(before));
        started
    }

    /// Starts a load of the mods of the instance under `id` if one is due.
    /// Returns what was started and, for a reload, the changed paths to scan.
    pub fn start_load_mods(&mut self, id: InstanceID) -> (r: (StartLoadResult, PathSet))
        ensures
            r.0 == if old(self)@.contains_key(id) {
                old(self)@[id].start_load_mods_result()
            } else {
                StartLoadResult::Skipped
            },
            final(self)@ == if old(self)@.contains_key(id) {
                old(self)@.insert(id, old(self)@[id].start_load_mods())
            } else {
                old(self)@
            },
            r.1@ == if r.0 == StartLoadResult::Reload {
                old(self)@[id].dirty_mods
            } else {
                Set::empty()
            },
            final(self).next_generation() == old(self).next_generation(),
    {
        if !self.contains(id) {
            return (StartLoadResult::Skipped, PathSet::new());
        }
        let ghost before = self@;
        let mut instance = self.take_out(id);
        let started = instance.start_load_mods();
        self.put_back(instance, Ghost(before));
        started
    }

    /// Publishes the worlds that the running load of the instance under `id`
    /// found; `result` is `None` while the load has not finished. Returns
    /// whether a snapshot was published.
    pub fn finish_loading_worlds(
        &mut self,
        id: InstanceID,
        result: Option<Vec<InstanceWorldSummary>>,
    ) -> (r: bool)
        ensures
            r == (old(self)@.contains_key(id) && old(self)@[id].worlds_loading && result is Some),
            final(self)@ == if r {
                old(self)@.insert(
                    id,
                    old(self)@[id].finish_loading_worlds(worlds_view(result->0@)),
                )
            } else {
                old(self)@
            },
            final(self).next_generation() == old(self).next_generation(),
    {
        if !self.contains(id) {
            return false;
        }
        let ghost before = self@;
        let mut instance = self.take_out(id);
        let published = instance.finish_loading_worlds(result);
        self.put_back(instance, Ghost(before));
        assert(!published ==> before.insert(id, before[id]) =~= before);
        published
    }

    /// Publishes the server list that the running load of the instance under
    /// `id` found; `result` is `None` while the load has not finished. Returns
    /// whether a snapshot was published.
    pub fn finish_loading_servers(
        &mut self,
        id: InstanceID,
        result: Option<Vec<InstanceServerSummary>>,
    ) -> (r: bool)
        ensures
            r == (old(self)@.contains_key(id) && old(self)@[id].servers_loading && result is Some),
            final(self)@ == if r {
                old(self)@.insert(
                    id,
                    old(self)@[id].finish_loading_servers(servers_view(result->0@)),
                )
            } else {
                old(self)@
            },
            final(self).next_generation() == old(self).next_generation(),
    {
        if !self.contains(id) {
            return false;
        }
        let ghost before = self@;
        let mut instance = self.take_out(id);
        let published = instance.finish_loading_servers(result);
        self.put_back(instance, Ghost(before));
        assert(!published ==> before.insert(id, before[id]) =~= before);
        published
    }

    /// Publishes the mods that the running load of the instance under `id`
    /// found; `result` is `None` while the load has not finished. Returns
    /// whether a snapshot was published.
    pub fn finish_loading_mods(
        &mut self,
        id: InstanceID,
        result: Option<Vec<InstanceModSummary>>,
    ) -> (r: bool)
        ensures
            r == (old(self)@.contains_key(id) && old(self)@[id].mods_loading && result is Some),
            final(self)@ == if r {
                old(self)@.insert(id, old(self)@[id].finish_loading_mods(mods_view(result->0@)))
            } else {
                old(self)@
            },
            final(self).next_generation() == old(self).next_generation(),
    {
        if !self.contains(id) {
            return false;
        }
        let ghost before = self@;
        let mut instance = self.take_out(id);
        let published = instance.finish_loading_mods(result);
        self.put_back(instance, Ghost(before));
        assert(!published ==> before.insert(id, before[id]) =~= before);
        published
    }
}

} // verus!
