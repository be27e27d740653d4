//! The filesystem event router: what each canonical event does to the watch
//! registry and to the instances, and what it asks the outside to do. The
//! router never touches the disk: loading a folder and registering a watch are
//! handed out as actions, and their outcomes come back through
//! `instance_load_finished` and `watch_registered`.

use crate::events::all_have_needed_paths;
use crate::events::classified_batch;
use crate::events::classify_batch;
use crate::events::coalesce;
use crate::events::coalesced;
use crate::events::events_view;
use crate::events::FilesystemEvent;
use crate::events::FilesystemEventView;
use crate::events::RawEvent;
use crate::fs_path::FsPath;
use crate::fs_path::FsPathView;
use crate::ids::IdSet;
use crate::ids::InstanceID;
use crate::instance::info_file_name;
use crate::instance::Instance;
use crate::instance::InstanceLoadError;
use crate::instance::InstanceView;
use crate::load_state::BridgeDataLoadState;
use crate::load_state::StartLoadResult;
use crate::messages::MessageToFrontend;
use crate::messages::MessageView;
use crate::path_set::PathSet;
use crate::store::InstanceStore;
use crate::watch::WatchRegistry;
use crate::watch::WatchTarget;
use vstd::prelude::*;

verus! {

/// What the router keeps between events.
#[derive(Debug)]
pub struct BackendState {
    /// The meaning of every watched path.
    pub watching: WatchRegistry,
    /// The live instances.
    pub instances: InstanceStore,
    /// The instances whose mods are to be loaded again as soon as a batch has
    /// touched them. Each mark is used up by the first batch that does.
    pub reload_mods_immediately: IdSet,
}

/// What the router's state is to the contracts.
pub struct BackendView {
    pub watching: Map<FsPathView, WatchTarget>,
    pub instances: Map<InstanceID, InstanceView>,
    pub reload_mods_immediately: Set<InstanceID>,
}

impl View for BackendState {
    type V = BackendView;

    open spec fn view(&self) -> BackendView {
        BackendView {
            watching: self.watching@,
            instances: self.instances@,
            reload_mods_immediately: self.reload_mods_immediately@,
        }
    }
}

/// What a batch leaves to do once all its events are routed.
#[derive(Debug)]
pub struct AfterDebounceEffects {
    /// The instances whose mods are loaded again when the batch is through.
    pub reload_mods: IdSet,
}

/// What the router asks the outside to do.
#[derive(Debug)]
pub enum RouterAction {
    /// Read the instance in the folder `path` and report with
    /// `instance_load_finished`. `reload` says that the folder is known and
    /// only its description changed.
    LoadInstance { path: FsPath, reload: bool },
    /// Have the operating system watch `path` and, if it does, report with
    /// `watch_registered`.
    Watch { path: FsPath, target: WatchTarget },
    /// Tell the consumers.
    Send(MessageToFrontend),
}

/// What an action is to the contracts.
pub enum RouterActionView {
    LoadInstance { path: FsPathView, reload: bool },
    Watch { path: FsPathView, target: WatchTarget },
    Send(MessageView),
}

impl View for RouterAction {
    type V = RouterActionView;

    open spec fn view(&self) -> RouterActionView {
        match *self {
            RouterAction::LoadInstance { path, reload } => RouterActionView::LoadInstance {
                path: path@,
                reload,
            },
            RouterAction::Watch { path, target } => RouterActionView::Watch { path: path@, target },
            RouterAction::Send(message) => RouterActionView::Send(message@),
        }
    }
}

/// What each of `actions` is to the contracts.
pub open spec fn actions_view(actions: Seq<RouterAction>) -> Seq<RouterActionView> {
    Seq::new(actions.len(), |i: int| actions[i]@)
}

/// What routing one event gives: the state after it, the instances marked for
/// a reload of their mods at the end of the batch, and the actions asked for.
pub struct Routed {
    pub state: BackendView,
    pub reload_mods: Set<InstanceID>,
    pub actions: Seq<RouterActionView>,
}

/// What is said when the instances root is gone.
pub open spec fn root_removed_text() -> Seq<char> {
    "Instances folder has been removed! What?!"@
}

/// What is said when the watcher itself fails.
pub open spec fn watch_failed_text() -> Seq<char> {
    "An error occurred while watching the filesystem! The launcher might be out-of-sync with your files!"@
}

/// What is said when an instance's folder was renamed.
pub open spec fn rename_notice(old_name: Seq<char>, new_name: Seq<char>) -> Seq<char> {
    "Instance '"@ + old_name + "' renamed to '"@ + new_name + "'"@
}

/// Whether `path` lies directly in the instances root.
pub open spec fn spec_parent_is_instances_dir(
    watching: Map<FsPathView, WatchTarget>,
    path: FsPathView,
) -> bool {
    path.parent() matches Some(parent) && watching.contains_key(parent) && watching[parent]
        == WatchTarget::InstancesRoot
}

/// Whether `path` lies directly in the instances root.
pub fn parent_is_instances_dir(watching: &WatchRegistry, path: &FsPath) -> (r: bool)
    ensures
        r == spec_parent_is_instances_dir(watching@, path@),
{
    match path.parent() {
        None => false,
        Some(parent) => {
            match watching.get(&parent) {
                Some(WatchTarget::InstancesRoot) => true,
                _ => false,
            }
        },
    }
}

impl BackendView {
    /// The state after the server list of the instance `id` was marked as
    /// behind, if there is such an instance.
    pub open spec fn mark_server_state_dirty(self, id: InstanceID) -> BackendView {
        if self.instances.contains_key(id) {
            BackendView {
                instances: self.instances.insert(id, self.instances[id].mark_server_state_dirty()),
                ..self
            }
        } else {
            self
        }
    }

    /// The state after a change at the world path `path` of the instance `id`
    /// was noted, if there is such an instance.
    pub open spec fn note_world_change(self, id: InstanceID, path: FsPathView) -> BackendView {
        if self.instances.contains_key(id) {
            BackendView {
                instances: self.instances.insert(id, self.instances[id].note_world_change(path)),
                ..self
            }
        } else {
            self
        }
    }

    /// The state after the world folder `from` of the instance `id` was
    /// renamed, if there is such an instance.
    pub open spec fn note_world_renamed(
        self,
        id: InstanceID,
        from: FsPathView,
        to: Option<FsPathView>,
    ) -> BackendView {
        if self.instances.contains_key(id) {
            BackendView {
                instances: self.instances.insert(
                    id,
                    self.instances[id].note_world_renamed(from, to),
                ),
                ..self
            }
        } else {
            self
        }
    }

    /// The state after a change at the mod path `path` of the instance `id`
    /// was noted, if there is such an instance: the path is pending, the mods
    /// are marked as behind, and the instance's mark for an immediate reload is
    /// used up.
    pub open spec fn note_mod_change(self, id: InstanceID, path: FsPathView) -> BackendView {
        if self.instances.contains_key(id) {
            BackendView {
                instances: self.instances.insert(id, self.instances[id].note_mod_change(path)),
                reload_mods_immediately: self.reload_mods_immediately.remove(id),
                ..self
            }
        } else {
            self
        }
    }

    /// The instances to reload at the end of the batch after a change in the
    /// mods folder of the instance `id`: the instance joins them if it is there
    /// and was marked for an immediate reload.
    pub open spec fn promoted_by_mod_change(
        self,
        reload_mods: Set<InstanceID>,
        id: InstanceID,
    ) -> Set<InstanceID> {
        if self.instances.contains_key(id) && self.reload_mods_immediately.contains(id) {
            reload_mods.insert(id)
        } else {
            reload_mods
        }
    }

    /// The state without the instance `id`.
    pub open spec fn remove_instance(self, id: InstanceID) -> BackendView {
        BackendView { instances: self.instances.remove(id), ..self }
    }

    /// What is told when the instance `id` is removed: that it is gone, if it
    /// was there.
    pub open spec fn remove_instance_actions(self, id: InstanceID) -> Seq<RouterActionView> {
        if self.instances.contains_key(id) {
            seq![RouterActionView::Send(MessageView::InstanceRemoved { id })]
        } else {
            Seq::empty()
        }
    }

    /// The state with `path` no longer watched.
    pub open spec fn unwatch(self, path: FsPathView) -> BackendView {
        BackendView { watching: self.watching.remove(path), ..self }
    }

    /// The meaning of the directory that `path` lies in, if that is watched.
    pub open spec fn parent_target(self, path: FsPathView) -> Option<WatchTarget> {
        match path.parent() {
            Some(parent) => if self.watching.contains_key(parent) {
                Some(self.watching[parent])
            } else {
                None
            },
            None => None,
        }
    }

    /// What a change at `path` does.
    pub open spec fn route_changed(
        self,
        reload_mods: Set<InstanceID>,
        path: FsPathView,
        maybe_is_file: bool,
        maybe_is_folder: bool,
    ) -> Routed {
        let unchanged = Routed { state: self, reload_mods, actions: Seq::empty() };
        if self.watching.contains_key(path) && self.watching[path] is ServersFile {
            Routed {
                state: self.mark_server_state_dirty(self.watching[path]->ServersFile_id),
                ..unchanged
            }
        } else {
            match self.parent_target(path) {
                None => unchanged,
                Some(WatchTarget::InstancesRoot) => if maybe_is_folder {
                    Routed {
                        actions: seq![RouterActionView::LoadInstance { path, reload: false }],
                        ..unchanged
                    }
                } else {
                    unchanged
                },
                Some(WatchTarget::InstanceDir { .. }) | Some(WatchTarget::InvalidInstanceDir) => {
                    if maybe_is_file && path.file_name() == Some(info_file_name()) {
                        Routed {
                            actions: seq![
                                RouterActionView::LoadInstance {
                                    path: path.parent()->0,
                                    reload: true,
                                },
                            ],
                            ..unchanged
                        }
                    } else {
                        unchanged
                    }
                },
                Some(WatchTarget::InstanceLevelDir { id }) => Routed {
                    state: self.note_world_change(id, path.parent()->0),
                    ..unchanged
                },
                Some(WatchTarget::InstanceSavesDir { id }) => Routed {
                    state: self.note_world_change(id, path),
                    ..unchanged
                },
                Some(WatchTarget::ServersFile { .. }) => unchanged,
                Some(WatchTarget::InstanceModsDir { id }) => Routed {
                    state: self.note_mod_change(id, path),
                    reload_mods: self.promoted_by_mod_change(reload_mods, id),
                    ..unchanged
                },
            }
        }
    }

    /// What the removal of `path` does. A watched path is watched no longer;
    /// for an unwatched one the directory it lay in decides. The removal of a
    /// world folder or of the saves folder counts as a change of the worlds at
    /// that path; the removal of the mods folder is passed over.
    pub open spec fn route_removed(self, reload_mods: Set<InstanceID>, path: FsPathView) -> Routed {
        let unchanged = Routed { state: self, reload_mods, actions: Seq::empty() };
        if self.watching.contains_key(path) {
            let rest = self.unwatch(path);
            match self.watching[path] {
                WatchTarget::InstancesRoot => Routed {
                    state: rest,
                    reload_mods,
                    actions: seq![
                        RouterActionView::Send(MessageView::Error { text: root_removed_text() }),
                    ],
                },
                WatchTarget::InstanceDir { id } => Routed {
                    state: rest.remove_instance(id),
                    reload_mods,
                    actions: rest.remove_instance_actions(id),
                },
                WatchTarget::InstanceLevelDir { id } | WatchTarget::InstanceSavesDir { id } => Routed {
                    state: rest.note_world_change(id, path),
                    reload_mods,
                    actions: Seq::empty(),
                },
                WatchTarget::ServersFile { id } => Routed {
                    state: rest.mark_server_state_dirty(id),
                    reload_mods,
                    actions: seq![
                        RouterActionView::Watch { path, target: WatchTarget::ServersFile { id } },
                    ],
                },
                _ => Routed { state: rest, reload_mods, actions: Seq::empty() },
            }
        } else {
            match self.parent_target(path) {
                Some(WatchTarget::InstanceDir { id }) => if path.file_name() == Some(
                    info_file_name(),
                ) {
                    Routed {
                        state: self.remove_instance(id),
                        reload_mods,
                        actions: self.remove_instance_actions(id).push(
                            RouterActionView::Watch {
                                path: path.parent()->0,
                                target: WatchTarget::InvalidInstanceDir,
                            },
                        ),
                    }
                } else {
                    unchanged
                },
                Some(WatchTarget::InstanceLevelDir { id }) => Routed {
                    state: self.note_world_change(id, path.parent()->0),
                    ..unchanged
                },
                Some(WatchTarget::InstanceSavesDir { id }) => Routed {
                    state: self.note_world_change(id, path),
                    ..unchanged
                },
                Some(WatchTarget::InstanceModsDir { id }) => Routed {
                    state: self.note_mod_change(id, path),
                    reload_mods: self.promoted_by_mod_change(reload_mods, id),
                    ..unchanged
                },
                _ => unchanged,
            }
        }
    }

    /// What the rename of a loaded instance's folder to `to` does, once the
    /// old path is watched no longer: outside the instances root the instance
    /// is removed; inside it the instance takes the name of the new folder,
    /// which is watched in place of the old one, and the rename is told.
    pub open spec fn route_instance_dir_renamed(
        self,
        reload_mods: Set<InstanceID>,
        id: InstanceID,
        to: FsPathView,
    ) -> Routed {
        if !self.instances.contains_key(id) {
            Routed { state: self, reload_mods, actions: Seq::empty() }
        } else if !spec_parent_is_instances_dir(self.watching, to) {
            Routed {
                state: self.remove_instance(id),
                reload_mods,
                actions: self.remove_instance_actions(id),
            }
        } else {
            let before = self.instances[id];
            let after = InstanceView { name: to.names.last(), ..before };
            Routed {
                state: BackendView {
                    instances: self.instances.insert(id, after),
                    watching: self.watching.insert(to, WatchTarget::InstanceDir { id }),
                    ..self
                },
                reload_mods,
                actions: seq![
                    RouterActionView::Send(
                        MessageView::Info { text: rename_notice(before.name, after.name) },
                    ),
                    RouterActionView::Send(after.modify_message(after.status())),
                ],
            }
        }
    }

    /// What the rename of `from` to `to` does. A watched `from` is watched no
    /// longer and its meaning decides; else each end that lies in a mods
    /// folder counts as a change there.
    pub open spec fn route_renamed(
        self,
        reload_mods: Set<InstanceID>,
        from: FsPathView,
        to: FsPathView,
    ) -> Routed {
        if self.watching.contains_key(from) {
            let rest = self.unwatch(from);
            let settled = Routed { state: rest, reload_mods, actions: Seq::empty() };
            match self.watching[from] {
                WatchTarget::InstancesRoot => Routed {
                    actions: seq![
                        RouterActionView::Send(MessageView::Error { text: root_removed_text() }),
                    ],
                    ..settled
                },
                WatchTarget::InstanceDir { id } => rest.route_instance_dir_renamed(
                    reload_mods,
                    id,
                    to,
                ),
                WatchTarget::InvalidInstanceDir => if spec_parent_is_instances_dir(
                    rest.watching,
                    to,
                ) && !rest.watching.contains_key(to) {
                    Routed {
                        actions: seq![
                            RouterActionView::Watch {
                                path: to,
                                target: WatchTarget::InvalidInstanceDir,
                            },
                        ],
                        ..settled
                    }
                } else {
                    settled
                },
                WatchTarget::InstanceLevelDir { id } => Routed {
                    state: rest.note_world_renamed(
                        id,
                        from,
                        if to.parent() == from.parent() {
                            Some(to)
                        } else {
                            None
                        },
                    ),
                    ..settled
                },
                _ => settled,
            }
        } else {
            let first = match self.parent_target(from) {
                Some(WatchTarget::InstanceModsDir { id }) => Routed {
                    state: self.note_mod_change(id, from),
                    reload_mods: self.promoted_by_mod_change(reload_mods, id),
                    actions: Seq::empty(),
                },
                _ => Routed { state: self, reload_mods, actions: Seq::empty() },
            };
            match first.state.parent_target(to) {
                Some(WatchTarget::InstanceModsDir { id }) => Routed {
                    state: first.state.note_mod_change(id, to),
                    reload_mods: first.state.promoted_by_mod_change(first.reload_mods, id),
                    actions: Seq::empty(),
                },
                _ => first,
            }
        }
    }

    /// What the event `event` does.
    pub open spec fn route(self, reload_mods: Set<InstanceID>, event: FilesystemEventView) -> Routed {
        match event {
            FilesystemEventView::Changed { path, maybe_is_file, maybe_is_folder } => {
                self.route_changed(reload_mods, path, maybe_is_file, maybe_is_folder)
            },
            FilesystemEventView::Remove(path) => self.route_removed(reload_mods, path),
            FilesystemEventView::Rename(from, to) => self.route_renamed(reload_mods, from, to),
        }
    }

    /// The instances after the mods of every one of `reload_mods` were asked
    /// to load.
    pub open spec fn finish_batch(self, reload_mods: Set<InstanceID>) -> BackendView {
        BackendView {
            instances: Map::new(
                |id: InstanceID| self.instances.contains_key(id),
                |id: InstanceID|
                    if reload_mods.contains(id) {
                        self.instances[id].start_load_mods()
                    } else {
                        self.instances[id]
                    },
            ),
            ..self
        }
    }

    /// The instance that is loaded from the folder `path` already: the one
    /// that the registry names for it, if it is there.
    pub open spec fn known_instance_at(self, path: FsPathView) -> Option<InstanceID> {
        if self.watching.contains_key(path) && self.watching[path] is InstanceDir
            && self.instances.contains_key(self.watching[path]->InstanceDir_id) {
            Some(self.watching[path]->InstanceDir_id)
        } else {
            None
        }
    }
}

/// The watches that an instance needs inside its folder: its saves folder, its
/// mods folder and its server list file, then the folder of every world of its
/// snapshot.
pub open spec fn watches_inside(id: InstanceID, instance: InstanceView) -> Seq<RouterActionView> {
    seq![
        RouterActionView::Watch {
            path: instance.saves_path,
            target: WatchTarget::InstanceSavesDir { id },
        },
        RouterActionView::Watch {
            path: instance.mods_path,
            target: WatchTarget::InstanceModsDir { id },
        },
        RouterActionView::Watch {
            path: instance.server_dat_path,
            target: WatchTarget::ServersFile { id },
        },
    ] + match instance.worlds {
        Some(worlds) => Seq::new(
            worlds.len(),
            |i: int|
                RouterActionView::Watch {
                    path: worlds[i].level_path,
                    target: WatchTarget::InstanceLevelDir { id },
                },
        ),
        None => Seq::empty(),
    }
}

/// What a started load is to the contracts.
pub struct StartedModLoadView {
    pub id: InstanceID,
    pub result: StartLoadResult,
    pub dirty: Set<FsPathView>,
}

/// The loads that the end of a batch starts for the instances `ids`, in order:
/// one for each instance that is there and for which a load is due.
pub open spec fn started_loads(
    instances: Map<InstanceID, InstanceView>,
    ids: Seq<InstanceID>,
) -> Seq<StartedModLoadView>
    decreases ids.len(),
{
    if ids.len() == 0 {
        Seq::empty()
    } else {
        let front = started_loads(instances, ids.drop_last());
        let id = ids.last();
        if instances.contains_key(id) && instances[id].start_load_mods_result()
            != StartLoadResult::Skipped {
            front.push(
                StartedModLoadView {
                    id,
                    result: instances[id].start_load_mods_result(),
                    dirty: if instances[id].start_load_mods_result() == StartLoadResult::Reload {
                        instances[id].dirty_mods
                    } else {
                        Set::empty()
                    },
                },
            )
        } else {
            front
        }
    }
}

/// What becomes of the state and what is asked for when the folder `path` was
/// read: a failure leaves the state, and a folder that was not known before is
/// to be watched as one that holds no instance; an instance that is loaded
/// already keeps its handle and takes over what was read; any other is taken
/// in under a new handle, is to be watched under it and is told of.
pub open spec fn load_outcome(
    before: BackendView,
    next_generation: usize,
    after: BackendView,
    path: FsPathView,
    reload: bool,
    outcome: Result<InstanceView, ()>,
    actions: Seq<RouterActionView>,
) -> bool {
    let invalid = seq![
        RouterActionView::Watch { path, target: WatchTarget::InvalidInstanceDir },
    ];
    &&& after.watching == before.watching
    &&& after.reload_mods_immediately == before.reload_mods_immediately
    &&& match outcome {
        Err(_) => after.instances == before.instances && actions == if reload {
            Seq::empty()
        } else {
            invalid
        },
        Ok(read) => match before.known_instance_at(path) {
            Some(id) => {
                let updated = InstanceView {
                    root_path: read.root_path,
                    name: read.name,
                    version: read.version,
                    loader: read.loader,
                    ..before.instances[id]
                };
                &&& after.instances == before.instances.insert(id, updated)
                &&& actions == seq![
                    RouterActionView::Send(updated.modify_message(updated.status())),
                ]
            },
            None => if next_generation == usize::MAX {
                after.instances == before.instances && actions == invalid
            } else {
                &&& actions.len() == 2
                &&& actions[0] matches RouterActionView::Watch {
                    path: watched,
                    target: WatchTarget::InstanceDir { id },
                }
                &&& watched == path
                &&& id.generation == next_generation
                &&& !before.instances.contains_key(id)
                &&& after.instances == before.instances.insert(id, InstanceView { id, ..read })
                &&& actions[1] == RouterActionView::Send(
                    MessageView::InstanceAdded {
                        id,
                        name: read.name,
                        version: read.version,
                        loader: read.loader,
                    },
                )
            },
        },
    }
}

impl StartedModLoad {
    /// What the started load is to the contracts.
    pub open spec fn view(&self) -> StartedModLoadView {
        StartedModLoadView { id: self.id, result: self.result, dirty: self.dirty@ }
    }
}

/// What each of `loads` is to the contracts.
pub open spec fn loads_view(loads: Seq<StartedModLoad>) -> Seq<StartedModLoadView> {
    Seq::new(loads.len(), |i: int| loads[i].view())
}

/// A load that the end of a batch started: for which instance, of what kind,
/// and for a reload the changed paths to scan.
#[derive(Debug)]
pub struct StartedModLoad {
    pub id: InstanceID,
    pub result: StartLoadResult,
    pub dirty: PathSet,
}

impl AfterDebounceEffects {
    /// Nothing to do at the end of the batch.
    pub fn new() -> (r: AfterDebounceEffects)
        ensures
            r.reload_mods@ == Set::<InstanceID>::empty(),
    {
        AfterDebounceEffects { reload_mods: IdSet::new() }
    }
}

impl BackendState {
    /// A router that watches nothing and knows no instance. Its store has
    /// given out no handle yet, and no instance is marked for a reload.
    pub fn new() -> (r: BackendState)
        ensures
            r@ == (BackendView {
                watching: Map::empty(),
                instances: Map::empty(),
                reload_mods_immediately: Set::empty(),
            }),
            r.instances.next_generation() == 0,
            r.reload_mods_immediately.in_order() == Seq::<InstanceID>::empty(),
    {
        BackendState {
            watching: WatchRegistry::new(),
            instances: InstanceStore::new(),
            reload_mods_immediately: IdSet::new(),
        }
    }

    /// Turns what the watcher delivered into the events to route: a batch is
    /// classified and folded, a failure of the watcher becomes the message that
    /// tells of it.
    pub fn handle_filesystem(&self, result: Result<Vec<RawEvent>, String>) -> (r: Result<
        Vec<FilesystemEvent>,
        MessageToFrontend,
    >)
        requires
            result matches Ok(batch) ==> all_have_needed_paths(batch@),
        ensures
            r is Ok == result is Ok,
            r matches Ok(events) ==> events_view(events@) == coalesced(
                classified_batch(result->Ok_0@),
            ),
            r matches Err(message) ==> message@ == (MessageView::Error {
                text: watch_failed_text(),
            }),
    {
        match result {
            Ok(batch) => Ok(coalesce(classify_batch(&batch))),
            Err(_) => Err(
                MessageToFrontend::Error {
                    text: String::from_str(
                        "An error occurred while watching the filesystem! The launcher might be out-of-sync with your files!",
                    ),
                },
            ),
        }
    }

    /// Notes a change at the mod path `path` of the instance `id`. If the
    /// instance is there, its mark for an immediate reload is used up and puts
    /// it among those to reload at the end of the batch.
    fn note_mod_change(
        &mut self,
        id: InstanceID,
        path: FsPath,
        after_debounce_effects: &mut AfterDebounceEffects,
    )
        ensures
            final(self)@ == old(self)@.note_mod_change(id, path@),
            final(after_debounce_effects).reload_mods@ == old(self)@.promoted_by_mod_change(
                old(after_debounce_effects).reload_mods@,
                id,
            ),
    {
        if !self.instances.contains(id) {
            return;
        }
        self.instances.note_mod_change(id, path);
        match self.reload_mods_immediately.take(id) {
            Some(marked) => {
                after_debounce_effects.reload_mods.insert(marked);
            },
            None => {
                assert(self.reload_mods_immediately@ =~= old(self).reload_mods_immediately@);
            },
        }
    }

    /// Removes the instance `id` and tells of it, if it was there.
    fn remove_instance(&mut self, id: InstanceID, actions: &mut Vec<RouterAction>)
        ensures
            final(self)@ == old(self)@.remove_instance(id),
            actions_view(final(actions)@) == actions_view(old(actions)@) + old(
                self,
            )@.remove_instance_actions(id),
    {
        let ghost before = actions_view(actions@);
        match self.instances.remove(id) {
            Some(_) => {
                actions.push(RouterAction::Send(MessageToFrontend::InstanceRemoved { id }));
                assert(actions_view(actions@) =~= before + seq![
                    RouterActionView::Send(MessageView::InstanceRemoved { id }),
                ]);
            },
            None => {
                assert(before + Seq::<RouterActionView>::empty() =~= before);
            },
        }
    }

    /// Routes a change at `path`.
    fn handle_changed(
        &mut self,
        path: FsPath,
        maybe_is_file: bool,
        maybe_is_folder: bool,
        after_debounce_effects: &mut AfterDebounceEffects,
    ) -> (actions: Vec<RouterAction>)
        ensures
            final(self)@ == old(self)@.route_changed(
                old(after_debounce_effects).reload_mods@,
                path@,
                maybe_is_file,
                maybe_is_folder,
            ).state,
            final(after_debounce_effects).reload_mods@ == old(self)@.route_changed(
                old(after_debounce_effects).reload_mods@,
                path@,
                maybe_is_file,
                maybe_is_folder,
            ).reload_mods,
            actions_view(actions@) == old(self)@.route_changed(
                old(after_debounce_effects).reload_mods@,
                path@,
                maybe_is_file,
                maybe_is_folder,
            ).actions,
    {
        let mut actions: Vec<RouterAction> = Vec::new();
        assert(actions_view(actions@) =~= Seq::empty());
        match self.watching.get(&path) {
            Some(WatchTarget::ServersFile { id }) => {
                if !self.instances.mark_server_state_dirty(id) {
                    assert(self.instances@ =~= old(self).instances@);
                }
                return actions;
            },
            _ => {},
        }
        let parent = match path.parent() {
            Some(parent) => parent,
            None => {
                return actions;
            },
        };
        let target = match self.watching.get(&parent) {
            Some(target) => target,
            None => {
                return actions;
            },
        };
        match target {
            WatchTarget::InstancesRoot => {
                if maybe_is_folder {
                    actions.push(RouterAction::LoadInstance { path, reload: false });
                    assert(actions_view(actions@) =~= seq![
                        RouterActionView::LoadInstance { path: path@, reload: false },
                    ]);
                }
            },
            WatchTarget::InstanceDir { .. } | WatchTarget::InvalidInstanceDir => {
                if maybe_is_file && path.is_named("info.json") {
                    actions.push(RouterAction::LoadInstance { path: parent, reload: true });
                    assert(actions_view(actions@) =~= seq![
                        RouterActionView::LoadInstance { path: parent@, reload: true },
                    ]);
                }
            },
            WatchTarget::InstanceLevelDir { id } => {
                self.instances.note_world_change(id, parent);
            },
            WatchTarget::InstanceSavesDir { id } => {
                self.instances.note_world_change(id, path);
            },
            WatchTarget::ServersFile { .. } => {},
            WatchTarget::InstanceModsDir { id } => {
                self.note_mod_change(id, path, after_debounce_effects);
            },
        }
        actions
    }

    /// Routes the removal of `path`.
    fn handle_removed(
        &mut self,
        path: FsPath,
        after_debounce_effects: &mut AfterDebounceEffects,
    ) -> (actions: Vec<RouterAction>)
        ensures
            final(self)@ == old(self)@.route_removed(
                old(after_debounce_effects).reload_mods@,
                path@,
            ).state,
            final(after_debounce_effects).reload_mods@ == old(self)@.route_removed(
                old(after_debounce_effects).reload_mods@,
                path@,
            ).reload_mods,
            actions_view(actions@) == old(self)@.route_removed(
                old(after_debounce_effects).reload_mods@,
                path@,
            ).actions,
    {
        let mut actions: Vec<RouterAction> = Vec::new();
        assert(actions_view(actions@) =~= Seq::empty());
        match self.watching.remove(&path) {
            Some(target) => {
                match target {
                    WatchTarget::InstancesRoot => {
                        actions.push(
                            RouterAction::Send(
                                MessageToFrontend::Error {
                                    text: String::from_str(
                                        "Instances folder has been removed! What?!",
                                    ),
                                },
                            ),
                        );
                        assert(actions_view(actions@) =~= seq![
                            RouterActionView::Send(
                                MessageView::Error { text: root_removed_text() },
                            ),
                        ]);
                    },
                    WatchTarget::InstanceDir { id } => {
                        let ghost rest = self@;
                        self.remove_instance(id, &mut actions);
                        assert(Seq::<RouterActionView>::empty() + rest.remove_instance_actions(id)
                            =~= rest.remove_instance_actions(id));
                    },
                    WatchTarget::InvalidInstanceDir => {},
                    WatchTarget::InstanceLevelDir { id } | WatchTarget::InstanceSavesDir { id } => {
                        self.instances.note_world_change(id, path);
                    },
                    WatchTarget::ServersFile { id } => {
                        if !self.instances.mark_server_state_dirty(id) {
                            assert(self.instances@ =~= old(self).instances@);
                        }
                        actions.push(RouterAction::Watch { path, target });
                        assert(actions_view(actions@) =~= seq![
                            RouterActionView::Watch {
                                path: path@,
                                target: WatchTarget::ServersFile { id },
                            },
                        ]);
                    },
                    WatchTarget::InstanceModsDir { .. } => {},
                }
            },
            None => {
                assert(self.watching@ =~= old(self).watching@);
                let parent = match path.parent() {
                    Some(parent) => parent,
                    None => {
                        return actions;
                    },
                };
                let target = match self.watching.get(&parent) {
                    Some(target) => target,
                    None => {
                        return actions;
                    },
                };
                match target {
                    WatchTarget::InstanceDir { id } => {
                        if path.is_named("info.json") {
                            let ghost told = old(self)@.remove_instance_actions(id);
                            self.remove_instance(id, &mut actions);
                            assert(Seq::<RouterActionView>::empty() + told =~= told);
                            actions.push(
                                RouterAction::Watch {
                                    path: parent,
                                    target: WatchTarget::InvalidInstanceDir,
                                },
                            );
                            assert(actions_view(actions@) =~= told.push(
                                RouterActionView::Watch {
                                    path: parent@,
                                    target: WatchTarget::InvalidInstanceDir,
                                },
                            ));
                        }
                    },
                    WatchTarget::InstanceLevelDir { id } => {
                        self.instances.note_world_change(id, parent);
                    },
                    WatchTarget::InstanceSavesDir { id } => {
                        self.instances.note_world_change(id, path);
                    },
                    WatchTarget::InstanceModsDir { id } => {
                        self.note_mod_change(id, path, after_debounce_effects);
                    },
                    _ => {},
                }
            },
        }
        actions
    }

    /// Routes the rename of the folder of the instance `id` to `to`, after the
    /// old path was taken out of the registry.
    fn handle_instance_dir_renamed(&mut self, id: InstanceID, to: FsPath) -> (actions: Vec<
        RouterAction,
    >)
        ensures
            final(self)@ == old(self)@.route_instance_dir_renamed(Set::empty(), id, to@).state,
            actions_view(actions@) == old(self)@.route_instance_dir_renamed(
                Set::empty(),
                id,
                to@,
            ).actions,
    {
        let mut actions: Vec<RouterAction> = Vec::new();
        assert(actions_view(actions@) =~= Seq::empty());
        let old_name = match self.instances.get(id) {
            Some(instance) => instance.name.clone(),
            None => {
                return actions;
            },
        };
        if !parent_is_instances_dir(&self.watching, &to) {
            let ghost told = self@.remove_instance_actions(id);
            self.remove_instance(id, &mut actions);
            assert(Seq::<RouterActionView>::empty() + told =~= told);
            return actions;
        }
        let new_name = match to.file_name() {
            Some(name) => name.clone(),
            None => String::new(),
        };
        let mut text = String::from_str("Instance '");
        text.append(old_name.as_str());
        text.append("' renamed to '");
        text.append(new_name.as_str());
        text.append("'");
        let renamed = self.instances.rename(id, new_name);
        self.watching.insert(to, WatchTarget::InstanceDir { id });
        actions.push(RouterAction::Send(MessageToFrontend::Info { text }));
        let ghost first = actions@[0]@;
        match renamed {
            Some(message) => {
                actions.push(RouterAction::Send(message));
                assert(actions_view(actions@) =~= seq![first, RouterActionView::Send(message@)]);
            },
            None => {},
        }
        actions
    }

    /// Routes the rename of `from` to `to`.
    fn handle_renamed(
        &mut self,
        from: FsPath,
        to: FsPath,
        after_debounce_effects: &mut AfterDebounceEffects,
    ) -> (actions: Vec<RouterAction>)
        ensures
            final(self)@ == old(self)@.route_renamed(
                old(after_debounce_effects).reload_mods@,
                from@,
                to@,
            ).state,
            final(after_debounce_effects).reload_mods@ == old(self)@.route_renamed(
                old(after_debounce_effects).reload_mods@,
                from@,
                to@,
            ).reload_mods,
            actions_view(actions@) == old(self)@.route_renamed(
                old(after_debounce_effects).reload_mods@,
                from@,
                to@,
            ).actions,
    {
        let mut actions: Vec<RouterAction> = Vec::new();
        assert(actions_view(actions@) =~= Seq::empty());
        match self.watching.remove(&from) {
            Some(target) => {
                match target {
                    WatchTarget::InstancesRoot => {
                        actions.push(
                            RouterAction::Send(
                                MessageToFrontend::Error {
                                    text: String::from_str(
                                        "Instances folder has been removed! What?!",
                                    ),
                                },
                            ),
                        );
                        assert(actions_view(actions@) =~= seq![
                            RouterActionView::Send(
                                MessageView::Error { text: root_removed_text() },
                            ),
                        ]);
                    },
                    WatchTarget::InstanceDir { id } => {
                        return self.handle_instance_dir_renamed(id, to);
                    },
                    WatchTarget::InvalidInstanceDir => {
                        if parent_is_instances_dir(&self.watching, &to)
                            && !self.watching.contains_key(&to) {
                            actions.push(
                                RouterAction::Watch {
                                    path: to,
                                    target: WatchTarget::InvalidInstanceDir,
                                },
                            );
                            assert(actions_view(actions@) =~= seq![
                                RouterActionView::Watch {
                                    path: to@,
                                    target: WatchTarget::InvalidInstanceDir,
                                },
                            ]);
                        }
                    },
                    WatchTarget::InstanceLevelDir { id } => {
                        let sibling = if to.has_same_parent(&from) {
                            Some(to)
                        } else {
                            None
                        };
                        self.instances.note_world_renamed(id, from, sibling);
                    },
                    WatchTarget::InstanceSavesDir { .. } => {},
                    WatchTarget::ServersFile { .. } => {},
                    WatchTarget::InstanceModsDir { .. } => {},
                }
            },
            None => {
                assert(self.watching@ =~= old(self).watching@);
                match from.parent() {
                    Some(parent) => {
                        match self.watching.get(&parent) {
                            Some(WatchTarget::InstanceModsDir { id }) => {
                                self.note_mod_change(id, from, after_debounce_effects);
                            },
                            _ => {},
                        }
                    },
                    None => {},
                }
                match to.parent() {
                    Some(parent) => {
                        match self.watching.get(&parent) {
                            Some(WatchTarget::InstanceModsDir { id }) => {
                                self.note_mod_change(id, to, after_debounce_effects);
                            },
                            _ => {},
                        }
                    },
                    None => {},
                }
            },
        }
        actions
    }

    /// Routes one canonical event: changes the registry and the instances as
    /// the event's kind and the meaning of its path, or of the directory that
    /// the path lies in, demand, and returns what the outside has to do.
    pub fn handle_filesystem_event(
        &mut self,
        event: FilesystemEvent,
        after_debounce_effects: &mut AfterDebounceEffects,
    ) -> (actions: Vec<RouterAction>)
        ensures
            final(self)@ == old(self)@.route(old(after_debounce_effects).reload_mods@, event@).state,
            final(after_debounce_effects).reload_mods@ == old(self)@.route(
                old(after_debounce_effects).reload_mods@,
                event@,
            ).reload_mods,
            actions_view(actions@) == old(self)@.route(
                old(after_debounce_effects).reload_mods@,
                event@,
            ).actions,
    {
        match event {
            FilesystemEvent::Changed { path, maybe_is_file, maybe_is_folder } => {
                self.handle_changed(path, maybe_is_file, maybe_is_folder, after_debounce_effects)
            },
            FilesystemEvent::Remove(path) => self.handle_removed(path, after_debounce_effects),
            FilesystemEvent::Rename(from, to) => self.handle_renamed(
                from,
                to,
                after_debounce_effects,
            ),
        }
    }

    /// Takes note that the operating system now watches `path`: the registry
    /// gives it the meaning `target`.
    pub fn watch_registered(&mut self, path: FsPath, target: WatchTarget)
        ensures
            final(self)@ == (BackendView {
                watching: old(self)@.watching.insert(path@, target),
                ..old(self)@
            }),
    {
        self.watching.insert(path, target);
    }

    /// The watches to ask for inside the folder of the instance `id`, once the
    /// folder itself is watched or the instance's worlds were published: none
    /// if there is no such instance.
    pub fn instance_watches(&self, id: InstanceID) -> (actions: Vec<RouterAction>)
        ensures
            actions_view(actions@) == if self@.instances.contains_key(id) {
                watches_inside(id, self@.instances[id])
            } else {
                Seq::empty()
            },
    {
        let mut actions: Vec<RouterAction> = Vec::new();
        let instance = match self.instances.get(id) {
            Some(instance) => instance,
            None => {
                assert(actions_view(actions@) =~= Seq::empty());
                return actions;
            },
        };
        actions.push(
            RouterAction::Watch {
                path: instance.saves_path.clone(),
                target: WatchTarget::InstanceSavesDir { id },
            },
        );
        actions.push(
            RouterAction::Watch {
                path: instance.mods_path.clone(),
                target: WatchTarget::InstanceModsDir { id },
            },
        );
        actions.push(
            RouterAction::Watch {
                path: instance.server_dat_path.clone(),
                target: WatchTarget::ServersFile { id },
            },
        );
        let ghost fixed = actions_view(actions@);
        match &instance.worlds {
            Some(worlds) => {
                let mut i: usize = 0;
                while i < worlds.len()
                    invariant
                        i <= worlds.len(),
                        actions@.len() == 3 + i,
                        actions_view(actions@).take(3) == fixed,
                        forall|j: int|
                            0 <= j < i ==> (#[trigger] actions@[3 + j])@ == (RouterActionView::Watch {
                                path: worlds@[j]@.level_path,
                                target: WatchTarget::InstanceLevelDir { id },
                            }),
                    decreases worlds.len() - i,
                {
                    let ghost before = actions_view(actions@);
                    actions.push(
                        RouterAction::Watch {
                            path: worlds[i].level_path.clone(),
                            target: WatchTarget::InstanceLevelDir { id },
                        },
                    );
                    assert(actions_view(actions@).take(3) =~= before.take(3));
                    i += 1;
                }
            },
            None => {},
        }
        assert(actions_view(actions@) =~= watches_inside(id, self@.instances[id])) by {
            let got = actions_view(actions@);
            let want = watches_inside(id, self@.instances[id]);
            assert(got.len() == want.len());
            assert forall|k: int| 0 <= k < got.len() implies got[k] == want[k] by {
                if k < 3 {
                    assert(got.take(3)[k] == got[k]);
                    assert(fixed[k] == want[k]);
                } else {
                    assert(got[k] == actions@[3 + (k - 3)]@);
                }
            }
        }
        actions
    }

    /// Marks the instance `id` for a reload of its mods at the end of the
    /// first batch that touches them.
    pub fn reload_mods_after_next_change(&mut self, id: InstanceID)
        ensures
            final(self)@ == (BackendView {
                reload_mods_immediately: old(self)@.reload_mods_immediately.insert(id),
                ..old(self)@
            }),
    {
        self.reload_mods_immediately.insert(id);
    }

    /// Takes in what reading the folder `path` gave, after a `LoadInstance`
    /// action. An instance that is loaded from that folder already keeps its
    /// handle and takes over where it lives, its name, version and loader. Any
    /// other instance is taken in under a new handle and is to be watched.
    /// After a failure a folder that was not known before is to be watched as
    /// one that holds no instance.
    pub fn instance_load_finished(
        &mut self,
        path: FsPath,
        reload: bool,
        outcome: Result<Instance, InstanceLoadError>,
    ) -> (actions: Vec<RouterAction>)
        requires
            outcome matches Ok(instance) ==> instance.id == InstanceID::dangling()
                && instance@.wf(),
        ensures
            load_outcome(
                old(self)@,
                old(self).instances.next_generation(),
                final(self)@,
                path@,
                reload,
                match outcome {
                    Ok(instance) => Ok(instance@),
                    Err(_) => Err(()),
                },
                actions_view(actions@),
            ),
    {
        let mut actions: Vec<RouterAction> = Vec::new();
        assert(actions_view(actions@) =~= Seq::empty());
        let instance = match outcome {
            Ok(instance) => instance,
            Err(_) => {
                if !reload {
                    actions.push(
                        RouterAction::Watch { path, target: WatchTarget::InvalidInstanceDir },
                    );
                    assert(actions_view(actions@) =~= seq![
                        RouterActionView::Watch {
                            path: path@,
                            target: WatchTarget::InvalidInstanceDir,
                        },
                    ]);
                }
                return actions;
            },
        };
        let known = match self.watching.get(&path) {
            Some(WatchTarget::InstanceDir { id }) => {
                if self.instances.contains(id) {
                    Some(id)
                } else {
                    None
                }
            },
            _ => None,
        };
        match known {
            Some(id) => {
                match self.instances.copy_basic_attributes_from(id, instance) {
                    Some(message) => {
                        actions.push(RouterAction::Send(message));
                        assert(actions_view(actions@) =~= seq![RouterActionView::Send(message@)]);
                    },
                    None => {},
                }
            },
            None => {
                let name = instance.name.clone();
                let version = instance.version.clone();
                let loader = instance.loader;
                match self.instances.insert(instance) {
                    Ok(id) => {
                        actions.push(
                            RouterAction::Watch { path, target: WatchTarget::InstanceDir { id } },
                        );
                        actions.push(
                            RouterAction::Send(
                                MessageToFrontend::InstanceAdded { id, name, version, loader },
                            ),
                        );
                    },
                    Err(_) => {
                        actions.push(
                            RouterAction::Watch { path, target: WatchTarget::InvalidInstanceDir },
                        );
                        assert(actions_view(actions@) =~= seq![
                            RouterActionView::Watch {
                                path: path@,
                                target: WatchTarget::InvalidInstanceDir,
                            },
                        ]);
                    },
                }
            },
        }
        actions
    }

    /// Ends a batch: asks the mods of every instance that the batch marked to
    /// load, and returns the loads that this started, in the order in which
    /// the instances were marked.
    pub fn finish_batch(&mut self, after_debounce_effects: AfterDebounceEffects) -> (started: Vec<
        StartedModLoad,
    >)
        ensures
            final(self)@ == old(self)@.finish_batch(after_debounce_effects.reload_mods@),
            loads_view(started@) == started_loads(
                old(self)@.instances,
                after_debounce_effects.reload_mods.in_order(),
            ),
    {
        let marked = after_debounce_effects.reload_mods;
        let count = marked.len();
        let ghost ids = marked.in_order();
        let ghost before = self@;
        let mut started: Vec<StartedModLoad> = Vec::new();
        let mut i: usize = 0;
        assert(ids.take(0) =~= Seq::empty());
        assert(self@.instances =~= before.finish_batch(ids.take(0).to_set()).instances);
        assert(loads_view(started@) =~= Seq::empty());
        while i < count
            invariant
                i <= count,
                count == ids.len(),
                ids == marked.in_order(),
                ids.no_duplicates(),
                ids.to_set() == marked@,
                self@.watching == before.watching,
                self@.reload_mods_immediately == before.reload_mods_immediately,
                self@.instances == before.finish_batch(ids.take(i as int).to_set()).instances,
                loads_view(started@) == started_loads(before.instances, ids.take(i as int)),
            decreases count - i,
        {
            let id = marked.get(i);
            let ghost done = ids.take(i as int);
            let ghost next = ids.take(i + 1);
            let ghost told = loads_view(started@);
            proof {
                assert(ids.take(i + 1).drop_last() =~= done);
                assert(ids.take(i + 1).last() == id);
                assert(!done.to_set().contains(id)) by {
                    if done.contains(id) {
                        let k = choose|k: int| 0 <= k < done.len() && done[k] == id;
                        assert(ids[k] == ids[i as int]);
                    }
                }
                assert(ids.take(i + 1).to_set() =~= done.to_set().insert(id)) by {
                    assert forall|x: InstanceID| #[trigger]
                        ids.take(i + 1).to_set().contains(x) == done.to_set().insert(id).contains(
                            x,
                        ) by {
                        if next.contains(x) {
                            let k = choose|k: int| 0 <= k < next.len() && next[k] == x;
                            if k < i {
                                assert(done[k] == x);
                            }
                        }
                        if done.contains(x) {
                            let k = choose|k: int| 0 <= k < done.len() && done[k] == x;
                            assert(next[k] == x);
                        }
                        if x == id {
                            assert(next[i as int] == x);
                        }
                    }
                }
            }
            let (result, dirty) = self.instances.start_load_mods(id);
            assert(self@.instances =~= before.finish_batch(
                ids.take(i + 1).to_set(),
            ).instances);
            if result != StartLoadResult::Skipped {
                started.push(StartedModLoad { id, result, dirty });
                assert(loads_view(started@) =~= told.push(
                    StartedModLoadView { id, result, dirty: dirty@ },
                ));
            }
            i += 1;
        }
        assert(ids.take(count as int) =~= ids);
        started
    }
}

/// A change inside a watched world folder of a live instance always leaves
/// that folder pending and the worlds marked as behind, whether the folder was
/// pending before or not: after a finished load the pipeline owes a reload.
pub proof fn lemma_world_change_marks_dirty(
    state: BackendView,
    reload_mods: Set<InstanceID>,
    path: FsPathView,
    maybe_is_file: bool,
    maybe_is_folder: bool,
    id: InstanceID,
)
    requires
        !(state.watching.contains_key(path) && state.watching[path] is ServersFile),
        state.parent_target(path) == Some(WatchTarget::InstanceLevelDir { id }),
        state.instances.contains_key(id),
    ensures
        ({
            let routed = state.route(
                reload_mods,
                FilesystemEventView::Changed { path, maybe_is_file, maybe_is_folder },
            );
            let before = state.instances[id];
            let after = routed.state.instances[id];
            &&& routed.state.instances.contains_key(id)
            &&& after.dirty_worlds == before.dirty_worlds.insert(path.parent()->0)
            &&& after.worlds_state == before.worlds_state.marked_dirty()
            &&& before.worlds_state == BridgeDataLoadState::Loaded ==> after.worlds_state
                == BridgeDataLoadState::LoadedDirty
        }),
{
}

/// A change inside the watched mods folder of a live instance always leaves
/// the changed path pending and the mods marked as behind, and promotes the
/// instance to a reload at the end of the batch if it was marked for one,
/// whether the path was pending before or not.
pub proof fn lemma_mod_change_marks_dirty_and_promotes(
    state: BackendView,
    reload_mods: Set<InstanceID>,
    path: FsPathView,
    maybe_is_file: bool,
    maybe_is_folder: bool,
    id: InstanceID,
)
    requires
        !(state.watching.contains_key(path) && state.watching[path] is ServersFile),
        state.parent_target(path) == Some(WatchTarget::InstanceModsDir { id }),
        state.instances.contains_key(id),
    ensures
        ({
            let routed = state.route(
                reload_mods,
                FilesystemEventView::Changed { path, maybe_is_file, maybe_is_folder },
            );
            let before = state.instances[id];
            let after = routed.state.instances[id];
            &&& after.dirty_mods == before.dirty_mods.insert(path)
            &&& after.mods_state == before.mods_state.marked_dirty()
            &&& !routed.state.reload_mods_immediately.contains(id)
            &&& state.reload_mods_immediately.contains(id) ==> routed.reload_mods.contains(id)
        }),
{
}

/// When the server list file of an instance is removed, the file is to be
/// watched again at once under the same meaning, the registry is as before as
/// soon as it is, and the server list of its instance is marked as behind, once.
pub proof fn lemma_servers_file_removed_is_rewatched(
    state: BackendView,
    reload_mods: Set<InstanceID>,
    path: FsPathView,
    id: InstanceID,
)
    requires
        state.watching.contains_key(path),
        state.watching[path] == (WatchTarget::ServersFile { id }),
    ensures
        ({
            let routed = state.route(reload_mods, FilesystemEventView::Remove(path));
            &&& routed.actions == seq![
                RouterActionView::Watch { path, target: WatchTarget::ServersFile { id } },
            ]
            &&& routed.state.watching.insert(path, WatchTarget::ServersFile { id })
                == state.watching
            &&& routed.reload_mods == reload_mods
            &&& routed.state.reload_mods_immediately == state.reload_mods_immediately
            &&& routed.state.instances.dom() == state.instances.dom()
            &&& forall|other: InstanceID|
                state.instances.contains_key(other) ==> #[trigger] routed.state.instances[other]
                    == if other == id {
                    state.instances[id].mark_server_state_dirty()
                } else {
                    state.instances[other]
                }
        }),
{
    let routed = state.route(reload_mods, FilesystemEventView::Remove(path));
    assert(routed.state.watching.insert(path, WatchTarget::ServersFile { id })
        =~= state.watching);
    assert(routed.state.instances.dom() =~= state.instances.dom());
}

/// When the folder of a loaded instance is renamed to a path that does not lie
/// in the instances root, the instance is removed: all that is told is that it
/// is gone, and no rename is told.
pub proof fn lemma_instance_renamed_away_is_removed(
    state: BackendView,
    reload_mods: Set<InstanceID>,
    from: FsPathView,
    to: FsPathView,
    id: InstanceID,
)
    requires
        state.watching.contains_key(from),
        state.watching[from] == (WatchTarget::InstanceDir { id }),
        state.instances.contains_key(id),
        !spec_parent_is_instances_dir(state.watching.remove(from), to),
    ensures
        ({
            let routed = state.route(reload_mods, FilesystemEventView::Rename(from, to));
            &&& routed.state.instances == state.instances.remove(id)
            &&& routed.state.watching == state.watching.remove(from)
            &&& routed.actions == seq![RouterActionView::Send(MessageView::InstanceRemoved { id })]
        }),
{
}

} // verus!
