//! One instance: where it lives, what it runs, and its three load pipelines
//! (worlds, servers, mods), each with a state, pending changes and the snapshot
//! that was published last.

use crate::fs_path::FsPath;
use crate::fs_path::FsPathView;
use crate::ids::InstanceID;
use crate::ids::InstanceModID;
use crate::load_state::BridgeDataLoadState;
use crate::load_state::StartLoadResult;
use crate::messages::InstanceStatus;
use crate::messages::MessageToFrontend;
use crate::messages::MessageView;
use crate::path_set::PathSet;
use crate::schema::loader::Loader;
use crate::summaries::mods_view;
use crate::summaries::servers_view;
use crate::summaries::worlds_view;
use crate::summaries::InstanceModSummary;
use crate::summaries::InstanceModView;
use crate::summaries::InstanceServerSummary;
use crate::summaries::InstanceWorldSummary;
use crate::summaries::ServerSummaryView;
use crate::summaries::WorldSummaryView;
use vstd::prelude::*;

verus! {

/// The name of the file in an instance's root that describes the instance.
pub open spec fn info_file_name() -> Seq<char> {
    "info.json"@
}

/// The name of the directory in an instance's root that holds the game's files.
pub open spec fn game_dir_name() -> Seq<char> {
    ".minecraft"@
}

/// The path of the file that describes the instance in the folder `root`.
pub fn info_path(root: &FsPath) -> (r: FsPath)
    ensures
        r@ == root@.child(info_file_name()),
{
    root.child("info.json")
}

/// The path of the directory that holds the game's files of the instance in
/// the folder `root`.
pub fn game_dir(root: &FsPath) -> (r: FsPath)
    ensures
        r@ == root@.child(game_dir_name()),
{
    root.child(".minecraft")
}

/// An instance.
#[derive(Debug)]
pub struct Instance {
    pub id: InstanceID,
    pub root_path: FsPath,
    pub server_dat_path: FsPath,
    pub saves_path: FsPath,
    pub mods_path: FsPath,
    pub name: String,
    pub version: String,
    pub loader: Loader,
    /// Whether the game of this instance is running.
    pub running: bool,
    pub worlds_state: BridgeDataLoadState,
    pub dirty_worlds: PathSet,
    pub worlds_loading: bool,
    pub worlds: Option<Vec<InstanceWorldSummary>>,
    pub servers_state: BridgeDataLoadState,
    pub dirty_servers: bool,
    pub servers_loading: bool,
    pub servers: Option<Vec<InstanceServerSummary>>,
    pub mods_state: BridgeDataLoadState,
    pub dirty_mods: PathSet,
    pub mods_generation: usize,
    pub mods_loading: bool,
    pub mods: Option<Vec<InstanceModSummary>>,
}

/// What an instance is to the contracts.
pub struct InstanceView {
    pub id: InstanceID,
    pub root_path: FsPathView,
    pub server_dat_path: FsPathView,
    pub saves_path: FsPathView,
    pub mods_path: FsPathView,
    pub name: Seq<char>,
    pub version: Seq<char>,
    pub loader: Loader,
    pub running: bool,
    pub worlds_state: BridgeDataLoadState,
    pub dirty_worlds: Set<FsPathView>,
    pub worlds_loading: bool,
    pub worlds: Option<Seq<WorldSummaryView>>,
    pub servers_state: BridgeDataLoadState,
    pub dirty_servers: bool,
    pub servers_loading: bool,
    pub servers: Option<Seq<ServerSummaryView>>,
    pub mods_state: BridgeDataLoadState,
    pub dirty_mods: Set<FsPathView>,
    pub mods_generation: usize,
    pub mods_loading: bool,
    pub mods: Option<Seq<InstanceModView>>,
}

/// What an optional world snapshot is to the contracts.
pub open spec fn opt_worlds_view(worlds: Option<Vec<InstanceWorldSummary>>) -> Option<
    Seq<WorldSummaryView>,
> {
    match worlds {
        Some(w) => Some(worlds_view(w@)),
        None => None,
    }
}

/// What an optional server snapshot is to the contracts.
pub open spec fn opt_servers_view(servers: Option<Vec<InstanceServerSummary>>) -> Option<
    Seq<ServerSummaryView>,
> {
    match servers {
        Some(s) => Some(servers_view(s@)),
        None => None,
    }
}

/// What an optional mod snapshot is to the contracts.
pub open spec fn opt_mods_view(mods: Option<Vec<InstanceModSummary>>) -> Option<
    Seq<InstanceModView>,
> {
    match mods {
        Some(m) => Some(mods_view(m@)),
        None => None,
    }
}

impl View for Instance {
    type V = InstanceView;

    open spec fn view(&self) -> InstanceView {
        InstanceView {
            id: self.id,
            root_path: self.root_path@,
            server_dat_path: self.server_dat_path@,
            saves_path: self.saves_path@,
            mods_path: self.mods_path@,
            name: self.name@,
            version: self.version@,
            loader: self.loader,
            running: self.running,
            worlds_state: self.worlds_state,
            dirty_worlds: self.dirty_worlds@,
            worlds_loading: self.worlds_loading,
            worlds: opt_worlds_view(self.worlds),
            servers_state: self.servers_state,
            dirty_servers: self.dirty_servers,
            servers_loading: self.servers_loading,
            servers: opt_servers_view(self.servers),
            mods_state: self.mods_state,
            dirty_mods: self.dirty_mods@,
            mods_generation: self.mods_generation,
            mods_loading: self.mods_loading,
            mods: opt_mods_view(self.mods),
        }
    }
}

/// The mods of a finished load as they are published: each with the handle
/// made of its position and of `generation`.
pub open spec fn with_mod_ids(mods: Seq<InstanceModView>, generation: usize) -> Seq<
    InstanceModView,
> {
    Seq::new(
        mods.len(),
        |i: int|
            InstanceModView {
                id: InstanceModID { index: i as usize, generation },
                ..mods[i]
            },
    )
}

impl InstanceView {
    /// A pipeline with a load in flight is in a loading state, and every mod of
    /// the published list carries the handle made of its position and of the
    /// list's generation.
    pub open spec fn wf(self) -> bool {
        &&& self.worlds_loading ==> self.worlds_state.is_loading()
        &&& self.servers_loading ==> self.servers_state.is_loading()
        &&& self.mods_loading ==> self.mods_state.is_loading()
        &&& self.mods matches Some(mods) ==> forall|i: int|
            0 <= i < mods.len() ==> (#[trigger] mods[i]).id == (InstanceModID {
                index: i as usize,
                generation: self.mods_generation,
            })
    }

    /// The instance after its worlds were marked as behind.
    pub open spec fn mark_world_state_dirty(self) -> InstanceView {
        InstanceView { worlds_state: self.worlds_state.marked_dirty(), ..self }
    }

    /// The instance after its server list was marked as behind.
    pub open spec fn mark_server_state_dirty(self) -> InstanceView {
        InstanceView {
            dirty_servers: true,
            servers_state: self.servers_state.marked_dirty(),
            ..self
        }
    }

    /// The instance after its mods were marked as behind.
    pub open spec fn mark_mods_state_dirty(self) -> InstanceView {
        InstanceView { mods_state: self.mods_state.marked_dirty(), ..self }
    }

    /// The instance after a change at the world path `path` was noted: the
    /// path is pending, whether it was so before or not, and the worlds are
    /// marked as behind.
    pub open spec fn note_world_change(self, path: FsPathView) -> InstanceView {
        InstanceView {
            dirty_worlds: self.dirty_worlds.insert(path),
            ..self
        }.mark_world_state_dirty()
    }

    /// The instance after a change at the mod path `path` was noted: the path
    /// is pending, whether it was so before or not, and the mods are marked as
    /// behind.
    pub open spec fn note_mod_change(self, path: FsPathView) -> InstanceView {
        InstanceView {
            dirty_mods: self.dirty_mods.insert(path),
            ..self
        }.mark_mods_state_dirty()
    }

    /// The instance after the world folder `from` was renamed: `from` is
    /// pending, `to` too where one is given, and the worlds are marked as
    /// behind.
    pub open spec fn note_world_renamed(
        self,
        from: FsPathView,
        to: Option<FsPathView>,
    ) -> InstanceView {
        InstanceView {
            dirty_worlds: match to {
                Some(t) => self.dirty_worlds.insert(from).insert(t),
                None => self.dirty_worlds.insert(from),
            },
            ..self
        }.mark_world_state_dirty()
    }

    /// What starting a load of the worlds does.
    pub open spec fn start_load_worlds_result(self) -> StartLoadResult {
        if self.worlds_loading {
            StartLoadResult::Skipped
        } else if self.worlds is None {
            StartLoadResult::Initial
        } else if !self.dirty_worlds.is_empty() {
            StartLoadResult::Reload
        } else {
            StartLoadResult::Skipped
        }
    }

    /// The instance after a load of the worlds was asked for: an initial load
    /// leaves the pending changes, a reload takes them all.
    pub open spec fn start_load_worlds(self) -> InstanceView {
        match self.start_load_worlds_result() {
            StartLoadResult::Skipped => self,
            StartLoadResult::Initial => InstanceView {
                worlds_state: BridgeDataLoadState::Loading,
                worlds_loading: true,
                ..self
            },
            StartLoadResult::Reload => InstanceView {
                worlds_state: BridgeDataLoadState::Loading,
                worlds_loading: true,
                dirty_worlds: Set::empty(),
                ..self
            },
        }
    }

    /// What starting a load of the server list does.
    pub open spec fn start_load_servers_result(self) -> StartLoadResult {
        if self.servers_loading {
            StartLoadResult::Skipped
        } else if self.servers is None {
            StartLoadResult::Initial
        } else if self.dirty_servers {
            StartLoadResult::Reload
        } else {
            StartLoadResult::Skipped
        }
    }

    /// The instance after a load of the server list was asked for.
    pub open spec fn start_load_servers(self) -> InstanceView {
        match self.start_load_servers_result() {
            StartLoadResult::Skipped => self,
            _ => InstanceView {
                servers_state: BridgeDataLoadState::Loading,
                servers_loading: true,
                dirty_servers: false,
                ..self
            },
        }
    }

    /// What starting a load of the mods does.
    pub open spec fn start_load_mods_result(self) -> StartLoadResult {
        if self.mods_loading {
            StartLoadResult::Skipped
        } else if self.mods is None {
            StartLoadResult::Initial
        } else if !self.dirty_mods.is_empty() {
            StartLoadResult::Reload
        } else {
            StartLoadResult::Skipped
        }
    }

    /// The instance after a load of the mods was asked for: an initial load
    /// leaves the pending changes, a reload takes them all.
    pub open spec fn start_load_mods(self) -> InstanceView {
        match self.start_load_mods_result() {
            StartLoadResult::Skipped => self,
            StartLoadResult::Initial => InstanceView {
                mods_state: BridgeDataLoadState::Loading,
                mods_loading: true,
                ..self
            },
            StartLoadResult::Reload => InstanceView {
                mods_state: BridgeDataLoadState::Loading,
                mods_loading: true,
                dirty_mods: Set::empty(),
                ..self
            },
        }
    }

    /// The instance after the running load of the worlds published `result`.
    pub open spec fn finish_loading_worlds(self, result: Seq<WorldSummaryView>) -> InstanceView {
        InstanceView {
            worlds_loading: false,
            worlds_state: self.worlds_state.finished(),
            worlds: Some(result),
            ..self
        }
    }

    /// The instance after the running load of the server list published
    /// `result`.
    pub open spec fn finish_loading_servers(self, result: Seq<ServerSummaryView>) -> InstanceView {
        InstanceView {
            servers_loading: false,
            servers_state: self.servers_state.finished(),
            servers: Some(result),
            ..self
        }
    }

    /// The generation that the next published mod list gets.
    pub open spec fn next_mods_generation(self) -> usize {
        if self.mods_generation == usize::MAX {
            0
        } else {
            (self.mods_generation + 1) as usize
        }
    }

    /// The instance after the running load of the mods published `result`: the
    /// generation moves on, and each mod gets a handle of the new generation.
    pub open spec fn finish_loading_mods(self, result: Seq<InstanceModView>) -> InstanceView {
        InstanceView {
            mods_loading: false,
            mods_state: self.mods_state.finished(),
            mods_generation: self.next_mods_generation(),
            mods: Some(with_mod_ids(result, self.next_mods_generation())),
            ..self
        }
    }

    /// The mod that the handle `id` names: one of the list published last, and
    /// only for a handle of that list's generation.
    pub open spec fn try_get_mod(self, id: InstanceModID) -> Option<InstanceModView> {
        if id.generation != self.mods_generation {
            None
        } else {
            match self.mods {
                Some(mods) => if id.index < mods.len() {
                    Some(mods[id.index as int])
                } else {
                    None
                },
                None => None,
            }
        }
    }

    /// Whether the game runs.
    pub open spec fn status(self) -> InstanceStatus {
        if self.running {
            InstanceStatus::Running
        } else {
            InstanceStatus::NotRunning
        }
    }

    /// The notification that tells of this instance with the status `status`.
    pub open spec fn modify_message(self, status: InstanceStatus) -> MessageView {
        MessageView::InstanceModified {
            id: self.id,
            name: self.name,
            version: self.version,
            loader: self.loader,
            status,
        }
    }

    /// A fresh instance in the folder `path` with the given version and loader:
    /// named after the folder, known to no store, with nothing loaded.
    pub open spec fn fresh(path: FsPathView, version: Seq<char>, loader: Loader) -> InstanceView
        recommends
            path.names.len() > 0,
    {
        InstanceView {
            id: InstanceID::dangling(),
            root_path: path,
            server_dat_path: path.child(game_dir_name()).child("servers.dat"@),
            saves_path: path.child(game_dir_name()).child("saves"@),
            mods_path: path.child(game_dir_name()).child("mods"@),
            name: path.names.last(),
            version,
            loader,
            running: false,
            worlds_state: BridgeDataLoadState::Unloaded,
            dirty_worlds: Set::empty(),
            worlds_loading: false,
            worlds: None,
            servers_state: BridgeDataLoadState::Unloaded,
            dirty_servers: false,
            servers_loading: false,
            servers: None,
            mods_state: BridgeDataLoadState::Unloaded,
            dirty_mods: Set::empty(),
            mods_generation: 0,
            mods_loading: false,
            mods: None,
        }
    }
}

/// Why an instance could not be read from its folder.
#[derive(Debug)]
pub enum InstanceLoadError {
    /// The path is no directory.
    NotADirectory,
    /// The info file could not be read; the text says why.
    IoError(String),
    /// The info file does not hold what it should; the text says why.
    SerdeError(String),
}

impl InstanceLoadError {
    /// The error in words.
    pub fn message(&self) -> (r: String)
        ensures
            r@ == (match *self {
                InstanceLoadError::NotADirectory => "Not a directory"@,
                InstanceLoadError::IoError(_) =>
                    "An I/O error occured while trying to read the instance"@,
                InstanceLoadError::SerdeError(_) =>
                    "A serialization error occured while trying to read the instance"@,
            }),
    {
        match self {
            InstanceLoadError::NotADirectory => String::from_str("Not a directory"),
            InstanceLoadError::IoError(_) => String::from_str(
                "An I/O error occured while trying to read the instance",
            ),
            InstanceLoadError::SerdeError(_) => String::from_str(
                "A serialization error occured while trying to read the instance",
            ),
        }
    }
}

/// The loader as an instance's info file names it.
#[derive(Debug, Clone, Copy, PartialEq, Eq, Structural)]
pub enum LoaderInfo {
    Vanilla,
    Fabric,
    Forge,
    NeoForge,
}

impl LoaderInfo {
    /// The loader that the name stands for.
    pub fn loader(self) -> (r: Loader)
        ensures
            r == (match self {
                LoaderInfo::Vanilla => Loader::Vanilla,
                LoaderInfo::Fabric => Loader::Fabric,
                LoaderInfo::Forge => Loader::Forge,
                LoaderInfo::NeoForge => Loader::NeoForge,
            }),
    {
        match self {
            LoaderInfo::Vanilla => Loader::Vanilla,
            LoaderInfo::Fabric => Loader::Fabric,
            LoaderInfo::Forge => Loader::Forge,
            LoaderInfo::NeoForge => Loader::NeoForge,
        }
    }
}

/// What an instance's info file holds.
#[derive(Debug)]
pub struct InstanceInfo {
    pub minecraft_version: String,
    pub loader: Loader,
}

impl Instance {
    /// The mod that the handle `id` names, if the handle belongs to the mod
    /// list that was published last. The mod that is found carries that very
    /// handle: a handle never names another mod than the one it was given to.
    pub fn try_get_mod(&self, id: InstanceModID) -> (r: Option<&InstanceModSummary>)
        requires
            self@.wf(),
        ensures
            r is Some == self@.try_get_mod(id) is Some,
            r matches Some(m) ==> m@ == self@.try_get_mod(id)->0 && m.id == id,
    {
        if id.generation != self.mods_generation {
            return None;
        }
        match &self.mods {
            Some(mods) => {
                if id.index < mods.len() {
                    Some(&mods[id.index])
                } else {
                    None
                }
            },
            None => None,
        }
    }

    /// Publishes the worlds that the running load found. `result` is `None`
    /// while the load has not finished. Returns whether a snapshot was
    /// published: a load must be in flight and finished.
    pub fn finish_loading_worlds(&mut self, result: Option<Vec<InstanceWorldSummary>>) -> (r: bool)
        requires
            old(self)@.wf(),
        ensures
            r == (old(self).worlds_loading && result is Some),
            final(self)@ == if r {
                old(self)@.finish_loading_worlds(worlds_view(result->0@))
            } else {
                old(self)@
            },
            final(self)@.wf(),
    {
        if !self.worlds_loading {
            return false;
        }
        match result {
            None => false,
            Some(worlds) => {
                self.worlds_loading = false;
                self.worlds_state = self.worlds_state.finished();
                self.worlds = Some(worlds);
                true
            },
        }
    }

    /// Publishes the server list that the running load found. `result` is
    /// `None` while the load has not finished. Returns whether a snapshot was
    /// published: a load must be in flight and finished.
    pub fn finish_loading_servers(&mut self, result: Option<Vec<InstanceServerSummary>>) -> (r:
        bool)
        requires
            old(self)@.wf(),
        ensures
            r == (old(self).servers_loading && result is Some),
            final(self)@ == if r {
                old(self)@.finish_loading_servers(servers_view(result->0@))
            } else {
                old(self)@
            },
            final(self)@.wf(),
    {
        if !self.servers_loading {
            return false;
        }
        match result {
            None => false,
            Some(servers) => {
                self.servers_loading = false;
                self.servers_state = self.servers_state.finished();
                self.servers = Some(servers);
                true
            },
        }
    }

    /// Publishes the mods that the running load found. `result` is `None` while
    /// the load has not finished. Returns whether a snapshot was published: a
    /// load must be in flight and finished. Publishing moves the generation on,
    /// so that no handle given out before names a mod any more.
    pub fn finish_loading_mods(&mut self, result: Option<Vec<InstanceModSummary>>) -> (r: bool)
        requires
            old(self)@.wf(),
        ensures
            r == (old(self).mods_loading && result is Some),
            final(self)@ == if r {
                old(self)@.finish_loading_mods(mods_view(result->0@))
            } else {
                old(self)@
            },
            final(self)@.wf(),
            r ==> forall|id: InstanceModID|
                id.generation == old(self).mods_generation ==> #[trigger] final(self)@.try_get_mod(
                    id,
                ) is None,
    {
        if !self.mods_loading {
            return false;
        }
        match result {
            None => false,
            Some(mods) => {
                let generation = self.mods_generation.wrapping_add(1);
                let ghost found = mods_view(mods@);
                let mut mods = mods;
                let mut i: usize = 0;
                while i < mods.len()
                    invariant
                        i <= mods.len(),
                        mods.len() == found.len(),
                        forall|j: int|
                            0 <= j < i ==> (#[trigger] mods@[j])@ == (InstanceModView {
                                id: InstanceModID { index: j as usize, generation },
                                ..found[j]
                            }),
                        forall|j: int| i <= j < mods.len() ==> (#[trigger] mods@[j])@ == found[j],
                    decreases mods.len() - i,
                {
                    mods[i].id = InstanceModID { index: i, generation };
                    i += 1;
                }
                assert(mods_view(mods@) =~= with_mod_ids(found, generation));
                self.mods_loading = false;
                self.mods_state = self.mods_state.finished();
                self.mods_generation = generation;
                self.mods = Some(mods);
                true
            },
        }
    }

    /// Starts a load of the worlds if one is due. Returns what was started and,
    /// for a reload, the changed paths that it has to scan, which are pending
    /// no longer.
    pub fn start_load_worlds(&mut self) -> (r: (StartLoadResult, PathSet))
        requires
            old(self)@.wf(),
        ensures
            r.0 == old(self)@.start_load_worlds_result(),
            final(self)@ == old(self)@.start_load_worlds(),
            r.1@ == if r.0 == StartLoadResult::Reload {
                old(self)@.dirty_worlds
            } else {
                Set::empty()
            },
            final(self)@.wf(),
    {
        if self.worlds_loading {
            return (StartLoadResult::Skipped, PathSet::new());
        }
        if self.worlds.is_none() {
            self.worlds_state = BridgeDataLoadState::Loading;
            self.worlds_loading = true;
            return (StartLoadResult::Initial, PathSet::new());
        }
        if !self.dirty_worlds.is_empty() {
            self.worlds_state = BridgeDataLoadState::Loading;
            self.worlds_loading = true;
            let dirty = self.dirty_worlds.take();
            return (StartLoadResult::Reload, dirty);
        }
        (StartLoadResult::Skipped, PathSet::new())
    }

    /// Starts a load of the server list if one is due. Returns what was
    /// started.
    pub fn start_load_servers(&mut self) -> (r: StartLoadResult)
        requires
            old(self)@.wf(),
        ensures
            r == old(self)@.start_load_servers_result(),
            final(self)@ == old(self)@.start_load_servers(),
            final(self)@.wf(),
    {
        if self.servers_loading {
            return StartLoadResult::Skipped;
        }
        if self.servers.is_none() {
            self.servers_state = BridgeDataLoadState::Loading;
            self.servers_loading = true;
            self.dirty_servers = false;
            return StartLoadResult::Initial;
        }
        if self.dirty_servers {
            self.servers_state = BridgeDataLoadState::Loading;
            self.servers_loading = true;
            self.dirty_servers = false;
            return StartLoadResult::Reload;
        }
        StartLoadResult::Skipped
    }

    /// Starts a load of the mods if one is due. Returns what was started and,
    /// for a reload, the changed paths that it has to scan, which are pending
    /// no longer.
    pub fn start_load_mods(&mut self) -> (r: (StartLoadResult, PathSet))
        requires
            old(self)@.wf(),
        ensures
            r.0 == old(self)@.start_load_mods_result(),
            final(self)@ == old(self)@.start_load_mods(),
            r.1@ == if r.0 == StartLoadResult::Reload {
                old(self)@.dirty_mods
            } else {
                Set::empty()
            },
            final(self)@.wf(),
    {
        if self.mods_loading {
            return (StartLoadResult::Skipped, PathSet::new());
        }
        if self.mods.is_none() {
            self.mods_state = BridgeDataLoadState::Loading;
            self.mods_loading = true;
            return (StartLoadResult::Initial, PathSet::new());
        }
        if !self.dirty_mods.is_empty() {
            self.mods_state = BridgeDataLoadState::Loading;
            self.mods_loading = true;
            let dirty = self.dirty_mods.take();
            return (StartLoadResult::Reload, dirty);
        }
        (StartLoadResult::Skipped, PathSet::new())
    }

    /// Makes the instance that lives in the folder `path`. `is_dir` says
    /// whether the path is a directory, `info` is what reading its info file
    /// gave.
    pub fn load_from_folder(
        path: &FsPath,
        is_dir: bool,
        info: Result<InstanceInfo, InstanceLoadError>,
    ) -> (r: Result<Instance, InstanceLoadError>)
        requires
            path@.names.len() > 0,
        ensures
            r is Ok == (is_dir && info is Ok),
            !is_dir ==> r == Err::<Instance, InstanceLoadError>(InstanceLoadError::NotADirectory),
            is_dir && info is Err ==> r is Err && r->Err_0 == info->Err_0,
            r matches Ok(instance) ==> instance@ == InstanceView::fresh(
                path@,
                info->Ok_0.minecraft_version@,
                info->Ok_0.loader,
            ) && instance@.wf(),
    {
        if !is_dir {
            return Err(InstanceLoadError::NotADirectory);
        }
        let info = match info {
            Ok(info) => info,
            Err(error) => {
                return Err(error);
            },
        };
        let game_dir = game_dir(path);
        let name = match path.file_name() {
            Some(name) => name.clone(),
            None => String::new(),
        };
        Ok(
            Instance {
                id: InstanceID::dangling(),
                root_path: path.clone(),
                server_dat_path: game_dir.child("servers.dat"),
                saves_path: game_dir.child("saves"),
                mods_path: game_dir.child("mods"),
                name,
                version: info.minecraft_version,
                loader: info.loader,
                running: false,
                worlds_state: BridgeDataLoadState::Unloaded,
                dirty_worlds: PathSet::new(),
                worlds_loading: false,
                worlds: None,
                servers_state: BridgeDataLoadState::Unloaded,
                dirty_servers: false,
                servers_loading: false,
                servers: None,
                mods_state: BridgeDataLoadState::Unloaded,
                dirty_mods: PathSet::new(),
                mods_generation: 0,
                mods_loading: false,
                mods: None,
            },
        )
    }

    /// Marks the worlds as behind.
    pub fn mark_world_state_dirty(&mut self)
        ensures
            final(self)@ == old(self)@.mark_world_state_dirty(),
    {
        self.worlds_state = self.worlds_state.marked_dirty();
    }

    /// Marks the server list as behind, and notes that it has to be read again.
    pub fn mark_server_state_dirty(&mut self)
        ensures
            final(self)@ == old(self)@.mark_server_state_dirty(),
    {
        self.dirty_servers = true;
        self.servers_state = self.servers_state.marked_dirty();
    }

    /// Marks the mods as behind.
    pub fn mark_mods_state_dirty(&mut self)
        ensures
            final(self)@ == old(self)@.mark_mods_state_dirty(),
    {
        self.mods_state = self.mods_state.marked_dirty();
    }

    /// Notes a change at the world path `path`. Returns whether the path was
    /// not pending before.
    pub fn note_world_change(&mut self, path: FsPath) -> (r: bool)
        ensures
            r == !old(self)@.dirty_worlds.contains(path@),
            final(self)@ == old(self)@.note_world_change(path@),
    {
        let fresh = self.dirty_worlds.insert(path);
        self.mark_world_state_dirty();
        fresh
    }

    /// Notes a change at the mod path `path`. Returns whether the path was not
    /// pending before.
    pub fn note_mod_change(&mut self, path: FsPath) -> (r: bool)
        ensures
            r == !old(self)@.dirty_mods.contains(path@),
            final(self)@ == old(self)@.note_mod_change(path@),
    {
        let fresh = self.dirty_mods.insert(path);
        self.mark_mods_state_dirty();
        fresh
    }

    /// Takes over where the instance lives, its name, version and loader from
    /// `new`, an instance that was just read and that no store has taken in.
    pub fn copy_basic_attributes_from(&mut self, new: Instance)
        requires
            new.id == InstanceID::dangling(),
        ensures
            final(self)@ == (InstanceView {
                root_path: new@.root_path,
                name: new@.name,
                version: new@.version,
                loader: new@.loader,
                ..old(self)@
            }),
    {
        self.root_path = new.root_path;
        self.name = new.name;
        self.version = new.version;
        self.loader = new.loader;
    }

    /// Whether the game of this instance runs.
    pub fn status(&self) -> (r: InstanceStatus)
        ensures
            r == self@.status(),
    {
        if self.running {
            InstanceStatus::Running
        } else {
            InstanceStatus::NotRunning
        }
    }

    /// The notification that tells of this instance as it is now.
    pub fn create_modify_message(&self) -> (r: MessageToFrontend)
        ensures
            r@ == self@.modify_message(self@.status()),
    {
        self.create_modify_message_with_status(self.status())
    }

    /// The notification that tells of this instance with the status `status`.
    pub fn create_modify_message_with_status(&self, status: InstanceStatus) -> (r:
        MessageToFrontend)
        ensures
            r@ == self@.modify_message(status),
    {
        MessageToFrontend::InstanceModified {
            id: self.id,
            name: self.name.clone(),
            version: self.version.clone(),
            loader: self.loader,
            status,
        }
    }
}

/// In a valid instance the mod that a handle finds carries that handle.
pub proof fn lemma_found_mod_carries_its_handle(instance: InstanceView, id: InstanceModID)
    requires
        instance.wf(),
        instance.try_get_mod(id) is Some,
    ensures
        instance.try_get_mod(id)->0.id == id,
{
}

/// A handle that was given out before a mod list was published names nothing
/// in the instance after it, whatever the new list holds at that position.
pub proof fn lemma_stale_mod_id_not_found(
    before: InstanceView,
    result: Seq<InstanceModView>,
    id: InstanceModID,
)
    requires
        id.generation == before.mods_generation,
    ensures
        before.finish_loading_mods(result).try_get_mod(id) is None,
{
}

/// After two mod lists were published one after the other, a handle from
/// before the second names nothing, even where the same file stands at the
/// same position in both.
pub proof fn lemma_mod_id_stale_after_second_reload(
    start: InstanceView,
    first: Seq<InstanceModView>,
    second: Seq<InstanceModView>,
    index: usize,
)
    requires
        index < first.len(),
    ensures
        ({
            let after_first = start.finish_loading_mods(first);
            let id = after_first.mods->0[index as int].id;
            let after_second = after_first.finish_loading_mods(second);
            &&& after_first.try_get_mod(id) == Some(after_first.mods->0[index as int])
            &&& after_second.try_get_mod(id) is None
        }),
{
}

} // verus!
