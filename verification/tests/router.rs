use launcher_core::events::FilesystemEvent;
use launcher_core::fs_path::FsPath;
use launcher_core::ids::InstanceID;
use launcher_core::instance::{Instance, InstanceInfo, InstanceLoadError};
use launcher_core::load_state::{BridgeDataLoadState, StartLoadResult};
use launcher_core::messages::{InstanceStatus, MessageToFrontend};
use launcher_core::router::{
    parent_is_instances_dir, AfterDebounceEffects, BackendState, RouterAction,
};
use launcher_core::schema::loader::Loader;
use launcher_core::watch::{WatchRegistry, WatchTarget};

fn path(text: &str) -> FsPath {
    let absolute = text.starts_with('/');
    let names = text.split('/').filter(|s| !s.is_empty()).map(|s| s.to_string()).collect();
    FsPath::new(absolute, names)
}

fn fresh_instance(root: &str) -> Instance {
    let info = InstanceInfo { minecraft_version: "1.21".to_string(), loader: Loader::Fabric };
    Instance::load_from_folder(&path(root), true, Ok(info)).unwrap()
}

/// A router that watches `/inst` as the instances root and holds one instance in `/inst/alpha`,
/// with all of its directories watched.
fn state_with_instance() -> (BackendState, InstanceID) {
    let mut state = BackendState::new();
    state.watch_registered(path("/inst"), WatchTarget::InstancesRoot);
    let actions = state.instance_load_finished(path("/inst/alpha"), false, Ok(fresh_instance("/inst/alpha")));
    let id = match &actions[0] {
        RouterAction::Watch { path: p, target: WatchTarget::InstanceDir { id } } => {
            assert_eq!(p, &path("/inst/alpha"));
            *id
        },
        other => panic!("{:?}", other),
    };
    state.watch_registered(path("/inst/alpha"), WatchTarget::InstanceDir { id });
    state.watch_registered(path("/inst/alpha/.minecraft/saves"), WatchTarget::InstanceSavesDir { id });
    state.watch_registered(path("/inst/alpha/.minecraft/saves/world1"), WatchTarget::InstanceLevelDir { id });
    state.watch_registered(path("/inst/alpha/.minecraft/mods"), WatchTarget::InstanceModsDir { id });
    state.watch_registered(path("/inst/alpha/.minecraft/servers.dat"), WatchTarget::ServersFile { id });
    (state, id)
}

fn route(state: &mut BackendState, event: FilesystemEvent) -> (Vec<RouterAction>, AfterDebounceEffects) {
    let mut effects = AfterDebounceEffects::new();
    let actions = state.handle_filesystem_event(event, &mut effects);
    (actions, effects)
}

fn changed(text: &str, file: bool, folder: bool) -> FilesystemEvent {
    FilesystemEvent::Changed { path: path(text), maybe_is_file: file, maybe_is_folder: folder }
}

#[test]
fn loading_a_new_instance_takes_it_in_and_asks_to_watch_it() {
    let mut state = BackendState::new();
    let actions = state.instance_load_finished(path("/inst/alpha"), false, Ok(fresh_instance("/inst/alpha")));
    assert_eq!(actions.len(), 2);
    let id = match &actions[0] {
        RouterAction::Watch { path: p, target: WatchTarget::InstanceDir { id } } => {
            assert_eq!(p, &path("/inst/alpha"));
            *id
        },
        other => panic!("{:?}", other),
    };
    assert_eq!(id.generation, 0);
    match &actions[1] {
        RouterAction::Send(MessageToFrontend::InstanceAdded { id: added, name, version, loader }) => {
            assert_eq!(*added, id);
            assert_eq!(name, "alpha");
            assert_eq!(version, "1.21");
            assert_eq!(*loader, Loader::Fabric);
        },
        other => panic!("{:?}", other),
    }
    let instance = state.instances.get(id).unwrap();
    assert_eq!(instance.id, id);
    assert_eq!(instance.name, "alpha");
    assert_eq!(instance.saves_path, path("/inst/alpha/.minecraft/saves"));
    assert_eq!(instance.mods_path, path("/inst/alpha/.minecraft/mods"));
    assert_eq!(instance.server_dat_path, path("/inst/alpha/.minecraft/servers.dat"));
    // The registry changes only when the watch is reported.
    assert!(!state.watching.contains_key(&path("/inst/alpha")));
}

#[test]
fn failed_first_load_asks_to_watch_the_folder_as_invalid() {
    let mut state = BackendState::new();
    let actions = state.instance_load_finished(path("/inst/junk"), false, Err(InstanceLoadError::NotADirectory));
    assert_eq!(actions.len(), 1);
    match &actions[0] {
        RouterAction::Watch { path: p, target: WatchTarget::InvalidInstanceDir } => assert_eq!(p, &path("/inst/junk")),
        other => panic!("{:?}", other),
    }
    let actions = state.instance_load_finished(
        path("/inst/junk"),
        true,
        Err(InstanceLoadError::SerdeError("bad".to_string())),
    );
    assert!(actions.is_empty());
}

#[test]
fn reload_of_a_known_instance_keeps_its_handle() {
    let (mut state, id) = state_with_instance();
    let info = InstanceInfo { minecraft_version: "1.20.1".to_string(), loader: Loader::Forge };
    let read = Instance::load_from_folder(&path("/inst/alpha"), true, Ok(info)).unwrap();
    let actions = state.instance_load_finished(path("/inst/alpha"), true, Ok(read));
    assert_eq!(actions.len(), 1);
    match &actions[0] {
        RouterAction::Send(MessageToFrontend::InstanceModified { id: modified, name, version, loader, status }) => {
            assert_eq!(*modified, id);
            assert_eq!(name, "alpha");
            assert_eq!(version, "1.20.1");
            assert_eq!(*loader, Loader::Forge);
            assert_eq!(*status, InstanceStatus::NotRunning);
        },
        other => panic!("{:?}", other),
    }
    let instance = state.instances.get(id).unwrap();
    assert_eq!(instance.version, "1.20.1");
    assert_eq!(instance.loader, Loader::Forge);
}

#[test]
fn change_of_servers_file_marks_servers_dirty_and_stops() {
    let (mut state, id) = state_with_instance();
    let (actions, effects) = route(&mut state, changed("/inst/alpha/.minecraft/servers.dat", true, false));
    assert!(actions.is_empty());
    assert_eq!(effects.reload_mods.len(), 0);
    let instance = state.instances.get(id).unwrap();
    assert!(instance.dirty_servers);
    assert_eq!(instance.servers_state, BridgeDataLoadState::Unloaded);
    assert!(state.watching.contains_key(&path("/inst/alpha/.minecraft/servers.dat")));
}

#[test]
fn new_folder_in_instances_root_asks_for_a_load() {
    let (mut state, _) = state_with_instance();
    let (actions, _) = route(&mut state, changed("/inst/beta", false, true));
    assert_eq!(actions.len(), 1);
    match &actions[0] {
        RouterAction::LoadInstance { path: p, reload } => {
            assert_eq!(p, &path("/inst/beta"));
            assert!(!*reload);
        },
        other => panic!("{:?}", other),
    }
    let (actions, _) = route(&mut state, changed("/inst/file.txt", true, false));
    assert!(actions.is_empty());
}

#[test]
fn change_of_info_file_asks_for_a_reload() {
    let (mut state, _) = state_with_instance();
    let (actions, _) = route(&mut state, changed("/inst/alpha/info.json", true, false));
    assert_eq!(actions.len(), 1);
    match &actions[0] {
        RouterAction::LoadInstance { path: p, reload } => {
            assert_eq!(p, &path("/inst/alpha"));
            assert!(*reload);
        },
        other => panic!("{:?}", other),
    }
    // A folder of that name, or another file, asks for nothing.
    let (actions, _) = route(&mut state, changed("/inst/alpha/info.json", false, true));
    assert!(actions.is_empty());
    let (actions, _) = route(&mut state, changed("/inst/alpha/other.json", true, false));
    assert!(actions.is_empty());
    // So does the info file of a folder that is watched as invalid.
    state.watch_registered(path("/inst/junk"), WatchTarget::InvalidInstanceDir);
    let (actions, _) = route(&mut state, changed("/inst/junk/info.json", true, true));
    assert_eq!(actions.len(), 1);
}

#[test]
fn change_inside_a_world_marks_the_world_dirty() {
    let (mut state, id) = state_with_instance();
    let (actions, _) = route(&mut state, changed("/inst/alpha/.minecraft/saves/world1/level.dat", true, false));
    assert!(actions.is_empty());
    let instance = state.instances.get(id).unwrap();
    assert_eq!(instance.dirty_worlds.len(), 1);
    assert!(instance.dirty_worlds.contains(&path("/inst/alpha/.minecraft/saves/world1")));
}

#[test]
fn change_in_saves_folder_marks_the_changed_path_dirty() {
    let (mut state, id) = state_with_instance();
    route(&mut state, changed("/inst/alpha/.minecraft/saves/world2", false, true));
    let instance = state.instances.get(id).unwrap();
    assert_eq!(instance.dirty_worlds.len(), 1);
    assert!(instance.dirty_worlds.contains(&path("/inst/alpha/.minecraft/saves/world2")));
}

#[test]
fn change_in_mods_folder_marks_mod_dirty_and_promotes_marked_instance() {
    let (mut state, id) = state_with_instance();
    state.reload_mods_after_next_change(id);
    let mut effects = AfterDebounceEffects::new();
    let actions =
        state.handle_filesystem_event(changed("/inst/alpha/.minecraft/mods/a.jar", true, false), &mut effects);
    assert!(actions.is_empty());
    assert!(effects.reload_mods.contains(id));
    assert!(!state.reload_mods_immediately.contains(id));
    assert!(state.instances.get(id).unwrap().dirty_mods.contains(&path("/inst/alpha/.minecraft/mods/a.jar")));
    // The mark is used up: a second change in the same batch finds none.
    state.handle_filesystem_event(changed("/inst/alpha/.minecraft/mods/b.jar", true, false), &mut effects);
    assert_eq!(effects.reload_mods.len(), 1);
    assert_eq!(state.instances.get(id).unwrap().dirty_mods.len(), 2);
}

#[test]
fn mod_change_of_pending_path_still_marks_and_promotes() {
    let (mut state, id) = state_with_instance();
    route(&mut state, changed("/inst/alpha/.minecraft/mods/a.jar", true, false));
    // A first load runs and ends; the path stays pending, as a first load takes nothing.
    assert_eq!(state.instances.start_load_mods(id).0, StartLoadResult::Initial);
    assert!(state.instances.finish_loading_mods(id, Some(vec![])));
    assert_eq!(state.instances.get(id).unwrap().mods_state, BridgeDataLoadState::Loaded);
    assert!(state.instances.get(id).unwrap().dirty_mods.contains(&path("/inst/alpha/.minecraft/mods/a.jar")));
    state.reload_mods_after_next_change(id);
    let (_, effects) = route(&mut state, changed("/inst/alpha/.minecraft/mods/a.jar", true, false));
    assert_eq!(state.instances.get(id).unwrap().mods_state, BridgeDataLoadState::LoadedDirty);
    assert_eq!(state.instances.get(id).unwrap().dirty_mods.len(), 1);
    assert_eq!(effects.reload_mods.len(), 1);
    assert!(effects.reload_mods.contains(id));
    assert!(!state.reload_mods_immediately.contains(id));
}

#[test]
fn world_change_after_a_load_marks_dirty_even_for_a_pending_folder() {
    let (mut state, id) = state_with_instance();
    let inside = "/inst/alpha/.minecraft/saves/world1/level.dat";
    let world = "/inst/alpha/.minecraft/saves/world1";
    // The folder becomes pending before the first load, which takes nothing from the set.
    route(&mut state, changed(inside, true, false));
    assert_eq!(state.instances.start_load_worlds(id).0, StartLoadResult::Initial);
    assert!(state.instances.finish_loading_worlds(id, Some(vec![])));
    assert_eq!(state.instances.get(id).unwrap().worlds_state, BridgeDataLoadState::Loaded);
    assert!(state.instances.get(id).unwrap().dirty_worlds.contains(&path(world)));
    route(&mut state, changed(inside, true, false));
    let instance = state.instances.get(id).unwrap();
    assert_eq!(instance.worlds_state, BridgeDataLoadState::LoadedDirty);
    assert_eq!(instance.dirty_worlds.len(), 1);
    assert!(instance.dirty_worlds.contains(&path(world)));
}

#[test]
fn unmarked_instance_is_not_promoted() {
    let (mut state, _) = state_with_instance();
    let (_, effects) = route(&mut state, changed("/inst/alpha/.minecraft/mods/a.jar", true, false));
    assert_eq!(effects.reload_mods.len(), 0);
}

#[test]
fn change_below_unwatched_parent_does_nothing() {
    let (mut state, id) = state_with_instance();
    let (actions, _) = route(&mut state, changed("/elsewhere/file", true, true));
    assert!(actions.is_empty());
    let (actions, _) = route(&mut state, changed("/", true, true));
    assert!(actions.is_empty());
    let instance = state.instances.get(id).unwrap();
    assert!(instance.dirty_worlds.is_empty());
    assert!(instance.dirty_mods.is_empty());
    assert_eq!(state.watching.len(), 6);
}

#[test]
fn removal_of_instances_root_is_reported() {
    let (mut state, _) = state_with_instance();
    let (actions, _) = route(&mut state, FilesystemEvent::Remove(path("/inst")));
    assert_eq!(actions.len(), 1);
    match &actions[0] {
        RouterAction::Send(MessageToFrontend::Error { text }) => {
            assert_eq!(text, "Instances folder has been removed! What?!")
        },
        other => panic!("{:?}", other),
    }
    assert!(!state.watching.contains_key(&path("/inst")));
}

#[test]
fn removal_of_instance_dir_destroys_the_instance() {
    let (mut state, id) = state_with_instance();
    let (actions, _) = route(&mut state, FilesystemEvent::Remove(path("/inst/alpha")));
    assert_eq!(actions.len(), 1);
    match &actions[0] {
        RouterAction::Send(MessageToFrontend::InstanceRemoved { id: removed }) => assert_eq!(*removed, id),
        other => panic!("{:?}", other),
    }
    assert!(state.instances.get(id).is_none());
    assert!(!state.watching.contains_key(&path("/inst/alpha")));
}

#[test]
fn removal_of_servers_file_rewatches_it_and_marks_servers_dirty() {
    let (mut state, id) = state_with_instance();
    let file = "/inst/alpha/.minecraft/servers.dat";
    let (actions, _) = route(&mut state, FilesystemEvent::Remove(path(file)));
    assert_eq!(actions.len(), 1);
    match &actions[0] {
        RouterAction::Watch { path: p, target } => {
            assert_eq!(p, &path(file));
            assert_eq!(*target, WatchTarget::ServersFile { id });
        },
        other => panic!("{:?}", other),
    }
    assert!(state.instances.get(id).unwrap().dirty_servers);
    assert!(!state.watching.contains_key(&path(file)));
    state.watch_registered(path(file), WatchTarget::ServersFile { id });
    assert_eq!(state.watching.get(&path(file)), Some(WatchTarget::ServersFile { id }));
    assert_eq!(state.watching.len(), 6);
}

#[test]
fn removal_of_world_folder_marks_it_dirty() {
    let (mut state, id) = state_with_instance();
    let world = "/inst/alpha/.minecraft/saves/world1";
    let (actions, _) = route(&mut state, FilesystemEvent::Remove(path(world)));
    assert!(actions.is_empty());
    assert!(state.instances.get(id).unwrap().dirty_worlds.contains(&path(world)));
    assert!(!state.watching.contains_key(&path(world)));
}

#[test]
fn removal_of_saves_folder_marks_the_worlds_dirty() {
    let (mut state, id) = state_with_instance();
    state.instances.start_load_worlds(id);
    state.instances.finish_loading_worlds(id, Some(vec![]));
    let saves = "/inst/alpha/.minecraft/saves";
    let (actions, _) = route(&mut state, FilesystemEvent::Remove(path(saves)));
    assert!(actions.is_empty());
    let instance = state.instances.get(id).unwrap();
    assert_eq!(instance.worlds_state, BridgeDataLoadState::LoadedDirty);
    assert!(instance.dirty_worlds.contains(&path(saves)));
    assert!(!state.watching.contains_key(&path(saves)));
}

#[test]
fn removal_of_mods_folder_only_unwatches() {
    let (mut state, id) = state_with_instance();
    let (actions, effects) = route(&mut state, FilesystemEvent::Remove(path("/inst/alpha/.minecraft/mods")));
    assert!(actions.is_empty());
    assert_eq!(effects.reload_mods.len(), 0);
    let instance = state.instances.get(id).unwrap();
    assert!(instance.dirty_worlds.is_empty());
    assert!(instance.dirty_mods.is_empty());
    assert!(!state.watching.contains_key(&path("/inst/alpha/.minecraft/mods")));
    assert_eq!(state.watching.len(), 5);
}

#[test]
fn removal_of_info_file_destroys_instance_and_rewatches_folder_as_invalid() {
    let (mut state, id) = state_with_instance();
    let (actions, _) = route(&mut state, FilesystemEvent::Remove(path("/inst/alpha/info.json")));
    assert_eq!(actions.len(), 2);
    match &actions[0] {
        RouterAction::Send(MessageToFrontend::InstanceRemoved { id: removed }) => assert_eq!(*removed, id),
        other => panic!("{:?}", other),
    }
    match &actions[1] {
        RouterAction::Watch { path: p, target: WatchTarget::InvalidInstanceDir } => {
            assert_eq!(p, &path("/inst/alpha"))
        },
        other => panic!("{:?}", other),
    }
    assert!(state.instances.get(id).is_none());
    state.watch_registered(path("/inst/alpha"), WatchTarget::InvalidInstanceDir);
    assert_eq!(state.watching.get(&path("/inst/alpha")), Some(WatchTarget::InvalidInstanceDir));
}

#[test]
fn removal_below_watched_folders_marks_dirty() {
    let (mut state, id) = state_with_instance();
    route(&mut state, FilesystemEvent::Remove(path("/inst/alpha/.minecraft/saves/world1/icon.png")));
    route(&mut state, FilesystemEvent::Remove(path("/inst/alpha/.minecraft/saves/world9")));
    route(&mut state, FilesystemEvent::Remove(path("/inst/alpha/.minecraft/mods/a.jar")));
    route(&mut state, FilesystemEvent::Remove(path("/inst/alpha/other.txt")));
    let instance = state.instances.get(id).unwrap();
    assert_eq!(instance.dirty_worlds.len(), 2);
    assert!(instance.dirty_worlds.contains(&path("/inst/alpha/.minecraft/saves/world1")));
    assert!(instance.dirty_worlds.contains(&path("/inst/alpha/.minecraft/saves/world9")));
    assert_eq!(instance.dirty_mods.len(), 1);
    assert!(instance.dirty_mods.contains(&path("/inst/alpha/.minecraft/mods/a.jar")));
}

#[test]
fn rename_of_instance_dir_inside_root_relabels() {
    let (mut state, id) = state_with_instance();
    let (actions, _) = route(&mut state, FilesystemEvent::Rename(path("/inst/alpha"), path("/inst/omega")));
    assert_eq!(actions.len(), 2);
    match &actions[0] {
        RouterAction::Send(MessageToFrontend::Info { text }) => {
            assert_eq!(text, "Instance 'alpha' renamed to 'omega'")
        },
        other => panic!("{:?}", other),
    }
    match &actions[1] {
        RouterAction::Send(MessageToFrontend::InstanceModified { id: modified, name, version, loader, status }) => {
            assert_eq!(*modified, id);
            assert_eq!(name, "omega");
            assert_eq!(version, "1.21");
            assert_eq!(*loader, Loader::Fabric);
            assert_eq!(*status, InstanceStatus::NotRunning);
        },
        other => panic!("{:?}", other),
    }
    assert_eq!(state.instances.get(id).unwrap().name, "omega");
    assert!(!state.watching.contains_key(&path("/inst/alpha")));
    assert_eq!(state.watching.get(&path("/inst/omega")), Some(WatchTarget::InstanceDir { id }));
}

#[test]
fn rename_of_instance_dir_out_of_root_destroys_the_instance() {
    let (mut state, id) = state_with_instance();
    let (actions, _) = route(&mut state, FilesystemEvent::Rename(path("/inst/alpha"), path("/trash/alpha")));
    assert_eq!(actions.len(), 1);
    match &actions[0] {
        RouterAction::Send(MessageToFrontend::InstanceRemoved { id: removed }) => assert_eq!(*removed, id),
        other => panic!("{:?}", other),
    }
    assert!(state.instances.get(id).is_none());
    assert!(!state.watching.contains_key(&path("/inst/alpha")));
    assert!(!state.watching.contains_key(&path("/trash/alpha")));
}

#[test]
fn rename_of_invalid_dir_inside_root_asks_to_watch_the_new_name() {
    let (mut state, _) = state_with_instance();
    state.watch_registered(path("/inst/junk"), WatchTarget::InvalidInstanceDir);
    let (actions, _) = route(&mut state, FilesystemEvent::Rename(path("/inst/junk"), path("/inst/junk2")));
    assert_eq!(actions.len(), 1);
    match &actions[0] {
        RouterAction::Watch { path: p, target: WatchTarget::InvalidInstanceDir } => assert_eq!(p, &path("/inst/junk2")),
        other => panic!("{:?}", other),
    }
    assert!(!state.watching.contains_key(&path("/inst/junk")));
    // Onto a watched path, or out of the root: nothing.
    state.watch_registered(path("/inst/junk"), WatchTarget::InvalidInstanceDir);
    let (actions, _) = route(&mut state, FilesystemEvent::Rename(path("/inst/junk"), path("/inst/alpha")));
    assert!(actions.is_empty());
    state.watch_registered(path("/inst/junk"), WatchTarget::InvalidInstanceDir);
    let (actions, _) = route(&mut state, FilesystemEvent::Rename(path("/inst/junk"), path("/tmp/junk")));
    assert!(actions.is_empty());
}

#[test]
fn rename_of_world_folder_marks_both_names_when_siblings() {
    let (mut state, id) = state_with_instance();
    let from = "/inst/alpha/.minecraft/saves/world1";
    let to = "/inst/alpha/.minecraft/saves/world1-renamed";
    route(&mut state, FilesystemEvent::Rename(path(from), path(to)));
    let instance = state.instances.get(id).unwrap();
    assert_eq!(instance.dirty_worlds.len(), 2);
    assert!(instance.dirty_worlds.contains(&path(from)));
    assert!(instance.dirty_worlds.contains(&path(to)));
}

#[test]
fn rename_of_world_folder_elsewhere_marks_only_the_old_name() {
    let (mut state, id) = state_with_instance();
    let from = "/inst/alpha/.minecraft/saves/world1";
    route(&mut state, FilesystemEvent::Rename(path(from), path("/backup/world1")));
    let instance = state.instances.get(id).unwrap();
    assert_eq!(instance.dirty_worlds.len(), 1);
    assert!(instance.dirty_worlds.contains(&path(from)));
}

#[test]
fn rename_inside_mods_folder_marks_both_ends() {
    let (mut state, id) = state_with_instance();
    state.reload_mods_after_next_change(id);
    let from = "/inst/alpha/.minecraft/mods/a.jar";
    let to = "/inst/alpha/.minecraft/mods/a.jar.disabled";
    let (actions, effects) = route(&mut state, FilesystemEvent::Rename(path(from), path(to)));
    assert!(actions.is_empty());
    let instance = state.instances.get(id).unwrap();
    assert_eq!(instance.dirty_mods.len(), 2);
    assert!(instance.dirty_mods.contains(&path(from)));
    assert!(instance.dirty_mods.contains(&path(to)));
    assert_eq!(effects.reload_mods.len(), 1);
    assert!(effects.reload_mods.contains(id));
}

#[test]
fn rename_into_mods_folder_marks_only_the_new_end() {
    let (mut state, id) = state_with_instance();
    let to = "/inst/alpha/.minecraft/mods/new.jar";
    route(&mut state, FilesystemEvent::Rename(path("/downloads/new.jar"), path(to)));
    let instance = state.instances.get(id).unwrap();
    assert_eq!(instance.dirty_mods.len(), 1);
    assert!(instance.dirty_mods.contains(&path(to)));
}

#[test]
fn finish_batch_starts_mod_loads_of_promoted_instances() {
    let (mut state, id) = state_with_instance();
    state.reload_mods_after_next_change(id);
    let mut effects = AfterDebounceEffects::new();
    state.handle_filesystem_event(changed("/inst/alpha/.minecraft/mods/a.jar", true, false), &mut effects);
    let started = state.finish_batch(effects);
    assert_eq!(started.len(), 1);
    assert_eq!(started[0].id, id);
    assert_eq!(started[0].result, StartLoadResult::Initial);
    assert!(started[0].dirty.is_empty());
    let instance = state.instances.get(id).unwrap();
    assert!(instance.mods_loading);
    assert_eq!(instance.mods_state, BridgeDataLoadState::Loading);
    // Nothing was promoted: nothing starts.
    let started = state.finish_batch(AfterDebounceEffects::new());
    assert!(started.is_empty());
}

#[test]
fn finish_batch_passes_over_instances_that_are_gone() {
    let (mut state, id) = state_with_instance();
    let mut effects = AfterDebounceEffects::new();
    effects.reload_mods.insert(id);
    effects.reload_mods.insert(InstanceID { index: 7, generation: 3 });
    state.instances.remove(id);
    let started = state.finish_batch(effects);
    assert!(started.is_empty());
}

#[test]
fn parent_is_instances_dir_looks_at_the_parent_only() {
    let mut watching = WatchRegistry::new();
    watching.insert(path("/inst"), WatchTarget::InstancesRoot);
    watching.insert(path("/inst/a"), WatchTarget::InvalidInstanceDir);
    assert!(parent_is_instances_dir(&watching, &path("/inst/x")));
    assert!(!parent_is_instances_dir(&watching, &path("/inst/a/x")));
    assert!(!parent_is_instances_dir(&watching, &path("/inst")));
    assert!(!parent_is_instances_dir(&watching, &path("/other/x")));
    assert!(!parent_is_instances_dir(&watching, &FsPath::root()));
}

#[test]
fn stale_instance_handle_names_nothing() {
    let (mut state, id) = state_with_instance();
    state.instances.remove(id);
    let again = state.instances.insert(fresh_instance("/inst/alpha")).unwrap();
    assert_eq!(again.index, id.index);
    assert_ne!(again.generation, id.generation);
    assert!(state.instances.get(id).is_none());
    assert!(state.instances.get(again).is_some());
    assert!(!state.instances.mark_server_state_dirty(id));
    assert!(!state.instances.get(again).unwrap().dirty_servers);
}

#[test]
fn watch_registry_maps_each_path_to_one_target() {
    let mut watching = WatchRegistry::new();
    assert_eq!(watching.insert(path("/a"), WatchTarget::InstancesRoot), None);
    assert_eq!(watching.insert(path("/a"), WatchTarget::InvalidInstanceDir), Some(WatchTarget::InstancesRoot));
    assert_eq!(watching.len(), 1);
    assert_eq!(watching.get(&path("/a")), Some(WatchTarget::InvalidInstanceDir));
    assert_eq!(watching.get(&path("/b")), None);
    assert_eq!(watching.remove(&path("/b")), None);
    assert_eq!(watching.remove(&path("/a")), Some(WatchTarget::InvalidInstanceDir));
    assert_eq!(watching.len(), 0);
    assert!(!watching.contains_key(&path("/a")));
}

#[test]
fn instance_watches_cover_saves_mods_servers_and_worlds() {
    let (mut state, id) = state_with_instance();
    let actions = state.instance_watches(id);
    assert_eq!(actions.len(), 3);
    let expect = |action: &RouterAction, text: &str, target: WatchTarget| match action {
        RouterAction::Watch { path: p, target: t } => {
            assert_eq!(p, &path(text));
            assert_eq!(*t, target);
        },
        other => panic!("{:?}", other),
    };
    expect(&actions[0], "/inst/alpha/.minecraft/saves", WatchTarget::InstanceSavesDir { id });
    expect(&actions[1], "/inst/alpha/.minecraft/mods", WatchTarget::InstanceModsDir { id });
    expect(&actions[2], "/inst/alpha/.minecraft/servers.dat", WatchTarget::ServersFile { id });
    state.instances.start_load_worlds(id);
    let world = |name: &str| launcher_core::summaries::InstanceWorldSummary {
        title: name.to_string(),
        subtitle: name.to_string(),
        level_path: path("/inst/alpha/.minecraft/saves").child(name),
        last_played: 1,
        png_icon: None,
    };
    assert!(state.instances.finish_loading_worlds(id, Some(vec![world("w1"), world("w2")])));
    let actions = state.instance_watches(id);
    assert_eq!(actions.len(), 5);
    expect(&actions[3], "/inst/alpha/.minecraft/saves/w1", WatchTarget::InstanceLevelDir { id });
    expect(&actions[4], "/inst/alpha/.minecraft/saves/w2", WatchTarget::InstanceLevelDir { id });
    assert!(state.instance_watches(InstanceID { index: 9, generation: 9 }).is_empty());
}
