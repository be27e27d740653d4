use launcher_core::fs_path::FsPath;
use launcher_core::ids::{IdSet, InstanceID, InstanceModID};
use launcher_core::instance::{Instance, InstanceInfo, InstanceLoadError, LoaderInfo};
use launcher_core::load_state::{BridgeDataLoadState, StartLoadResult};
use launcher_core::messages::{InstanceStatus, MessageToFrontend};
use launcher_core::schema::loader::Loader;
use launcher_core::summaries::{
    InstanceModSummary, InstanceServerSummary, InstanceWorldSummary, LoaderSpecificModSummary, ModSummary,
};

fn path(text: &str) -> FsPath {
    let absolute = text.starts_with('/');
    let names = text.split('/').filter(|s| !s.is_empty()).map(|s| s.to_string()).collect();
    FsPath::new(absolute, names)
}

fn instance() -> Instance {
    let info = InstanceInfo { minecraft_version: "1.21".to_string(), loader: Loader::Vanilla };
    Instance::load_from_folder(&path("/inst/alpha"), true, Ok(info)).unwrap()
}

fn a_mod(id: &str, file: &str) -> InstanceModSummary {
    InstanceModSummary {
        mod_summary: ModSummary {
            id: id.to_string(),
            name: id.to_string(),
            version_str: "1".to_string(),
            extra: LoaderSpecificModSummary::Plain,
        },
        id: InstanceModID::dangling(),
        file_name: file.to_string(),
        path: path("/inst/alpha/.minecraft/mods").child(file),
        enabled: true,
    }
}

fn a_world(name: &str, last_played: i64) -> InstanceWorldSummary {
    InstanceWorldSummary {
        title: name.to_string(),
        subtitle: name.to_string(),
        level_path: path("/inst/alpha/.minecraft/saves").child(name),
        last_played,
        png_icon: None,
    }
}

#[test]
fn load_from_folder_builds_a_fresh_instance() {
    let i = instance();
    assert_eq!(i.id, InstanceID::dangling());
    assert_eq!(i.root_path, path("/inst/alpha"));
    assert_eq!(i.name, "alpha");
    assert_eq!(i.version, "1.21");
    assert_eq!(i.loader, Loader::Vanilla);
    assert!(!i.running);
    assert_eq!(i.worlds_state, BridgeDataLoadState::Unloaded);
    assert_eq!(i.servers_state, BridgeDataLoadState::Unloaded);
    assert_eq!(i.mods_state, BridgeDataLoadState::Unloaded);
    assert!(i.worlds.is_none() && i.servers.is_none() && i.mods.is_none());
    assert!(!i.worlds_loading && !i.servers_loading && !i.mods_loading);
    assert_eq!(i.mods_generation, 0);
    assert_eq!(i.status(), InstanceStatus::NotRunning);
}

#[test]
fn load_from_folder_reports_each_error() {
    let info = || Ok(InstanceInfo { minecraft_version: "1".to_string(), loader: Loader::Vanilla });
    match Instance::load_from_folder(&path("/inst/a"), false, info()) {
        Err(InstanceLoadError::NotADirectory) => {},
        other => panic!("{:?}", other),
    }
    match Instance::load_from_folder(&path("/inst/a"), false, Err(InstanceLoadError::IoError("x".to_string()))) {
        Err(InstanceLoadError::NotADirectory) => {},
        other => panic!("{:?}", other),
    }
    match Instance::load_from_folder(&path("/inst/a"), true, Err(InstanceLoadError::IoError("gone".to_string()))) {
        Err(InstanceLoadError::IoError(cause)) => assert_eq!(cause, "gone"),
        other => panic!("{:?}", other),
    }
    match Instance::load_from_folder(&path("/inst/a"), true, Err(InstanceLoadError::SerdeError("bad".to_string()))) {
        Err(InstanceLoadError::SerdeError(cause)) => assert_eq!(cause, "bad"),
        other => panic!("{:?}", other),
    }
}

#[test]
fn load_errors_have_messages() {
    assert_eq!(InstanceLoadError::NotADirectory.message(), "Not a directory");
    assert_eq!(
        InstanceLoadError::IoError("x".to_string()).message(),
        "An I/O error occured while trying to read the instance"
    );
    assert_eq!(
        InstanceLoadError::SerdeError("x".to_string()).message(),
        "A serialization error occured while trying to read the instance"
    );
}

#[test]
fn loader_info_names_the_loader() {
    assert_eq!(LoaderInfo::Vanilla.loader(), Loader::Vanilla);
    assert_eq!(LoaderInfo::Fabric.loader(), Loader::Fabric);
    assert_eq!(LoaderInfo::Forge.loader(), Loader::Forge);
    assert_eq!(LoaderInfo::NeoForge.loader(), Loader::NeoForge);
}

#[test]
fn load_states_move_as_documented() {
    let unloaded = BridgeDataLoadState::Unloaded;
    let loading = BridgeDataLoadState::Loading;
    let loaded = BridgeDataLoadState::Loaded;
    let loading_dirty = BridgeDataLoadState::LoadingDirty;
    let loaded_dirty = BridgeDataLoadState::LoadedDirty;
    assert_eq!(unloaded.marked_dirty(), unloaded);
    assert_eq!(loading.marked_dirty(), loading_dirty);
    assert_eq!(loaded.marked_dirty(), loaded_dirty);
    assert_eq!(loading_dirty.marked_dirty(), loading_dirty);
    assert_eq!(loaded_dirty.marked_dirty(), loaded_dirty);
    assert_eq!(loading.finished(), loaded);
    assert_eq!(loading_dirty.finished(), loaded_dirty);
    assert!(loading.is_loading() && loading_dirty.is_loading());
    assert!(!unloaded.is_loading() && !loaded.is_loading() && !loaded_dirty.is_loading());
}

#[test]
fn first_world_load_is_initial_and_second_start_is_skipped() {
    let mut i = instance();
    let (result, dirty) = i.start_load_worlds();
    assert_eq!(result, StartLoadResult::Initial);
    assert!(dirty.is_empty());
    assert_eq!(i.worlds_state, BridgeDataLoadState::Loading);
    let (again, _) = i.start_load_worlds();
    assert_eq!(again, StartLoadResult::Skipped);
}

#[test]
fn finish_without_result_publishes_nothing() {
    let mut i = instance();
    assert!(!i.finish_loading_worlds(Some(vec![])));
    assert!(i.worlds.is_none());
    i.start_load_worlds();
    assert!(!i.finish_loading_worlds(None));
    assert!(i.worlds_loading);
    assert_eq!(i.worlds_state, BridgeDataLoadState::Loading);
}

#[test]
fn world_reload_drains_the_dirty_set_once() {
    let mut i = instance();
    i.start_load_worlds();
    assert!(i.finish_loading_worlds(Some(vec![a_world("w1", 5)])));
    assert_eq!(i.worlds_state, BridgeDataLoadState::Loaded);
    assert_eq!(i.worlds.as_ref().unwrap().len(), 1);
    // Nothing changed: nothing to do.
    assert_eq!(i.start_load_worlds().0, StartLoadResult::Skipped);
    assert!(i.note_world_change(path("/s/w1")));
    assert!(!i.note_world_change(path("/s/w1")));
    assert!(i.note_world_change(path("/s/w2")));
    assert_eq!(i.worlds_state, BridgeDataLoadState::LoadedDirty);
    let (result, dirty) = i.start_load_worlds();
    assert_eq!(result, StartLoadResult::Reload);
    assert_eq!(dirty.len(), 2);
    assert!(dirty.contains(&path("/s/w1")) && dirty.contains(&path("/s/w2")));
    assert!(i.dirty_worlds.is_empty());
    assert_eq!(i.worlds_state, BridgeDataLoadState::Loading);
}

#[test]
fn dirt_during_a_load_is_still_owed_after_it() {
    let mut i = instance();
    i.start_load_worlds();
    i.note_world_change(path("/s/w3"));
    assert_eq!(i.worlds_state, BridgeDataLoadState::LoadingDirty);
    assert!(i.finish_loading_worlds(Some(vec![])));
    assert_eq!(i.worlds_state, BridgeDataLoadState::LoadedDirty);
    assert!(!i.worlds_loading);
    let (result, dirty) = i.start_load_worlds();
    assert_eq!(result, StartLoadResult::Reload);
    assert!(dirty.contains(&path("/s/w3")));
}

#[test]
fn servers_pipeline_uses_a_flag() {
    let mut i = instance();
    assert_eq!(i.start_load_servers(), StartLoadResult::Initial);
    assert_eq!(i.start_load_servers(), StartLoadResult::Skipped);
    let list = vec![InstanceServerSummary { name: "n".to_string(), ip: "1.2.3.4".to_string(), png_icon: None }];
    assert!(i.finish_loading_servers(Some(list)));
    assert_eq!(i.servers_state, BridgeDataLoadState::Loaded);
    assert_eq!(i.start_load_servers(), StartLoadResult::Skipped);
    i.mark_server_state_dirty();
    assert!(i.dirty_servers);
    assert_eq!(i.servers_state, BridgeDataLoadState::LoadedDirty);
    assert_eq!(i.start_load_servers(), StartLoadResult::Reload);
    assert!(!i.dirty_servers);
    assert_eq!(i.servers_state, BridgeDataLoadState::Loading);
    i.mark_server_state_dirty();
    assert!(i.finish_loading_servers(Some(vec![])));
    assert_eq!(i.servers_state, BridgeDataLoadState::LoadedDirty);
    assert!(i.dirty_servers);
}

#[test]
fn marking_dirty_leaves_unloaded_pipelines_unloaded() {
    let mut i = instance();
    i.mark_world_state_dirty();
    i.mark_mods_state_dirty();
    i.mark_server_state_dirty();
    assert_eq!(i.worlds_state, BridgeDataLoadState::Unloaded);
    assert_eq!(i.mods_state, BridgeDataLoadState::Unloaded);
    assert_eq!(i.servers_state, BridgeDataLoadState::Unloaded);
    assert!(i.dirty_servers);
}

#[test]
fn published_mods_get_handles_of_the_new_generation() {
    let mut i = instance();
    assert_eq!(i.start_load_mods().0, StartLoadResult::Initial);
    assert!(i.finish_loading_mods(Some(vec![a_mod("a", "a.jar"), a_mod("b", "b.jar")])));
    assert_eq!(i.mods_generation, 1);
    let mods = i.mods.as_ref().unwrap();
    assert_eq!(mods[0].id, InstanceModID { index: 0, generation: 1 });
    assert_eq!(mods[1].id, InstanceModID { index: 1, generation: 1 });
    assert_eq!(i.try_get_mod(InstanceModID { index: 1, generation: 1 }).unwrap().file_name, "b.jar");
    assert!(i.try_get_mod(InstanceModID { index: 2, generation: 1 }).is_none());
    assert!(i.try_get_mod(InstanceModID { index: 0, generation: 0 }).is_none());
    assert!(i.try_get_mod(InstanceModID::dangling()).is_none());
}

#[test]
fn mod_handle_from_before_second_reload_is_stale() {
    let mut i = instance();
    i.start_load_mods();
    i.finish_loading_mods(Some(vec![a_mod("a", "a.jar")]));
    i.note_mod_change(path("/inst/alpha/.minecraft/mods/a.jar"));
    assert_eq!(i.start_load_mods().0, StartLoadResult::Reload);
    i.finish_loading_mods(Some(vec![a_mod("a", "a.jar")]));
    let captured = i.mods.as_ref().unwrap()[0].id;
    assert!(i.try_get_mod(captured).is_some());
    i.note_mod_change(path("/inst/alpha/.minecraft/mods/a.jar"));
    i.start_load_mods();
    // The same file stands at the same position again.
    i.finish_loading_mods(Some(vec![a_mod("a", "a.jar")]));
    assert!(i.try_get_mod(captured).is_none());
    let current = i.mods.as_ref().unwrap()[0].id;
    assert_eq!(current.index, captured.index);
    assert_ne!(current.generation, captured.generation);
    assert_eq!(i.try_get_mod(current).unwrap().file_name, "a.jar");
}

#[test]
fn mod_generation_wraps_around() {
    let mut i = instance();
    i.mods_generation = usize::MAX;
    i.start_load_mods();
    assert!(i.finish_loading_mods(Some(vec![a_mod("a", "a.jar")])));
    assert_eq!(i.mods_generation, 0);
    assert_eq!(i.mods.as_ref().unwrap()[0].id, InstanceModID { index: 0, generation: 0 });
    assert!(i.try_get_mod(InstanceModID { index: 0, generation: usize::MAX }).is_none());
}

#[test]
fn try_get_mod_without_snapshot_finds_nothing() {
    let i = instance();
    assert!(i.try_get_mod(InstanceModID { index: 0, generation: 0 }).is_none());
}

#[test]
fn copy_basic_attributes_keeps_identity_and_pipelines() {
    let mut i = instance();
    i.id = InstanceID { index: 3, generation: 9 };
    i.start_load_worlds();
    let info = InstanceInfo { minecraft_version: "1.8.9".to_string(), loader: Loader::Forge };
    let new = Instance::load_from_folder(&path("/inst/renamed"), true, Ok(info)).unwrap();
    i.copy_basic_attributes_from(new);
    assert_eq!(i.id, InstanceID { index: 3, generation: 9 });
    assert_eq!(i.root_path, path("/inst/renamed"));
    assert_eq!(i.name, "renamed");
    assert_eq!(i.version, "1.8.9");
    assert_eq!(i.loader, Loader::Forge);
    assert_eq!(i.saves_path, path("/inst/alpha/.minecraft/saves"));
    assert!(i.worlds_loading);
}

#[test]
fn modify_message_tells_name_version_loader_and_status() {
    let mut i = instance();
    i.running = true;
    assert_eq!(i.status(), InstanceStatus::Running);
    match i.create_modify_message() {
        MessageToFrontend::InstanceModified { id, name, version, loader, status } => {
            assert_eq!(id, InstanceID::dangling());
            assert_eq!(name, "alpha");
            assert_eq!(version, "1.21");
            assert_eq!(loader, Loader::Vanilla);
            assert_eq!(status, InstanceStatus::Running);
        },
        other => panic!("{:?}", other),
    }
    match i.create_modify_message_with_status(InstanceStatus::NotRunning) {
        MessageToFrontend::InstanceModified { status, .. } => assert_eq!(status, InstanceStatus::NotRunning),
        other => panic!("{:?}", other),
    }
}

#[test]
fn dangling_handles_are_all_ones() {
    assert_eq!(InstanceID::dangling(), InstanceID { index: usize::MAX, generation: usize::MAX });
    assert_eq!(InstanceModID::dangling(), InstanceModID { index: usize::MAX, generation: usize::MAX });
}

#[test]
fn id_set_takes_each_handle_once() {
    let a = InstanceID { index: 0, generation: 1 };
    let b = InstanceID { index: 0, generation: 2 };
    let mut set = IdSet::new();
    assert!(set.insert(a));
    assert!(!set.insert(a));
    assert!(set.insert(b));
    assert_eq!(set.len(), 2);
    assert_eq!(set.get(0), a);
    assert_eq!(set.take(a), Some(a));
    assert_eq!(set.take(a), None);
    assert!(!set.contains(a));
    assert!(set.contains(b));
    assert_eq!(set.len(), 1);
}

#[test]
fn info_file_and_game_directory_lie_in_the_instance_folder() {
    assert_eq!(launcher_core::instance::info_path(&path("/inst/a")), path("/inst/a/info.json"));
    assert_eq!(launcher_core::instance::game_dir(&path("/inst/a")), path("/inst/a/.minecraft"));
}
