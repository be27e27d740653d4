//! Where the launcher keeps its files below its own directory.

use crate::fs_path::FsPath;
use crate::fs_path::FsPathView;
use vstd::prelude::*;

verus! {

/// The directories and files of the launcher.
#[derive(Debug)]
pub struct LauncherDirectories {
    pub instances_dir: FsPath,
    pub synced_dir: FsPath,
    pub metadata_dir: FsPath,
    pub assets_root_dir: FsPath,
    pub assets_index_dir: FsPath,
    pub assets_objects_dir: FsPath,
    pub virtual_legacy_assets_dir: FsPath,
    pub libraries_dir: FsPath,
    pub log_configs_dir: FsPath,
    pub runtime_base_dir: FsPath,
    pub content_library_dir: FsPath,
    pub content_meta_dir: FsPath,
    pub temp_dir: FsPath,
    pub temp_natives_base_dir: FsPath,
    pub root_launcher_dir: FsPath,
    pub config_json: FsPath,
    pub accounts_json: FsPath,
}

/// What the launcher's directories are to the contracts.
pub struct LauncherDirectoriesView {
    pub instances_dir: FsPathView,
    pub synced_dir: FsPathView,
    pub metadata_dir: FsPathView,
    pub assets_root_dir: FsPathView,
    pub assets_index_dir: FsPathView,
    pub assets_objects_dir: FsPathView,
    pub virtual_legacy_assets_dir: FsPathView,
    pub libraries_dir: FsPathView,
    pub log_configs_dir: FsPathView,
    pub runtime_base_dir: FsPathView,
    pub content_library_dir: FsPathView,
    pub content_meta_dir: FsPathView,
    pub temp_dir: FsPathView,
    pub temp_natives_base_dir: FsPathView,
    pub root_launcher_dir: FsPathView,
    pub config_json: FsPathView,
    pub accounts_json: FsPathView,
}

impl View for LauncherDirectories {
    type V = LauncherDirectoriesView;

    open spec fn view(&self) -> LauncherDirectoriesView {
        LauncherDirectoriesView {
            instances_dir: self.instances_dir@,
            synced_dir: self.synced_dir@,
            metadata_dir: self.metadata_dir@,
            assets_root_dir: self.assets_root_dir@,
            assets_index_dir: self.assets_index_dir@,
            assets_objects_dir: self.assets_objects_dir@,
            virtual_legacy_assets_dir: self.virtual_legacy_assets_dir@,
            libraries_dir: self.libraries_dir@,
            log_configs_dir: self.log_configs_dir@,
            runtime_base_dir: self.runtime_base_dir@,
            content_library_dir: self.content_library_dir@,
            content_meta_dir: self.content_meta_dir@,
            temp_dir: self.temp_dir@,
            temp_natives_base_dir: self.temp_natives_base_dir@,
            root_launcher_dir: self.root_launcher_dir@,
            config_json: self.config_json@,
            accounts_json: self.accounts_json@,
        }
    }
}

/// The layout below the launcher's directory `root`.
pub open spec fn layout_below(root: FsPathView) -> LauncherDirectoriesView {
    LauncherDirectoriesView {
        instances_dir: root.child("instances"@),
        synced_dir: root.child("synced"@),
        metadata_dir: root.child("metadata"@),
        assets_root_dir: root.child("assets"@),
        assets_index_dir: root.child("assets"@).child("indexes"@),
        assets_objects_dir: root.child("assets"@).child("objects"@),
        virtual_legacy_assets_dir: root.child("assets"@).child("indexes"@).child(
            "virtual"@,
        ).child("legacy"@),
        libraries_dir: root.child("libraries"@),
        log_configs_dir: root.child("logconfigs"@),
        runtime_base_dir: root.child("runtime"@),
        content_library_dir: root.child("contentlibrary"@),
        content_meta_dir: root.child("contentmeta"@),
        temp_dir: root.child("temp"@),
        temp_natives_base_dir: root.child("temp"@).child("natives"@),
        root_launcher_dir: root,
        config_json: root.child("config.json"@),
        accounts_json: root.child("accounts.json"@),
    }
}

impl LauncherDirectories {
    /// The directories and files of a launcher that lives in `launcher_dir`.
    pub fn new(launcher_dir: FsPath) -> (r: LauncherDirectories)
        ensures
            r@ == layout_below(launcher_dir@),
    {
        let instances_dir = launcher_dir.child("instances");
        let synced_dir = launcher_dir.child("synced");
        let metadata_dir = launcher_dir.child("metadata");
        let assets_root_dir = launcher_dir.child("assets");
        let assets_index_dir = assets_root_dir.child("indexes");
        let assets_objects_dir = assets_root_dir.child("objects");
        let virtual_legacy_assets_dir = assets_index_dir.child("virtual").child("legacy");
        let libraries_dir = launcher_dir.child("libraries");
        let log_configs_dir = launcher_dir.child("logconfigs");
        let runtime_base_dir = launcher_dir.child("runtime");
        let content_library_dir = launcher_dir.child("contentlibrary");
        let content_meta_dir = launcher_dir.child("contentmeta");
        let temp_dir = launcher_dir.child("temp");
        let temp_natives_base_dir = temp_dir.child("natives");
        let config_json = launcher_dir.child("config.json");
        let accounts_json = launcher_dir.child("accounts.json");
        LauncherDirectories {
            instances_dir,
            synced_dir,
            metadata_dir,
            assets_root_dir,
            assets_index_dir,
            assets_objects_dir,
            virtual_legacy_assets_dir,
            libraries_dir,
            log_configs_dir,
            runtime_base_dir,
            content_library_dir,
            content_meta_dir,
            temp_dir,
            temp_natives_base_dir,
            root_launcher_dir: launcher_dir,
            config_json,
            accounts_json,
        }
    }
}

} // verus!
