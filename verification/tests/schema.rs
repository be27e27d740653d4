use launcher_core::directories::LauncherDirectories;
use launcher_core::fs_path::FsPath;
use launcher_core::schema::auxiliary::{AuxAppliedOverrides, AuxDisabledChildren, AuxiliaryContentMeta};
use launcher_core::schema::instance::{
    is_default_jvm_binary_configuration, is_default_jvm_flags_configuration,
    is_default_linux_wrapper_configuration, is_default_memory_configuration,
    is_default_system_libraries_configuration, text_is_blank, InstanceJvmBinaryConfiguration,
    InstanceJvmFlagsConfiguration, InstanceLinuxWrapperConfiguration, InstanceMemoryConfiguration,
    InstanceSystemLibrariesConfiguration, LwjglLibraryPath,
};
use launcher_core::schema::modrinth::{ModrinthError, ModrinthErrorResponse, ModrinthSearchIndex};

fn path(text: &str) -> FsPath {
    let absolute = text.starts_with('/');
    let names = text.split('/').filter(|s| !s.is_empty()).map(|s| s.to_string()).collect();
    FsPath::new(absolute, names)
}

#[test]
fn launcher_directories_layout() {
    let d = LauncherDirectories::new(path("/home/u/.launcher"));
    assert_eq!(d.root_launcher_dir, path("/home/u/.launcher"));
    assert_eq!(d.instances_dir, path("/home/u/.launcher/instances"));
    assert_eq!(d.synced_dir, path("/home/u/.launcher/synced"));
    assert_eq!(d.metadata_dir, path("/home/u/.launcher/metadata"));
    assert_eq!(d.assets_root_dir, path("/home/u/.launcher/assets"));
    assert_eq!(d.assets_index_dir, path("/home/u/.launcher/assets/indexes"));
    assert_eq!(d.assets_objects_dir, path("/home/u/.launcher/assets/objects"));
    assert_eq!(d.virtual_legacy_assets_dir, path("/home/u/.launcher/assets/indexes/virtual/legacy"));
    assert_eq!(d.libraries_dir, path("/home/u/.launcher/libraries"));
    assert_eq!(d.log_configs_dir, path("/home/u/.launcher/logconfigs"));
    assert_eq!(d.runtime_base_dir, path("/home/u/.launcher/runtime"));
    assert_eq!(d.content_library_dir, path("/home/u/.launcher/contentlibrary"));
    assert_eq!(d.content_meta_dir, path("/home/u/.launcher/contentmeta"));
    assert_eq!(d.temp_dir, path("/home/u/.launcher/temp"));
    assert_eq!(d.temp_natives_base_dir, path("/home/u/.launcher/temp/natives"));
    assert_eq!(d.config_json, path("/home/u/.launcher/config.json"));
    assert_eq!(d.accounts_json, path("/home/u/.launcher/accounts.json"));
}

#[test]
fn memory_configuration_defaults() {
    let d = InstanceMemoryConfiguration::default();
    assert!(!d.enabled);
    assert_eq!(d.min, 512);
    assert_eq!(d.max, 4096);
    assert_eq!(InstanceMemoryConfiguration::DEFAULT_MIN, 512);
    assert_eq!(InstanceMemoryConfiguration::DEFAULT_MAX, 4096);
    assert!(is_default_memory_configuration(&None));
    assert!(is_default_memory_configuration(&Some(d)));
    assert!(!is_default_memory_configuration(&Some(InstanceMemoryConfiguration { enabled: true, ..d })));
    assert!(!is_default_memory_configuration(&Some(InstanceMemoryConfiguration { min: 513, ..d })));
    assert!(!is_default_memory_configuration(&Some(InstanceMemoryConfiguration { max: 4095, ..d })));
}

#[test]
fn jvm_flags_configuration_defaults() {
    assert!(is_default_jvm_flags_configuration(&None));
    assert!(is_default_jvm_flags_configuration(&Some(InstanceJvmFlagsConfiguration::default())));
    let blank = InstanceJvmFlagsConfiguration { enabled: false, flags: " \t\n\r\u{c}".to_string() };
    assert!(is_default_jvm_flags_configuration(&Some(blank)));
    let set = InstanceJvmFlagsConfiguration { enabled: false, flags: " -Xmx2G ".to_string() };
    assert!(!is_default_jvm_flags_configuration(&Some(set)));
    let on = InstanceJvmFlagsConfiguration { enabled: true, flags: String::new() };
    assert!(!is_default_jvm_flags_configuration(&Some(on)));
    // A vertical tab and a no-break space are no blanks.
    assert!(!text_is_blank("\u{b}"));
    assert!(!text_is_blank("\u{a0}"));
    assert!(text_is_blank(""));
}

#[test]
fn jvm_binary_configuration_defaults() {
    assert!(is_default_jvm_binary_configuration(&None));
    assert!(is_default_jvm_binary_configuration(&Some(InstanceJvmBinaryConfiguration::default())));
    let with_path = InstanceJvmBinaryConfiguration { enabled: false, path: Some(path("/usr/bin/java")) };
    assert!(!is_default_jvm_binary_configuration(&Some(with_path)));
    let on = InstanceJvmBinaryConfiguration { enabled: true, path: None };
    assert!(!is_default_jvm_binary_configuration(&Some(on)));
}

#[test]
fn linux_wrapper_configuration_defaults() {
    let d = InstanceLinuxWrapperConfiguration::default();
    assert!(!d.use_mangohud && !d.use_gamemode && d.use_discrete_gpu);
    assert!(is_default_linux_wrapper_configuration(&None));
    assert!(is_default_linux_wrapper_configuration(&Some(d)));
    assert!(!is_default_linux_wrapper_configuration(&Some(InstanceLinuxWrapperConfiguration { use_mangohud: true, ..d })));
    assert!(!is_default_linux_wrapper_configuration(&Some(InstanceLinuxWrapperConfiguration { use_gamemode: true, ..d })));
    assert!(!is_default_linux_wrapper_configuration(&Some(InstanceLinuxWrapperConfiguration {
        use_discrete_gpu: false,
        ..d
    })));
}

#[test]
fn system_libraries_configuration_defaults() {
    assert!(is_default_system_libraries_configuration(&None));
    assert!(is_default_system_libraries_configuration(&Some(InstanceSystemLibrariesConfiguration::default())));
    // The override flags do not count, the paths do.
    let flagged = InstanceSystemLibrariesConfiguration {
        override_glfw: true,
        glfw: LwjglLibraryPath::Unset,
        override_openal: true,
        openal: LwjglLibraryPath::Unset,
    };
    assert!(is_default_system_libraries_configuration(&Some(flagged)));
    let with_glfw = InstanceSystemLibrariesConfiguration {
        override_glfw: false,
        glfw: LwjglLibraryPath::Auto(path("/usr/lib/libglfw.so")),
        override_openal: false,
        openal: LwjglLibraryPath::Unset,
    };
    assert!(!is_default_system_libraries_configuration(&Some(with_glfw)));
    let with_openal = InstanceSystemLibrariesConfiguration {
        override_glfw: false,
        glfw: LwjglLibraryPath::Unset,
        override_openal: false,
        openal: LwjglLibraryPath::Explicit(path("/usr/lib/libopenal.so")),
    };
    assert!(!is_default_system_libraries_configuration(&Some(with_openal)));
}

#[test]
fn lwjgl_library_path_choice() {
    let auto = Some(path("/found/now.so"));
    assert_eq!(LwjglLibraryPath::Unset.get_or_auto(&auto, true), auto);
    assert_eq!(LwjglLibraryPath::Unset.get_or_auto(&None, true), None);
    assert_eq!(LwjglLibraryPath::Auto(path("/old.so")).get_or_auto(&auto, true), Some(path("/old.so")));
    assert_eq!(LwjglLibraryPath::Auto(path("/old.so")).get_or_auto(&auto, false), auto);
    assert_eq!(LwjglLibraryPath::Auto(path("/old.so")).get_or_auto(&None, false), None);
    assert_eq!(LwjglLibraryPath::Explicit(path("/mine.so")).get_or_auto(&auto, false), Some(path("/mine.so")));
    assert_eq!(LwjglLibraryPath::Unset.get_path(), None);
    assert_eq!(LwjglLibraryPath::Auto(path("/a.so")).get_path(), Some(&path("/a.so")));
    assert_eq!(LwjglLibraryPath::Explicit(path("/b.so")).get_path(), Some(&path("/b.so")));
    assert!(LwjglLibraryPath::default().get_path().is_none());
}

#[test]
fn auxiliary_meta_defaults_are_empty() {
    let meta = AuxiliaryContentMeta::default();
    assert!(meta.applied_overrides.is_default());
    assert!(meta.disabled_children.is_default());
    let mut overrides = AuxAppliedOverrides::default();
    overrides.filename_to_hash.insert("a".to_string(), "b".to_string());
    assert!(!overrides.is_default());
    let mut children = AuxDisabledChildren::default();
    children.disabled_names.insert("n".to_string());
    assert!(!children.is_default());
}

#[test]
fn modrinth_errors_and_orders_in_words() {
    assert_eq!(ModrinthError::ClientRequestError.message(), "Error connecting to modrinth");
    assert_eq!(ModrinthError::DeserializeError.message(), "Error deserializing result from modrinth");
    let response = ModrinthErrorResponse { error: "e".to_string(), description: "d".to_string() };
    assert_eq!(ModrinthError::ModrinthResponse(response).message(), "Descriptive error from modrinth");
    assert_eq!(ModrinthError::NonOK(500).message(), "Non-OK response from modrinth");
    assert_eq!(ModrinthSearchIndex::Relevance.name(), "relevance");
    assert_eq!(ModrinthSearchIndex::Downloads.name(), "downloads");
    assert_eq!(ModrinthSearchIndex::Follows.name(), "follows");
    assert_eq!(ModrinthSearchIndex::Newest.name(), "newest");
    assert_eq!(ModrinthSearchIndex::Updated.name(), "updated");
}
