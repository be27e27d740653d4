use launcher_core::fs_path::FsPath;
use launcher_core::ids::InstanceModID;
use launcher_core::mods::{finish_mods_initial, finish_mods_reload, mod_file_kind, mod_summary_for};
use launcher_core::path_set::PathSet;
use launcher_core::servers::{load_servers, load_servers_summary, server_summary, ServerRecord};
use launcher_core::summaries::{InstanceModSummary, LoaderSpecificModSummary, ModSummary};

fn path(text: &str) -> FsPath {
    let absolute = text.starts_with('/');
    let names = text.split('/').filter(|s| !s.is_empty()).map(|s| s.to_string()).collect();
    FsPath::new(absolute, names)
}

fn summary(id: &str) -> ModSummary {
    ModSummary {
        id: id.to_string(),
        name: id.to_uppercase(),
        version_str: "1.0".to_string(),
        extra: LoaderSpecificModSummary::Plain,
    }
}

fn a_mod(id: &str, file: &str) -> InstanceModSummary {
    mod_summary_for(summary(id), path("/mods").child(file), true).unwrap()
}

fn files(mods: &[InstanceModSummary]) -> Vec<String> {
    mods.iter().map(|m| m.file_name.clone()).collect()
}

fn record(hidden: Option<i8>, ip: Option<&str>, name: Option<&str>, icon: Option<&str>) -> ServerRecord {
    ServerRecord {
        hidden,
        ip: ip.map(|s| s.to_string()),
        name: name.map(|s| s.to_string()),
        icon: icon.map(|s| s.to_string()),
    }
}

#[test]
fn mod_files_are_told_by_their_suffix() {
    assert_eq!(mod_file_kind(&path("/mods/a.jar"), true), Some(true));
    assert_eq!(mod_file_kind(&path("/mods/a.jar.disabled"), true), Some(false));
    assert_eq!(mod_file_kind(&path("/mods/a.zip"), true), None);
    assert_eq!(mod_file_kind(&path("/mods/a.jar.bak"), true), None);
    assert_eq!(mod_file_kind(&path("/mods/.jar"), true), Some(true));
    assert_eq!(mod_file_kind(&path("/mods/a.JAR"), true), None);
    assert_eq!(mod_file_kind(&path("/mods/a.jar"), false), None);
    assert_eq!(mod_file_kind(&FsPath::root(), true), None);
}

#[test]
fn scanned_mod_has_no_handle_yet() {
    let m = mod_summary_for(summary("sodium"), path("/mods/sodium-1.jar.disabled"), true).unwrap();
    assert_eq!(m.id, InstanceModID::dangling());
    assert_eq!(m.file_name, "sodium-1.jar.disabled");
    assert_eq!(m.path, path("/mods/sodium-1.jar.disabled"));
    assert!(!m.enabled);
    assert_eq!(m.mod_summary.id, "sodium");
    assert_eq!(m.mod_summary.name, "SODIUM");
    assert!(mod_summary_for(summary("x"), path("/mods/readme.txt"), true).is_none());
    assert!(mod_summary_for(summary("x"), path("/mods/x.jar"), false).is_none());
}

#[test]
fn mods_sort_by_identifier_and_keep_ties_in_order() {
    let found = vec![
        a_mod("sodium", "s.jar"),
        a_mod("fabric-api", "f1.jar"),
        a_mod("Zoom", "z.jar"),
        a_mod("fabric", "f0.jar"),
        a_mod("fabric-api", "f2.jar"),
    ];
    assert_eq!(files(&finish_mods_initial(found)), vec!["z.jar", "f0.jar", "f1.jar", "f2.jar", "s.jar"]);
    assert!(finish_mods_initial(vec![]).is_empty());
}

#[test]
fn mod_reload_merges_rescanned_with_untouched_files() {
    let previous = finish_mods_initial(vec![a_mod("a", "a.jar"), a_mod("b", "b.jar"), a_mod("c", "c.jar")]);
    let mut dirty = PathSet::new();
    dirty.insert(path("/mods/b.jar"));
    dirty.insert(path("/mods/b.jar.disabled"));
    dirty.insert(path("/mods/d.jar"));
    let found = vec![a_mod("d", "d.jar"), a_mod("b", "b.jar.disabled")];
    let merged = finish_mods_reload(found, &previous, &dirty, &vec![true, false, true]);
    assert_eq!(files(&merged), vec!["a.jar", "b.jar.disabled", "c.jar", "d.jar"]);
    assert!(!merged[1].enabled);
    // A file that vanished without notice is dropped too.
    let merged = finish_mods_reload(vec![], &previous, &PathSet::new(), &vec![true, true, false]);
    assert_eq!(files(&merged), vec!["a.jar", "b.jar"]);
}

#[test]
fn hidden_servers_and_servers_without_address_are_left_out() {
    let records = vec![
        record(None, Some("play.example.org"), Some("Example"), None),
        record(Some(1), Some("hidden.example.org"), Some("Hidden"), None),
        record(Some(0), Some("10.0.0.1:25565"), None, None),
        record(None, None, Some("No address"), None),
        record(Some(-1), Some("neg.example.org"), None, None),
    ];
    let list = load_servers_summary(&records);
    assert_eq!(list.len(), 2);
    assert_eq!(list[0].name, "Example");
    assert_eq!(list[0].ip, "play.example.org");
    assert_eq!(list[1].name, "<unnamed>");
    assert_eq!(list[1].ip, "10.0.0.1:25565");
}

#[test]
fn server_icons_are_decoded_from_base64() {
    let records = vec![
        record(None, Some("a"), None, Some("aGVsbG8=")),
        record(None, Some("b"), None, Some("not base64!")),
        record(None, Some("c"), None, Some("")),
        record(None, Some("d"), None, Some("aGVsbG8")),
        record(None, Some("e"), None, None),
    ];
    let list = load_servers_summary(&records);
    assert_eq!(list[0].png_icon, Some(b"hello".to_vec()));
    assert_eq!(list[1].png_icon, None);
    assert_eq!(list[2].png_icon, Some(vec![]));
    assert_eq!(list[3].png_icon, None);
    assert_eq!(list[4].png_icon, None);
}

#[test]
fn server_summary_takes_the_icon_it_is_given() {
    let r = record(Some(0), Some("a"), Some("n"), Some("ignored"));
    let s = server_summary(&r, Some(vec![9])).unwrap();
    assert_eq!(s.png_icon, Some(vec![9]));
    assert_eq!(s.name, "n");
    assert!(server_summary(&record(Some(2), Some("a"), None, None), None).is_none());
    assert!(server_summary(&record(None, None, None, None), None).is_none());
}

#[test]
fn missing_or_unreadable_server_file_gives_an_empty_list() {
    let records = || vec![record(None, Some("a"), None, None)];
    assert!(load_servers(false, Some(records())).is_empty());
    assert!(load_servers(true, None).is_empty());
    assert!(load_servers(false, None).is_empty());
    assert_eq!(load_servers(true, Some(records())).len(), 1);
}
