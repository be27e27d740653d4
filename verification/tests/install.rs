use launcher_core::fs_path::FsPath;
use launcher_core::hashing::{digest_text, parse_digest, same_digest, sha1_of};
use launcher_core::ids::InstanceID;
use launcher_core::install::{
    check_status, content_sources, decimal, install_directory, library_place, link_steps, modpack_downloads,
    needs_write, next_download_step, plan_download, plan_local_file, ContentInstallError, ContentInstallPath,
    ContentSource, DownloadProgress, DownloadStep, DownloadVerdict, InstallFromContentLibrary, InstallTarget,
    MAX_CONCURRENT_TRANSFERS,
};
use launcher_core::instance::{Instance, InstanceInfo};
use launcher_core::safe_path::SafePath;
use launcher_core::schema::loader::Loader;
use launcher_core::store::InstanceStore;
use launcher_core::summaries::{LoaderSpecificModSummary, ModSummary, ModpackDownload};

const EMPTY: &str = "da39a3ee5e6b4b0d3255bfef95601890afd80709";
const ABC: &str = "a9993e364706816aba3e25717850c26c9cd0d89d";
const HELLO_WORLD: &str = "2aae6c35c94fcfb415dbe95f408b9ce91ee846ed";

fn path(text: &str) -> FsPath {
    let absolute = text.starts_with('/');
    let names = text.split('/').filter(|s| !s.is_empty()).map(|s| s.to_string()).collect();
    FsPath::new(absolute, names)
}

fn raw(text: &str) -> ContentInstallPath {
    ContentInstallPath::Raw(path(text))
}

fn safe(text: &str) -> ContentInstallPath {
    ContentInstallPath::Safe(SafePath::new(text).unwrap())
}

#[test]
fn sha1_of_known_inputs() {
    assert_eq!(digest_text(&sha1_of(b"")), EMPTY);
    assert_eq!(digest_text(&sha1_of(b"abc")), ABC);
    assert_eq!(digest_text(&sha1_of(b"hello world")), HELLO_WORLD);
}

#[test]
fn digests_are_read_in_either_case() {
    let lower = parse_digest(ABC).unwrap();
    let upper = parse_digest(&ABC.to_uppercase()).unwrap();
    assert_eq!(lower, upper);
    assert_eq!(lower[0], 0xa9);
    assert_eq!(lower[1], 0x99);
    assert_eq!(lower[19], 0x9d);
    assert_eq!(digest_text(&upper), ABC);
    assert!(same_digest(&lower, &upper));
    assert!(!same_digest(&lower, &parse_digest(EMPTY).unwrap()));
    let mut other = lower;
    other[19] ^= 1;
    assert!(!same_digest(&lower, &other));
}

#[test]
fn digests_of_wrong_shape_are_rejected() {
    assert!(parse_digest("").is_none());
    assert!(parse_digest(&ABC[..39]).is_none());
    assert!(parse_digest(&ABC[..38]).is_none());
    assert!(parse_digest(&format!("{}00", ABC)).is_none());
    assert!(parse_digest(&format!("{}g", &ABC[..39])).is_none());
    assert!(parse_digest(&format!("{}é", &ABC[..38])).is_none());
    assert!(parse_digest(&"é".repeat(40)).is_none());
    assert!(parse_digest(&" ".repeat(40)).is_none());
}

#[test]
fn digest_text_is_lower_case_hex() {
    let mut digest = [0u8; 20];
    digest[0] = 0x0f;
    digest[1] = 0xf0;
    digest[19] = 0xAB;
    assert_eq!(digest_text(&digest), "0ff00000000000000000000000000000000000ab");
}

#[test]
fn library_place_is_folder_of_two_digits_then_digest_and_extension() {
    let hash = parse_digest(ABC).unwrap();
    let place = library_place(&path("/lib"), &hash, &Some("jar".to_string()));
    assert_eq!(place.folder, path("/lib/a9"));
    assert_eq!(place.path, path("/lib/a9").child(&format!("{}.jar", ABC)));
    let place = library_place(&path("/lib"), &hash, &None);
    assert_eq!(place.path, path("/lib/a9").child(ABC));
    let place = library_place(&path("/lib"), &hash, &Some(String::new()));
    assert_eq!(place.path, path("/lib/a9").child(ABC));
}

#[test]
fn plan_download_computes_the_place_from_the_digest() {
    let plan = plan_download(&path("/lib"), &raw("mods/Sodium.JAR"), &HELLO_WORLD.to_uppercase()).unwrap();
    assert_eq!(plan.expected_hash, parse_digest(HELLO_WORLD).unwrap());
    assert_eq!(plan.place.folder, path("/lib/2a"));
    assert_eq!(plan.place.path, path("/lib/2a").child(&format!("{}.JAR", HELLO_WORLD)));
    assert_eq!(plan.title, "Downloading Sodium.JAR");
    let plan = plan_download(&path("/lib"), &safe("config/./options.txt"), HELLO_WORLD).unwrap();
    assert_eq!(plan.place.path, path("/lib/2a").child(&format!("{}.txt", HELLO_WORLD)));
    assert_eq!(plan.title, "Downloading options.txt");
    let plan = plan_download(&path("/lib"), &raw("/"), HELLO_WORLD).unwrap();
    assert_eq!(plan.place.path, path("/lib/2a").child(HELLO_WORLD));
    assert_eq!(plan.title, "Downloading ???");
}

#[test]
fn plan_download_rejects_invalid_digest() {
    match plan_download(&path("/lib"), &raw("a.jar"), "xyz") {
        Err(ContentInstallError::InvalidHash(text)) => assert_eq!(text, "xyz"),
        other => panic!("{:?}", other),
    }
}

#[test]
fn same_request_twice_resolves_to_the_same_place_and_second_is_cached() {
    let first = plan_download(&path("/lib"), &raw("mods/a.jar"), ABC).unwrap();
    let second = plan_download(&path("/lib"), &raw("mods/a.jar"), ABC).unwrap();
    assert_eq!(first.place.path, second.place.path);
    assert_eq!(first.expected_hash, second.expected_hash);
    // First call: nothing on disk yet.
    assert_eq!(next_download_step(false), DownloadStep::Fetch);
    // Second call: the library holds the verified file.
    assert_eq!(next_download_step(true), DownloadStep::UseCached);
}

#[test]
fn only_status_200_hands_out_the_file() {
    assert!(check_status(200).is_ok());
    for status in [0u16, 199, 201, 204, 301, 404, 500, u16::MAX] {
        match check_status(status) {
            Err(ContentInstallError::NotOK(s)) => assert_eq!(s, status),
            other => panic!("{:?}", other),
        }
    }
}

#[test]
fn download_of_announced_content_is_kept() {
    let hash = parse_digest(HELLO_WORLD).unwrap();
    let mut progress = DownloadProgress::new(path("/lib/2a/file"), hash, 11);
    progress.accept(b"hello");
    progress.accept(b"");
    progress.accept(b" world");
    match progress.finish() {
        DownloadVerdict::Keep { path: p } => assert_eq!(p, path("/lib/2a/file")),
        other => panic!("{:?}", other),
    }
}

#[test]
fn download_with_wrong_hash_is_discarded() {
    let hash = parse_digest(HELLO_WORLD).unwrap();
    let mut progress = DownloadProgress::new(path("/lib/2a/file"), hash, 11);
    progress.accept(b"hello_world");
    match progress.finish() {
        DownloadVerdict::Discard { path: p, error: ContentInstallError::WrongHash } => {
            assert_eq!(p, path("/lib/2a/file"))
        },
        other => panic!("{:?}", other),
    }
}

#[test]
fn download_with_wrong_size_is_discarded() {
    let hash = parse_digest(HELLO_WORLD).unwrap();
    let mut progress = DownloadProgress::new(path("/lib/2a/file"), hash, 12);
    progress.accept(b"hello world");
    match progress.finish() {
        DownloadVerdict::Discard { path: p, error: ContentInstallError::WrongFilesize } => {
            assert_eq!(p, path("/lib/2a/file"))
        },
        other => panic!("{:?}", other),
    }
}

#[test]
fn wrong_hash_is_reported_before_wrong_size() {
    let hash = parse_digest(HELLO_WORLD).unwrap();
    let mut progress = DownloadProgress::new(path("/f"), hash, 100);
    progress.accept(b"other");
    match progress.finish() {
        DownloadVerdict::Discard { error: ContentInstallError::WrongHash, .. } => {},
        other => panic!("{:?}", other),
    }
}

#[test]
fn empty_download_of_empty_content_is_kept() {
    let progress = DownloadProgress::new(path("/f"), parse_digest(EMPTY).unwrap(), 0);
    match progress.finish() {
        DownloadVerdict::Keep { .. } => {},
        other => panic!("{:?}", other),
    }
}

#[test]
fn local_file_is_placed_by_its_own_digest() {
    let ingest = plan_local_file(&path("/lib"), &raw("mods/local.jar"), &path("/home/u/Downloads/x.jar"), b"abc");
    assert_eq!(digest_text(&ingest.hash), ABC);
    assert_eq!(ingest.place.folder, path("/lib/a9"));
    assert_eq!(ingest.place.path, path("/lib/a9").child(&format!("{}.jar", ABC)));
    assert_eq!(ingest.title, "Copying x.jar");
    assert!(needs_write(false));
    assert!(!needs_write(true));
}

#[test]
fn error_messages() {
    assert_eq!(ContentInstallError::Reqwest("x".to_string()).message(), "Failed to download remote content");
    assert_eq!(
        ContentInstallError::NotOK(404).message(),
        "Remote server returned non-200 status code: 404 Not Found"
    );
    assert_eq!(
        ContentInstallError::NotOK(503).message(),
        "Remote server returned non-200 status code: 503 Service Unavailable"
    );
    assert_eq!(
        ContentInstallError::NotOK(299).message(),
        "Remote server returned non-200 status code: 299 <unknown status code>"
    );
    assert_eq!(
        ContentInstallError::NotOK(0).message(),
        "Remote server returned non-200 status code: 0 <unknown status code>"
    );
    assert_eq!(
        ContentInstallError::NotOK(65535).message(),
        "Remote server returned non-200 status code: 65535 <unknown status code>"
    );
    assert_eq!(
        ContentInstallError::NotOK(404).message_with(Some("Gone Fishing")),
        "Remote server returned non-200 status code: 404 Gone Fishing"
    );
    assert_eq!(ContentInstallError::WrongHash.message_with(Some("x")), "Downloaded file had the wrong hash");
    assert_eq!(ContentInstallError::WrongFilesize.message(), "Downloaded file had the wrong size");
    assert_eq!(ContentInstallError::WrongHash.message(), "Downloaded file had the wrong hash");
    assert_eq!(
        ContentInstallError::InvalidHash("zz".to_string()).message(),
        "Hash isn't a valid sha1 hash:\nzz"
    );
    assert_eq!(
        ContentInstallError::IoError("disk full".to_string()).message(),
        "Failed to perform I/O operation:\ndisk full"
    );
    assert_eq!(ContentInstallError::InvalidPath(path("/x/y.jar")).message(), "Invalid filename:\n/x/y.jar");
}

#[test]
fn decimal_writes_numbers() {
    for n in [0u16, 7, 10, 99, 100, 200, 1000, 40404, 65535] {
        assert_eq!(decimal(n), n.to_string());
    }
}

#[test]
fn install_path_extension_and_file_name() {
    assert_eq!(raw("/a/b.tar.gz").extension(), Some("gz".to_string()));
    assert_eq!(raw("/a/b").extension(), None);
    assert_eq!(raw("/").extension(), None);
    assert_eq!(raw("/a/b.jar").file_name(), Some("b.jar".to_string()));
    assert_eq!(raw("/").file_name(), None);
    assert_eq!(safe("mods/b.jar").extension(), Some("jar".to_string()));
    assert_eq!(safe("mods/b").extension(), None);
    assert_eq!(safe("mods/b.jar").file_name(), Some("b.jar".to_string()));
    assert_eq!(safe("").file_name(), None);
}

#[test]
fn install_path_targets() {
    let dir = path("/inst/a/.minecraft");
    assert_eq!(raw("mods/x.jar").to_target(&dir), path("/inst/a/.minecraft/mods/x.jar"));
    // A raw absolute path escapes the instance.
    assert_eq!(raw("/etc/x").to_target(&dir), path("/etc/x"));
    assert_eq!(safe("mods/./x.jar").to_target(&dir), path("/inst/a/.minecraft/mods/x.jar"));
}

#[test]
fn pack_files_with_unsafe_paths_are_passed_over() {
    let entry = |p: &str| ModpackDownload {
        path: p.to_string(),
        url: format!("https://cdn.example/{}", p),
        sha1: ABC.to_string(),
        file_size: 3,
    };
    let pack = ModSummary {
        id: "pack".to_string(),
        name: "Pack".to_string(),
        version_str: "1".to_string(),
        extra: LoaderSpecificModSummary::ModrinthModpack {
            downloads: vec![entry("mods/a.jar"), entry("../escape.jar"), entry("mods/con.jar"), entry("config/b.toml")],
        },
    };
    let files = modpack_downloads(&pack);
    assert_eq!(files.len(), 2);
    assert_eq!(files[0].path.as_str(), "mods/a.jar");
    assert_eq!(files[0].url, "https://cdn.example/mods/a.jar");
    assert_eq!(files[0].sha1, ABC);
    assert_eq!(files[0].size, 3);
    assert_eq!(files[1].path.as_str(), "config/b.toml");
    let plain = ModSummary {
        id: "m".to_string(),
        name: "M".to_string(),
        version_str: "1".to_string(),
        extra: LoaderSpecificModSummary::Plain,
    };
    assert!(modpack_downloads(&plain).is_empty());
}

fn installed(from: &str, to: ContentInstallPath, source: ContentSource, first: u8) -> InstallFromContentLibrary {
    let mut hash = [0u8; 20];
    hash[0] = first;
    InstallFromContentLibrary { from: path(from), replace: None, hash, path: to, content_source: source }
}

#[test]
fn origins_are_recorded_for_all_but_manual_files() {
    let files = vec![
        installed("/lib/01/a", raw("mods/a.jar"), ContentSource::Modrinth, 1),
        installed("/lib/02/b", raw("mods/b.jar"), ContentSource::Manual, 2),
        installed("/lib/03/c", raw("mods/c.jar"), ContentSource::Modrinth, 3),
    ];
    let sources = content_sources(&files);
    assert_eq!(sources.len(), 2);
    assert_eq!(sources[0].hash[0], 1);
    assert_eq!(sources[0].source, ContentSource::Modrinth);
    assert_eq!(sources[1].hash[0], 3);
    assert!(content_sources(&vec![]).is_empty());
}

#[test]
fn link_steps_lead_from_the_library_into_the_instance() {
    let mut replaced = installed("/lib/02/b", safe("mods/b.jar"), ContentSource::Manual, 2);
    replaced.replace = Some(path("/inst/a/.minecraft/mods/b-old.jar"));
    let files = vec![installed("/lib/01/a", raw("mods/a.jar"), ContentSource::Modrinth, 1), replaced];
    let steps = link_steps(&path("/inst/a/.minecraft"), files);
    assert_eq!(steps.len(), 2);
    assert_eq!(steps[0].from, path("/lib/01/a"));
    assert_eq!(steps[0].to, path("/inst/a/.minecraft/mods/a.jar"));
    assert_eq!(steps[0].replace, None);
    assert_eq!(steps[1].from, path("/lib/02/b"));
    assert_eq!(steps[1].to, path("/inst/a/.minecraft/mods/b.jar"));
    assert_eq!(steps[1].replace, Some(path("/inst/a/.minecraft/mods/b-old.jar")));
}

#[test]
fn install_directory_is_known_for_existing_instances_only() {
    let mut store = InstanceStore::new();
    let info = InstanceInfo { minecraft_version: "1.21".to_string(), loader: Loader::Vanilla };
    let id = store.insert(Instance::load_from_folder(&path("/inst/a"), true, Ok(info)).unwrap()).unwrap();
    assert_eq!(install_directory(&InstallTarget::Instance(id), &store), Some(path("/inst/a/.minecraft")));
    let stale = InstanceID { index: id.index, generation: id.generation + 1 };
    assert_eq!(install_directory(&InstallTarget::Instance(stale), &store), None);
    assert_eq!(install_directory(&InstallTarget::Library, &store), None);
    let new = InstallTarget::NewInstance { loader: Loader::Fabric, name: "n".to_string(), minecraft_version: None };
    assert_eq!(install_directory(&new, &store), None);
}

#[test]
fn eight_transfers_at_once() {
    assert_eq!(MAX_CONCURRENT_TRANSFERS, 8);
}

#[test]
fn a_digest_shared_by_two_files_is_recorded_once() {
    let files = vec![
        installed("/lib/01/a", raw("mods/a.jar"), ContentSource::Manual, 1),
        installed("/lib/01/a", raw("mods/a-copy.jar"), ContentSource::Modrinth, 1),
        installed("/lib/02/b", raw("mods/b.jar"), ContentSource::Modrinth, 2),
        installed("/lib/01/a", raw("mods/a-again.jar"), ContentSource::Modrinth, 1),
        installed("/lib/02/b", raw("mods/b-again.jar"), ContentSource::Manual, 2),
    ];
    let sources = content_sources(&files);
    assert_eq!(sources.len(), 2);
    assert_eq!(sources[0].hash[0], 1);
    assert_eq!(sources[0].source, ContentSource::Modrinth);
    assert_eq!(sources[1].hash[0], 2);
    assert_eq!(sources[1].source, ContentSource::Modrinth);
}
