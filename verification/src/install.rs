//! The content installer's decisions: where a file lives in the
//! content-addressed library, whether a transfer is needed, whether what
//! arrived is what was asked for, and how installed files reach an instance.
//! Transfers and disk access are the caller's part.

use crate::fs_path::FsPath;
use crate::fs_path::FsPathView;
use crate::hashing::digest_text;
use crate::hashing::hash_finish;
use crate::hashing::hash_start;
use crate::hashing::hash_update;
use crate::hashing::hashed_bytes;
use crate::hashing::hex_bytes;
use crate::hashing::hex_text;
use crate::hashing::is_hex_of;
use crate::hashing::parse_digest;
use crate::hashing::same_digest;
use crate::hashing::sha1_digest;
use crate::hashing::sha1_of;
use crate::hashing::HashState;
use crate::ids::InstanceID;
use crate::instance::game_dir;
use crate::instance::game_dir_name;
use crate::safe_path::all_safe;
use crate::safe_path::component_texts;
use crate::safe_path::components_of;
use crate::safe_path::normalized_path;
use crate::safe_path::relative_extension;
use crate::safe_path::relative_file_name;
use crate::safe_path::SafePath;
use crate::schema::loader::Loader;
use crate::store::InstanceStore;
use crate::summaries::LoaderSpecificModSummary;
use crate::summaries::LoaderSpecificView;
use crate::summaries::ModSummary;
use crate::summaries::downloads_view;
use crate::summaries::ModpackDownloadView;
use crate::text::extension_of;
use crate::text::file_extension;
use crate::worlds::text_view;
use vstd::prelude::*;

verus! {

/// How many transfers run at once at most. A file holds its place from the
/// start of its transfer until it is checked.
pub const MAX_CONCURRENT_TRANSFERS: usize = 8;

/// The status with which a server hands out what was asked for.
pub const STATUS_OK: u16 = 200;

/// Where a piece of content came from.
#[derive(Debug, Clone, Copy, PartialEq, Eq, Structural)]
pub enum ContentSource {
    /// The user added the file by hand.
    Manual,
    /// The file came from Modrinth.
    Modrinth,
}

/// Where an install puts its files.
#[derive(Debug)]
pub enum InstallTarget {
    /// Into an instance that exists.
    Instance(InstanceID),
    /// Into the content library only.
    Library,
    /// Into an instance that is made for them.
    NewInstance { loader: Loader, name: String, minecraft_version: Option<String> },
}

/// A request to install files.
#[derive(Debug)]
pub struct ContentInstall {
    pub target: InstallTarget,
    pub files: Vec<ContentInstallFile>,
}

/// Where in the instance a file goes: any path, or one that is known to stay
/// inside the instance.
#[derive(Debug)]
pub enum ContentInstallPath {
    Raw(FsPath),
    Safe(SafePath),
}

/// One file of an install request.
#[derive(Debug)]
pub struct ContentInstallFile {
    /// A file to delete before this one is put in place.
    pub replace_old: Option<FsPath>,
    pub path: ContentInstallPath,
    pub download: ContentDownload,
    pub content_source: ContentSource,
}

/// Where the content of a file comes from.
#[derive(Debug)]
pub enum ContentDownload {
    /// From the network: the address, the SHA-1 digest in hexadecimal and the
    /// size that the content must have.
    Url { url: String, sha1: String, size: usize },
    /// From a file on this machine.
    File { path: FsPath },
}

/// Why a file could not be installed.
#[derive(Debug)]
pub enum ContentInstallError {
    /// The transfer failed; the text says why.
    Reqwest(String),
    /// The server answered with this status instead of handing out the file.
    NotOK(u16),
    /// What arrived has the right digest but not the size that was announced.
    WrongFilesize,
    /// What arrived does not have the digest that was announced.
    WrongHash,
    /// The announced digest is not forty hexadecimal digits.
    InvalidHash(String),
    /// Reading or writing failed; the text says why.
    IoError(String),
    /// The file's path cannot be used.
    InvalidPath(FsPath),
}

/// What an error is to the contracts.
pub enum InstallErrorView {
    Reqwest(Seq<char>),
    NotOK(u16),
    WrongFilesize,
    WrongHash,
    InvalidHash(Seq<char>),
    IoError(Seq<char>),
    InvalidPath(FsPathView),
}

impl View for ContentInstallError {
    type V = InstallErrorView;

    open spec fn view(&self) -> InstallErrorView {
        match *self {
            ContentInstallError::Reqwest(text) => InstallErrorView::Reqwest(text@),
            ContentInstallError::NotOK(status) => InstallErrorView::NotOK(status),
            ContentInstallError::WrongFilesize => InstallErrorView::WrongFilesize,
            ContentInstallError::WrongHash => InstallErrorView::WrongHash,
            ContentInstallError::InvalidHash(text) => InstallErrorView::InvalidHash(text@),
            ContentInstallError::IoError(text) => InstallErrorView::IoError(text@),
            ContentInstallError::InvalidPath(path) => InstallErrorView::InvalidPath(path@),
        }
    }
}

/// The decimal digits of `n`.
pub open spec fn decimal_text(n: nat) -> Seq<char>
    decreases n,
{
    if n < 10 {
        seq![('0' as int + n) as char]
    } else {
        decimal_text(n / 10).push(('0' as int + n % 10) as char)
    }
}

/// The text made of the decimal digit for `n`.
fn digit_text(n: u16) -> (r: &'static str)
    requires
        n < 10,
    ensures
        r@ == seq![('0' as int + n) as char],
{
    let r: &'static str = if n == 0 {
        "0"
    } else if n == 1 {
        "1"
    } else if n == 2 {
        "2"
    } else if n == 3 {
        "3"
    } else if n == 4 {
        "4"
    } else if n == 5 {
        "5"
    } else if n == 6 {
        "6"
    } else if n == 7 {
        "7"
    } else if n == 8 {
        "8"
    } else {
        "9"
    };
    proof {
        reveal_strlit("0");
        reveal_strlit("1");
        reveal_strlit("2");
        reveal_strlit("3");
        reveal_strlit("4");
        reveal_strlit("5");
        reveal_strlit("6");
        reveal_strlit("7");
        reveal_strlit("8");
        reveal_strlit("9");
        assert(r@ =~= seq![('0' as int + n) as char]);
    }
    r
}

/// `n` in decimal digits.
pub fn decimal(n: u16) -> (r: String)
    ensures
        r@ == decimal_text(n as nat),
    decreases n,
{
    if n < 10 {
        String::from_str(digit_text(n))
    } else {
        let mut text = decimal(n / 10);
        text.append(digit_text(n % 10));
        assert(text@ =~= decimal_text(n as nat / 10).push(('0' as int + n % 10) as char));
        text
    }
}

/// The words that go with an HTTP status, as `http::StatusCode` knows them:
/// `canonical_reason` of the status, or `None` for a number that is no status
/// or has no words.
pub uninterp spec fn canonical_reason(status: u16) -> Option<Seq<char>>;

/// The words that go with an HTTP status. Calls
/// `reqwest::StatusCode::from_u16` and then `canonical_reason`. Trusted: the
/// result is what these give for this number, and `None` where either gives
/// nothing.
#[verifier::external_body]
fn status_reason(status: u16) -> (r: Option<&'static str>)
    ensures
        r is Some == canonical_reason(status) is Some,
        r matches Some(words) ==> words@ == canonical_reason(status)->0,
{
    reqwest::StatusCode::from_u16(status).ok().and_then(|code| code.canonical_reason())
}

/// A status as it is written: the number, then its words, or a note that
/// there are none.
pub open spec fn status_text(status: u16, reason: Option<Seq<char>>) -> Seq<char> {
    decimal_text(status as nat) + " "@ + match reason {
        Some(words) => words,
        None => "<unknown status code>"@,
    }
}

impl InstallErrorView {
    /// The error in words, for a status whose words are `reason`.
    pub open spec fn message_with(self, reason: Option<Seq<char>>) -> Seq<char> {
        match self {
            InstallErrorView::Reqwest(_) => "Failed to download remote content"@,
            InstallErrorView::NotOK(status) => "Remote server returned non-200 status code: "@
                + status_text(status, reason),
            InstallErrorView::WrongFilesize => "Downloaded file had the wrong size"@,
            InstallErrorView::WrongHash => "Downloaded file had the wrong hash"@,
            InstallErrorView::InvalidHash(text) => "Hash isn't a valid sha1 hash:\n"@ + text,
            InstallErrorView::IoError(text) => "Failed to perform I/O operation:\n"@ + text,
            InstallErrorView::InvalidPath(path) => "Invalid filename:\n"@ + path.text(),
        }
    }

    /// The error in words.
    pub open spec fn message(self) -> Seq<char> {
        self.message_with(
            match self {
                InstallErrorView::NotOK(status) => canonical_reason(status),
                _ => None,
            },
        )
    }
}

impl ContentInstallError {
    /// The error in words, for a status whose words are `reason`.
    pub fn message_with(&self, reason: Option<&str>) -> (r: String)
        ensures
            r@ == self@.message_with(
                match reason {
                    Some(words) => Some(words@),
                    None => None,
                },
            ),
    {
        match self {
            ContentInstallError::Reqwest(_) => String::from_str("Failed to download remote content"),
            ContentInstallError::NotOK(status) => {
                let mut text = String::from_str("Remote server returned non-200 status code: ");
                let mut written = decimal(*status);
                written.append(" ");
                match reason {
                    Some(words) => {
                        written.append(words);
                    },
                    None => {
                        written.append("<unknown status code>");
                    },
                }
                text.append(written.as_str());
                assert(text@ =~= self@.message_with(
                    match reason {
                        Some(words) => Some(words@),
                        None => None,
                    },
                ));
                text
            },
            ContentInstallError::WrongFilesize => String::from_str(
                "Downloaded file had the wrong size",
            ),
            ContentInstallError::WrongHash => String::from_str("Downloaded file had the wrong hash"),
            ContentInstallError::InvalidHash(hash) => {
                let mut text = String::from_str("Hash isn't a valid sha1 hash:\n");
                text.append(hash.as_str());
                text
            },
            ContentInstallError::IoError(cause) => {
                let mut text = String::from_str("Failed to perform I/O operation:\n");
                text.append(cause.as_str());
                text
            },
            ContentInstallError::InvalidPath(path) => {
                let mut text = String::from_str("Invalid filename:\n");
                text.append(path.to_text().as_str());
                text
            },
        }
    }

    /// The error in words.
    pub fn message(&self) -> (r: String)
        ensures
            r@ == self@.message(),
    {
        let reason = match self {
            ContentInstallError::NotOK(status) => status_reason(*status),
            _ => None,
        };
        self.message_with(reason)
    }
}

impl ContentInstallPath {
    /// The extension of the file that the path names.
    pub open spec fn spec_extension(&self) -> Option<Seq<char>> {
        match *self {
            ContentInstallPath::Raw(path) => match path@.file_name() {
                Some(name) => extension_of(name),
                None => None,
            },
            ContentInstallPath::Safe(path) => relative_extension(path@),
        }
    }

    /// The name of the file that the path names.
    pub open spec fn spec_file_name(&self) -> Option<Seq<char>> {
        match *self {
            ContentInstallPath::Raw(path) => path@.file_name(),
            ContentInstallPath::Safe(path) => relative_file_name(path@),
        }
    }

    /// The path below `dir` that this path leads to. A raw path that starts at
    /// the root stands for itself.
    pub open spec fn spec_target(&self, dir: FsPathView) -> FsPathView {
        match *self {
            ContentInstallPath::Raw(path) => dir.join(path@),
            ContentInstallPath::Safe(path) => FsPathView {
                absolute: dir.absolute,
                names: dir.names + component_texts(components_of(path@)),
            },
        }
    }

    /// The extension of the file that the path names.
    pub fn extension(&self) -> (r: Option<String>)
        ensures
            text_view(r) == self.spec_extension(),
    {
        match self {
            ContentInstallPath::Raw(path) => match path.file_name() {
                Some(name) => file_extension(name.as_str()),
                None => None,
            },
            ContentInstallPath::Safe(path) => match path.extension() {
                Some(ext) => Some(String::from_str(ext)),
                None => None,
            },
        }
    }

    /// The name of the file that the path names.
    pub fn file_name(&self) -> (r: Option<String>)
        ensures
            text_view(r) == self.spec_file_name(),
    {
        match self {
            ContentInstallPath::Raw(path) => match path.file_name() {
                Some(name) => Some(name.clone()),
                None => None,
            },
            ContentInstallPath::Safe(path) => match path.file_name() {
                Some(name) => Some(String::from_str(name)),
                None => None,
            },
        }
    }

    /// The path below `dir` that this path leads to.
    pub fn to_target(&self, dir: &FsPath) -> (r: FsPath)
        ensures
            r@ == self.spec_target(dir@),
    {
        match self {
            ContentInstallPath::Raw(path) => dir.join(path),
            ContentInstallPath::Safe(path) => path.to_path(dir),
        }
    }
}

/// The name of the library folder for content with the digest `hash`: the
/// first two hexadecimal digits of the digest.
pub open spec fn content_folder_name(hash: Seq<u8>) -> Seq<char> {
    hex_text(hash).take(2)
}

/// The name of the library file for content with the digest `hash`: the
/// digest in hexadecimal, and the extension behind a dot where there is one.
pub open spec fn content_file_name(hash: Seq<u8>, extension: Option<Seq<char>>) -> Seq<char> {
    match extension {
        Some(ext) => if ext.len() > 0 {
            hex_text(hash) + "."@ + ext
        } else {
            hex_text(hash)
        },
        None => hex_text(hash),
    }
}

/// The library folder for content with the digest `hash`.
pub open spec fn content_folder(store: FsPathView, hash: Seq<u8>) -> FsPathView {
    store.child(content_folder_name(hash))
}

/// The library path for content with the digest `hash`.
pub open spec fn content_path(store: FsPathView, hash: Seq<u8>, extension: Option<Seq<char>>) -> FsPathView {
    content_folder(store, hash).child(content_file_name(hash, extension))
}

/// Where content lives in the library: the folder to make sure of, and the
/// file itself.
#[derive(Debug)]
pub struct LibraryPlace {
    pub folder: FsPath,
    pub path: FsPath,
}

/// Where content with the digest `hash` lives in the library below `store`.
pub fn library_place(store: &FsPath, hash: &[u8; 20], extension: &Option<String>) -> (r:
    LibraryPlace)
    ensures
        r.folder@ == content_folder(store@, hash@),
        r.path@ == content_path(store@, hash@, text_view(*extension)),
{
    let hex = digest_text(hash);
    let folder = store.child(hex.as_str().substring_char(0, 2));
    let mut name = hex.clone();
    match extension {
        Some(ext) => {
            if ext.as_str().unicode_len() > 0 {
                name.append(".");
                name.append(ext.as_str());
            }
        },
        None => {},
    }
    let path = folder.child(name.as_str());
    LibraryPlace { folder, path }
}

/// What the progress of a transfer is called: the word and, behind it, the
/// name of the file, or `???` where it has none.
pub open spec fn progress_title(verb: Seq<char>, file_name: Option<Seq<char>>) -> Seq<char> {
    verb + match file_name {
        Some(name) => name,
        None => "???"@,
    }
}

/// A transfer that is planned: where the content will live, which digest it
/// must have, and what its progress is called.
#[derive(Debug)]
pub struct DownloadPlan {
    pub place: LibraryPlace,
    pub expected_hash: [u8; 20],
    pub title: String,
}

/// Plans the transfer of a file that is announced with the digest `sha1`:
/// where it will live follows from the digest alone, before anything is
/// fetched. A digest that is not forty hexadecimal digits is an error.
pub fn plan_download(store: &FsPath, content_path: &ContentInstallPath, sha1: &str) -> (r: Result<
    DownloadPlan,
    ContentInstallError,
>)
    ensures
        r is Ok == is_hex_of(sha1@, 20),
        r matches Err(error) ==> error@ == InstallErrorView::InvalidHash(sha1@),
        r matches Ok(plan) ==> {
            &&& plan.expected_hash@ == hex_bytes(sha1@)
            &&& plan.place.folder@ == content_folder(store@, hex_bytes(sha1@))
            &&& plan.place.path@ == self::content_path(
                store@,
                hex_bytes(sha1@),
                content_path.spec_extension(),
            )
            &&& plan.title@ == progress_title("Downloading "@, content_path.spec_file_name())
        },
{
    let expected_hash = match parse_digest(sha1) {
        Some(hash) => hash,
        None => {
            return Err(ContentInstallError::InvalidHash(String::from_str(sha1)));
        },
    };
    let extension = content_path.extension();
    let place = library_place(store, &expected_hash, &extension);
    let mut title = String::from_str("Downloading ");
    match content_path.file_name() {
        Some(name) => {
            title.append(name.as_str());
        },
        None => {
            title.append("???");
        },
    }
    Ok(DownloadPlan { place, expected_hash, title })
}

/// What to do for a planned transfer.
#[derive(Debug, Clone, Copy, PartialEq, Eq, Structural)]
pub enum DownloadStep {
    /// The library holds the content already: nothing is fetched, the
    /// transfer counts as done at once.
    UseCached,
    /// The content is fetched.
    Fetch,
}

/// What to do for a planned transfer. `valid_hash_on_disk` says whether the
/// library holds a file at the planned path that has the announced digest.
pub fn next_download_step(valid_hash_on_disk: bool) -> (r: DownloadStep)
    ensures
        r == if valid_hash_on_disk {
            DownloadStep::UseCached
        } else {
            DownloadStep::Fetch
        },
{
    if valid_hash_on_disk {
        DownloadStep::UseCached
    } else {
        DownloadStep::Fetch
    }
}

/// Whether the server's answer hands out the file: any status but 200 is an
/// error.
pub fn check_status(status: u16) -> (r: Result<(), ContentInstallError>)
    ensures
        r is Ok == (status == STATUS_OK),
        r matches Err(error) ==> error@ == InstallErrorView::NotOK(status),
{
    if status == STATUS_OK {
        Ok(())
    } else {
        Err(ContentInstallError::NotOK(status))
    }
}

/// What became of a transfer.
#[derive(Debug)]
pub enum DownloadVerdict {
    /// What arrived is what was announced: the file at `path` stays.
    Keep { path: FsPath },
    /// What arrived is something else: the file at `path` is to be deleted.
    Discard { path: FsPath, error: ContentInstallError },
}

/// A transfer in progress: what was announced, and what has arrived so far.
pub struct DownloadProgress {
    path: FsPath,
    expected_hash: [u8; 20],
    expected_size: usize,
    received: Option<usize>,
    hasher: HashState,
}

impl DownloadProgress {
    /// The count of the bytes is kept as long as it fits.
    pub closed spec fn wf(&self) -> bool {
        match self.received {
            Some(n) => n == hashed_bytes(self.hasher).len(),
            None => hashed_bytes(self.hasher).len() > usize::MAX,
        }
    }

    /// The bytes that have arrived so far.
    pub closed spec fn received_bytes(&self) -> Seq<u8> {
        hashed_bytes(self.hasher)
    }

    /// The digest that was announced.
    pub closed spec fn expected_hash(&self) -> Seq<u8> {
        self.expected_hash@
    }

    /// The size that was announced.
    pub closed spec fn expected_size(&self) -> usize {
        self.expected_size
    }

    /// Where the content is written.
    pub closed spec fn path(&self) -> FsPathView {
        self.path@
    }

    /// Whether what has arrived is all that was announced, and nothing else.
    pub open spec fn is_as_announced(&self) -> bool {
        sha1_digest(self.received_bytes()) == self.expected_hash() && self.received_bytes().len()
            == self.expected_size()
    }

    /// The start of the transfer of `size` bytes with the digest
    /// `expected_hash` into the file at `path`.
    pub fn new(path: FsPath, expected_hash: [u8; 20], size: usize) -> (r: DownloadProgress)
        ensures
            r.wf(),
            r.received_bytes() == Seq::<u8>::empty(),
            r.expected_hash() == expected_hash@,
            r.expected_size() == size,
            r.path() == path@,
    {
        DownloadProgress {
            path,
            expected_hash,
            expected_size: size,
            received: Some(0),
            hasher: hash_start(),
        }
    }

    /// Takes in the next piece of the content.
    pub fn accept(&mut self, chunk: &[u8])
        requires
            old(self).wf(),
        ensures
            final(self).wf(),
            final(self).received_bytes() == old(self).received_bytes() + chunk@,
            final(self).expected_hash() == old(self).expected_hash(),
            final(self).expected_size() == old(self).expected_size(),
            final(self).path() == old(self).path(),
    {
        self.received = match self.received {
            Some(n) => n.checked_add(chunk.len()),
            None => None,
        };
        hash_update(&mut self.hasher, chunk);
    }

    /// Ends the transfer: the file stays if what arrived has the announced
    /// digest and size, and is to be deleted if not. A wrong digest is
    /// reported before a wrong size.
    pub fn finish(self) -> (r: DownloadVerdict)
        requires
            self.wf(),
        ensures
            r is Keep == self.is_as_announced(),
            r matches DownloadVerdict::Keep { path } ==> path@ == self.path(),
            r matches DownloadVerdict::Discard { path, error } ==> {
                &&& path@ == self.path()
                &&& error@ == if sha1_digest(self.received_bytes()) != self.expected_hash() {
                    InstallErrorView::WrongHash
                } else {
                    InstallErrorView::WrongFilesize
                }
            },
    {
        let wrong_size = match self.received {
            Some(n) => n != self.expected_size,
            None => true,
        };
        let actual = hash_finish(self.hasher);
        let wrong_hash = !same_digest(&actual, &self.expected_hash);
        if wrong_hash {
            DownloadVerdict::Discard { path: self.path, error: ContentInstallError::WrongHash }
        } else if wrong_size {
            DownloadVerdict::Discard { path: self.path, error: ContentInstallError::WrongFilesize }
        } else {
            DownloadVerdict::Keep { path: self.path }
        }
    }
}

/// A file of this machine that is taken into the library: where it will
/// live, its digest, and what its progress is called.
#[derive(Debug)]
pub struct LocalIngest {
    pub place: LibraryPlace,
    pub hash: [u8; 20],
    pub title: String,
}

/// Plans taking the file `source`, whose content is `data`, into the library
/// for the install path `content_path`.
pub fn plan_local_file(
    store: &FsPath,
    content_path: &ContentInstallPath,
    source: &FsPath,
    data: &[u8],
) -> (r: LocalIngest)
    requires
        source@.names.len() > 0,
    ensures
        r.hash@ == sha1_digest(data@),
        r.place.folder@ == content_folder(store@, sha1_digest(data@)),
        r.place.path@ == self::content_path(
            store@,
            sha1_digest(data@),
            content_path.spec_extension(),
        ),
        r.title@ == "Copying "@ + source@.names.last(),
{
    let hash = sha1_of(data);
    let extension = content_path.extension();
    let place = library_place(store, &hash, &extension);
    let mut title = String::from_str("Copying ");
    match source.file_name() {
        Some(name) => {
            title.append(name.as_str());
        },
        None => {},
    }
    LocalIngest { place, hash, title }
}

/// Whether the content has to be written into the library.
/// `valid_hash_on_disk` says whether the library holds a file at the planned
/// path that has the content's digest.
pub fn needs_write(valid_hash_on_disk: bool) -> (r: bool)
    ensures
        r == !valid_hash_on_disk,
{
    !valid_hash_on_disk
}

/// A file to fetch.
#[derive(Debug)]
pub struct RemoteFile {
    pub path: SafePath,
    pub url: String,
    pub sha1: String,
    pub size: usize,
}

/// What a file to fetch is to the contracts.
pub struct RemoteFileView {
    pub path: Seq<char>,
    pub url: Seq<char>,
    pub sha1: Seq<char>,
    pub size: usize,
}

impl View for RemoteFile {
    type V = RemoteFileView;

    open spec fn view(&self) -> RemoteFileView {
        RemoteFileView { path: self.path@, url: self.url@, sha1: self.sha1@, size: self.size }
    }
}

/// What each of `files` is to the contracts.
pub open spec fn remote_files_view(files: Seq<RemoteFile>) -> Seq<RemoteFileView> {
    Seq::new(files.len(), |i: int| files[i]@)
}

/// The files to fetch for the first `n` entries of a pack's list: one for
/// each entry whose path is safe, in order.
pub open spec fn pack_files(downloads: Seq<ModpackDownloadView>, n: nat) -> Seq<RemoteFileView>
    recommends
        n <= downloads.len(),
    decreases n,
{
    if n == 0 {
        Seq::empty()
    } else {
        let front = pack_files(downloads, (n - 1) as nat);
        let entry = downloads[n - 1];
        if all_safe(components_of(entry.path)) {
            front.push(
                RemoteFileView {
                    path: normalized_path(entry.path),
                    url: entry.url,
                    sha1: entry.sha1,
                    size: entry.file_size,
                },
            )
        } else {
            front
        }
    }
}

/// The files that a fetched file asks to fetch in turn: those of its list if
/// it is a pack, none if it is not.
pub open spec fn files_asked_for(extra: LoaderSpecificView) -> Seq<RemoteFileView> {
    match extra {
        LoaderSpecificView::ModrinthModpack { downloads } => pack_files(downloads, downloads.len()),
        LoaderSpecificView::Plain => Seq::empty(),
    }
}

/// The files that the fetched file with the self-description `summary` asks
/// to fetch in turn. Entries of a pack whose path is not safe are passed over.
pub fn modpack_downloads(summary: &ModSummary) -> (r: Vec<RemoteFile>)
    ensures
        remote_files_view(r@) == files_asked_for(summary@.extra),
{
    let mut out: Vec<RemoteFile> = Vec::new();
    assert(remote_files_view(out@) =~= Seq::empty());
    match &summary.extra {
        LoaderSpecificModSummary::Plain => {},
        LoaderSpecificModSummary::ModrinthModpack { downloads } => {
            let mut i: usize = 0;
            while i < downloads.len()
                invariant
                    i <= downloads.len(),
                    remote_files_view(out@) == pack_files(downloads_view(downloads@), i as nat),
                decreases downloads.len() - i,
            {
                let ghost before = remote_files_view(out@);
                let entry = &downloads[i];
                match SafePath::new(entry.path.as_str()) {
                    Some(path) => {
                        let file = RemoteFile {
                            path,
                            url: entry.url.clone(),
                            sha1: entry.sha1.clone(),
                            size: entry.file_size,
                        };
                        out.push(file);
                        assert(remote_files_view(out@) =~= before.push(file@));
                    },
                    None => {},
                }
                i += 1;
            }
        },
    }
    out
}

/// A file that has reached the library and waits to be put into an instance.
#[derive(Debug)]
pub struct InstallFromContentLibrary {
    /// Where the content lives in the library.
    pub from: FsPath,
    /// A file to delete before the content is put in place.
    pub replace: Option<FsPath>,
    pub hash: [u8; 20],
    /// Where in the instance the content goes.
    pub path: ContentInstallPath,
    pub content_source: ContentSource,
}

/// Where a piece of content came from, by its digest.
#[derive(Debug)]
pub struct SourceRecord {
    pub hash: [u8; 20],
    pub source: ContentSource,
}

/// What a record of origin is to the contracts.
pub struct SourceRecordView {
    pub hash: Seq<u8>,
    pub source: ContentSource,
}

/// What each of `records` is to the contracts.
pub open spec fn source_records_view(records: Seq<SourceRecord>) -> Seq<SourceRecordView> {
    Seq::new(
        records.len(),
        |i: int| SourceRecordView { hash: records[i].hash@, source: records[i].source },
    )
}

/// Whether `records` hold a record for the digest `hash`.
pub open spec fn has_record(records: Seq<SourceRecordView>, hash: Seq<u8>) -> bool {
    exists|k: int| 0 <= k < records.len() && (#[trigger] records[k]).hash == hash
}

/// The records of origin for the first `n` of `files`: one for each digest
/// that a file not added by hand has, in the order in which the digests are
/// met first.
pub open spec fn sources_of(files: Seq<InstallFromContentLibrary>, n: nat) -> Seq<SourceRecordView>
    recommends
        n <= files.len(),
    decreases n,
{
    if n == 0 {
        Seq::empty()
    } else {
        let front = sources_of(files, (n - 1) as nat);
        if files[n - 1].content_source != ContentSource::Manual && !has_record(
            front,
            files[n - 1].hash@,
        ) {
            front.push(
                SourceRecordView { hash: files[n - 1].hash@, source: files[n - 1].content_source },
            )
        } else {
            front
        }
    }
}

/// Whether `records` hold a record for the digest `hash`.
fn is_recorded(records: &Vec<SourceRecord>, hash: &[u8; 20]) -> (r: bool)
    ensures
        r == has_record(source_records_view(records@), hash@),
{
    let mut k: usize = 0;
    while k < records.len()
        invariant
            k <= records.len(),
            forall|j: int| 0 <= j < k ==> source_records_view(records@)[j].hash != hash@,
        decreases records.len() - k,
    {
        if same_digest(&records[k].hash, hash) {
            assert(source_records_view(records@)[k as int].hash == hash@);
            return true;
        }
        k += 1;
    }
    false
}

/// The origins to record after an install: one for each digest that a file
/// not added by hand has. A digest that two files share is recorded once.
pub fn content_sources(files: &Vec<InstallFromContentLibrary>) -> (r: Vec<SourceRecord>)
    ensures
        source_records_view(r@) == sources_of(files@, files@.len()),
{
    let mut out: Vec<SourceRecord> = Vec::new();
    let mut i: usize = 0;
    assert(source_records_view(out@) =~= Seq::empty());
    while i < files.len()
        invariant
            i <= files.len(),
            source_records_view(out@) == sources_of(files@, i as nat),
        decreases files.len() - i,
    {
        let ghost before = source_records_view(out@);
        let source = files[i].content_source;
        if source != ContentSource::Manual && !is_recorded(&out, &files[i].hash) {
            out.push(SourceRecord { hash: files[i].hash, source });
            assert(source_records_view(out@) =~= before.push(
                SourceRecordView { hash: files[i as int].hash@, source },
            ));
        }
        i += 1;
    }
    out
}

/// The origins to record hold each digest once, hold no file that was added by
/// hand, and hold the digest of every file that was not.
pub proof fn lemma_sources_once_per_hash(files: Seq<InstallFromContentLibrary>, n: nat)
    requires
        n <= files.len(),
    ensures
        forall|i: int, j: int|
            0 <= i < j < sources_of(files, n).len() ==> sources_of(files, n)[i].hash
                != sources_of(files, n)[j].hash,
        forall|k: int|
            0 <= k < sources_of(files, n).len() ==> (#[trigger] sources_of(files, n)[k]).source
                != ContentSource::Manual,
        forall|f: int|
            0 <= f < n && files[f].content_source != ContentSource::Manual ==> has_record(
                sources_of(files, n),
                (#[trigger] files[f]).hash@,
            ),
    decreases n,
{
    if n > 0 {
        let front = sources_of(files, (n - 1) as nat);
        let out = sources_of(files, n);
        lemma_sources_once_per_hash(files, (n - 1) as nat);
        assert forall|f: int|
            0 <= f < n && files[f].content_source != ContentSource::Manual implies has_record(
            out,
            (#[trigger] files[f]).hash@,
        ) by {
            if f < n - 1 {
                let k = choose|k: int|
                    0 <= k < front.len() && (#[trigger] front[k]).hash == files[f].hash@;
                assert(out[k].hash == files[f].hash@);
            } else if has_record(front, files[f].hash@) {
                let k = choose|k: int|
                    0 <= k < front.len() && (#[trigger] front[k]).hash == files[f].hash@;
                assert(out[k].hash == files[f].hash@);
            } else {
                assert(out[out.len() - 1].hash == files[f].hash@);
            }
        }
    }
}

/// One file to put into an instance: the file at `replace` is deleted, the
/// folder of `to` is made sure of, and the content at `from` appears at `to` as
/// a hard link, so that the library keeps the only copy.
#[derive(Debug)]
pub struct LinkStep {
    pub from: FsPath,
    pub to: FsPath,
    pub replace: Option<FsPath>,
}

/// What a step is to the contracts.
pub struct LinkStepView {
    pub from: FsPathView,
    pub to: FsPathView,
    pub replace: Option<FsPathView>,
}

/// What an optional path is to the contracts.
pub open spec fn opt_path_view(path: Option<FsPath>) -> Option<FsPathView> {
    match path {
        Some(p) => Some(p@),
        None => None,
    }
}

impl View for LinkStep {
    type V = LinkStepView;

    open spec fn view(&self) -> LinkStepView {
        LinkStepView { from: self.from@, to: self.to@, replace: opt_path_view(self.replace) }
    }
}

/// What each of `steps` is to the contracts.
pub open spec fn link_steps_view(steps: Seq<LinkStep>) -> Seq<LinkStepView> {
    Seq::new(steps.len(), |i: int| steps[i]@)
}

/// The step that puts `file` into the instance whose game directory is `dir`.
pub open spec fn link_step_of(dir: FsPathView, file: InstallFromContentLibrary) -> LinkStepView {
    LinkStepView {
        from: file.from@,
        to: file.path.spec_target(dir),
        replace: opt_path_view(file.replace),
    }
}

/// The steps that put `files` into the instance whose game directory is
/// `instance_dir`: one for each file, in order.
pub fn link_steps(instance_dir: &FsPath, files: Vec<InstallFromContentLibrary>) -> (r: Vec<
    LinkStep,
>)
    ensures
        r@.len() == files@.len(),
        forall|i: int|
            0 <= i < files@.len() ==> (#[trigger] r@[i])@ == link_step_of(
                instance_dir@,
                files@[i],
            ),
{
    let ghost all = files@;
    let mut out: Vec<LinkStep> = Vec::new();
    let ghost mut seen: int = 0;
    for file in it: files
        invariant
            it.seq() == all,
            seen == it.index(),
            out@.len() == seen,
            forall|i: int|
                0 <= i < seen ==> (#[trigger] out@[i])@ == link_step_of(instance_dir@, all[i]),
    {
        let to = file.path.to_target(instance_dir);
        out.push(LinkStep { from: file.from, to, replace: file.replace });
        proof {
            seen = seen + 1;
        }
    }
    out
}

/// The game directory that an install into `target` puts its files into, as
/// far as it is known before the install: that of the instance for an
/// instance that exists, none for the library and for an instance that is yet
/// to be made.
pub fn install_directory(target: &InstallTarget, instances: &InstanceStore) -> (r: Option<FsPath>)
    ensures
        opt_path_view(r) == match *target {
            InstallTarget::Instance(id) => if instances@.contains_key(id) {
                Some(instances@[id].root_path.child(game_dir_name()))
            } else {
                None
            },
            _ => None,
        },
{
    match target {
        InstallTarget::Instance(id) => match instances.get(*id) {
            Some(instance) => Some(game_dir(&instance.root_path)),
            None => None,
        },
        _ => None,
    }
}

/// Two requests for the same digest, written in either case, and the same
/// kind of file lead to the same place in the library.
pub proof fn lemma_same_content_same_place(
    store: FsPathView,
    first: Seq<char>,
    second: Seq<char>,
    extension: Option<Seq<char>>,
)
    requires
        is_hex_of(first, 20),
        is_hex_of(second, 20),
        first.len() == second.len(),
        forall|i: int|
            0 <= i < first.len() ==> crate::hashing::hex_value(first[i])
                == crate::hashing::hex_value(second[i]),
    ensures
        hex_bytes(first) == hex_bytes(second),
        content_path(store, hex_bytes(first), extension) == content_path(
            store,
            hex_bytes(second),
            extension,
        ),
{
    assert(hex_bytes(first) =~= hex_bytes(second));
}

} // verus!
