//! What the loaders publish about an instance: its worlds, servers and mods.

use crate::fs_path::FsPath;
use crate::fs_path::FsPathView;
use crate::ids::InstanceModID;
use crate::sorting::views;
use vstd::prelude::*;

verus! {

/// One world of an instance.
#[derive(Debug)]
pub struct InstanceWorldSummary {
    pub title: String,
    pub subtitle: String,
    pub level_path: FsPath,
    pub last_played: i64,
    pub png_icon: Option<Vec<u8>>,
}

/// What a world summary is to the contracts.
pub struct WorldSummaryView {
    pub title: Seq<char>,
    pub subtitle: Seq<char>,
    pub level_path: FsPathView,
    pub last_played: i64,
    pub png_icon: Option<Seq<u8>>,
}

/// The bytes of an optional buffer.
pub open spec fn bytes_view(bytes: Option<Vec<u8>>) -> Option<Seq<u8>> {
    match bytes {
        Some(b) => Some(b@),
        None => None,
    }
}

/// A copy of an optional buffer.
pub fn clone_bytes(bytes: &Option<Vec<u8>>) -> (r: Option<Vec<u8>>)
    ensures
        bytes_view(r) == bytes_view(*bytes),
{
    match bytes {
        Some(b) => {
            let copy = b.clone();
            assert(copy@ =~= b@);
            Some(copy)
        },
        None => None,
    }
}

impl View for InstanceWorldSummary {
    type V = WorldSummaryView;

    open spec fn view(&self) -> WorldSummaryView {
        WorldSummaryView {
            title: self.title@,
            subtitle: self.subtitle@,
            level_path: self.level_path@,
            last_played: self.last_played,
            png_icon: bytes_view(self.png_icon),
        }
    }
}

impl Clone for InstanceWorldSummary {
    fn clone(&self) -> (r: InstanceWorldSummary)
        ensures
            r@ == self@,
    {
        InstanceWorldSummary {
            title: self.title.clone(),
            subtitle: self.subtitle.clone(),
            level_path: self.level_path.clone(),
            last_played: self.last_played,
            png_icon: clone_bytes(&self.png_icon),
        }
    }
}

/// One entry of an instance's server list.
#[derive(Debug)]
pub struct InstanceServerSummary {
    pub name: String,
    pub ip: String,
    pub png_icon: Option<Vec<u8>>,
}

/// What a server summary is to the contracts.
pub struct ServerSummaryView {
    pub name: Seq<char>,
    pub ip: Seq<char>,
    pub png_icon: Option<Seq<u8>>,
}

impl View for InstanceServerSummary {
    type V = ServerSummaryView;

    open spec fn view(&self) -> ServerSummaryView {
        ServerSummaryView { name: self.name@, ip: self.ip@, png_icon: bytes_view(self.png_icon) }
    }
}

impl Clone for InstanceServerSummary {
    fn clone(&self) -> (r: InstanceServerSummary)
        ensures
            r@ == self@,
    {
        InstanceServerSummary {
            name: self.name.clone(),
            ip: self.ip.clone(),
            png_icon: clone_bytes(&self.png_icon),
        }
    }
}

/// One file of a pack, as the pack's index lists it.
#[derive(Debug)]
pub struct ModpackDownload {
    pub path: String,
    pub url: String,
    pub sha1: String,
    pub file_size: usize,
}

/// What a pack file is to the contracts.
pub struct ModpackDownloadView {
    pub path: Seq<char>,
    pub url: Seq<char>,
    pub sha1: Seq<char>,
    pub file_size: usize,
}

impl View for ModpackDownload {
    type V = ModpackDownloadView;

    open spec fn view(&self) -> ModpackDownloadView {
        ModpackDownloadView {
            path: self.path@,
            url: self.url@,
            sha1: self.sha1@,
            file_size: self.file_size,
        }
    }
}

impl Clone for ModpackDownload {
    fn clone(&self) -> (r: ModpackDownload)
        ensures
            r@ == self@,
    {
        ModpackDownload {
            path: self.path.clone(),
            url: self.url.clone(),
            sha1: self.sha1.clone(),
            file_size: self.file_size,
        }
    }
}

/// What each of `downloads` is to the contracts.
pub open spec fn downloads_view(downloads: Seq<ModpackDownload>) -> Seq<ModpackDownloadView> {
    Seq::new(downloads.len(), |i: int| downloads[i]@)
}

/// A copy of a list of pack files.
pub fn clone_downloads(downloads: &Vec<ModpackDownload>) -> (r: Vec<ModpackDownload>)
    ensures
        downloads_view(r@) == downloads_view(downloads@),
{
    let mut out: Vec<ModpackDownload> = Vec::new();
    let mut i: usize = 0;
    while i < downloads.len()
        invariant
            i <= downloads.len(),
            out.len() == i,
            forall|j: int| 0 <= j < i ==> out@[j]@ == downloads@[j]@,
        decreases downloads.len() - i,
    {
        out.push(downloads[i].clone());
        i += 1;
    }
    assert(downloads_view(out@) =~= downloads_view(downloads@));
    out
}

/// What a content file brings besides being a mod.
#[derive(Debug)]
pub enum LoaderSpecificModSummary {
    /// An ordinary mod.
    Plain,
    /// A pack: an index that lists further files to fetch.
    ModrinthModpack { downloads: Vec<ModpackDownload> },
}

/// What the extra part of a mod summary is to the contracts.
pub enum LoaderSpecificView {
    Plain,
    ModrinthModpack { downloads: Seq<ModpackDownloadView> },
}

impl View for LoaderSpecificModSummary {
    type V = LoaderSpecificView;

    open spec fn view(&self) -> LoaderSpecificView {
        match *self {
            LoaderSpecificModSummary::Plain => LoaderSpecificView::Plain,
            LoaderSpecificModSummary::ModrinthModpack { downloads } => {
                LoaderSpecificView::ModrinthModpack { downloads: downloads_view(downloads@) }
            },
        }
    }
}

/// What a content file says of itself.
#[derive(Debug)]
pub struct ModSummary {
    pub id: String,
    pub name: String,
    pub version_str: String,
    pub extra: LoaderSpecificModSummary,
}

/// What the self-description of a content file is to the contracts.
pub struct ModSummaryView {
    pub id: Seq<char>,
    pub name: Seq<char>,
    pub version_str: Seq<char>,
    pub extra: LoaderSpecificView,
}

impl View for ModSummary {
    type V = ModSummaryView;

    open spec fn view(&self) -> ModSummaryView {
        ModSummaryView {
            id: self.id@,
            name: self.name@,
            version_str: self.version_str@,
            extra: self.extra@,
        }
    }
}

impl Clone for ModSummary {
    fn clone(&self) -> (r: ModSummary)
        ensures
            r@ == self@,
    {
        let extra = match &self.extra {
            LoaderSpecificModSummary::Plain => LoaderSpecificModSummary::Plain,
            LoaderSpecificModSummary::ModrinthModpack { downloads } => {
                LoaderSpecificModSummary::ModrinthModpack { downloads: clone_downloads(downloads) }
            },
        };
        ModSummary {
            id: self.id.clone(),
            name: self.name.clone(),
            version_str: self.version_str.clone(),
            extra,
        }
    }
}

/// One mod file of an instance.
#[derive(Debug)]
pub struct InstanceModSummary {
    pub mod_summary: ModSummary,
    pub id: InstanceModID,
    pub file_name: String,
    pub path: FsPath,
    pub enabled: bool,
}

/// What a mod file's summary is to the contracts.
pub struct InstanceModView {
    pub mod_summary: ModSummaryView,
    pub id: InstanceModID,
    pub file_name: Seq<char>,
    pub path: FsPathView,
    pub enabled: bool,
}

impl View for InstanceModSummary {
    type V = InstanceModView;

    open spec fn view(&self) -> InstanceModView {
        InstanceModView {
            mod_summary: self.mod_summary@,
            id: self.id,
            file_name: self.file_name@,
            path: self.path@,
            enabled: self.enabled,
        }
    }
}

impl Clone for InstanceModSummary {
    fn clone(&self) -> (r: InstanceModSummary)
        ensures
            r@ == self@,
    {
        InstanceModSummary {
            mod_summary: self.mod_summary.clone(),
            id: self.id,
            file_name: self.file_name.clone(),
            path: self.path.clone(),
            enabled: self.enabled,
        }
    }
}

/// What each of `worlds` is to the contracts.
pub open spec fn worlds_view(worlds: Seq<InstanceWorldSummary>) -> Seq<WorldSummaryView> {
    views(worlds)
}

/// What each of `servers` is to the contracts.
pub open spec fn servers_view(servers: Seq<InstanceServerSummary>) -> Seq<ServerSummaryView> {
    views(servers)
}

/// What each of `mods` is to the contracts.
pub open spec fn mods_view(mods: Seq<InstanceModSummary>) -> Seq<InstanceModView> {
    views(mods)
}

} // verus!
