//! The worlds loader: what a world's summary says, and how a rescan of the
//! changed folders is merged with the snapshot before it. A scan looks into
//! every folder; the worlds are then listed newest first, and only the 64
//! newest are kept.

use crate::fs_path::FsPath;
use crate::fs_path::FsPathView;
use crate::path_set::PathSet;
use crate::sorting::is_sorted;
use crate::sorting::lemma_stable_sorted_is_permutation;
use crate::sorting::lemma_stable_sorted_is_sorted;
use crate::sorting::lemma_stable_sorted_keeps_pairwise;
use crate::sorting::pairwise;
use crate::sorting::stable_sort;
use crate::sorting::stable_sorted;
use crate::sorting::views;
use crate::sorting::Ranked;
use crate::summaries::bytes_view;
use crate::summaries::InstanceWorldSummary;
use crate::summaries::WorldSummaryView;
use vstd::prelude::*;

verus! {

/// How many worlds a snapshot holds at most.
pub const WORLD_LIMIT: usize = 64;

impl Ranked for InstanceWorldSummary {
    /// A world stands in front of those that were played no later.
    open spec fn before(a: WorldSummaryView, b: WorldSummaryView) -> bool {
        a.last_played >= b.last_played
    }

    proof fn lemma_before_total(a: WorldSummaryView, b: WorldSummaryView) {
    }

    proof fn lemma_before_transitive(a: WorldSummaryView, b: WorldSummaryView, c: WorldSummaryView) {
    }

    fn is_before(&self, other: &InstanceWorldSummary) -> (r: bool) {
        self.last_played >= other.last_played
    }
}

/// The first time, in milliseconds since 1970, that the calendar of `chrono`
/// can express: the start of the year -262143.
pub const MIN_DATE_MILLIS: i64 = -8_334_601_228_800_000;

/// The last time, in milliseconds since 1970, that the calendar of `chrono`
/// can express: the last millisecond of the year 262142.
pub const MAX_DATE_MILLIS: i64 = 8_210_266_876_799_999;

/// Whether a time in milliseconds since 1970 is one that the calendar of
/// `chrono` can express.
pub open spec fn millis_have_date(millis: i64) -> bool {
    MIN_DATE_MILLIS <= millis <= MAX_DATE_MILLIS
}

/// What unpacking gzip data gives with `flate2::bufread::GzDecoder`: the
/// content of the first member, or `None` for data that is no gzip member.
pub uninterp spec fn gunzipped(data: Seq<u8>) -> Option<Seq<u8>>;

/// How a world's last play is written next to its folder name: day, month,
/// year, hour, minute.
pub open spec fn date_pattern() -> Seq<char> {
    "%d/%m/%Y %H:%M"@
}

/// The time `millis` (milliseconds since 1970) in the machine's time zone,
/// written by `pattern`. Calls `chrono::DateTime::from_timestamp_millis`,
/// then `with_timezone(&chrono::Local)` and `format`. Trusted: the text is
/// there exactly for the times that `from_timestamp_millis` accepts, which are
/// those whose day lies between the first and the last day of its calendar;
/// nothing is claimed of the text itself, which depends on the time zone.
#[verifier::external_body]
fn local_time_text(millis: i64, pattern: &str) -> (r: Option<String>)
    requires
        pattern@ == date_pattern(),
    ensures
        r is Some == millis_have_date(millis),
{
    chrono::DateTime::from_timestamp_millis(millis).map(
        |utc| utc.with_timezone(&chrono::Local).format(pattern).to_string(),
    )
}

/// Unpacks gzip data. Reads a `flate2::bufread::GzDecoder` over `data` to its
/// end. Trusted: the result is what that decoder gives for these bytes, and
/// `None` where it reports an error.
#[verifier::external_body]
fn gunzip(data: &[u8]) -> (r: Option<Vec<u8>>)
    ensures
        r is Some == gunzipped(data@) is Some,
        r matches Some(bytes) ==> bytes@ == gunzipped(data@)->0,
{
    let mut out = Vec::new();
    match std::io::Read::read_to_end(&mut flate2::bufread::GzDecoder::new(data), &mut out) {
        Ok(_) => Some(out),
        Err(_) => None,
    }
}

/// Why a world folder gives no summary.
#[derive(Debug, Clone, Copy, PartialEq, Eq, Structural)]
pub enum WorldSummaryError {
    /// The save data is not packed as it should be.
    NotGzip,
    /// The save data does not say when the world was played last.
    NoLastPlayed,
    /// The world's path has no folder name.
    NoFileName,
}

/// What the loader reads from the `Data` record of a world's save data.
#[derive(Debug)]
pub struct LevelData {
    pub last_played: Option<i64>,
    pub level_name: Option<String>,
}

/// The unpacked save data of a world, given the packed content of its
/// `level.dat`.
pub fn unpack_level_data(compressed: &[u8]) -> (r: Result<Vec<u8>, WorldSummaryError>)
    ensures
        r is Ok == gunzipped(compressed@) is Some,
        r matches Ok(bytes) ==> bytes@ == gunzipped(compressed@)->0,
        r matches Err(e) ==> e == WorldSummaryError::NotGzip,
{
    match gunzip(compressed) {
        Some(bytes) => Ok(bytes),
        None => Err(WorldSummaryError::NotGzip),
    }
}

/// The title of a world: its level name, or the folder name where it has none.
pub open spec fn world_title(folder: Seq<char>, level_name: Option<Seq<char>>) -> Seq<char> {
    match level_name {
        Some(name) => if name.len() == 0 {
            folder
        } else {
            name
        },
        None => folder,
    }
}

/// The line below a world's title: the folder name, and in brackets the time
/// of the last play where there is one after 1970.
pub open spec fn world_subtitle(folder: Seq<char>, last_played: i64, date: Option<Seq<char>>) -> Seq<
    char,
> {
    match date {
        Some(text) => if last_played > 0 {
            folder + " ("@ + text + ")"@
        } else {
            folder
        },
        None => folder,
    }
}

/// The characters of an optional text.
pub open spec fn text_view(text: Option<String>) -> Option<Seq<char>> {
    match text {
        Some(t) => Some(t@),
        None => None,
    }
}

/// What the summary of the world in `path` must be, for the written time
/// `date`.
pub open spec fn world_summary_of(
    path: FsPathView,
    last_played: i64,
    level_name: Option<Seq<char>>,
    date: Option<Seq<char>>,
    icon: Option<Seq<u8>>,
) -> WorldSummaryView
    recommends
        path.names.len() > 0,
{
    WorldSummaryView {
        title: world_title(path.names.last(), level_name),
        subtitle: world_subtitle(path.names.last(), last_played, date),
        level_path: path,
        last_played,
        png_icon: icon,
    }
}

/// The summary of the world in the folder `path` from what its save data says
/// and from `date`, the written time of its last play if that could be
/// written.
pub fn world_summary_with_date(
    path: &FsPath,
    level: LevelData,
    date: Option<String>,
    icon: Option<Vec<u8>>,
) -> (r: Result<InstanceWorldSummary, WorldSummaryError>)
    ensures
        level.last_played is None ==> r == Err::<InstanceWorldSummary, WorldSummaryError>(
            WorldSummaryError::NoLastPlayed,
        ),
        level.last_played is Some && path@.names.len() == 0 ==> r == Err::<
            InstanceWorldSummary,
            WorldSummaryError,
        >(WorldSummaryError::NoFileName),
        r is Ok == (level.last_played is Some && path@.names.len() > 0),
        r matches Ok(summary) ==> summary@ == world_summary_of(
            path@,
            level.last_played->0,
            text_view(level.level_name),
            text_view(date),
            bytes_view(icon),
        ),
{
    let last_played = match level.last_played {
        Some(millis) => millis,
        None => {
            return Err(WorldSummaryError::NoLastPlayed);
        },
    };
    let folder = match path.file_name() {
        Some(name) => name,
        None => {
            return Err(WorldSummaryError::NoFileName);
        },
    };
    let mut subtitle = folder.clone();
    match date {
        Some(text) => {
            if last_played > 0 {
                subtitle.append(" (");
                subtitle.append(text.as_str());
                subtitle.append(")");
            }
        },
        None => {},
    }
    let title = match level.level_name {
        Some(name) => {
            if name.as_str().unicode_len() == 0 {
                folder.clone()
            } else {
                name
            }
        },
        None => folder.clone(),
    };
    Ok(
        InstanceWorldSummary {
            title,
            subtitle,
            level_path: path.clone(),
            last_played,
            png_icon: icon,
        },
    )
}

/// The summary of the world in the folder `path` from what its save data says.
/// The time of the last play is written in the machine's time zone.
pub fn load_world_summary(path: &FsPath, level: LevelData, icon: Option<Vec<u8>>) -> (r: Result<
    InstanceWorldSummary,
    WorldSummaryError,
>)
    ensures
        level.last_played is None ==> r == Err::<InstanceWorldSummary, WorldSummaryError>(
            WorldSummaryError::NoLastPlayed,
        ),
        level.last_played is Some && path@.names.len() == 0 ==> r == Err::<
            InstanceWorldSummary,
            WorldSummaryError,
        >(WorldSummaryError::NoFileName),
        r is Ok == (level.last_played is Some && path@.names.len() > 0),
        r matches Ok(summary) ==> exists|date: Option<Seq<char>>|
            date is Some == millis_have_date(level.last_played->0) && summary@
                == #[trigger] world_summary_of(
                path@,
                level.last_played->0,
                text_view(level.level_name),
                date,
                bytes_view(icon),
            ),
{
    let date = match level.last_played {
        Some(millis) => local_time_text(millis, "%d/%m/%Y %H:%M"),
        None => None,
    };
    let ghost written = text_view(date);
    let r = world_summary_with_date(path, level, date, icon);
    proof {
        if r is Ok {
            assert(r->Ok_0@ == world_summary_of(
                path@,
                level.last_played->0,
                text_view(level.level_name),
                written,
                bytes_view(icon),
            ));
        }
    }
    r
}

/// What a scan does with an entry that it meets.
#[derive(Debug, Clone, Copy, PartialEq, Eq, Structural)]
pub enum ScanStep {
    /// The entry is no folder: it is passed over.
    Skip,
    /// The entry is a folder: its summary is read and recorded.
    Load,
}

/// A scan for worlds in progress: the summaries that it got so far. A scan
/// looks into every folder that it meets; a folder that gives no summary is
/// passed over and takes nothing from the others.
#[derive(Debug)]
pub struct WorldScan {
    summaries: Vec<InstanceWorldSummary>,
}

impl View for WorldScan {
    type V = Seq<WorldSummaryView>;

    closed spec fn view(&self) -> Seq<WorldSummaryView> {
        views(self.summaries@)
    }
}

/// The entries of `previous` that a rescan carries over: those whose folder
/// did not change and is still there. `exists[i]` says whether the folder of
/// `previous[i]` is there. Only the first `n` entries are looked at.
pub open spec fn carried_worlds(
    previous: Seq<WorldSummaryView>,
    dirty: Set<FsPathView>,
    exists: Seq<bool>,
    n: nat,
) -> Seq<WorldSummaryView>
    recommends
        n <= previous.len(),
        previous.len() == exists.len(),
    decreases n,
{
    if n == 0 {
        Seq::empty()
    } else {
        let front = carried_worlds(previous, dirty, exists, (n - 1) as nat);
        if !dirty.contains(previous[n - 1].level_path) && exists[n - 1] {
            front.push(previous[n - 1])
        } else {
            front
        }
    }
}

/// The worlds, newest first, cut to the limit: all of them are put in order
/// first, and only then are those behind the limit left out.
pub open spec fn newest_worlds(candidates: Seq<WorldSummaryView>) -> Seq<WorldSummaryView> {
    let sorted = stable_sorted::<InstanceWorldSummary>(candidates);
    if sorted.len() > WORLD_LIMIT {
        sorted.take(WORLD_LIMIT as int)
    } else {
        sorted
    }
}

/// The snapshot after a rescan: what the rescan found together with what is
/// carried over from the snapshot before, newest first, cut to the limit.
pub open spec fn merged_worlds(
    scanned: Seq<WorldSummaryView>,
    previous: Seq<WorldSummaryView>,
    dirty: Set<FsPathView>,
    exists: Seq<bool>,
) -> Seq<WorldSummaryView>
    recommends
        previous.len() == exists.len(),
{
    newest_worlds(scanned + carried_worlds(previous, dirty, exists, previous.len()))
}

/// Sorts `worlds` newest first and cuts them to the limit.
fn newest(worlds: Vec<InstanceWorldSummary>) -> (r: Vec<InstanceWorldSummary>)
    ensures
        views(r@) == newest_worlds(views(worlds@)),
{
    let mut sorted = stable_sort(worlds);
    if sorted.len() > WORLD_LIMIT {
        let ghost whole = views(sorted@);
        sorted.truncate(WORLD_LIMIT);
        assert(views(sorted@) =~= whole.take(WORLD_LIMIT as int));
    }
    sorted
}

impl WorldScan {
    /// A scan that has found nothing yet.
    pub fn new() -> (r: WorldScan)
        ensures
            r@ == Seq::<WorldSummaryView>::empty(),
    {
        let r = WorldScan { summaries: Vec::new() };
        assert(views(r.summaries@) =~= Seq::empty());
        r
    }

    /// What to do with the next entry; `is_dir` says whether it is a folder.
    /// However many folders the scan has looked into, it looks into the next.
    pub fn next_step(&self, is_dir: bool) -> (r: ScanStep)
        ensures
            r == if is_dir {
                ScanStep::Load
            } else {
                ScanStep::Skip
            },
    {
        if is_dir {
            ScanStep::Load
        } else {
            ScanStep::Skip
        }
    }

    /// Records what reading a folder gave: its summary is kept if there is
    /// one; a folder without one changes nothing.
    pub fn record(&mut self, summary: Option<InstanceWorldSummary>)
        ensures
            final(self)@ == match summary {
                Some(s) => old(self)@.push(s@),
                None => old(self)@,
            },
    {
        let ghost before = views(self.summaries@);
        match summary {
            Some(s) => {
                self.summaries.push(s);
                assert(views(self.summaries@) =~= before.push(s@));
            },
            None => {},
        }
    }

    /// Ends a first scan: all worlds that were found are put in order, newest
    /// first, and those behind the limit are left out.
    pub fn finish_initial(self) -> (r: Vec<InstanceWorldSummary>)
        ensures
            views(r@) == newest_worlds(self@),
    {
        newest(self.summaries)
    }

    /// Ends a rescan of the changed folders `dirty`: what was found is merged
    /// with the entries of `previous` whose folder did not change and is still
    /// there (`exists[i]` says so for `previous[i]`); all of it is put in
    /// order, newest first, and what is behind the limit is left out.
    pub fn finish_reload(
        self,
        previous: &Vec<InstanceWorldSummary>,
        dirty: &PathSet,
        exists: &Vec<bool>,
    ) -> (r: Vec<InstanceWorldSummary>)
        requires
            previous.len() == exists.len(),
        ensures
            views(r@) == merged_worlds(self@, views(previous@), dirty@, exists@),
    {
        let ghost scanned = views(self.summaries@);
        let mut all = self.summaries;
        let mut i: usize = 0;
        assert(scanned + Seq::<WorldSummaryView>::empty() =~= scanned);
        while i < previous.len()
            invariant
                i <= previous.len(),
                previous.len() == exists.len(),
                views(all@) == scanned + carried_worlds(
                    views(previous@),
                    dirty@,
                    exists@,
                    i as nat,
                ),
            decreases previous.len() - i,
        {
            let ghost before = views(all@);
            let ghost front = carried_worlds(views(previous@), dirty@, exists@, i as nat);
            if !dirty.contains(&previous[i].level_path) && exists[i] {
                all.push(previous[i].clone());
                assert(views(all@) =~= before.push(previous@[i as int]@));
                assert(scanned + front.push(previous@[i as int]@) =~= (scanned + front).push(
                    previous@[i as int]@,
                ));
            }
            i += 1;
        }
        newest(all)
    }
}

/// The worlds of a snapshot stand newest first and are no more than the limit
/// allows; each of them is one of the candidates; and where the candidates are
/// no more than the limit allows, none of them is lost.
pub proof fn lemma_newest_worlds(candidates: Seq<WorldSummaryView>)
    ensures
        is_sorted::<InstanceWorldSummary>(newest_worlds(candidates)),
        forall|i: int, j: int|
            0 <= i < j < newest_worlds(candidates).len() ==> newest_worlds(
                candidates,
            )[i].last_played >= newest_worlds(candidates)[j].last_played,
        newest_worlds(candidates).len() == if candidates.len() > WORLD_LIMIT {
            WORLD_LIMIT as nat
        } else {
            candidates.len()
        },
        forall|i: int|
            0 <= i < newest_worlds(candidates).len() ==> candidates.contains(
                #[trigger] newest_worlds(candidates)[i],
            ),
        candidates.len() <= WORLD_LIMIT ==> newest_worlds(candidates).to_multiset()
            == candidates.to_multiset(),
{
    broadcast use vstd::seq_lib::group_to_multiset_ensures;

    let sorted = stable_sorted::<InstanceWorldSummary>(candidates);
    lemma_stable_sorted_is_sorted::<InstanceWorldSummary>(candidates);
    lemma_stable_sorted_is_permutation::<InstanceWorldSummary>(candidates);
    let out = newest_worlds(candidates);
    assert forall|i: int, j: int| 0 <= i < j < out.len() implies out[i].last_played
        >= out[j].last_played by {
        assert(InstanceWorldSummary::before(sorted[i], sorted[j]));
    }
    assert forall|i: int| 0 <= i < out.len() implies candidates.contains(#[trigger] out[i]) by {
        assert(sorted[i] == out[i]);
        assert(sorted.to_multiset().count(sorted[i]) > 0);
        assert(candidates.to_multiset().count(sorted[i]) > 0);
    }
}

/// A candidate that a snapshot leaves out was played no later than any world
/// that the snapshot keeps: the cut comes after the sorting, never before.
pub proof fn lemma_left_out_worlds_are_no_newer(candidates: Seq<WorldSummaryView>, c: int, k: int)
    requires
        0 <= c < candidates.len(),
        0 <= k < newest_worlds(candidates).len(),
    ensures
        newest_worlds(candidates).contains(candidates[c]) || newest_worlds(
            candidates,
        )[k].last_played >= candidates[c].last_played,
{
    broadcast use vstd::seq_lib::group_to_multiset_ensures;

    let sorted = stable_sorted::<InstanceWorldSummary>(candidates);
    let kept = newest_worlds(candidates);
    lemma_stable_sorted_is_sorted::<InstanceWorldSummary>(candidates);
    lemma_stable_sorted_is_permutation::<InstanceWorldSummary>(candidates);
    assert(candidates.to_multiset().count(candidates[c]) > 0);
    assert(sorted.contains(candidates[c]));
    let p = choose|p: int| 0 <= p < sorted.len() && sorted[p] == candidates[c];
    if p < kept.len() {
        assert(kept[p] == candidates[c]);
    } else {
        assert(InstanceWorldSummary::before(sorted[k], sorted[p]));
    }
}

/// Whether the entry `i` of a snapshot is carried over by a rescan: its folder
/// did not change and is still there.
pub open spec fn is_untouched(
    previous: Seq<WorldSummaryView>,
    dirty: Set<FsPathView>,
    exists: Seq<bool>,
    i: int,
) -> bool {
    0 <= i < previous.len() && !dirty.contains(previous[i].level_path) && exists[i]
}

/// What a rescan carries over are exactly the entries of the snapshot before
/// it whose folder did not change and is still there.
pub proof fn lemma_carried_worlds(
    previous: Seq<WorldSummaryView>,
    dirty: Set<FsPathView>,
    exists: Seq<bool>,
    n: nat,
)
    requires
        n <= previous.len(),
        previous.len() == exists.len(),
    ensures
        forall|k: int|
            0 <= k < carried_worlds(previous, dirty, exists, n).len() ==> exists|i: int|
                i < n && is_untouched(previous, dirty, exists, i) && previous[i]
                    == #[trigger] carried_worlds(previous, dirty, exists, n)[k],
        forall|i: int|
            i < n && is_untouched(previous, dirty, exists, i) ==> carried_worlds(
                previous,
                dirty,
                exists,
                n,
            ).contains(#[trigger] previous[i]),
        carried_worlds(previous, dirty, exists, n).len() <= n,
    decreases n,
{
    if n > 0 {
        let front = carried_worlds(previous, dirty, exists, (n - 1) as nat);
        let out = carried_worlds(previous, dirty, exists, n);
        lemma_carried_worlds(previous, dirty, exists, (n - 1) as nat);
        assert forall|k: int| 0 <= k < out.len() implies exists|i: int|
            i < n && is_untouched(previous, dirty, exists, i) && previous[i] == #[trigger] out[k] by {
            if k < front.len() {
                let i = choose|i: int|
                    i < n - 1 && is_untouched(previous, dirty, exists, i) && previous[i] == front[k];
                assert(i < n && is_untouched(previous, dirty, exists, i) && previous[i] == out[k]);
            } else {
                assert(is_untouched(previous, dirty, exists, n - 1) && previous[n - 1] == out[k]);
            }
        }
        assert forall|i: int| i < n && is_untouched(previous, dirty, exists, i) implies out.contains(
            #[trigger] previous[i],
        ) by {
            if i < n - 1 {
                let k = choose|k: int| 0 <= k < front.len() && front[k] == previous[i];
                assert(out[k] == previous[i]);
            } else {
                assert(out[out.len() - 1] == previous[i]);
            }
        }
    }
}

/// Whether two worlds lie in different folders.
pub open spec fn in_different_folders(a: WorldSummaryView, b: WorldSummaryView) -> bool {
    a.level_path != b.level_path
}

/// Where no two worlds of the snapshot before lie in one folder, and the
/// rescan found at most one world in each changed folder and none elsewhere,
/// no two worlds of the snapshot after lie in one folder: a world whose folder
/// changed is there only as the rescan found it.
pub proof fn lemma_merged_worlds_lie_in_different_folders(
    scanned: Seq<WorldSummaryView>,
    previous: Seq<WorldSummaryView>,
    dirty: Set<FsPathView>,
    exists: Seq<bool>,
)
    requires
        previous.len() == exists.len(),
        pairwise(previous, |a: WorldSummaryView, b: WorldSummaryView| in_different_folders(a, b)),
        pairwise(scanned, |a: WorldSummaryView, b: WorldSummaryView| in_different_folders(a, b)),
        forall|k: int| 0 <= k < scanned.len() ==> dirty.contains(#[trigger] scanned[k].level_path),
    ensures
        pairwise(
            merged_worlds(scanned, previous, dirty, exists),
            |a: WorldSummaryView, b: WorldSummaryView| in_different_folders(a, b),
        ),
{
    let apart = |a: WorldSummaryView, b: WorldSummaryView| in_different_folders(a, b);
    let carried = carried_worlds(previous, dirty, exists, previous.len());
    let candidates = scanned + carried;
    lemma_carried_worlds(previous, dirty, exists, previous.len());
    lemma_carried_worlds_lie_in_different_folders(previous, dirty, exists, previous.len());
    assert(pairwise(candidates, apart)) by {
        assert forall|i: int, j: int| 0 <= i < j < candidates.len() implies apart(
            candidates[i],
            candidates[j],
        ) && apart(candidates[j], candidates[i]) by {
            if j < scanned.len() {
                assert(apart(scanned[i], scanned[j]) && apart(scanned[j], scanned[i]));
            } else if i >= scanned.len() {
                let a = i - scanned.len();
                let b = j - scanned.len();
                assert(apart(carried[a], carried[b]) && apart(carried[b], carried[a]));
            } else {
                let b = j - scanned.len();
                assert(dirty.contains(scanned[i].level_path));
                let w = choose|w: int|
                    w < previous.len() && is_untouched(previous, dirty, exists, w) && previous[w]
                        == carried[b];
                assert(!dirty.contains(carried[b].level_path));
            }
        }
    }
    lemma_stable_sorted_keeps_pairwise::<InstanceWorldSummary>(candidates, apart);
    let sorted = stable_sorted::<InstanceWorldSummary>(candidates);
    let merged = merged_worlds(scanned, previous, dirty, exists);
    assert forall|i: int, j: int| 0 <= i < j < merged.len() implies apart(merged[i], merged[j])
        && apart(merged[j], merged[i]) by {
        assert(apart(sorted[i], sorted[j]) && apart(sorted[j], sorted[i]));
    }
}

/// What a rescan carries over from a snapshot whose worlds lie in different
/// folders lies in different folders.
proof fn lemma_carried_worlds_lie_in_different_folders(
    previous: Seq<WorldSummaryView>,
    dirty: Set<FsPathView>,
    exists: Seq<bool>,
    n: nat,
)
    requires
        n <= previous.len(),
        previous.len() == exists.len(),
        pairwise(previous, |a: WorldSummaryView, b: WorldSummaryView| in_different_folders(a, b)),
    ensures
        pairwise(
            carried_worlds(previous, dirty, exists, n),
            |a: WorldSummaryView, b: WorldSummaryView| in_different_folders(a, b),
        ),
    decreases n,
{
    let apart = |a: WorldSummaryView, b: WorldSummaryView| in_different_folders(a, b);
    if n > 0 {
        let front = carried_worlds(previous, dirty, exists, (n - 1) as nat);
        let out = carried_worlds(previous, dirty, exists, n);
        lemma_carried_worlds_lie_in_different_folders(previous, dirty, exists, (n - 1) as nat);
        lemma_carried_worlds(previous, dirty, exists, (n - 1) as nat);
        assert forall|i: int, j: int| 0 <= i < j < out.len() implies apart(out[i], out[j])
            && apart(out[j], out[i]) by {
            if j < front.len() {
                assert(apart(front[i], front[j]) && apart(front[j], front[i]));
            } else {
                let w = choose|w: int|
                    w < n - 1 && is_untouched(previous, dirty, exists, w) && previous[w]
                        == front[i];
                assert(apart(previous[w], previous[n - 1]) && apart(previous[n - 1], previous[w]));
            }
        }
    }
}

/// The snapshot after a rescan stands newest first and holds no more worlds
/// than the limit allows. Each of its worlds was found by the rescan or is an
/// untouched world of the snapshot before. Where the limit is not reached, it
/// holds every world that the rescan found and every untouched world of the
/// snapshot before.
pub proof fn lemma_merged_worlds(
    scanned: Seq<WorldSummaryView>,
    previous: Seq<WorldSummaryView>,
    dirty: Set<FsPathView>,
    exists: Seq<bool>,
)
    requires
        previous.len() == exists.len(),
    ensures
        ({
            let merged = merged_worlds(scanned, previous, dirty, exists);
            let carried = carried_worlds(previous, dirty, exists, previous.len());
            &&& forall|i: int, j: int|
                0 <= i < j < merged.len() ==> merged[i].last_played >= merged[j].last_played
            &&& merged.len() == if scanned.len() + carried.len() > WORLD_LIMIT {
                WORLD_LIMIT as nat
            } else {
                scanned.len() + carried.len()
            }
            &&& forall|k: int|
                0 <= k < merged.len() ==> scanned.contains(#[trigger] merged[k]) || exists|i: int|
                    is_untouched(previous, dirty, exists, i) && previous[i] == merged[k]
            &&& scanned.len() + carried.len() <= WORLD_LIMIT ==> {
                &&& forall|k: int| 0 <= k < scanned.len() ==> merged.contains(#[trigger] scanned[k])
                &&& forall|i: int|
                    is_untouched(previous, dirty, exists, i) ==> merged.contains(
                        #[trigger] previous[i],
                    )
            }
        }),
{
    broadcast use vstd::seq_lib::group_to_multiset_ensures;

    let carried = carried_worlds(previous, dirty, exists, previous.len());
    let candidates = scanned + carried;
    let merged = merged_worlds(scanned, previous, dirty, exists);
    lemma_newest_worlds(candidates);
    lemma_carried_worlds(previous, dirty, exists, previous.len());
    assert forall|k: int| 0 <= k < merged.len() implies scanned.contains(#[trigger] merged[k])
        || exists|i: int| is_untouched(previous, dirty, exists, i) && previous[i] == merged[k] by {
        assert(candidates.contains(merged[k]));
        let c = choose|c: int| 0 <= c < candidates.len() && candidates[c] == merged[k];
        if c < scanned.len() {
            assert(scanned[c] == merged[k]);
        } else {
            assert(carried[c - scanned.len()] == merged[k]);
        }
    }
    if candidates.len() <= WORLD_LIMIT {
        assert forall|k: int| 0 <= k < scanned.len() implies merged.contains(
            #[trigger] scanned[k],
        ) by {
            assert(candidates[k] == scanned[k]);
            assert(candidates.to_multiset().count(scanned[k]) > 0);
        }
        assert forall|i: int| is_untouched(previous, dirty, exists, i) implies merged.contains(
            #[trigger] previous[i],
        ) by {
            let k = choose|k: int| 0 <= k < carried.len() && carried[k] == previous[i];
            assert(candidates[scanned.len() + k] == previous[i]);
            assert(candidates.to_multiset().count(previous[i]) > 0);
        }
    }
}

} // verus!
