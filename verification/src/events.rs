//! The event classifier: raw filesystem notifications become one of three
//! canonical events or are dropped, and neighbours in a batch that touch the
//! same path are folded into the later one.

use crate::fs_path::FsPath;
use crate::fs_path::FsPathView;
use crate::path_set::path_views;
use vstd::prelude::*;

verus! {

/// What kind of entry a raw creation is about.
#[derive(Debug, Clone, Copy, PartialEq, Eq, Structural)]
pub enum CreateKind {
    Any,
    File,
    Folder,
    Other,
}

/// What part of a file's data a raw modification is about.
#[derive(Debug, Clone, Copy, PartialEq, Eq, Structural)]
pub enum DataChange {
    Any,
    Size,
    Content,
    Other,
}

/// Which side of a rename a raw notification reports.
#[derive(Debug, Clone, Copy, PartialEq, Eq, Structural)]
pub enum RenameMode {
    Any,
    To,
    From,
    Both,
    Other,
}

/// What a raw modification changed.
#[derive(Debug, Clone, Copy, PartialEq, Eq, Structural)]
pub enum ModifyKind {
    Any,
    Data(DataChange),
    Metadata,
    Name(RenameMode),
    Other,
}

/// What kind of entry a raw removal is about.
#[derive(Debug, Clone, Copy, PartialEq, Eq, Structural)]
pub enum RemoveKind {
    Any,
    File,
    Folder,
    Other,
}

/// The kind of a raw notification.
#[derive(Debug, Clone, Copy, PartialEq, Eq, Structural)]
pub enum EventKind {
    Any,
    Access,
    Create(CreateKind),
    Modify(ModifyKind),
    Remove(RemoveKind),
    Other,
}

/// A raw notification: its kind and the paths it names.
#[derive(Debug)]
pub struct RawEvent {
    pub kind: EventKind,
    pub paths: Vec<FsPath>,
}

/// A canonical event.
#[derive(Debug)]
pub enum FilesystemEvent {
    /// Something appeared or changed at `path`; the flags say what it may be.
    Changed { path: FsPath, maybe_is_file: bool, maybe_is_folder: bool },
    /// The entry at the path is gone.
    Remove(FsPath),
    /// The entry at the first path is now at the second.
    Rename(FsPath, FsPath),
}

/// What a canonical event is to the contracts.
pub enum FilesystemEventView {
    Changed { path: FsPathView, maybe_is_file: bool, maybe_is_folder: bool },
    Remove(FsPathView),
    Rename(FsPathView, FsPathView),
}

impl View for FilesystemEvent {
    type V = FilesystemEventView;

    open spec fn view(&self) -> FilesystemEventView {
        match *self {
            FilesystemEvent::Changed { path, maybe_is_file, maybe_is_folder } => {
                FilesystemEventView::Changed { path: path@, maybe_is_file, maybe_is_folder }
            },
            FilesystemEvent::Remove(path) => FilesystemEventView::Remove(path@),
            FilesystemEvent::Rename(from, to) => FilesystemEventView::Rename(from@, to@),
        }
    }
}

impl FilesystemEventView {
    /// The one path that a change or a removal is about; a rename has two and
    /// gives none.
    pub open spec fn change_or_remove_path(self) -> Option<FsPathView> {
        match self {
            FilesystemEventView::Changed { path, .. } => Some(path),
            FilesystemEventView::Remove(path) => Some(path),
            FilesystemEventView::Rename(..) => None,
        }
    }
}

impl FilesystemEvent {
    /// The one path that a change or a removal is about; a rename has two and
    /// gives none.
    pub fn change_or_remove_path(&self) -> (r: Option<&FsPath>)
        ensures
            r is Some == self@.change_or_remove_path() is Some,
            r matches Some(p) ==> p@ == self@.change_or_remove_path()->0,
    {
        match self {
            FilesystemEvent::Changed { path, .. } => Some(path),
            FilesystemEvent::Remove(path) => Some(path),
            FilesystemEvent::Rename(..) => None,
        }
    }
}

/// How many paths a raw notification of the kind `kind` must name to be
/// classified.
pub open spec fn paths_needed(kind: EventKind) -> nat {
    match kind {
        EventKind::Create(CreateKind::Other) => 0,
        EventKind::Create(_) => 1,
        EventKind::Modify(ModifyKind::Any) => 1,
        EventKind::Modify(ModifyKind::Data(DataChange::Any)) => 1,
        EventKind::Modify(ModifyKind::Data(DataChange::Content)) => 1,
        EventKind::Modify(ModifyKind::Name(RenameMode::To)) => 1,
        EventKind::Modify(ModifyKind::Name(RenameMode::From)) => 1,
        EventKind::Modify(ModifyKind::Name(RenameMode::Both)) => 2,
        EventKind::Remove(RemoveKind::Other) => 0,
        EventKind::Remove(_) => 1,
        _ => 0,
    }
}

/// The canonical event for a raw notification of the kind `kind` that names
/// `paths`, or `None` where the notification is dropped: metadata changes,
/// accesses and kinds that say nothing are dropped; a creation or change of
/// unknown sort may be a file and may be a folder; a rename is a removal where
/// only the old name is known, a change where only the new one is.
pub open spec fn classified(kind: EventKind, paths: Seq<FsPathView>) -> Option<
    FilesystemEventView,
>
    recommends
        paths.len() >= paths_needed(kind),
{
    match kind {
        EventKind::Create(CreateKind::Other) => None,
        EventKind::Create(create_kind) => Some(
            FilesystemEventView::Changed {
                path: paths[0],
                maybe_is_file: create_kind == CreateKind::File || create_kind == CreateKind::Any,
                maybe_is_folder: create_kind == CreateKind::Folder || create_kind
                    == CreateKind::Any,
            },
        ),
        EventKind::Modify(ModifyKind::Any) => Some(
            FilesystemEventView::Changed {
                path: paths[0],
                maybe_is_file: true,
                maybe_is_folder: true,
            },
        ),
        EventKind::Modify(ModifyKind::Data(data_change)) => if data_change == DataChange::Any
            || data_change == DataChange::Content {
            Some(
                FilesystemEventView::Changed {
                    path: paths[0],
                    maybe_is_file: true,
                    maybe_is_folder: false,
                },
            )
        } else {
            None
        },
        EventKind::Modify(ModifyKind::Name(RenameMode::To)) => Some(
            FilesystemEventView::Changed {
                path: paths[0],
                maybe_is_file: true,
                maybe_is_folder: true,
            },
        ),
        EventKind::Modify(ModifyKind::Name(RenameMode::From)) => Some(
            FilesystemEventView::Remove(paths[0]),
        ),
        EventKind::Modify(ModifyKind::Name(RenameMode::Both)) => Some(
            FilesystemEventView::Rename(paths[0], paths[1]),
        ),
        EventKind::Modify(_) => None,
        EventKind::Remove(RemoveKind::Other) => None,
        EventKind::Remove(_) => Some(FilesystemEventView::Remove(paths[0])),
        EventKind::Any => None,
        EventKind::Access => None,
        EventKind::Other => None,
    }
}

impl RawEvent {
    /// Whether the notification names as many paths as its kind needs.
    pub open spec fn spec_has_needed_paths(&self) -> bool {
        self.paths@.len() >= paths_needed(self.kind)
    }

    /// Whether the notification names as many paths as its kind needs.
    #[verifier::when_used_as_spec(spec_has_needed_paths)]
    pub fn has_needed_paths(&self) -> (r: bool)
        ensures
            r == self.spec_has_needed_paths(),
    {
        let needed: usize = match self.kind {
            EventKind::Create(CreateKind::Other) => 0,
            EventKind::Create(_) => 1,
            EventKind::Modify(ModifyKind::Any) => 1,
            EventKind::Modify(ModifyKind::Data(DataChange::Any)) => 1,
            EventKind::Modify(ModifyKind::Data(DataChange::Content)) => 1,
            EventKind::Modify(ModifyKind::Name(RenameMode::To)) => 1,
            EventKind::Modify(ModifyKind::Name(RenameMode::From)) => 1,
            EventKind::Modify(ModifyKind::Name(RenameMode::Both)) => 2,
            EventKind::Remove(RemoveKind::Other) => 0,
            EventKind::Remove(_) => 1,
            _ => 0,
        };
        self.paths.len() >= needed
    }
}

/// The canonical event for the raw notification `event`, or `None` where the
/// notification is dropped.
pub fn get_simple_event(event: &RawEvent) -> (r: Option<FilesystemEvent>)
    requires
        event.has_needed_paths(),
    ensures
        r is Some == classified(event.kind, path_views(event.paths@)) is Some,
        r matches Some(e) ==> e@ == classified(event.kind, path_views(event.paths@))->0,
{
    match event.kind {
        EventKind::Create(create_kind) => {
            if create_kind == CreateKind::Other {
                return None;
            }
            Some(
                FilesystemEvent::Changed {
                    path: event.paths[0].clone(),
                    maybe_is_file: create_kind == CreateKind::File || create_kind
                        == CreateKind::Any,
                    maybe_is_folder: create_kind == CreateKind::Folder || create_kind
                        == CreateKind::Any,
                },
            )
        },
        EventKind::Modify(modify_kind) => {
            match modify_kind {
                ModifyKind::Any => Some(
                    FilesystemEvent::Changed {
                        path: event.paths[0].clone(),
                        maybe_is_file: true,
                        maybe_is_folder: true,
                    },
                ),
                ModifyKind::Data(data_change) => {
                    if data_change == DataChange::Any || data_change == DataChange::Content {
                        Some(
                            FilesystemEvent::Changed {
                                path: event.paths[0].clone(),
                                maybe_is_file: true,
                                maybe_is_folder: false,
                            },
                        )
                    } else {
                        None
                    }
                },
                ModifyKind::Metadata => None,
                ModifyKind::Name(rename_mode) => {
                    match rename_mode {
                        RenameMode::Any => None,
                        RenameMode::To => Some(
                            FilesystemEvent::Changed {
                                path: event.paths[0].clone(),
                                maybe_is_file: true,
                                maybe_is_folder: true,
                            },
                        ),
                        RenameMode::From => Some(FilesystemEvent::Remove(event.paths[0].clone())),
                        RenameMode::Both => Some(
                            FilesystemEvent::Rename(
                                event.paths[0].clone(),
                                event.paths[1].clone(),
                            ),
                        ),
                        RenameMode::Other => None,
                    }
                },
                ModifyKind::Other => None,
            }
        },
        EventKind::Remove(remove_kind) => {
            if remove_kind == RemoveKind::Other {
                return None;
            }
            Some(FilesystemEvent::Remove(event.paths[0].clone()))
        },
        EventKind::Any => None,
        EventKind::Access => None,
        EventKind::Other => None,
    }
}

/// What each of `events` is to the contracts.
pub open spec fn events_view(events: Seq<FilesystemEvent>) -> Seq<FilesystemEventView> {
    Seq::new(events.len(), |i: int| events[i]@)
}

/// Whether every one of `batch` names as many paths as its kind needs.
pub open spec fn all_have_needed_paths(batch: Seq<RawEvent>) -> bool {
    forall|i: int| 0 <= i < batch.len() ==> (#[trigger] batch[i]).has_needed_paths()
}

/// The canonical events of a batch of raw notifications, in order, without the
/// notifications that are dropped.
pub open spec fn classified_batch(batch: Seq<RawEvent>) -> Seq<FilesystemEventView>
    decreases batch.len(),
{
    if batch.len() == 0 {
        Seq::empty()
    } else {
        let front = classified_batch(batch.drop_last());
        match classified(batch.last().kind, path_views(batch.last().paths@)) {
            Some(event) => front.push(event),
            None => front,
        }
    }
}

/// Whether `a` and `b` are a change or a removal of one and the same path.
pub open spec fn same_target(a: FilesystemEventView, b: FilesystemEventView) -> bool {
    a.change_or_remove_path() is Some && a.change_or_remove_path() == b.change_or_remove_path()
}

/// A batch after folding: an event that is followed at once by another change
/// or removal of the same path gives way to that one. A rename is never folded
/// away and never folds its neighbour away.
pub open spec fn coalesced(events: Seq<FilesystemEventView>) -> Seq<FilesystemEventView>
    decreases events.len(),
{
    if events.len() == 0 {
        Seq::empty()
    } else if events.len() >= 2 && same_target(events[0], events[1]) {
        coalesced(events.drop_first())
    } else {
        seq![events[0]] + coalesced(events.drop_first())
    }
}

/// The canonical events of the batch `batch`, in order.
pub fn classify_batch(batch: &Vec<RawEvent>) -> (out: Vec<FilesystemEvent>)
    requires
        all_have_needed_paths(batch@),
    ensures
        events_view(out@) == classified_batch(batch@),
{
    let mut out: Vec<FilesystemEvent> = Vec::new();
    let mut i: usize = 0;
    assert(batch@.take(0) =~= Seq::empty());
    while i < batch.len()
        invariant
            i <= batch.len(),
            all_have_needed_paths(batch@),
            events_view(out@) == classified_batch(batch@.take(i as int)),
        decreases batch.len() - i,
    {
        let ghost before = events_view(out@);
        assert(batch@.take(i + 1).drop_last() =~= batch@.take(i as int));
        assert(batch@.take(i + 1).last() == batch@[i as int]);
        match get_simple_event(&batch[i]) {
            Some(event) => {
                out.push(event);
                assert(events_view(out@) =~= before.push(event@));
            },
            None => {},
        }
        i += 1;
    }
    assert(batch@.take(batch.len() as int) =~= batch@);
    out
}

/// Whether `a` and `b` are a change or a removal of one and the same path.
pub fn touch_same_path(a: &FilesystemEvent, b: &FilesystemEvent) -> (r: bool)
    ensures
        r == same_target(a@, b@),
{
    match (a.change_or_remove_path(), b.change_or_remove_path()) {
        (Some(p), Some(q)) => *p == *q,
        _ => false,
    }
}

/// Folds the batch `events`: of neighbours that change or remove the same path
/// only the last stays.
pub fn coalesce(events: Vec<FilesystemEvent>) -> (out: Vec<FilesystemEvent>)
    ensures
        events_view(out@) == coalesced(events_view(events@)),
{
    let ghost all = events_view(events@);
    let mut out: Vec<FilesystemEvent> = Vec::new();
    let mut pending: Option<FilesystemEvent> = None;
    let ghost mut seen: int = 0;
    assert(all.skip(0) =~= all);
    for event in it: events
        invariant
            events_view(it.seq()) == all,
            seen == it.index(),
            pending is None ==> seen == 0 && out@.len() == 0,
            pending matches Some(p) ==> coalesced(all) == events_view(out@) + coalesced(
                seq![p@] + all.skip(seen),
            ),
    {
        let ghost rest = all.skip(seen);
        let ghost before = events_view(out@);
        assert(rest.len() > 0 && rest[0] == event@);
        assert(rest.drop_first() =~= all.skip(seen + 1));
        match pending {
            None => {
                assert(seq![event@] + all.skip(seen + 1) =~= all);
                assert(events_view(out@) =~= Seq::empty());
                assert(Seq::<FilesystemEventView>::empty() + coalesced(all) =~= coalesced(all));
            },
            Some(last) => {
                let ghost joined = seq![last@] + rest;
                assert(joined.drop_first() =~= seq![event@] + all.skip(seen + 1));
                assert(joined[0] == last@ && joined[1] == event@);
                if !touch_same_path(&last, &event) {
                    out.push(last);
                    assert(events_view(out@) =~= before.push(last@));
                    assert(before + (seq![last@] + coalesced(joined.drop_first()))
                        =~= before.push(last@) + coalesced(joined.drop_first()));
                }
            },
        }
        pending = Some(event);
        proof {
            seen = seen + 1;
        }
    }
    match pending {
        None => {
            assert(all =~= Seq::empty());
        },
        Some(last) => {
            let ghost before = events_view(out@);
            assert(all.skip(seen) =~= Seq::empty());
            assert(seq![last@] + all.skip(seen) =~= seq![last@]);
            assert(seq![last@].drop_first() =~= Seq::empty());
            assert(coalesced(seq![last@].drop_first()) =~= Seq::empty());
            assert(coalesced(seq![last@]) =~= seq![last@]);
            out.push(last);
            assert(events_view(out@) =~= before.push(last@));
            assert(before + seq![last@] =~= before.push(last@));
        },
    }
    out
}

/// Folding leaves no two neighbours that change or remove the same path.
pub proof fn lemma_coalesced_has_no_repeats(events: Seq<FilesystemEventView>, i: int)
    requires
        0 <= i,
        i + 1 < coalesced(events).len(),
    ensures
        !same_target(coalesced(events)[i], coalesced(events)[i + 1]),
    decreases events.len(),
{
    let rest = events.drop_first();
    if events.len() >= 2 && same_target(events[0], events[1]) {
        lemma_coalesced_has_no_repeats(rest, i);
    } else {
        if i > 0 {
            lemma_coalesced_has_no_repeats(rest, i - 1);
        } else {
            if rest.len() == 0 {
                assert(coalesced(rest) =~= Seq::empty());
            }
            lemma_coalesced_head(rest);
            assert(rest[0] == events[1]);
        }
    }
}

/// The first event of a folded batch is a change or removal of the same path
/// as the first event before folding, unless that one is a rename, which
/// stays.
proof fn lemma_coalesced_head(events: Seq<FilesystemEventView>)
    requires
        events.len() > 0,
    ensures
        coalesced(events).len() > 0,
        coalesced(events)[0].change_or_remove_path() == events[0].change_or_remove_path(),
    decreases events.len(),
{
    if events.len() >= 2 && same_target(events[0], events[1]) {
        lemma_coalesced_head(events.drop_first());
    }
}

/// Folding never adds an event.
pub proof fn lemma_coalesced_is_no_longer(events: Seq<FilesystemEventView>)
    ensures
        coalesced(events).len() <= events.len(),
    decreases events.len(),
{
    if events.len() > 0 {
        lemma_coalesced_is_no_longer(events.drop_first());
    }
}

} // verus!
