//! The media files of a drive, newest first.
//!
//! The caller walks the drive and hands in what it found: every regular
//! file whose size and time of modification it could read.

use vstd::prelude::*;
use crate::media::{
    MediaKind,
    is_media,
    is_media_file,
    kind_for_extension,
    kind_of,
    lowercase_extension,
    lowercase_extension_of,
};
use crate::path::{file_name, file_name_of};
use crate::text::owned;

verus! {

/// A regular file found on a drive.
#[derive(Debug, PartialEq, Eq)]
pub struct FoundFile {
    pub path: String,
    /// The size in bytes.
    pub size: u64,
    /// The time of the last modification, in seconds since the epoch.
    pub modified: u64,
}

/// A `FoundFile` with its path as characters.
pub struct FoundView {
    pub path: Seq<char>,
    pub size: u64,
    pub modified: u64,
}

impl View for FoundFile {
    type V = FoundView;

    open spec fn view(&self) -> FoundView {
        FoundView { path: self.path@, size: self.size, modified: self.modified }
    }
}

/// A media file as a listing shows it.
#[derive(Debug, PartialEq, Eq)]
pub struct MediaEntry {
    pub name: String,
    pub path: String,
    pub size: u64,
    pub modified: u64,
    /// The extension in lower case.
    pub extension: String,
    pub kind: MediaKind,
}

/// A `MediaEntry` with its texts as characters.
pub struct EntryView {
    pub name: Seq<char>,
    pub path: Seq<char>,
    pub size: u64,
    pub modified: u64,
    pub extension: Seq<char>,
    pub kind: MediaKind,
}

impl View for MediaEntry {
    type V = EntryView;

    open spec fn view(&self) -> EntryView {
        EntryView {
            name: self.name@,
            path: self.path@,
            size: self.size,
            modified: self.modified,
            extension: self.extension@,
            kind: self.kind,
        }
    }
}

/// The views of the files found.
pub open spec fn found_views(found: Seq<FoundFile>) -> Seq<FoundView> {
    Seq::new(found.len(), |i: int| found[i]@)
}

/// The views of the entries.
pub open spec fn entry_views(entries: Seq<MediaEntry>) -> Seq<EntryView> {
    Seq::new(entries.len(), |i: int| entries[i]@)
}

/// The entry of a file, if a listing shows it: if its extension is one of
/// the media extensions.
pub open spec fn entry_of(found: FoundView) -> Option<EntryView> {
    if is_media(found.path) {
        Some(
            EntryView {
                name: file_name(found.path).unwrap(),
                path: found.path,
                size: found.size,
                modified: found.modified,
                extension: lowercase_extension(found.path).unwrap(),
                kind: kind_of(found.path),
            },
        )
    } else {
        None
    }
}

/// The entries of the files found, in the order in which they were found.
pub open spec fn entries_of(found: Seq<FoundView>) -> Seq<EntryView>
    decreases found.len(),
{
    if found.len() == 0 {
        Seq::empty()
    } else {
        match entry_of(found.last()) {
            Some(entry) => entries_of(found.drop_last()).push(entry),
            None => entries_of(found.drop_last()),
        }
    }
}

/// `sorted` with `entry` put behind every entry that is at least as new.
pub open spec fn insert_newest_first(sorted: Seq<EntryView>, entry: EntryView) -> Seq<EntryView>
    decreases sorted.len(),
{
    if sorted.len() == 0 {
        seq![entry]
    } else if sorted.last().modified >= entry.modified {
        sorted.push(entry)
    } else {
        insert_newest_first(sorted.drop_last(), entry).push(sorted.last())
    }
}

/// The entries with the newest first; entries of the same age stay in
/// their order.
pub open spec fn newest_first(entries: Seq<EntryView>) -> Seq<EntryView>
    decreases entries.len(),
{
    if entries.len() == 0 {
        Seq::empty()
    } else {
        insert_newest_first(newest_first(entries.drop_last()), entries.last())
    }
}

/// Whether no entry comes before a newer one.
pub open spec fn is_newest_first(entries: Seq<EntryView>) -> bool {
    forall|i: int, j: int|
        0 <= i < j < entries.len() ==> entries[i].modified >= entries[j].modified
}

/// The listing of the files found.
pub open spec fn listing(found: Seq<FoundView>) -> Seq<EntryView> {
    newest_first(entries_of(found))
}

/// Putting an entry in is inserting it at the position behind which every
/// entry is older and before which the entry is at least as new.
pub proof fn lemma_insert_position(sorted: Seq<EntryView>, entry: EntryView, at: int)
    requires
        0 <= at <= sorted.len(),
        forall|j: int| at <= j < sorted.len() ==> sorted[j].modified < entry.modified,
        at > 0 ==> sorted[at - 1].modified >= entry.modified,
    ensures
        insert_newest_first(sorted, entry) == sorted.insert(at, entry),
    decreases sorted.len(),
{
    if sorted.len() == 0 {
        assert(seq![entry] =~= sorted.insert(at, entry));
    } else if sorted.last().modified >= entry.modified {
        assert(at == sorted.len());
        assert(sorted.push(entry) =~= sorted.insert(at, entry));
    } else {
        assert(at < sorted.len());
        lemma_insert_position(sorted.drop_last(), entry, at);
        assert(sorted.drop_last().insert(at, entry).push(sorted.last()) =~= sorted.insert(
            at,
            entry,
        ));
    }
}

/// Putting an entry into a sequence that has the newest first leaves it so,
/// and adds the entry and nothing else.
pub proof fn lemma_insert_keeps_order(sorted: Seq<EntryView>, entry: EntryView)
    requires
        is_newest_first(sorted),
    ensures
        is_newest_first(insert_newest_first(sorted, entry)),
        insert_newest_first(sorted, entry).len() == sorted.len() + 1,
        insert_newest_first(sorted, entry).to_multiset() == sorted.to_multiset().insert(entry),
    decreases sorted.len(),
{
    broadcast use vstd::seq_lib::group_to_multiset_ensures;

    let out = insert_newest_first(sorted, entry);
    if sorted.len() == 0 {
        assert(seq![entry] =~= Seq::<EntryView>::empty().push(entry));
        assert(sorted =~= Seq::<EntryView>::empty());
    } else if sorted.last().modified >= entry.modified {
        assert forall|i: int, j: int| 0 <= i < j < out.len() implies out[i].modified
            >= out[j].modified by {
            if j == sorted.len() {
                if i < sorted.len() - 1 {
                    assert(sorted[i].modified >= sorted[sorted.len() - 1].modified);
                }
            }
        }
    } else {
        let front = sorted.drop_last();
        assert(is_newest_first(front));
        lemma_insert_keeps_order(front, entry);
        let inner = insert_newest_first(front, entry);
        assert(sorted =~= front.push(sorted.last()));
        assert forall|i: int, j: int| 0 <= i < j < out.len() implies out[i].modified
            >= out[j].modified by {
            if j == out.len() - 1 {
                // every entry of `inner` is `entry` or one of `front`
                assert(inner.to_multiset().count(inner[i]) > 0);
                if inner[i] != entry {
                    assert(front.to_multiset().count(inner[i]) > 0);
                    assert(front.contains(inner[i]));
                    let k = choose|k: int| 0 <= k < front.len() && front[k] == inner[i];
                    assert(sorted[k].modified >= sorted[sorted.len() - 1].modified);
                }
            }
        }
    }
}

/// A listing has the newest first and holds the entries given, each as
/// often as it was given.
pub proof fn lemma_newest_first_orders(entries: Seq<EntryView>)
    ensures
        is_newest_first(newest_first(entries)),
        newest_first(entries).len() == entries.len(),
        newest_first(entries).to_multiset() == entries.to_multiset(),
    decreases entries.len(),
{
    broadcast use vstd::seq_lib::group_to_multiset_ensures;

    if entries.len() > 0 {
        lemma_newest_first_orders(entries.drop_last());
        lemma_insert_keeps_order(newest_first(entries.drop_last()), entries.last());
        assert(entries =~= entries.drop_last().push(entries.last()));
    } else {
        assert(entries =~= Seq::<EntryView>::empty());
    }
}

/// The entry of a file, if a listing shows it.
pub fn media_entry(found: &FoundFile) -> (r: Option<MediaEntry>)
    ensures
        match r {
            Some(entry) => entry_of(found@) == Some(entry@),
            None => entry_of(found@) is None,
        },
{
    let path = found.path.as_str();
    if !is_media_file(path) {
        return None;
    }
    let extension = lowercase_extension_of(path);
    let kind = kind_for_extension(&extension);
    match (file_name_of(path), extension) {
        (Some(name), Some(extension)) => Some(
            MediaEntry {
                name,
                path: owned(path),
                size: found.size,
                modified: found.modified,
                extension,
                kind,
            },
        ),
        _ => None,
    }
}

/// The listing of the files found: the media files among them, the newest
/// first, files of the same age in the order in which they were found.
pub fn list_media(found: &Vec<FoundFile>) -> (r: Vec<MediaEntry>)
    ensures
        entry_views(r@) == listing(found_views(found@)),
{
    let mut out: Vec<MediaEntry> = Vec::new();
    let n: usize = found.len();
    let mut i: usize = 0;
    assert(found_views(found@).take(0) =~= Seq::empty());
    assert(entry_views(out@) =~= Seq::empty());
    while i < n
        invariant
            i <= n,
            n == found@.len(),
            entry_views(out@) == listing(found_views(found@).take(i as int)),
        decreases n - i,
    {
        let ghost prefix = found_views(found@).take(i as int);
        let ghost next = found_views(found@).take(i + 1);
        assert(next.drop_last() =~= prefix);
        assert(next.last() == found@[i as int]@);
        match media_entry(&found[i]) {
            None => {
                assert(entries_of(next) == entries_of(prefix));
            },
            Some(entry) => {
                let ghost shown = entries_of(prefix);
                assert(entries_of(next) == shown.push(entry@));
                assert(shown.push(entry@).drop_last() =~= shown);
                assert(listing(next) == insert_newest_first(newest_first(shown), entry@));
                let mut at: usize = out.len();
                while at > 0 && out[at - 1].modified < entry.modified
                    invariant
                        at <= out@.len(),
                        forall|j: int|
                            at <= j < out@.len() ==> entry_views(out@)[j].modified
                                < entry@.modified,
                    decreases at,
                {
                    at -= 1;
                }
                proof {
                    lemma_insert_position(entry_views(out@), entry@, at as int);
                }
                let ghost before = entry_views(out@);
                out.insert(at, entry);
                assert(entry_views(out@) =~= before.insert(at as int, entry@));
            },
        }
        i += 1;
    }
    assert(found_views(found@).take(n as int) =~= found_views(found@));
    out
}

/// Why a drive could not be listed.
#[derive(Clone, Copy, Debug, PartialEq, Eq, Structural)]
pub enum ListingError {
    /// The path of the drive does not exist.
    DriveMissing,
}

impl ListingError {
    /// The message of the error.
    pub fn message(self) -> (r: &'static str)
        ensures
            r@ == "Drive path does not exist"@,
    {
        "Drive path does not exist"
    }
}

/// The listing of a drive, given whether its path exists and what was
/// found under it.
pub fn list_media_files(drive_exists: bool, found: &Vec<FoundFile>) -> (r: Result<
    Vec<MediaEntry>,
    ListingError,
>)
    ensures
        match r {
            Ok(entries) => drive_exists && entry_views(entries@) == listing(found_views(found@)),
            Err(e) => !drive_exists && e == ListingError::DriveMissing,
        },
{
    if !drive_exists {
        return Err(ListingError::DriveMissing);
    }
    Ok(list_media(found))
}

} // verus!
