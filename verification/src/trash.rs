//! Trash.
//!
//! A trash is a base directory with an info directory of metadata records, a
//! files directory of payloads, and a `directorysizes` file that caches the
//! sizes of the trashed directories.

use vstd::prelude::*;
use vstd::string::*;

use crate::actions::{DirEntry, DirEntryView};
use crate::dir_sizes::{spec_read_from, DirSizeView, DirSizes};
use crate::identifier::{record_identifier, spec_record_identifier, spec_trashinfo_file_name};
use crate::identifier::trashinfo_file_name;
use crate::info;
use crate::info::{MalformedRecord, TrashInfo, TrashInfoView};
use crate::paths::{join, joined_path};
use crate::timestamp::{Timestamp, TimestampView};

verus! {

/// What a trash holds.
pub struct TrashView {
    pub base_dir: Seq<char>,
    pub info_dir: Seq<char>,
    pub files_dir: Seq<char>,
    pub directorysizes_file: Seq<char>,
    /// The cached directory sizes, once they were loaded.
    pub dir_sizes: Option<Map<Seq<char>, DirSizeView>>,
}

impl TrashView {
    /// The trash at a base directory, before the directory sizes are loaded.
    pub open spec fn at(base_dir: Seq<char>) -> TrashView {
        TrashView {
            base_dir,
            info_dir: joined_path(base_dir, "info"@),
            files_dir: joined_path(base_dir, "files"@),
            directorysizes_file: joined_path(base_dir, "directorysizes"@),
            dir_sizes: None,
        }
    }

    /// The path of the metadata record of an identifier.
    pub open spec fn record_path(self, identifier: Seq<char>) -> Seq<char> {
        joined_path(self.info_dir, spec_trashinfo_file_name(identifier))
    }

    /// The path of the payload of an identifier.
    pub open spec fn payload_path(self, identifier: Seq<char>) -> Seq<char> {
        joined_path(self.files_dir, identifier)
    }

    /// The cached directory sizes: none before they were loaded.
    pub open spec fn known_sizes(self) -> Map<Seq<char>, DirSizeView> {
        match self.dir_sizes {
            Some(dir_sizes) => dir_sizes,
            None => Map::empty(),
        }
    }
}

/// Trash.
#[derive(Clone, Debug, PartialEq)]
pub struct Trash {
    base_dir: String,
    info_dir: String,
    files_dir: String,
    directorysizes_file: String,
    dir_sizes: Option<DirSizes>,
}

impl View for Trash {
    type V = TrashView;

    closed spec fn view(&self) -> TrashView {
        TrashView {
            base_dir: self.base_dir@,
            info_dir: self.info_dir@,
            files_dir: self.files_dir@,
            directorysizes_file: self.directorysizes_file@,
            dir_sizes: match self.dir_sizes {
                Some(dir_sizes) => Some(dir_sizes@),
                None => None,
            },
        }
    }
}

/// What a trash entry holds.
pub struct TrashEntryView {
    pub identifier: Seq<char>,
    pub original_path: Seq<char>,
    pub deletion_time: TimestampView,
    pub size: u64,
}

/// Trash entry.
#[derive(Clone, Debug, PartialEq)]
pub struct TrashEntry {
    identifier: String,
    original_path: String,
    deletion_time: Timestamp,
    size: u64,
}

impl View for TrashEntry {
    type V = TrashEntryView;

    closed spec fn view(&self) -> TrashEntryView {
        TrashEntryView {
            identifier: self.identifier@,
            original_path: self.original_path@,
            deletion_time: self.deletion_time@,
            size: self.size,
        }
    }
}

impl TrashEntry {
    /// The storage identifier that the record and the payload share.
    pub fn identifier(&self) -> (identifier: &str)
        ensures
            identifier@ == self@.identifier,
    {
        self.identifier.as_str()
    }

    /// The path that the item had before it was trashed.
    pub fn original_path(&self) -> (original_path: &str)
        ensures
            original_path@ == self@.original_path,
    {
        self.original_path.as_str()
    }

    /// The time at which the item was trashed.
    pub fn deletion_time(&self) -> (deletion_time: &Timestamp)
        ensures
            deletion_time@ == self@.deletion_time,
            self@.deletion_time.valid(),
    {
        proof {
            use_type_invariant(&self.deletion_time);
        }
        &self.deletion_time
    }

    /// The size of the item in bytes; for a directory, the cached size, or 0
    /// where none is known.
    pub fn size(&self) -> (size: u64)
        ensures
            size == self@.size,
    {
        self.size
    }
}

/// What was done to trash an item.
#[derive(Clone, Debug, PartialEq)]
pub struct TrashPutReport {
    /// The canonical path that the item had.
    pub path: String,
    /// The time at which the item was trashed.
    pub deletion_time: Timestamp,
}

/// What was done to restore an item.
#[derive(Clone, Debug, PartialEq)]
pub struct TrashRestoreReport {
    /// The path that the item is back at.
    pub path: String,
    /// The time at which the item had been trashed.
    pub deletion_time: Timestamp,
}

/// What a report on a trashed or restored item holds.
pub struct ReportView {
    pub path: Seq<char>,
    pub deletion_time: TimestampView,
}

impl View for TrashPutReport {
    type V = ReportView;

    open spec fn view(&self) -> ReportView {
        ReportView { path: self.path@, deletion_time: self.deletion_time@ }
    }
}

impl View for TrashRestoreReport {
    type V = ReportView;

    open spec fn view(&self) -> ReportView {
        ReportView { path: self.path@, deletion_time: self.deletion_time@ }
    }
}

/// What was done to empty the trash.
#[derive(Clone, Copy, Debug, PartialEq, Eq, Structural)]
pub struct TrashEmptyReport {
    /// The number of payloads that were removed.
    pub entry_count: usize,
    /// The number of bytes that were freed; not computed, and always 0.
    pub size: u64,
}

/// What the filesystem says of a payload.
#[derive(Clone, Copy, Debug, PartialEq, Eq, Structural)]
pub struct Payload {
    /// True when the payload is a directory, not a symbolic link to one.
    pub is_dir: bool,
    /// The length in bytes that the filesystem gives for the payload itself.
    pub len: u64,
}

/// What the caller found for one entry of the info directory.
#[derive(Clone, Debug, PartialEq, Eq)]
pub struct RecordFile {
    /// The entry of the info directory.
    pub entry: DirEntry,
    /// The contents of the file, if they could be read.
    pub contents: Option<Vec<u8>>,
    /// The modification time of the file in seconds since Epoch, if the
    /// file's metadata could be read.
    pub mtime: Option<u64>,
    /// The payload of the same identifier, if its metadata could be read.
    pub payload: Option<Payload>,
}

/// What a finding on an entry of the info directory holds.
pub struct RecordFileView {
    pub entry: DirEntryView,
    pub contents: Option<Seq<u8>>,
    pub mtime: Option<u64>,
    pub payload: Option<Payload>,
}

impl View for RecordFile {
    type V = RecordFileView;

    open spec fn view(&self) -> RecordFileView {
        RecordFileView {
            entry: self.entry@,
            contents: match self.contents {
                Some(contents) => Some(contents@),
                None => None,
            },
            mtime: self.mtime,
            payload: self.payload,
        }
    }
}

/// Why a metadata record gives no trash entry.
#[derive(Clone, Copy, Debug, PartialEq, Eq, Structural)]
pub enum EntryError {
    /// The record could not be read.
    UnreadableRecord,
    /// The record is malformed.
    Malformed(MalformedRecord),
    /// The metadata of the payload could not be read: most likely there is
    /// no payload.
    MissingPayload,
    /// The payload is a directory and the metadata of the record could not
    /// be read.
    UnreadableRecordMetadata,
}

/// True of the entries of the info directory that are metadata records:
/// files with the extension `trashinfo`.
pub open spec fn spec_is_trashinfo_file(entry: DirEntryView) -> bool {
    entry.is_file && spec_record_identifier(entry.file_name) is Some
}

/// The size of a trashed directory: the cached size if the cache holds one
/// that was computed when the record had its current modification time, else 0.
pub open spec fn spec_cached_size(
    dir_sizes: Map<Seq<char>, DirSizeView>,
    identifier: Seq<char>,
    mtime: u64,
) -> u64 {
    if dir_sizes.contains_key(identifier) && dir_sizes[identifier].mtime == mtime {
        dir_sizes[identifier].size
    } else {
        0
    }
}

/// The trash entry that a metadata record gives.
pub open spec fn spec_new_entry(
    dir_sizes: Map<Seq<char>, DirSizeView>,
    file: RecordFileView,
) -> Result<TrashEntryView, EntryError>
    recommends
        spec_record_identifier(file.entry.file_name) is Some,
{
    let identifier = spec_record_identifier(file.entry.file_name).unwrap();
    match file.contents {
        None => Err(EntryError::UnreadableRecord),
        Some(contents) => match info::spec_read_from(contents) {
            Err(error) => Err(EntryError::Malformed(error)),
            Ok(info) => match file.payload {
                None => Err(EntryError::MissingPayload),
                Some(payload) => if !payload.is_dir {
                    Ok(
                        TrashEntryView {
                            identifier,
                            original_path: info.path,
                            deletion_time: info.deletion_time,
                            size: payload.len,
                        },
                    )
                } else {
                    match file.mtime {
                        None => Err(EntryError::UnreadableRecordMetadata),
                        Some(mtime) => Ok(
                            TrashEntryView {
                                identifier,
                                original_path: info.path,
                                deletion_time: info.deletion_time,
                                size: spec_cached_size(dir_sizes, identifier, mtime),
                            },
                        ),
                    }
                },
            },
        },
    }
}

/// The findings as values.
pub open spec fn record_files(files: Seq<RecordFile>) -> Seq<RecordFileView> {
    Seq::new(files.len(), |i: int| files[i]@)
}

/// What a result holds, with the entry as its view.
pub open spec fn entry_result(result: Result<TrashEntry, EntryError>) -> Result<
    TrashEntryView,
    EntryError,
> {
    match result {
        Ok(entry) => Ok(entry@),
        Err(error) => Err(error),
    }
}

/// The results as values.
pub open spec fn entry_results(results: Seq<Result<TrashEntry, EntryError>>) -> Seq<
    Result<TrashEntryView, EntryError>,
> {
    Seq::new(results.len(), |i: int| entry_result(results[i]))
}

/// The entries of a trash: one result for each metadata record among the
/// entries of the info directory, in their order.
pub open spec fn spec_entries(
    dir_sizes: Map<Seq<char>, DirSizeView>,
    files: Seq<RecordFileView>,
) -> Seq<Result<TrashEntryView, EntryError>>
    decreases files.len(),
{
    if files.len() == 0 {
        Seq::empty()
    } else if spec_is_trashinfo_file(files.last().entry) {
        spec_entries(dir_sizes, files.drop_last()).push(spec_new_entry(dir_sizes, files.last()))
    } else {
        spec_entries(dir_sizes, files.drop_last())
    }
}

impl Trash {
    /// Return the default base directory of the home trash: `Trash` in the
    /// user's data home.
    pub fn default_base_dir(data_home: &str) -> (base_dir: String)
        ensures
            base_dir@ == joined_path(data_home@, "Trash"@),
    {
        join(data_home, "Trash")
    }

    /// Create a trash at the given base directory.
    pub fn new(base_dir: &str) -> (trash: Trash)
        ensures
            trash@ == TrashView::at(base_dir@),
    {
        let info_dir = join(base_dir, "info");
        let files_dir = join(base_dir, "files");
        let directorysizes_file = join(base_dir, "directorysizes");
        Trash {
            base_dir: base_dir.to_owned(),
            info_dir,
            files_dir,
            directorysizes_file,
            dir_sizes: None,
        }
    }

    /// Return the base directory of this trash.
    pub fn base_dir(&self) -> (base_dir: &str)
        ensures
            base_dir@ == self@.base_dir,
    {
        self.base_dir.as_str()
    }

    /// Return the info directory of this trash.
    pub fn info_dir(&self) -> (info_dir: &str)
        ensures
            info_dir@ == self@.info_dir,
    {
        self.info_dir.as_str()
    }

    /// Return the files directory of this trash.
    pub fn files_dir(&self) -> (files_dir: &str)
        ensures
            files_dir@ == self@.files_dir,
    {
        self.files_dir.as_str()
    }

    /// Return the directorysizes file of this trash.
    pub fn directorysizes_file(&self) -> (directorysizes_file: &str)
        ensures
            directorysizes_file@ == self@.directorysizes_file,
    {
        self.directorysizes_file.as_str()
    }

    /// Return the path of the metadata record of an identifier.
    pub fn record_path(&self, identifier: &str) -> (path: String)
        ensures
            path@ == self@.record_path(identifier@),
    {
        let file_name = trashinfo_file_name(identifier);
        join(self.info_dir.as_str(), file_name.as_str())
    }

    /// Return the path of the payload of an identifier.
    pub fn payload_path(&self, identifier: &str) -> (path: String)
        ensures
            path@ == self@.payload_path(identifier@),
    {
        join(self.files_dir.as_str(), identifier)
    }

    /// True when the directory sizes were loaded.
    pub fn has_dir_sizes(&self) -> (loaded: bool)
        ensures
            loaded == self@.dir_sizes is Some,
    {
        self.dir_sizes.is_some()
    }

    /// True when the directory sizes are needed and not loaded yet: some
    /// payload among the findings is a directory, whose size comes from them.
    pub fn needs_dir_sizes(&self, files: &Vec<RecordFile>) -> (needed: bool)
        ensures
            needed == (self@.dir_sizes is None && exists|i: int|
                0 <= i < files@.len() && (#[trigger] files@[i])@.payload is Some
                    && files@[i]@.payload->Some_0.is_dir),
    {
        if self.dir_sizes.is_some() {
            return false;
        }
        let mut i: usize = 0;
        while i < files.len()
            invariant
                i <= files@.len(),
                self@.dir_sizes is None,
                forall|j: int|
                    0 <= j < i ==> !((#[trigger] files@[j])@.payload is Some
                        && files@[j]@.payload->Some_0.is_dir),
            decreases files@.len() - i,
        {
            if let Some(payload) = files[i].payload {
                if payload.is_dir {
                    assert(files@[i as int]@.payload is Some
                        && files@[i as int]@.payload->Some_0.is_dir);
                    return true;
                }
            }
            i += 1;
        }
        false
    }

    /// Load the directory sizes from the contents of the `directorysizes`
    /// file, unless they were loaded before. Without contents, because the
    /// file is missing or cannot be read, no directory size is known.
    pub fn load_dir_sizes(&mut self, contents: Option<&str>)
        ensures
            old(self)@.dir_sizes is Some ==> final(self)@ == old(self)@,
            old(self)@.dir_sizes is None ==> final(self)@ == (TrashView {
                dir_sizes: Some(
                    match contents {
                        Some(contents) => spec_read_from(contents@),
                        None => Map::empty(),
                    },
                ),
                ..old(self)@
            }),
    {
        if self.dir_sizes.is_none() {
            let dir_sizes = match contents {
                Some(contents) => DirSizes::read_from(contents),
                None => DirSizes::new(),
            };
            self.dir_sizes = Some(dir_sizes);
        }
    }

    /// True when the entry of the info directory is a metadata record.
    pub fn is_trashinfo_file(entry: &DirEntry) -> (is_record: bool)
        ensures
            is_record == spec_is_trashinfo_file(entry@),
    {
        entry.is_file && record_identifier(entry.file_name.as_str()).is_some()
    }

    /// Return the size of a trashed directory from the cached directory sizes.
    fn cached_size(&self, identifier: &str, mtime: u64) -> (size: u64)
        ensures
            size == spec_cached_size(self@.known_sizes(), identifier@, mtime),
    {
        match &self.dir_sizes {
            Some(dir_sizes) => match dir_sizes.get(identifier) {
                Some(dir_size) => if dir_size.mtime() == mtime {
                    dir_size.size()
                } else {
                    // NOTE: We don't compute the actual directory size here
                    0
                },
                None => 0,
            },
            None => 0,
        }
    }

    /// Make the trash entry of a metadata record.
    ///
    /// The file must have the name of a metadata record.
    pub fn new_entry(&self, file: &RecordFile) -> (result: Result<TrashEntry, EntryError>)
        requires
            spec_record_identifier(file@.entry.file_name) is Some,
        ensures
            entry_result(result) == spec_new_entry(self@.known_sizes(), file@),
    {
        // Determine identifier
        let identifier = record_identifier(file.entry.file_name.as_str()).unwrap();
        // Load trashinfo
        let contents = match &file.contents {
            Some(contents) => contents,
            None => {
                return Err(EntryError::UnreadableRecord);
            },
        };
        let trashinfo = match TrashInfo::read_from(contents.as_slice()) {
            Ok(trashinfo) => trashinfo,
            Err(error) => {
                return Err(EntryError::Malformed(error));
            },
        };
        // Examine file
        let payload = match file.payload {
            Some(payload) => payload,
            None => {
                return Err(EntryError::MissingPayload);
            },
        };
        let size = if payload.is_dir {
            // The file is a directory
            // Get its size from the cached directory sizes
            match file.mtime {
                Some(mtime) => self.cached_size(identifier.as_str(), mtime),
                None => {
                    return Err(EntryError::UnreadableRecordMetadata);
                },
            }
        } else {
            // The file is a regular file or a symlink
            // Get its actual size
            payload.len
        };
        let original_path = trashinfo.path().to_owned();
        let deletion_time = *trashinfo.deletion_time();
        Ok(TrashEntry { identifier, original_path, deletion_time, size })
    }

    /// Return the entries of this trash, given what the caller found for each
    /// entry of the info directory; for a missing info directory, nothing.
    ///
    /// A record that gives no entry does not stop the others.
    pub fn entries(&self, files: &Vec<RecordFile>) -> (entries: Vec<
        Result<TrashEntry, EntryError>,
    >)
        ensures
            entry_results(entries@) == spec_entries(self@.known_sizes(), record_files(files@)),
            files@.len() == 0 ==> entries@.len() == 0,
            entries@.len() <= files@.len(),
    {
        let mut entries: Vec<Result<TrashEntry, EntryError>> = Vec::new();
        let mut i: usize = 0;
        assert(record_files(files@).take(0) =~= Seq::<RecordFileView>::empty());
        assert(entry_results(entries@) =~= Seq::<Result<TrashEntryView, EntryError>>::empty());
        while i < files.len()
            invariant
                i <= files@.len(),
                entries@.len() <= i,
                entry_results(entries@) == spec_entries(
                    self@.known_sizes(),
                    record_files(files@).take(i as int),
                ),
            decreases files@.len() - i,
        {
            let ghost prefix = record_files(files@).take(i + 1);
            assert(prefix.drop_last() =~= record_files(files@).take(i as int));
            assert(prefix.last() == files@[i as int]@);
            let file = &files[i];
            if Trash::is_trashinfo_file(&file.entry) {
                let ghost before = entry_results(entries@);
                let entry = self.new_entry(file);
                entries.push(entry);
                assert(entry_results(entries@) =~= before.push(entry_result(entry)));
            }
            i += 1;
        }
        assert(record_files(files@).take(files@.len() as int) =~= record_files(files@));
        entries
    }
}

} // verus!
