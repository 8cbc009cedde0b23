//! Trash info.
//!
//! A `.trashinfo` file in the info directory of a trash is the metadata record
//! of one trashed item: a document with a section `Trash Info` that holds the
//! percent-encoded original path under `Path` and the deletion time under
//! `DeletionDate`.

use vstd::prelude::*;
use vstd::string::*;
use vstd::utf8::*;

use ini::Ini;

use crate::ini_format::{
    ini_document,
    ini_read_from,
    ini_section,
    ini_sections,
    ini_write_section,
    is_plain,
    needs_no_escape,
    properties_get,
    properties_values,
    section_bytes,
};
use crate::percent;
use crate::timestamp;
use crate::timestamp::{Timestamp, TimestampView};

verus! {

/// The name of the section of a metadata record.
pub open spec fn section_name() -> Seq<char> {
    "Trash Info"@
}

/// The key of the original path.
pub open spec fn path_key() -> Seq<char> {
    "Path"@
}

/// The key of the deletion time.
pub open spec fn deletion_date_key() -> Seq<char> {
    "DeletionDate"@
}

/// Why the bytes of a `.trashinfo` file are no metadata record.
#[derive(Clone, Copy, Debug, PartialEq, Eq, Structural)]
pub enum MalformedRecord {
    /// The bytes are no document of sections and entries.
    Syntax,
    /// The document has no section `Trash Info`.
    MissingSection,
    /// The section has no entry `Path`.
    MissingPath,
    /// The path does not decode to UTF-8.
    InvalidPath,
    /// The section has no entry `DeletionDate`.
    MissingDeletionDate,
    /// The deletion date does not follow the pattern `YYYY-MM-DDTHH:MM:SS`, or
    /// denotes no second of a day of the calendar.
    InvalidDeletionDate,
}

impl MalformedRecord {
    /// Describe the error.
    pub fn message(&self) -> (message: &'static str)
        ensures
            message@ == match *self {
                MalformedRecord::Syntax => "invalid syntax"@,
                MalformedRecord::MissingSection => "missing section: Trash Info"@,
                MalformedRecord::MissingPath => "missing entry: Path"@,
                MalformedRecord::InvalidPath => "invalid path"@,
                MalformedRecord::MissingDeletionDate => "missing entry: DeletionDate"@,
                MalformedRecord::InvalidDeletionDate => "invalid deletion date"@,
            },
    {
        match self {
            MalformedRecord::Syntax => "invalid syntax",
            MalformedRecord::MissingSection => "missing section: Trash Info",
            MalformedRecord::MissingPath => "missing entry: Path",
            MalformedRecord::InvalidPath => "invalid path",
            MalformedRecord::MissingDeletionDate => "missing entry: DeletionDate",
            MalformedRecord::InvalidDeletionDate => "invalid deletion date",
        }
    }
}

/// What a metadata record holds.
pub struct TrashInfoView {
    pub path: Seq<char>,
    pub deletion_time: TimestampView,
}

impl TrashInfoView {
    /// The value stored under `Path`.
    pub open spec fn path_entry(self) -> Seq<char> {
        percent::spec_encode(self.path)
    }

    /// The value stored under `DeletionDate`.
    pub open spec fn deletion_date_entry(self) -> Seq<char> {
        self.deletion_time.text()
    }

    /// The bytes of the `.trashinfo` file.
    pub open spec fn bytes(self) -> Seq<u8> {
        section_bytes(
            section_name(),
            path_key(),
            self.path_entry(),
            deletion_date_key(),
            self.deletion_date_entry(),
        )
    }
}

/// Trash info.
///
/// Represents the contents of a `.trashinfo` file in the info directory of a trash.
#[derive(Clone, Debug, PartialEq)]
pub struct TrashInfo {
    path: String,
    deletion_time: Timestamp,
}

impl View for TrashInfo {
    type V = TrashInfoView;

    closed spec fn view(&self) -> TrashInfoView {
        TrashInfoView { path: self.path@, deletion_time: self.deletion_time@ }
    }
}

/// The value stored under a key, if there is one.
pub open spec fn entry(entries: Map<Seq<char>, Seq<char>>, key: Seq<char>) -> Option<Seq<char>> {
    if entries.contains_key(key) {
        Some(entries[key])
    } else {
        None
    }
}

/// The record that the values of the two entries stand for.
pub open spec fn spec_from_entries(
    path: Option<Seq<char>>,
    deletion_date: Option<Seq<char>>,
) -> Result<TrashInfoView, MalformedRecord> {
    if path is None {
        Err(MalformedRecord::MissingPath)
    } else if percent::spec_decode(path.unwrap()) is None {
        Err(MalformedRecord::InvalidPath)
    } else if deletion_date is None {
        Err(MalformedRecord::MissingDeletionDate)
    } else if timestamp::spec_parse(deletion_date.unwrap()) is None {
        Err(MalformedRecord::InvalidDeletionDate)
    } else {
        Ok(
            TrashInfoView {
                path: percent::spec_decode(path.unwrap()).unwrap(),
                deletion_time: timestamp::spec_parse(deletion_date.unwrap()).unwrap(),
            },
        )
    }
}

/// The record that the sections of a document stand for.
pub open spec fn spec_from_sections(
    sections: Map<Seq<char>, Map<Seq<char>, Seq<char>>>,
) -> Result<TrashInfoView, MalformedRecord> {
    if !sections.contains_key(section_name()) {
        Err(MalformedRecord::MissingSection)
    } else {
        spec_from_entries(
            entry(sections[section_name()], path_key()),
            entry(sections[section_name()], deletion_date_key()),
        )
    }
}

/// The record that the bytes of a `.trashinfo` file stand for.
pub open spec fn spec_read_from(bytes: Seq<u8>) -> Result<TrashInfoView, MalformedRecord> {
    match ini_document(bytes) {
        None => Err(MalformedRecord::Syntax),
        Some(sections) => spec_from_sections(sections),
    }
}

/// What a result holds, with the record as its view.
pub open spec fn result_view(result: Result<TrashInfo, MalformedRecord>) -> Result<
    TrashInfoView,
    MalformedRecord,
> {
    match result {
        Ok(info) => Ok(info@),
        Err(error) => Err(error),
    }
}

/// The two entries that a record is stored as stand for that record: its path
/// and its deletion time come back exactly, whatever characters the path holds.
pub proof fn lemma_entries_round_trip(info: TrashInfoView)
    requires
        info.deletion_time.valid(),
    ensures
        spec_from_entries(Some(info.path_entry()), Some(info.deletion_date_entry())) == Ok::<
            TrashInfoView,
            MalformedRecord,
        >(info),
{
    percent::lemma_decode_encode(info.path);
    timestamp::lemma_parse_text(info.deletion_time);
}

/// A document stands for a record whenever its section `Trash Info` holds
/// the two entries that the record is stored as, whatever else it holds.
pub proof fn lemma_sections_round_trip(
    info: TrashInfoView,
    sections: Map<Seq<char>, Map<Seq<char>, Seq<char>>>,
)
    requires
        info.deletion_time.valid(),
        sections.contains_key(section_name()),
        entry(sections[section_name()], path_key()) == Some(info.path_entry()),
        entry(sections[section_name()], deletion_date_key()) == Some(info.deletion_date_entry()),
    ensures
        spec_from_sections(sections) == Ok::<TrashInfoView, MalformedRecord>(info),
{
    lemma_entries_round_trip(info);
}

/// A text of ASCII characters other than the backslash, the control
/// characters and the delete character is written as it is.
proof fn lemma_plain_text(text: Seq<char>)
    requires
        forall|i: int|
            0 <= i < text.len() ==> ' ' <= #[trigger] text[i] <= '~' && text[i] != '\\',
    ensures
        needs_no_escape(text),
{
    assert(is_ascii_chars(text));
    is_ascii_chars_encode_utf8(text);
    let bytes = encode_utf8(text);
    assert forall|i: int| 0 <= i < bytes.len() implies is_plain(#[trigger] bytes[i]) by {
        assert(bytes[i] == text[i] as u8);
    }
}

/// A percent-encoded text is written as it is.
proof fn lemma_plain_encoded(encoded: Seq<char>, bytes: Seq<u8>)
    requires
        encode_utf8(encoded) == percent::encoded_bytes(bytes),
    ensures
        needs_no_escape(encoded),
{
    percent::lemma_encoded_bytes_alphabet(bytes);
    let written = encode_utf8(encoded);
    assert forall|i: int| 0 <= i < written.len() implies is_plain(#[trigger] written[i]) by {
        assert(percent::is_unreserved(written[i]) || written[i] == percent::PERCENT);
    }
}

impl TrashInfo {
    /// Create the metadata record of an item.
    pub fn new(path: &str, deletion_time: Timestamp) -> (info: TrashInfo)
        ensures
            info@ == (TrashInfoView { path: path@, deletion_time: deletion_time@ }),
    {
        TrashInfo { path: path.to_owned(), deletion_time }
    }

    /// The path that the item had before it was trashed.
    pub fn path(&self) -> (path: &str)
        ensures
            path@ == self@.path,
    {
        self.path.as_str()
    }

    /// The time at which the item was trashed.
    pub fn deletion_time(&self) -> (deletion_time: &Timestamp)
        ensures
            deletion_time@ == self@.deletion_time,
            self@.deletion_time.valid(),
    {
        proof {
            use_type_invariant(&self.deletion_time);
        }
        &self.deletion_time
    }

    /// Read a trash info from the values of its two entries.
    pub fn from_entries(path: Option<&str>, deletion_date: Option<&str>) -> (result: Result<
        TrashInfo,
        MalformedRecord,
    >)
        ensures
            result_view(result) == spec_from_entries(
                match path {
                    Some(path) => Some(path@),
                    None => None,
                },
                match deletion_date {
                    Some(deletion_date) => Some(deletion_date@),
                    None => None,
                },
            ),
    {
        // Entry: Path
        let path_entry = match path {
            Some(path_entry) => path_entry,
            None => {
                return Err(MalformedRecord::MissingPath);
            },
        };
        let path = match percent::decode(path_entry) {
            Some(path) => path,
            None => {
                return Err(MalformedRecord::InvalidPath);
            },
        };
        // Entry: Deletion date
        let deletion_date_entry = match deletion_date {
            Some(deletion_date_entry) => deletion_date_entry,
            None => {
                return Err(MalformedRecord::MissingDeletionDate);
            },
        };
        let deletion_time = match Timestamp::parse(deletion_date_entry) {
            Some(deletion_time) => deletion_time,
            None => {
                return Err(MalformedRecord::InvalidDeletionDate);
            },
        };
        Ok(TrashInfo { path, deletion_time })
    }

    /// Read a trash info from a document.
    ///
    /// If an entry occurs several times, its first occurrence is used.
    fn from_ini(ini: &Ini) -> (result: Result<TrashInfo, MalformedRecord>)
        ensures
            result_view(result) == spec_from_sections(ini_sections(*ini)),
    {
        // Section: Trash Info
        let section = match ini_section(ini, "Trash Info") {
            Some(section) => section,
            None => {
                return Err(MalformedRecord::MissingSection);
            },
        };
        let path = properties_get(section, "Path");
        let deletion_date = properties_get(section, "DeletionDate");
        TrashInfo::from_entries(path, deletion_date)
    }

    /// Read a trash info from the bytes of a `.trashinfo` file.
    pub fn read_from(bytes: &[u8]) -> (result: Result<TrashInfo, MalformedRecord>)
        ensures
            result_view(result) == spec_read_from(bytes@),
    {
        match ini_read_from(bytes) {
            Ok(ini) => TrashInfo::from_ini(&ini),
            Err(_) => Err(MalformedRecord::Syntax),
        }
    }

    /// Write this trash info as the bytes of a `.trashinfo` file.
    pub fn write_to(&self) -> (bytes: Vec<u8>)
        ensures
            bytes@ == self@.bytes(),
            self@.deletion_time.valid(),
    {
        let path_entry = percent::encode(self.path.as_str());
        let deletion_date_entry = self.deletion_time.format();
        proof {
            reveal_strlit("Trash Info");
            reveal_strlit("Path");
            reveal_strlit("DeletionDate");
            lemma_plain_text("Trash Info"@);
            lemma_plain_text("Path"@);
            lemma_plain_text("DeletionDate"@);
            lemma_plain_text(deletion_date_entry@);
            lemma_plain_encoded(path_entry@, encode_utf8(self.path@));
            assert("Path"@.len() != "DeletionDate"@.len());
        }
        ini_write_section(
            "Trash Info",
            "Path",
            path_entry.as_str(),
            "DeletionDate",
            deletion_date_entry.as_str(),
        )
    }
}

} // verus!
