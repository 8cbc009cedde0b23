//! Directory sizes.
//!
//! The `directorysizes` file of a trash caches the sizes of trashed
//! directories, one record per line: the size in bytes, the modification time
//! of the item's metadata record, and the percent-encoded name of the item,
//! separated by whitespace. The cache is best-effort: a line that cannot be
//! read is skipped.

use vstd::prelude::*;

use crate::decimal::{parse_u64, spec_parse_u64};
use crate::percent::{decode, spec_decode};
use crate::text::{same_text, texts};

verus! {

/// Timestamps after this number of seconds since Epoch (roughly 2200-01-01 at
/// midnight) are taken to be in milliseconds.
pub const TIMESTAMP_LIMIT: u64 = 7_258_122_000;

/// The number of seconds that a timestamp read from a record stands for.
pub open spec fn spec_corrected_timestamp(timestamp: u64) -> u64 {
    if timestamp > TIMESTAMP_LIMIT {
        timestamp / 1000
    } else {
        timestamp
    }
}

/// Return the given timestamp corrected.
///
/// Records are meant to hold seconds since Epoch, but some producers write
/// milliseconds. A timestamp after [`TIMESTAMP_LIMIT`] is divided by 1000.
pub fn corrected_timestamp(timestamp: u64) -> (corrected: u64)
    ensures
        corrected == spec_corrected_timestamp(timestamp),
{
    if timestamp > TIMESTAMP_LIMIT {
        timestamp / 1000
    } else {
        timestamp
    }
}

/// A timestamp up to the limit is kept as it is, and a later one is divided
/// by 1000. The corrected timestamp is never later than the one read, and a
/// number of milliseconds that denotes a time up to the limit comes out as a
/// number of seconds up to the limit.
pub proof fn lemma_corrected_timestamp(timestamp: u64)
    ensures
        timestamp <= TIMESTAMP_LIMIT ==> spec_corrected_timestamp(timestamp) == timestamp,
        timestamp > TIMESTAMP_LIMIT ==> spec_corrected_timestamp(timestamp) == timestamp / 1000,
        spec_corrected_timestamp(timestamp) <= timestamp,
        timestamp <= TIMESTAMP_LIMIT * 1000 ==> spec_corrected_timestamp(timestamp)
            <= TIMESTAMP_LIMIT,
{
}

/// Why a line of the `directorysizes` file could not be read.
#[derive(Clone, Copy, Debug, PartialEq, Eq, Structural)]
pub enum LineError {
    /// The line has no field.
    MissingSize,
    /// The first field is not an unsigned number.
    InvalidSize,
    /// The line has one field only.
    MissingMtime,
    /// The second field is not an unsigned number.
    InvalidMtime,
    /// The line has two fields only.
    MissingName,
    /// The third field does not decode to UTF-8.
    InvalidName,
}

/// What a directory size record holds.
pub struct DirSizeView {
    pub name: Seq<char>,
    pub size: u64,
    pub mtime: u64,
}

/// Directory size.
///
/// Represents a record in the `directorysizes` file of a trash.
#[derive(Clone, Debug, PartialEq)]
pub struct DirSize {
    name: String,
    size: u64,
    mtime: u64,
}

impl View for DirSize {
    type V = DirSizeView;

    closed spec fn view(&self) -> DirSizeView {
        DirSizeView { name: self.name@, size: self.size, mtime: self.mtime }
    }
}

/// The fields of a line: its maximal runs of characters that are not
/// whitespace, in order.
pub uninterp spec fn whitespace_fields(line: Seq<char>) -> Seq<Seq<char>>;

/// The place of the first line feed of a text, or the length of the text if
/// it holds none.
pub open spec fn first_line_feed(text: Seq<char>) -> nat
    decreases text.len(),
{
    if text.len() == 0 || text[0] == '\n' {
        0
    } else {
        1 + first_line_feed(text.drop_first())
    }
}

/// The lines of a text, without their line endings. A line ends at a line
/// feed; a carriage return right before the line feed belongs to the line
/// ending, any other stays in the line. What follows the last line feed is a
/// line too, unless it is empty.
pub open spec fn text_lines(text: Seq<char>) -> Seq<Seq<char>>
    decreases text.len(),
{
    let end = first_line_feed(text) as int;
    if text.len() == 0 {
        Seq::empty()
    } else if end >= text.len() {
        seq![text]
    } else if end > 0 && text[end - 1] == '\r' {
        seq![text.subrange(0, end - 1)] + text_lines(text.subrange(end + 1, text.len() as int))
    } else {
        seq![text.subrange(0, end)] + text_lines(text.subrange(end + 1, text.len() as int))
    }
}

/// Calls `str::split_whitespace` and collects the sub-slices that it yields.
/// The result is a function of the line alone.
#[verifier::external_body]
fn split_whitespace(line: &str) -> (fields: Vec<String>)
    ensures
        texts(fields@) == whitespace_fields(line@),
{
    line.split_whitespace().map(String::from).collect()
}

/// Calls `str::lines` and collects the lines that it yields: the text is
/// split at each line feed, a carriage return right before a line feed goes
/// with it, and an empty rest after the last line feed is no line.
#[verifier::external_body]
fn split_lines(text: &str) -> (lines: Vec<String>)
    ensures
        texts(lines@) == text_lines(text@),
{
    text.lines().map(String::from).collect()
}

/// What the fields of a line stand for. Fields beyond the third are ignored.
pub open spec fn spec_from_fields(fields: Seq<Seq<char>>) -> Result<DirSizeView, LineError> {
    if fields.len() < 1 {
        Err(LineError::MissingSize)
    } else if spec_parse_u64(fields[0]) is None {
        Err(LineError::InvalidSize)
    } else if fields.len() < 2 {
        Err(LineError::MissingMtime)
    } else if spec_parse_u64(fields[1]) is None {
        Err(LineError::InvalidMtime)
    } else if fields.len() < 3 {
        Err(LineError::MissingName)
    } else if spec_decode(fields[2]) is None {
        Err(LineError::InvalidName)
    } else {
        Ok(
            DirSizeView {
                name: spec_decode(fields[2]).unwrap(),
                size: spec_parse_u64(fields[0]).unwrap(),
                mtime: spec_corrected_timestamp(spec_parse_u64(fields[1]).unwrap()),
            },
        )
    }
}

/// What a line of the `directorysizes` file stands for.
pub open spec fn spec_read_from_line(line: Seq<char>) -> Result<DirSizeView, LineError> {
    spec_from_fields(whitespace_fields(line))
}

impl DirSize {
    /// The name of the trashed directory: its storage identifier.
    pub fn name(&self) -> (name: &str)
        ensures
            name@ == self@.name,
    {
        self.name.as_str()
    }

    /// The cached size of the directory, in bytes.
    pub fn size(&self) -> (size: u64)
        ensures
            size == self@.size,
    {
        self.size
    }

    /// The modification time of the metadata record when the size was
    /// computed, in seconds since Epoch.
    pub fn mtime(&self) -> (mtime: u64)
        ensures
            mtime == self@.mtime,
    {
        self.mtime
    }

    /// Read a directory size from the whitespace-separated fields of a line.
    pub fn from_fields(fields: &Vec<String>) -> (result: Result<DirSize, LineError>)
        ensures
            match result {
                Ok(dir_size) => spec_from_fields(texts(fields@)) == Ok::<DirSizeView, LineError>(
                    dir_size@,
                ),
                Err(error) => spec_from_fields(texts(fields@)) == Err::<DirSizeView, LineError>(
                    error,
                ),
            },
    {
        if fields.len() < 1 {
            return Err(LineError::MissingSize);
        }
        let size: u64 = match parse_u64(fields[0].as_str()) {
            Some(size) => size,
            None => {
                return Err(LineError::InvalidSize);
            },
        };
        if fields.len() < 2 {
            return Err(LineError::MissingMtime);
        }
        let mtime: u64 = match parse_u64(fields[1].as_str()) {
            Some(mtime) => corrected_timestamp(mtime),
            None => {
                return Err(LineError::InvalidMtime);
            },
        };
        if fields.len() < 3 {
            return Err(LineError::MissingName);
        }
        let name = match decode(fields[2].as_str()) {
            Some(name) => name,
            None => {
                return Err(LineError::InvalidName);
            },
        };
        Ok(DirSize { name, size, mtime })
    }

    /// Read a directory size from a line of the `directorysizes` file.
    pub fn read_from_line(line: &str) -> (result: Result<DirSize, LineError>)
        ensures
            match result {
                Ok(dir_size) => spec_read_from_line(line@) == Ok::<DirSizeView, LineError>(
                    dir_size@,
                ),
                Err(error) => spec_read_from_line(line@) == Err::<DirSizeView, LineError>(error),
            },
    {
        let fields = split_whitespace(line);
        DirSize::from_fields(&fields)
    }
}

/// The record that the last entry of the given name holds, if there is one.
pub open spec fn last_of_name(entries: Seq<DirSize>, name: Seq<char>) -> Option<DirSizeView>
    decreases entries.len(),
{
    if entries.len() == 0 {
        None
    } else if entries.last()@.name == name {
        Some(entries.last()@)
    } else {
        last_of_name(entries.drop_last(), name)
    }
}

/// Directory sizes by name.
///
/// Holds the records in the order in which they were inserted. Of several
/// records of one name the last one counts. Two of them are equal when they
/// hold the same record for every name.
#[derive(Clone, Debug)]
pub struct DirSizes {
    entries: Vec<DirSize>,
}

impl View for DirSizes {
    type V = Map<Seq<char>, DirSizeView>;

    closed spec fn view(&self) -> Map<Seq<char>, DirSizeView> {
        Map::new(
            |name: Seq<char>| last_of_name(self.entries@, name) is Some,
            |name: Seq<char>| last_of_name(self.entries@, name).unwrap(),
        )
    }
}

/// True when the first records hold, for the name of each of them, the
/// record that the second ones hold.
pub open spec fn covered(first: Seq<DirSize>, second: Seq<DirSize>) -> bool {
    forall|i: int|
        0 <= i < first.len() ==> last_of_name(first, (#[trigger] first[i])@.name) == last_of_name(
            second,
            first[i]@.name,
        )
}

/// A name that has a record is the name of one of the records.
proof fn lemma_name_of_record(entries: Seq<DirSize>, name: Seq<char>)
    requires
        last_of_name(entries, name) is Some,
    ensures
        exists|i: int| 0 <= i < entries.len() && (#[trigger] entries[i])@.name == name,
    decreases entries.len(),
{
    if entries.last()@.name == name {
        assert(entries[entries.len() - 1]@.name == name);
    } else {
        lemma_name_of_record(entries.drop_last(), name);
        let found = choose|i: int|
            0 <= i < entries.drop_last().len() && (#[trigger] entries.drop_last()[i])@.name
                == name;
        assert(entries[found]@.name == name);
    }
}

/// Records that cover each other hold the same record for every name.
proof fn lemma_covered_both_ways(first: Seq<DirSize>, second: Seq<DirSize>, name: Seq<char>)
    requires
        covered(first, second),
        covered(second, first),
    ensures
        last_of_name(first, name) == last_of_name(second, name),
{
    if last_of_name(first, name) is Some {
        lemma_name_of_record(first, name);
    } else if last_of_name(second, name) is Some {
        lemma_name_of_record(second, name);
    }
}

impl PartialEq for DirSizes {
    fn eq(&self, other: &DirSizes) -> (equal: bool) {
        let equal = self.is_covered_by(other) && other.is_covered_by(self);
        proof {
            if equal {
                assert forall|name: Seq<char>|
                    last_of_name(self.entries@, name) == last_of_name(other.entries@, name) by {
                    lemma_covered_both_ways(self.entries@, other.entries@, name);
                }
                assert(self@ =~= other@);
            } else if self@ == other@ {
                assert forall|name: Seq<char>|
                    last_of_name(self.entries@, name) == last_of_name(other.entries@, name) by {
                    assert(self@.contains_key(name) == other@.contains_key(name));
                    if self@.contains_key(name) {
                        assert(self@[name] == other@[name]);
                    }
                }
                assert(covered(self.entries@, other.entries@));
                assert(covered(other.entries@, self.entries@));
            }
        }
        equal
    }
}

impl vstd::std_specs::cmp::PartialEqSpecImpl for DirSizes {
    open spec fn obeys_eq_spec() -> bool {
        true
    }

    open spec fn eq_spec(&self, other: &DirSizes) -> bool {
        self@ == other@
    }
}

/// The mapping that the lines of a `directorysizes` file stand for: lines
/// that cannot be read are skipped, and a later line replaces an earlier one
/// of the same name.
pub open spec fn spec_read_lines(lines: Seq<Seq<char>>) -> Map<Seq<char>, DirSizeView>
    decreases lines.len(),
{
    if lines.len() == 0 {
        Map::empty()
    } else {
        let before = spec_read_lines(lines.drop_last());
        match spec_read_from_line(lines.last()) {
            Ok(dir_size) => before.insert(dir_size.name, dir_size),
            Err(_) => before,
        }
    }
}

/// The mapping that the contents of a `directorysizes` file stand for.
pub open spec fn spec_read_from(text: Seq<char>) -> Map<Seq<char>, DirSizeView> {
    spec_read_lines(text_lines(text))
}

/// A text without line feed has no line feed before its end.
proof fn lemma_no_line_feed(text: Seq<char>)
    requires
        forall|i: int| 0 <= i < text.len() ==> #[trigger] text[i] != '\n',
    ensures
        first_line_feed(text) == text.len(),
    decreases text.len(),
{
    if text.len() > 0 {
        let rest = text.drop_first();
        assert forall|i: int| 0 <= i < rest.len() implies #[trigger] rest[i] != '\n' by {
            assert(rest[i] == text[i + 1]);
        }
        lemma_no_line_feed(rest);
    }
}

/// An empty `directorysizes` file gives no directory size, and one that is a
/// single line without line feed gives the record of that line, if the line
/// can be read.
pub proof fn lemma_read_from_one_line(text: Seq<char>)
    requires
        forall|i: int| 0 <= i < text.len() ==> #[trigger] text[i] != '\n',
    ensures
        text.len() == 0 ==> spec_read_from(text) == Map::<Seq<char>, DirSizeView>::empty(),
        text.len() > 0 ==> spec_read_from(text) == match spec_read_from_line(text) {
            Ok(dir_size) => Map::<Seq<char>, DirSizeView>::empty().insert(dir_size.name, dir_size),
            Err(_) => Map::<Seq<char>, DirSizeView>::empty(),
        },
{
    lemma_no_line_feed(text);
    if text.len() > 0 {
        let lines = text_lines(text);
        assert(lines == seq![text]);
        assert(lines.drop_last() =~= Seq::<Seq<char>>::empty());
        assert(lines.last() == text);
        reveal_with_fuel(spec_read_lines, 2);
    }
}

impl DirSizes {
    /// Create an empty mapping.
    pub fn new() -> (dir_sizes: DirSizes)
        ensures
            dir_sizes@ == Map::<Seq<char>, DirSizeView>::empty(),
    {
        let dir_sizes = DirSizes { entries: Vec::new() };
        assert(dir_sizes@ =~= Map::<Seq<char>, DirSizeView>::empty());
        dir_sizes
    }

    /// Insert a record, in place of any earlier record of the same name.
    pub fn insert(&mut self, dir_size: DirSize)
        ensures
            final(self)@ == old(self)@.insert(dir_size@.name, dir_size@),
    {
        self.entries.push(dir_size);
        proof {
            assert(self.entries@.drop_last() =~= old(self).entries@);
            assert(self.entries@.last() == dir_size);
            assert(self@ =~= old(self)@.insert(dir_size@.name, dir_size@));
        }
    }

    /// Return the record for the given name, if there is one.
    pub fn get(&self, name: &str) -> (found: Option<&DirSize>)
        ensures
            match found {
                Some(dir_size) => self@.contains_key(name@) && self@[name@] == dir_size@,
                None => !self@.contains_key(name@),
            },
    {
        let mut i: usize = self.entries.len();
        assert(self.entries@.take(i as int) =~= self.entries@);
        while i > 0
            invariant
                i <= self.entries@.len(),
                last_of_name(self.entries@, name@) == last_of_name(
                    self.entries@.take(i as int),
                    name@,
                ),
            decreases i,
        {
            let ghost prefix = self.entries@.take(i as int);
            assert(prefix.last() == self.entries@[i - 1]);
            assert(prefix.drop_last() =~= self.entries@.take(i - 1));
            let entry = &self.entries[i - 1];
            if same_text(entry.name.as_str(), name) {
                return Some(entry);
            }
            i -= 1;
        }
        assert(self.entries@.take(0) =~= Seq::<DirSize>::empty());
        None
    }

    /// True when the other mapping holds, for the name of each record of
    /// this one, the record that this one holds.
    fn is_covered_by(&self, other: &DirSizes) -> (covered: bool)
        ensures
            covered == self::covered(self.entries@, other.entries@),
    {
        let mut i: usize = 0;
        while i < self.entries.len()
            invariant
                i <= self.entries@.len(),
                forall|j: int|
                    0 <= j < i ==> last_of_name(
                        self.entries@,
                        (#[trigger] self.entries@[j])@.name,
                    ) == last_of_name(other.entries@, self.entries@[j]@.name),
            decreases self.entries@.len() - i,
        {
            let name = self.entries[i].name();
            let same = match (self.get(name), other.get(name)) {
                (Some(mine), Some(theirs)) => same_text(mine.name(), theirs.name()) && mine.size()
                    == theirs.size() && mine.mtime() == theirs.mtime(),
                (None, None) => true,
                _ => false,
            };
            if !same {
                assert(last_of_name(self.entries@, self.entries@[i as int]@.name) != last_of_name(
                    other.entries@,
                    self.entries@[i as int]@.name,
                ));
                return false;
            }
            i += 1;
        }
        true
    }

    /// Read the mapping from the lines of a `directorysizes` file.
    pub fn read_lines(lines: &Vec<String>) -> (dir_sizes: DirSizes)
        ensures
            dir_sizes@ == spec_read_lines(texts(lines@)),
    {
        let mut dir_sizes = DirSizes::new();
        let mut i: usize = 0;
        assert(texts(lines@).take(0) =~= Seq::<Seq<char>>::empty());
        while i < lines.len()
            invariant
                i <= lines@.len(),
                dir_sizes@ == spec_read_lines(texts(lines@).take(i as int)),
            decreases lines@.len() - i,
        {
            let ghost prefix = texts(lines@).take(i + 1);
            assert(prefix.drop_last() =~= texts(lines@).take(i as int));
            assert(prefix.last() == lines@[i as int]@);
            // Lines that cannot be read are skipped
            if let Ok(dir_size) = DirSize::read_from_line(lines[i].as_str()) {
                dir_sizes.insert(dir_size);
            }
            i += 1;
        }
        assert(texts(lines@).take(lines@.len() as int) =~= texts(lines@));
        dir_sizes
    }

    /// Read the mapping from the contents of a `directorysizes` file.
    pub fn read_from(text: &str) -> (dir_sizes: DirSizes)
        ensures
            dir_sizes@ == spec_read_from(text@),
    {
        let lines = split_lines(text);
        DirSizes::read_lines(&lines)
    }
}

} // verus!
