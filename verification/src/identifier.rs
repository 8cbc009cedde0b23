//! Storage identifiers.
//!
//! A trashed item is stored under an identifier that its metadata record and
//! its payload share: the record is the file `<identifier>.trashinfo` of the
//! info directory, the payload is the file `<identifier>` of the files
//! directory. The identifier is derived from the file name of the original
//! path; where it is taken, a number is appended: `name`, `name_1`, `name_2`
//! and so on.

use vstd::prelude::*;
use vstd::string::*;

use crate::decimal::{
    append_decimal,
    decimal_text,
    lemma_decimal_text_injective,
    lemma_decimal_text_value,
};
use crate::paths::{file_name, file_name_of};
use crate::text::same_text;

verus! {

/// The extension of the metadata record files, with its dot.
pub open spec fn trashinfo_suffix() -> Seq<char> {
    ".trashinfo"@
}

/// The identifier that a path gets when no number is needed.
pub open spec fn spec_identifier(path: Seq<char>) -> Seq<char>
    recommends
        file_name_of(path) is Some,
{
    file_name_of(path).unwrap()
}

/// Compute an identifier for the given path: its file name, which is not
/// empty and holds no `/`.
///
/// The path must have a file name, as a canonical path other than a root has.
pub fn identifier(path: &str) -> (identifier: String)
    requires
        file_name_of(path@) is Some,
    ensures
        identifier@ == spec_identifier(path@),
        identifier@.len() > 0,
        !identifier@.contains('/'),
{
    file_name(path).unwrap()
}

/// Compute an identifier for the given path, if the path has a file name.
pub fn try_identifier(path: &str) -> (identifier: Option<String>)
    ensures
        match identifier {
            Some(identifier) => file_name_of(path@) is Some && identifier@ == spec_identifier(
                path@,
            ) && identifier@.len() > 0 && !identifier@.contains('/'),
            None => file_name_of(path@) is None,
        },
{
    if file_name(path).is_some() {
        Some(identifier(path))
    } else {
        None
    }
}

/// The candidate of the given number for a base identifier.
pub open spec fn spec_candidate(base: Seq<char>, number: nat) -> Seq<char> {
    if number == 0 {
        base
    } else {
        base + seq!['_'] + decimal_text(number)
    }
}

/// Return the candidate of the given number for a base identifier: the base
/// itself for 0, else the base, `_` and the number.
pub fn candidate(base: &str, number: u16) -> (identifier: String)
    ensures
        identifier@ == spec_candidate(base@, number as nat),
{
    let mut identifier = base.to_owned();
    if number != 0 {
        proof {
            reveal_strlit("_");
        }
        identifier.append("_");
        assert(identifier@ =~= base@ + seq!['_']);
        append_decimal(&mut identifier, number as u64);
    }
    identifier
}

/// The candidates for one base identifier start with the base and the base
/// with `_1`, and those of different numbers differ.
pub proof fn lemma_candidates_distinct(base: Seq<char>, first: nat, second: nat)
    requires
        first != second,
    ensures
        spec_candidate(base, first) != spec_candidate(base, second),
        spec_candidate(base, 0) == base,
        spec_candidate(base, 1) == base + seq!['_', '1'],
{
    lemma_decimal_text_value(first);
    lemma_decimal_text_value(second);
    assert(spec_candidate(base, 1) =~= base + seq!['_', '1']);
    if first != 0 && second != 0 {
        let one = spec_candidate(base, first);
        let other = spec_candidate(base, second);
        if one == other {
            assert(one.subrange(base.len() as int + 1, one.len() as int) =~= decimal_text(first));
            assert(other.subrange(base.len() as int + 1, other.len() as int) =~= decimal_text(second));
            lemma_decimal_text_injective(first, second);
        }
    } else if first != 0 {
        assert(spec_candidate(base, first).len() > base.len());
    } else {
        assert(spec_candidate(base, second).len() > base.len());
    }
}

/// The name of the metadata record file of an identifier.
pub open spec fn spec_trashinfo_file_name(identifier: Seq<char>) -> Seq<char> {
    identifier + trashinfo_suffix()
}

/// Return the name of the metadata record file of an identifier.
pub fn trashinfo_file_name(identifier: &str) -> (file_name: String)
    ensures
        file_name@ == spec_trashinfo_file_name(identifier@),
{
    let mut file_name = identifier.to_owned();
    file_name.append(".trashinfo");
    file_name
}

/// The identifier of the item whose metadata record has the given file name:
/// the file name without its extension, if the extension is `trashinfo`.
pub open spec fn spec_record_identifier(file_name: Seq<char>) -> Option<Seq<char>> {
    let split = file_name.len() - trashinfo_suffix().len();
    if split > 0 && file_name.subrange(split, file_name.len() as int) == trashinfo_suffix() {
        Some(file_name.subrange(0, split))
    } else {
        None
    }
}

/// Return the identifier of the item whose metadata record has the given file
/// name, or `None` if the file is no metadata record.
pub fn record_identifier(file_name: &str) -> (identifier: Option<String>)
    ensures
        match identifier {
            Some(identifier) => spec_record_identifier(file_name@) == Some(identifier@),
            None => spec_record_identifier(file_name@) is None,
        },
{
    proof {
        reveal_strlit(".trashinfo");
    }
    let length: usize = file_name.unicode_len();
    if length <= 10 {
        return None;
    }
    let split: usize = length - 10;
    let suffix = file_name.substring_char(split, length);
    if same_text(suffix, ".trashinfo") {
        Some(file_name.substring_char(0, split).to_owned())
    } else {
        None
    }
}

/// Every candidate for a base identifier that is not empty is found again
/// from the file name of its metadata record.
pub proof fn lemma_candidate_record_identifier(base: Seq<char>, number: nat)
    requires
        base.len() > 0,
    ensures
        spec_candidate(base, number).len() > 0,
        spec_record_identifier(spec_trashinfo_file_name(spec_candidate(base, number))) == Some(
            spec_candidate(base, number),
        ),
{
    lemma_record_identifier(spec_candidate(base, number));
}

/// The file name of an identifier's metadata record leads back to the
/// identifier, unless the identifier is empty.
pub proof fn lemma_record_identifier(identifier: Seq<char>)
    requires
        identifier.len() > 0,
    ensures
        spec_record_identifier(spec_trashinfo_file_name(identifier)) == Some(identifier),
{
    let file_name = spec_trashinfo_file_name(identifier);
    let split = file_name.len() - trashinfo_suffix().len();
    assert(file_name.subrange(split, file_name.len() as int) =~= trashinfo_suffix());
    assert(file_name.subrange(0, split) =~= identifier);
}

} // verus!
