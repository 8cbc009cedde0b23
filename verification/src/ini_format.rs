//! Documents of sections and entries.
//!
//! Metadata records are stored as documents in the INI format: named
//! sections, each with entries of a key and a value. The `rust-ini` crate
//! reads and writes them.

use vstd::prelude::*;
use vstd::utf8::*;

use ini::{Ini, LineSeparator, Properties, WriteOption};

verus! {

#[verifier::external_type_specification]
#[verifier::external_body]
pub struct ExIni(ini::Ini);

#[verifier::external_type_specification]
#[verifier::external_body]
pub struct ExProperties(ini::Properties);

#[verifier::external_type_specification]
#[verifier::external_body]
pub struct ExIniError(ini::Error);

/// The named sections of a document: for each name, the entries of the first
/// section of that name.
pub uninterp spec fn ini_sections(ini: Ini) -> Map<Seq<char>, Map<Seq<char>, Seq<char>>>;

/// The entries of a section: for each key, the first value stored under it.
pub uninterp spec fn properties_values(properties: Properties) -> Map<Seq<char>, Seq<char>>;

/// The named sections of the document that the bytes hold, if they hold one.
pub uninterp spec fn ini_document(bytes: Seq<u8>) -> Option<
    Map<Seq<char>, Map<Seq<char>, Seq<char>>>,
>;

/// Calls `Ini::read_from` on the bytes, which reads them as UTF-8 and parses
/// the text with the default options. Whether it succeeds, and the sections
/// that it finds, depend on the bytes alone.
#[verifier::external_body]
pub(crate) fn ini_read_from(bytes: &[u8]) -> (result: Result<Ini, ini::Error>)
    ensures
        match result {
            Ok(ini) => ini_document(bytes@) == Some(ini_sections(ini)),
            Err(_) => ini_document(bytes@) is None,
        },
{
    let mut reader = bytes;
    Ini::read_from(&mut reader)
}

/// Calls `Ini::section` with a name, which returns the first section of that
/// name, or nothing if there is none.
#[verifier::external_body]
pub(crate) fn ini_section<'a>(ini: &'a Ini, name: &str) -> (section: Option<&'a Properties>)
    ensures
        match section {
            Some(properties) => ini_sections(*ini).contains_key(name@) && ini_sections(
                *ini,
            )[name@] == properties_values(*properties),
            None => !ini_sections(*ini).contains_key(name@),
        },
{
    ini.section(Some(name))
}

/// Calls `Properties::get`, which returns the first value stored under the
/// key, or nothing if there is none.
#[verifier::external_body]
pub(crate) fn properties_get<'a>(properties: &'a Properties, key: &str) -> (value: Option<
    &'a str,
>)
    ensures
        match value {
            Some(value) => properties_values(*properties).contains_key(key@) && properties_values(
                *properties,
            )[key@] == value@,
            None => !properties_values(*properties).contains_key(key@),
        },
{
    properties.get(key)
}

/// The byte `[`.
pub const OPENING_BRACKET: u8 = 0x5b;

/// The byte `]`.
pub const CLOSING_BRACKET: u8 = 0x5d;

/// The byte `=`.
pub const EQUALS_SIGN: u8 = 0x3d;

/// The line feed.
pub const LINE_FEED: u8 = 0x0a;

/// True of the bytes that are written as they are: all but the backslash,
/// the control characters and the delete character.
pub open spec fn is_plain(byte: u8) -> bool {
    byte >= 0x20 && byte != 0x5c && byte != 0x7f
}

/// True when the text is written as it is.
pub open spec fn needs_no_escape(text: Seq<char>) -> bool {
    forall|i: int| 0 <= i < encode_utf8(text).len() ==> is_plain(#[trigger] encode_utf8(text)[i])
}

/// The line of an entry.
pub open spec fn entry_bytes(key: Seq<char>, value: Seq<char>) -> Seq<u8> {
    encode_utf8(key) + seq![EQUALS_SIGN] + encode_utf8(value) + seq![LINE_FEED]
}

/// The bytes of a document of one section with two entries.
pub open spec fn section_bytes(
    section: Seq<char>,
    first_key: Seq<char>,
    first_value: Seq<char>,
    second_key: Seq<char>,
    second_value: Seq<char>,
) -> Seq<u8> {
    seq![OPENING_BRACKET] + encode_utf8(section) + seq![CLOSING_BRACKET, LINE_FEED] + entry_bytes(
        first_key,
        first_value,
    ) + entry_bytes(second_key, second_value)
}

/// Builds a document of one section with two entries (`Ini::new`,
/// `Ini::with_section`, `SectionSetter::set`) and calls `Ini::write_to_opt` on
/// it, with the line feed as the line separator. The writer puts the section's
/// name in brackets on a line, then each entry on a line as its key, `=` and
/// its value. It writes a text as it is unless the text holds a backslash, a
/// control character or the delete character, which `requires` leaves out.
#[verifier::external_body]
pub(crate) fn ini_write_section(
    section: &str,
    first_key: &str,
    first_value: &str,
    second_key: &str,
    second_value: &str,
) -> (bytes: Vec<u8>)
    requires
        needs_no_escape(section@),
        needs_no_escape(first_key@),
        needs_no_escape(first_value@),
        needs_no_escape(second_key@),
        needs_no_escape(second_value@),
        first_key@ != second_key@,
    ensures
        bytes@ == section_bytes(section@, first_key@, first_value@, second_key@, second_value@),
{
    let mut ini = Ini::new();
    ini.with_section(Some(section)).set(first_key, first_value).set(second_key, second_value);
    let mut bytes = Vec::new();
    let options = WriteOption { line_separator: LineSeparator::CR, ..Default::default() };
    ini.write_to_opt(&mut bytes, options).expect("writing to a vector does not fail");
    bytes
}

} // verus!
