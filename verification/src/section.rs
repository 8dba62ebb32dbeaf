//! Dynamically-typed sections of the portable-storage format, as the payload
//! codecs see them: a map from key to entry, and the plain value in an entry.

use serde_epee::section::{SectionArray, SectionEntry};
use serde_epee::Section;
use vstd::prelude::*;

verus! {

/// An entry of a section. Its contents are read through [`value_of`].
#[verifier::external_type_specification]
#[verifier::external_body]
pub struct ExSectionEntry(SectionEntry);

/// The failure that the portable-storage parser or writer reports.
#[verifier::external_type_specification]
#[verifier::external_body]
pub struct ExFormatError(serde_epee::Error);

/// What an entry holds, as far as the payload codecs read it.
#[derive(Debug)]
pub enum Value {
    Int64(i64),
    Int32(i32),
    Int16(i16),
    Int8(i8),
    UInt64(u64),
    UInt32(u32),
    UInt16(u16),
    UInt8(u8),
    Blob(Vec<u8>),
    Object(Section),
    Sections(Vec<Section>),
    /// A double, a boolean or an array of scalars: nothing the codecs read.
    Other,
}

/// The entries of a section, by key.
pub uninterp spec fn section_entries(section: Section) -> Map<Seq<char>, SectionEntry>;

/// The value that an entry holds.
pub uninterp spec fn entry_value(entry: SectionEntry) -> Value;

/// The root section that the portable-storage parser reads from `bytes`,
/// or `None` where it rejects them.
pub uninterp spec fn parsed_section(bytes: Seq<u8>) -> Option<Map<Seq<char>, SectionEntry>>;

/// The map of a section without entries.
pub open spec fn no_entries() -> Map<Seq<char>, SectionEntry> {
    Map::empty()
}

/// The entry under `key`, if the map has one.
pub open spec fn lookup(m: Map<Seq<char>, SectionEntry>, key: Seq<char>) -> Option<SectionEntry> {
    if m.contains_key(key) {
        Some(m[key])
    } else {
        None
    }
}

/// `serde_epee::from_bytes` at type `Section`: parses a root section. The
/// parser is a function of the bytes alone; the contract gives its outcome
/// the name `parsed_section` and says nothing more of it.
#[verifier::external_body]
pub(crate) fn parse_section(bytes: &[u8]) -> (r: Result<Section, serde_epee::Error>)
    ensures
        match r {
            Ok(section) => parsed_section(bytes@) == Some(section_entries(section)),
            Err(_) => parsed_section(bytes@) is None,
        },
{
    let mut rest = bytes;
    serde_epee::from_bytes(&mut rest)
}

/// `serde_epee::to_bytes` on a section. The order in which the fields are
/// written follows the walk of a hash map, so nothing is promised of the
/// bytes.
#[verifier::external_body]
pub(crate) fn write_section(section: &Section) -> (r: Result<Vec<u8>, serde_epee::Error>) {
    serde_epee::to_bytes(section)
}

/// `HashMap::new` at the type of a section: a section without entries.
#[verifier::external_body]
pub(crate) fn section_new() -> (section: Section)
    ensures
        section_entries(section) == no_entries(),
{
    Section::new()
}

/// `HashMap::remove` on a section, whose keys are strings: takes the entry
/// under `key` out of the section and returns it; the other entries stay.
#[verifier::external_body]
pub(crate) fn section_take(section: &mut Section, key: &str) -> (entry: Option<SectionEntry>)
    ensures
        entry == lookup(section_entries(*old(section)), key@),
        section_entries(*final(section)) == section_entries(*old(section)).remove(key@),
{
    section.remove(key)
}

/// `HashMap::insert` on a section, whose keys are strings: puts `entry`
/// under `key`, in place of any entry that was there.
#[verifier::external_body]
pub(crate) fn section_put(section: &mut Section, key: &str, entry: SectionEntry)
    ensures
        section_entries(*final(section)) == section_entries(*old(section)).insert(key@, entry),
{
    section.insert(key.to_string(), entry);
}

/// Tells the variants of `SectionEntry` apart and moves the payload out; a
/// blob's bytes leave their buffer through `ByteBuf::into_vec`. The contract
/// names the outcome `entry_value`, which is how the library reads an entry.
#[verifier::external_body]
pub(crate) fn value_of(entry: SectionEntry) -> (value: Value)
    ensures
        value == entry_value(entry),
{
    match entry {
        SectionEntry::Int64(v) => Value::Int64(v),
        SectionEntry::Int32(v) => Value::Int32(v),
        SectionEntry::Int16(v) => Value::Int16(v),
        SectionEntry::Int8(v) => Value::Int8(v),
        SectionEntry::UInt64(v) => Value::UInt64(v),
        SectionEntry::UInt32(v) => Value::UInt32(v),
        SectionEntry::UInt16(v) => Value::UInt16(v),
        SectionEntry::UInt8(v) => Value::UInt8(v),
        SectionEntry::Blob(v) => Value::Blob(v.into_vec()),
        SectionEntry::Object(v) => Value::Object(v),
        SectionEntry::Array(SectionArray::Object(v)) => Value::Sections(v),
        _ => Value::Other,
    }
}

/// `SectionEntry::UInt64`.
#[verifier::external_body]
pub(crate) fn entry_u64(v: u64) -> (entry: SectionEntry)
    ensures
        entry_value(entry) == Value::UInt64(v),
{
    SectionEntry::UInt64(v)
}

/// `SectionEntry::UInt32`.
#[verifier::external_body]
pub(crate) fn entry_u32(v: u32) -> (entry: SectionEntry)
    ensures
        entry_value(entry) == Value::UInt32(v),
{
    SectionEntry::UInt32(v)
}

/// `SectionEntry::Blob` over a byte buffer that holds `bytes`.
#[verifier::external_body]
pub(crate) fn entry_blob(bytes: Vec<u8>) -> (entry: SectionEntry)
    ensures
        entry_value(entry) == Value::Blob(bytes),
{
    SectionEntry::Blob(serde_bytes::ByteBuf::from(bytes))
}

/// `SectionEntry::Object`.
#[verifier::external_body]
pub(crate) fn entry_object(section: Section) -> (entry: SectionEntry)
    ensures
        entry_value(entry) == Value::Object(section),
{
    SectionEntry::Object(section)
}

/// `SectionEntry::Array` over `SectionArray::Object`: an array of sections.
#[verifier::external_body]
pub(crate) fn entry_sections(sections: Vec<Section>) -> (entry: SectionEntry)
    ensures
        entry_value(entry) == Value::Sections(sections),
{
    SectionEntry::Array(SectionArray::Object(sections))
}

/// The 64-bit unsigned number that a value stands for: any of the eight
/// integer variants whose number fits.
pub open spec fn value_u64(value: Value) -> Option<u64> {
    match value {
        Value::Int64(v) => if v >= 0 { Some(v as u64) } else { None },
        Value::Int32(v) => if v >= 0 { Some(v as u64) } else { None },
        Value::Int16(v) => if v >= 0 { Some(v as u64) } else { None },
        Value::Int8(v) => if v >= 0 { Some(v as u64) } else { None },
        Value::UInt64(v) => Some(v),
        Value::UInt32(v) => Some(v as u64),
        Value::UInt16(v) => Some(v as u64),
        Value::UInt8(v) => Some(v as u64),
        _ => None,
    }
}

/// The 32-bit unsigned number that a value stands for: any of the eight
/// integer variants whose number fits.
pub open spec fn value_u32(value: Value) -> Option<u32> {
    match value_u64(value) {
        Some(v) => if v <= u32::MAX { Some(v as u32) } else { None },
        None => None,
    }
}

/// The bytes of a blob of exactly `n` bytes.
pub open spec fn value_bytes(value: Value, n: nat) -> Option<Seq<u8>> {
    match value {
        Value::Blob(b) => if b@.len() == n { Some(b@) } else { None },
        _ => None,
    }
}

/// [`value_u64`] of an entry that may be absent; absent gives `None`.
pub open spec fn coerce_u64(entry: Option<SectionEntry>) -> Option<u64> {
    match entry {
        Some(e) => value_u64(entry_value(e)),
        None => None,
    }
}

/// [`value_u32`] of an entry that may be absent; absent gives `None`.
pub open spec fn coerce_u32(entry: Option<SectionEntry>) -> Option<u32> {
    match entry {
        Some(e) => value_u32(entry_value(e)),
        None => None,
    }
}

/// [`value_bytes`] of an entry that may be absent; absent gives `None`.
pub open spec fn coerce_bytes(entry: Option<SectionEntry>, n: nat) -> Option<Seq<u8>> {
    match entry {
        Some(e) => value_bytes(entry_value(e), n),
        None => None,
    }
}

/// The entries of the section in an entry, where it holds one.
pub open spec fn coerce_section(entry: Option<SectionEntry>) -> Option<Map<Seq<char>, SectionEntry>> {
    match entry {
        Some(e) => match entry_value(e) {
            Value::Object(s) => Some(section_entries(s)),
            _ => None,
        },
        None => None,
    }
}

/// Coerces a value to `u64`, if it is an integer that fits.
pub fn u64_of_value(value: Value) -> (r: Option<u64>)
    ensures
        r == value_u64(value),
{
    match value {
        Value::Int64(v) => if v >= 0 { Some(v as u64) } else { None },
        Value::Int32(v) => if v >= 0 { Some(v as u64) } else { None },
        Value::Int16(v) => if v >= 0 { Some(v as u64) } else { None },
        Value::Int8(v) => if v >= 0 { Some(v as u64) } else { None },
        Value::UInt64(v) => Some(v),
        Value::UInt32(v) => Some(v as u64),
        Value::UInt16(v) => Some(v as u64),
        Value::UInt8(v) => Some(v as u64),
        _ => None,
    }
}

/// Coerces a value to `u32`, if it is an integer that fits.
pub fn u32_of_value(value: Value) -> (r: Option<u32>)
    ensures
        r == value_u32(value),
{
    match u64_of_value(value) {
        Some(v) => if v <= 0xffff_ffff { Some(v as u32) } else { None },
        None => None,
    }
}

/// Coerces a value to an array of `N` bytes, if it is a blob of that length.
pub fn array_of_value<const N: usize>(value: Value) -> (r: Option<[u8; N]>)
    ensures
        match r {
            Some(a) => value_bytes(value, N as nat) == Some(a@),
            None => value_bytes(value, N as nat) is None,
        },
{
    match value {
        Value::Blob(b) => if b.len() == N {
            Some(crate::raw_header::into_array(b.as_slice()))
        } else {
            None
        },
        _ => None,
    }
}

} // verus!
