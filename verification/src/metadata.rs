//! Metadata of level tiles: a RON map from text to text.

use vstd::prelude::*;
use std::collections::BTreeMap;

verus! {

/// The error type of the `ron` crate.
#[verifier::external_type_specification]
#[verifier::external_body]
pub struct ExRonError(ron::error::Error);

/// What `ron::de::from_str` makes of `text` when asked for a map from text to
/// text: the entries in the order of their keys, or nothing where `text` is
/// no such map.
pub uninterp spec fn ron_string_map(text: Seq<char>) -> Option<Seq<(Seq<char>, Seq<char>)>>;

/// One entry of a tile's metadata.
#[derive(Debug)]
pub struct MetadataEntry {
    pub key: String,
    pub value: String,
}

/// Why a tile's metadata could not be read.
#[derive(Clone, Copy, PartialEq, Eq, Structural, Debug)]
pub enum MetadataError {
    /// The text is not a RON map from text to text.
    Malformed,
}

/// The entries as pairs of texts.
pub open spec fn entries_view(entries: Seq<MetadataEntry>) -> Seq<(Seq<char>, Seq<char>)> {
    entries.map_values(|entry: MetadataEntry| (entry.key@, entry.value@))
}

/// Index of the first entry at or after `start` whose key is `key`.
pub open spec fn entry_from(entries: Seq<(Seq<char>, Seq<char>)>, key: Seq<char>, start: int) -> Option<
    int,
>
    decreases entries.len() - start,
{
    if start < 0 || start >= entries.len() {
        None
    } else if entries[start].0 == key {
        Some(start)
    } else {
        entry_from(entries, key, start + 1)
    }
}

/// The value that goes with `key`, if any.
pub open spec fn value_of(entries: Seq<(Seq<char>, Seq<char>)>, key: Seq<char>) -> Option<
    Seq<char>,
> {
    match entry_from(entries, key, 0) {
        Some(index) => Some(entries[index].1),
        None => None,
    }
}

/// The name that a tile's metadata gives it, from what the parser made of
/// the text.
pub open spec fn name_in(parsed: Option<Seq<(Seq<char>, Seq<char>)>>) -> Result<
    Option<Seq<char>>,
    MetadataError,
> {
    match parsed {
        Some(entries) => Ok(value_of(entries, "name"@)),
        None => Err(MetadataError::Malformed),
    }
}

/// Parses `text` with `ron::de::from_str` as a map from text to text and
/// hands the entries out in the order of their keys.
///
/// Trusted: the result is a function of `text` alone, named
/// [`ron_string_map`]; an error comes exactly where that is nothing.
#[verifier::external_body]
fn parse_string_map(text: &str) -> (parsed: Result<Vec<MetadataEntry>, ron::error::Error>)
    ensures
        match parsed {
            Ok(entries) => ron_string_map(text@) == Some(entries_view(entries@)),
            Err(_) => ron_string_map(text@) is None,
        },
{
    match ron::de::from_str::<BTreeMap<String, String>>(text) {
        Ok(map) => Ok(map.into_iter().map(|(key, value)| MetadataEntry { key, value }).collect()),
        Err(error) => Err(error),
    }
}

/// The value of the first entry whose key is `key`.
pub fn find_value(entries: &Vec<MetadataEntry>, key: &str) -> (value: Option<String>)
    ensures
        match value {
            Some(text) => value_of(entries_view(entries@), key@) == Some(text@),
            None => value_of(entries_view(entries@), key@) is None,
        },
{
    let wanted = key.to_owned();
    let mut i: usize = 0;
    while i < entries.len()
        invariant
            i <= entries@.len(),
            wanted@ == key@,
            entry_from(entries_view(entries@), key@, 0) == entry_from(
                entries_view(entries@),
                key@,
                i as int,
            ),
        decreases entries@.len() - i,
    {
        if entries[i].key == wanted {
            return Some(entries[i].value.clone());
        }
        i += 1;
    }
    None
}

/// The name that a tile's metadata gives it: the value under the key `name`,
/// nothing where there is no such key, and an error where the metadata is
/// malformed.
pub fn tile_name(data: &str) -> (name: Result<Option<String>, MetadataError>)
    ensures
        match name {
            Ok(Some(text)) => name_in(ron_string_map(data@)) == Ok::<
                Option<Seq<char>>,
                MetadataError,
            >(Some(text@)),
            Ok(None) => name_in(ron_string_map(data@)) == Ok::<Option<Seq<char>>, MetadataError>(
                None,
            ),
            Err(error) => name_in(ron_string_map(data@)) == Err::<
                Option<Seq<char>>,
                MetadataError,
            >(error),
        },
{
    match parse_string_map(data) {
        Ok(entries) => Ok(find_value(&entries, "name")),
        Err(_) => Err(MetadataError::Malformed),
    }
}

} // verus!
