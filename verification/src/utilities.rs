//! Lookup in the sparse, string-keyed field mappings of the service.

use vstd::hash_map::StringHashMap;
use vstd::prelude::*;

verus! {

/// The field mapping as plain text: each key with the characters of its value.
pub open spec fn field_texts(fields: Map<Seq<char>, String>) -> Map<Seq<char>, Seq<char>> {
    fields.map_values(|value: String| value@)
}

/// The text stored under `field`, or the empty text where the key is absent.
pub open spec fn text_or_blank(field: Seq<char>, fields: Map<Seq<char>, Seq<char>>) -> Seq<char> {
    if fields.contains_key(field) {
        fields[field]
    } else {
        Seq::empty()
    }
}

/// Looks `field` up in `fields`; an absent key yields the empty string.
pub fn get_or_blank(field: &str, fields: &StringHashMap<String>) -> (value: String)
    ensures
        value@ == text_or_blank(field@, field_texts(fields@)),
{
    match fields.get(field) {
        Some(value) => value.clone(),
        None => String::new(),
    }
}

} // verus!
