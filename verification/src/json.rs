//! The stored form of a task collection: a JSON object whose keys are the
//! labels and whose values are the statuses, read and written by
//! `serde_json`.

use crate::model::{entries_map, labels_distinct};
use std::collections::BTreeMap;
use std::collections::HashMap;
use vstd::prelude::*;

verus! {

/// The tasks that `serde_json::from_slice` reads from `content` as a map from
/// strings to booleans, or `None` where it reports an error.
pub uninterp spec fn json_entries_of(content: Seq<u8>) -> Option<Map<Seq<char>, bool>>;

/// The bytes that `serde_json::to_vec_pretty` writes for `tasks`, taken as
/// a map ordered by its keys, or `None` where it reports an error. For the
/// map without any task they are those of `empty_object`.
pub uninterp spec fn json_bytes_of(tasks: Map<Seq<char>, bool>) -> Option<Seq<u8>>;

/// The JSON text of an object without members: an opening and a closing
/// brace.
pub open spec fn empty_object() -> Seq<u8> {
    seq![0x7bu8, 0x7du8]
}

/// Calls `serde_json::from_slice` for a `HashMap<String, bool>` and hands out
/// the entries of that map as a list, in the order in which the map gives
/// them. Nothing is proved of the call: the contract only names its result.
#[verifier::external_body]
pub(crate) fn parse_entries(content: &[u8]) -> (parsed: Result<
    Vec<(String, bool)>,
    serde_json::Error,
>)
    ensures
        match parsed {
            Ok(entries) => json_entries_of(content@) == Some(entries_map(entries@)),
            Err(_) => json_entries_of(content@) is None,
        },
{
    let tasks: HashMap<String, bool> = serde_json::from_slice(content)?;
    Ok(tasks.into_iter().collect())
}

/// Calls `serde_json::to_vec_pretty` on the entries, gathered into a
/// `BTreeMap` so that the keys are written in their order. The labels have
/// to be distinct, so that every entry is one member of that map and none
/// gives way to another. Nothing is proved of the call. The contract names
/// its result, and says of a list without entries what the writer does
/// whenever it is given a map without members: it writes the opening and the
/// closing brace into the vector, and nothing else, which cannot fail.
#[verifier::external_body]
pub(crate) fn render_entries(entries: &Vec<(String, bool)>) -> (rendered: Result<
    Vec<u8>,
    serde_json::Error,
>)
    requires
        labels_distinct(entries@),
    ensures
        match rendered {
            Ok(bytes) => json_bytes_of(entries_map(entries@)) == Some(bytes@),
            Err(_) => json_bytes_of(entries_map(entries@)) is None,
        },
        match rendered {
            Ok(bytes) => entries@.len() == 0 ==> bytes@ == empty_object(),
            Err(_) => entries@.len() > 0,
        },
{
    let tasks: BTreeMap<&str, bool> =
        entries.iter().map(|entry| (entry.0.as_str(), entry.1)).collect();
    serde_json::to_vec_pretty(&tasks)
}

} // verus!
