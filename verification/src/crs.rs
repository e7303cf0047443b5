//! The common-reference-string (CRS) cache decisions.
//!
//! The CRS is an opaque byte blob kept in one well-known file. An absent or
//! unreadable cache is a valid initial state, never an error; a refresh routes
//! an empty blob to the backend's "generate" capability and a non-empty blob
//! to its "update" capability, so an existing CRS is only ever extended.
use vstd::prelude::*;

verus! {

/// How a CRS refresh reaches the backend: a fresh generation, or an update of
/// the existing blob.
pub enum CrsAction {
    Generate,
    Update,
}

/// Interprets the raw result of reading the cache file: the bytes if the file
/// could be read, and the empty blob if it was absent or unreadable.
pub fn read_cached_common_reference_string(read_result: Option<Vec<u8>>) -> (r: Vec<u8>)
    ensures
        match read_result {
            Some(bytes) => r@ == bytes@,
            None => r@ == Seq::<u8>::empty(),
        },
{
    match read_result {
        Some(bytes) => bytes,
        None => Vec::new(),
    }
}

/// Decides which backend capability a refresh must invoke: an empty blob has
/// no CRS to extend and routes to `Generate`; any non-empty blob routes to
/// `Update`, so a cached CRS is never thrown away and regenerated.
pub fn update_common_reference_string(existing: &Vec<u8>) -> (r: CrsAction)
    ensures
        r is Generate <==> existing@.len() == 0,
        r is Update <==> existing@.len() > 0,
{
    if existing.len() == 0 {
        CrsAction::Generate
    } else {
        CrsAction::Update
    }
}

} // verus!
