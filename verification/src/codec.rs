//! The persistence encoding. History entries travel to and from disk as JSON
//! text; the encoding and parsing are done by serde_json behind the two trusted
//! wrappers below, and everything the rest of the library knows about the text
//! is said here through the `decoded` name.

use vstd::prelude::*;

verus! {

/// What parsing a piece of persisted text yields: `None` for malformed text,
/// otherwise the encoded list of (content, timestamp) pairs. The result of
/// `serde_json::from_str` depends on the input text alone.
pub uninterp spec fn decoded(s: Seq<char>) -> Option<Seq<(Seq<char>, u64)>>;

/// The mathematical content of a list of (content, timestamp) pairs.
pub open spec fn pair_views(s: Seq<(String, u64)>) -> Seq<(Seq<char>, u64)> {
    Seq::new(s.len(), |i: int| (s[i].0@, s[i].1))
}

/// Relies on serde_json::from_str: parses JSON into a list of (string, integer)
/// pairs, deterministically in the input text, or fails on malformed text.
#[verifier::external_body]
pub(crate) fn decode_pairs(s: &str) -> (r: Option<Vec<(String, u64)>>)
    ensures
        match r {
            Some(v) => decoded(s@) == Some(pair_views(v@)),
            None => decoded(s@) is None,
        },
{
    serde_json::from_str::<Vec<(String, u64)>>(s).ok()
}

/// Relies on serde_json::to_string: for a list of (string, integer) pairs
/// serialization cannot fail (no maps, no failing Serialize impls, and the
/// writer is an in-memory buffer), and the produced JSON text parses back,
/// by serde_json::from_str, to an equal value.
#[verifier::external_body]
pub(crate) fn encode_pairs(v: &Vec<(String, u64)>) -> (r: Option<String>)
    ensures
        r is Some,
        match r {
            Some(s) => decoded(s@) == Some(pair_views(v@)),
            None => false,
        },
{
    serde_json::to_string(v).ok()
}

} // verus!
