//! The header collection of a request, held in a `hyper::HeaderMap`.
//!
//! Verus does not look inside the map. What it holds is named by
//! [`header_values`], and the calls that the library makes into it go through
//! small functions whose contracts are taken from the `http` sources on trust.

use vstd::prelude::*;
use hyper::header::HeaderValue;
use hyper::HeaderMap;
use crate::text::{ascii_lower, push_char};

verus! {

#[verifier::external_type_specification]
#[verifier::external_body]
#[verifier::reject_recursive_types(T)]
pub struct ExHeaderMap<T>(HeaderMap<T>);

#[verifier::external_type_specification]
#[verifier::external_body]
pub struct ExHeaderValue(HeaderValue);

/// What a header map holds: for each header name that occurs, in its
/// lower-case form, the values stored under it, first to last. A name that
/// occurs has at least one value.
pub uninterp spec fn header_values(map: HeaderMap<HeaderValue>) -> Map<Seq<char>, Seq<Seq<u8>>>;

/// The first value stored under a name, whatever the case of its letters.
pub open spec fn first_value(values: Map<Seq<char>, Seq<Seq<u8>>>, name: Seq<char>) -> Option<
    Seq<u8>,
> {
    let key = ascii_lower(name);
    if values.contains_key(key) && values[key].len() > 0 {
        Some(values[key][0])
    } else {
        None
    }
}

/// The view of an optional byte vector.
pub open spec fn opt_bytes(bytes: Option<Vec<u8>>) -> Option<Seq<u8>> {
    match bytes {
        Some(b) => Some(b@),
        None => None,
    }
}

/// `HeaderMap::get` with a string key, the value copied out as bytes: the
/// first value stored under the name, compared without regard to case, or
/// nothing where the name does not occur. A string that is no header name
/// occurs in no map.
#[verifier::external_body]
pub(crate) fn header_first(map: &HeaderMap<HeaderValue>, name: &str) -> (value: Option<Vec<u8>>)
    ensures
        opt_bytes(value) == first_value(header_values(*map), name@),
{
    map.get(name).map(|v| v.as_bytes().to_vec())
}

/// `HeaderMap::clone`: a map that holds the same values under the same names.
#[verifier::external_body]
pub(crate) fn header_map_clone(map: &HeaderMap<HeaderValue>) -> (copy: HeaderMap<HeaderValue>)
    ensures
        header_values(copy) == header_values(*map),
{
    map.clone()
}

/// Whether a byte is a tab or a printable ASCII character.
pub open spec fn is_visible_ascii(b: u8) -> bool {
    32 <= b < 127 || b == 9
}

/// The text of a header value: its bytes as characters where every byte is
/// visible ASCII, and nothing otherwise.
pub open spec fn spec_visible_text(bytes: Seq<u8>) -> Option<Seq<char>> {
    if forall|i: int| 0 <= i < bytes.len() ==> is_visible_ascii(#[trigger] bytes[i]) {
        Some(Seq::new(bytes.len(), |i: int| bytes[i] as char))
    } else {
        None
    }
}

/// Reads a header value as text.
pub fn visible_text(bytes: &Vec<u8>) -> (text: Option<String>)
    ensures
        crate::error::opt_text(text) == spec_visible_text(bytes@),
{
    let mut text = String::new();
    let mut i: usize = 0;
    while i < bytes.len()
        invariant
            i <= bytes@.len(),
            forall|j: int| 0 <= j < i ==> is_visible_ascii(#[trigger] bytes@[j]),
            text@ == Seq::new(i as nat, |j: int| bytes@[j] as char),
        decreases bytes@.len() - i,
    {
        let b: u8 = bytes[i];
        if !(b >= 32 && b < 127 || b == 9) {
            return None;
        }
        push_char(&mut text, b as char);
        i = i + 1;
        assert(text@ =~= Seq::new(i as nat, |j: int| bytes@[j] as char));
    }
    Some(text)
}

/// The text of the first value stored under a name.
pub open spec fn spec_header_text(values: Map<Seq<char>, Seq<Seq<u8>>>, name: Seq<char>) -> Option<
    Seq<char>,
> {
    match first_value(values, name) {
        Some(bytes) => spec_visible_text(bytes),
        None => None,
    }
}

/// Looks a header up by name, without regard to case, and reads its first
/// value as text. A value that is not visible ASCII counts as absent.
pub fn header_text(map: &HeaderMap<HeaderValue>, name: &str) -> (text: Option<String>)
    ensures
        crate::error::opt_text(text) == spec_header_text(header_values(*map), name@),
{
    match header_first(map, name) {
        Some(bytes) => visible_text(&bytes),
        None => None,
    }
}

} // verus!
