//! The wire convention for absent values: the wire has no optional strings, so an
//! absent value travels as the empty string.
use vstd::prelude::*;

verus! {

/// The characters of an optional borrowed string.
pub open spec fn opt_str_view(v: Option<&str>) -> Option<Seq<char>> {
    match v {
        Some(s) => Some(s@),
        None => None,
    }
}

/// The characters of an optional owned string.
pub open spec fn opt_string_view(v: Option<String>) -> Option<Seq<char>> {
    match v {
        Some(s) => Some(s@),
        None => None,
    }
}

/// Outbound: an absent value is written as the empty string, a present one as itself.
pub open spec fn encoded(v: Option<Seq<char>>) -> Seq<char> {
    match v {
        Some(s) => s,
        None => Seq::empty(),
    }
}

/// Inbound: the empty string reads as absent, any other string as present.
pub open spec fn decoded(s: Seq<char>) -> Option<Seq<char>> {
    if s.len() == 0 {
        None
    } else {
        Some(s)
    }
}

/// A value that the convention can carry: absent, or a non-empty string.
pub open spec fn representable(v: Option<Seq<char>>) -> bool {
    match v {
        Some(s) => s.len() > 0,
        None => true,
    }
}

/// Writes an optional value in its wire form.
pub fn encode_optional(v: Option<&str>) -> (r: String)
    ensures
        r@ == encoded(opt_str_view(v)),
{
    match v {
        Some(s) => s.to_owned(),
        None => String::new(),
    }
}

/// Reads an optional value from its wire form.
pub fn decode_optional(s: String) -> (r: Option<String>)
    ensures
        opt_string_view(r) == decoded(s@),
        r matches Some(v) ==> v == s,
{
    if s.as_str().is_empty() {
        None
    } else {
        Some(s)
    }
}

/// Decoding the wire form of a value gives the value back, for every value that the
/// convention can carry; the empty string is the one value it cannot.
pub proof fn lemma_sentinel_round_trip(v: Option<Seq<char>>)
    ensures
        decoded(encoded(v)) == v <==> representable(v),
{
}

/// Every wire string is the encoding of what it decodes to.
pub proof fn lemma_sentinel_decode_encode(s: Seq<char>)
    ensures
        encoded(decoded(s)) == s,
        representable(decoded(s)),
{
}

} // verus!
