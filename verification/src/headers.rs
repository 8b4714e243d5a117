//! The header validator: predicates on the headers of a handshake request.

use vstd::prelude::*;
use vstd::string::StringSliceAdditionalSpecFns;

verus! {

/// The HTTP library's header map, opaque here.
#[verifier::external_type_specification]
#[verifier::external_body]
#[verifier::reject_recursive_types(T)]
pub struct ExHeaderMap<T>(http::HeaderMap<T>);

/// The HTTP library's header value, opaque here.
#[verifier::external_type_specification]
#[verifier::external_body]
pub struct ExHeaderValue(http::HeaderValue);

/// The bytes of the value that `HeaderMap::get` finds in `headers` under
/// `name`, if it finds one.
pub uninterp spec fn header_lookup(
    headers: http::HeaderMap<http::HeaderValue>,
    name: Seq<char>,
) -> Option<Seq<u8>>;

/// A byte with an ASCII capital letter turned into its small letter.
pub open spec fn lower(byte: u8) -> u8 {
    if 65 <= byte <= 90 {
        (byte + 32) as u8
    } else {
        byte
    }
}

/// A byte string with each ASCII capital letter turned into its small
/// letter.
pub open spec fn lowered(bytes: Seq<u8>) -> Seq<u8> {
    Seq::new(bytes.len(), |i: int| lower(bytes[i]))
}

/// Whether `needle` stands in `text` at offset `at`.
pub open spec fn occurs_at(text: Seq<u8>, needle: Seq<u8>, at: int) -> bool {
    &&& 0 <= at
    &&& at + needle.len() <= text.len()
    &&& text.subrange(at, at + needle.len()) == needle
}

/// Whether `needle` stands somewhere in `text`.
pub open spec fn occurs(text: Seq<u8>, needle: Seq<u8>) -> bool {
    exists|at: int| occurs_at(text, needle, at)
}

/// Whether a header value contains `needle` once its ASCII letters are made
/// small. The value is taken byte for byte, whatever it encodes.
pub open spec fn contains_ignoring_case(value: Seq<u8>, needle: Seq<u8>) -> bool {
    occurs(lowered(value), needle)
}

/// Whether two byte strings are equal but for the case of ASCII letters.
pub open spec fn eq_ignoring_case(value: Seq<u8>, expected: Seq<u8>) -> bool {
    lowered(value) == lowered(expected)
}

/// Whether a header is there and contains `needle`, ignoring the case of
/// the header.
pub open spec fn holds(header: Option<Seq<u8>>, needle: Seq<u8>) -> bool {
    header matches Some(value) && contains_ignoring_case(value, needle)
}

/// Whether a header is there and equals `expected`, ignoring case.
pub open spec fn equals(header: Option<Seq<u8>>, expected: Seq<u8>) -> bool {
    header matches Some(value) && eq_ignoring_case(value, expected)
}

/// The bytes inside an optional buffer.
pub open spec fn bytes_of(buffer: Option<Vec<u8>>) -> Option<Seq<u8>> {
    match buffer {
        Some(bytes) => Some(bytes@),
        None => None,
    }
}

/// `http::HeaderMap::get` with a name given as text, the value found copied
/// out as bytes (`HeaderValue::as_bytes`). Trusted: the result is what
/// `header_lookup` names, a function of the map and the name.
#[verifier::external_body]
pub(crate) fn header_get(headers: &http::HeaderMap<http::HeaderValue>, name: &str) -> (value:
    Option<Vec<u8>>)
    ensures
        bytes_of(value) == header_lookup(*headers, name@),
{
    match headers.get(name) {
        Some(value) => Some(value.as_bytes().to_vec()),
        None => None,
    }
}

/// Turns an ASCII capital letter into its small letter.
pub fn lower_byte(byte: u8) -> (small: u8)
    ensures
        small == lower(byte),
{
    if 65 <= byte && byte <= 90 {
        byte + 32
    } else {
        byte
    }
}

/// Whether `needle` stands at offset `at` of `value` with its ASCII letters
/// made small.
fn matches_at(value: &[u8], needle: &[u8], at: usize) -> (found: bool)
    requires
        at + needle@.len() <= value@.len(),
    ensures
        found == occurs_at(lowered(value@), needle@, at as int),
{
    let total: usize = value.len();
    let mut i: usize = 0;
    while i < needle.len()
        invariant
            i <= needle@.len(),
            at + needle@.len() <= value@.len() == total,
            forall|j: int| 0 <= j < i ==> lower(value@[at + j]) == needle@[j],
        decreases needle@.len() - i,
    {
        if lower_byte(value[at + i]) != needle[i] {
            assert(lowered(value@).subrange(at as int, at + needle@.len())[i as int]
                != needle@[i as int]);
            return false;
        }
        i += 1;
    }
    assert(lowered(value@).subrange(at as int, at + needle@.len()) =~= needle@);
    true
}

/// Whether a header value, with its ASCII letters made small, contains
/// `needle`.
pub fn value_contains(value: &[u8], needle: &[u8]) -> (found: bool)
    ensures
        found == contains_ignoring_case(value@, needle@),
{
    if needle.len() > value.len() {
        return false;
    }
    let last: usize = value.len() - needle.len();
    let mut at: usize = 0;
    loop
        invariant
            last == value@.len() - needle@.len(),
            at <= last,
            forall|k: int| 0 <= k < at ==> !occurs_at(lowered(value@), needle@, k),
        decreases last - at,
    {
        if matches_at(value, needle, at) {
            return true;
        }
        if at == last {
            return false;
        }
        at += 1;
    }
}

/// Whether a header value equals `expected` but for the case of ASCII
/// letters.
pub fn value_eq(value: &[u8], expected: &[u8]) -> (equal: bool)
    ensures
        equal == eq_ignoring_case(value@, expected@),
{
    if value.len() != expected.len() {
        assert(lowered(value@).len() != lowered(expected@).len());
        return false;
    }
    let mut i: usize = 0;
    while i < value.len()
        invariant
            i <= value@.len(),
            value@.len() == expected@.len(),
            forall|j: int| 0 <= j < i ==> lower(value@[j]) == lower(expected@[j]),
        decreases value@.len() - i,
    {
        if lower_byte(value[i]) != lower_byte(expected[i]) {
            assert(lowered(value@)[i as int] != lowered(expected@)[i as int]);
            return false;
        }
        i += 1;
    }
    assert(lowered(value@) =~= lowered(expected@));
    true
}

/// Whether a header is there and, with its ASCII letters made small,
/// contains `needle`.
pub fn contains_in(header: &Option<Vec<u8>>, needle: &str) -> (found: bool)
    ensures
        found == holds(bytes_of(*header), needle.spec_bytes()),
{
    match header {
        Some(value) => value_contains(value.as_slice(), needle.as_bytes()),
        None => false,
    }
}

/// Whether a header is there and equals `expected` but for the case of
/// ASCII letters.
pub fn equals_in(header: &Option<Vec<u8>>, expected: &str) -> (equal: bool)
    ensures
        equal == equals(bytes_of(*header), expected.spec_bytes()),
{
    match header {
        Some(value) => value_eq(value.as_slice(), expected.as_bytes()),
        None => false,
    }
}

/// Whether the named header exists and its value, with its ASCII letters
/// made small, contains `value`.
pub fn header_contains(headers: &http::HeaderMap<http::HeaderValue>, key: &str, value: &str) -> (found:
    bool)
    ensures
        found == holds(header_lookup(*headers, key@), value.spec_bytes()),
{
    contains_in(&header_get(headers, key), value)
}

/// Whether the named header exists and equals `value` byte for byte but
/// for the case of ASCII letters.
pub fn header_eq(headers: &http::HeaderMap<http::HeaderValue>, key: &str, value: &str) -> (equal:
    bool)
    ensures
        equal == equals(header_lookup(*headers, key@), value.spec_bytes()),
{
    equals_in(&header_get(headers, key), value)
}

} // verus!
