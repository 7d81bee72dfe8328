//! What this library takes for granted of the header types of the `http`
//! crate, which the connection is built with. Nothing in this file is proved:
//! each contract restates the crate's documentation and source.

use http::header::InvalidHeaderValue;
use jsonrpsee::ws_client::HeaderMap;
use jsonrpsee::ws_client::HeaderValue;
use vstd::multiset::Multiset;
use vstd::prelude::*;
use vstd::string::StringSliceAdditionalSpecFns;

verus! {

#[verifier::external_type_specification]
#[verifier::external_body]
pub struct ExHeaderValue(HeaderValue);

#[verifier::external_type_specification]
#[verifier::external_body]
pub struct ExInvalidHeaderValue(InvalidHeaderValue);

#[verifier::external_type_specification]
#[verifier::external_body]
#[verifier::reject_recursive_types(T)]
pub struct ExHeaderMap<T>(HeaderMap<T>);

/// The bytes of a header value: what `HeaderValue::as_bytes` returns.
pub uninterp spec fn header_value_bytes(value: HeaderValue) -> Seq<u8>;

/// The entries of a header map, each with the name it is filed under (what
/// `HeaderName::as_str` returns) and the bytes of its value: what
/// `HeaderMap::iter` goes through, in no order.
pub uninterp spec fn header_entries(map: HeaderMap<HeaderValue>) -> Multiset<(Seq<char>, Seq<u8>)>;

/// A byte that a header value may hold: a tab, or anything from the space
/// upwards but the delete character.
pub open spec fn is_value_byte(byte: u8) -> bool {
    (byte >= 32 && byte != 127) || byte == 9
}

/// Every byte is one that a header value may hold.
pub open spec fn are_value_bytes(bytes: Seq<u8>) -> bool {
    forall|i: int| 0 <= i < bytes.len() ==> is_value_byte(#[trigger] bytes[i])
}

/// A letter, a digit or a hyphen.
pub open spec fn is_plain_name_char(c: char) -> bool {
    ('a' <= c && c <= 'z') || ('A' <= c && c <= 'Z') || ('0' <= c && c <= '9') || c == '-'
}

/// A header name of up to 64 letters, digits and hyphens. Header names may
/// hold more than these; such a name is all that this library files a value
/// under.
pub open spec fn is_plain_name(name: Seq<char>) -> bool {
    &&& 1 <= name.len() <= 64
    &&& forall|i: int| 0 <= i < name.len() ==> is_plain_name_char(#[trigger] name[i])
}

/// The lower-case letter of an upper-case one; any other character itself.
pub open spec fn lower_case(c: char) -> char {
    if 'A' <= c && c <= 'Z' {
        ((c as u8) + 32) as char
    } else {
        c
    }
}

/// The name in lower case, which is how a header map files it.
pub open spec fn filed_name(name: Seq<char>) -> Seq<char> {
    Seq::new(name.len(), |i: int| lower_case(name[i]))
}

/// `HeaderValue::from_str`: the text is taken if and only if each of its
/// bytes may stand in a header value, and the value then holds those bytes.
#[verifier::external_body]
pub(crate) fn parse_header_value(text: &str) -> (parsed: Result<HeaderValue, InvalidHeaderValue>)
    ensures
        parsed is Ok <==> are_value_bytes(text.spec_bytes()),
        parsed matches Ok(value) ==> header_value_bytes(value) == text.spec_bytes(),
{
    HeaderValue::from_str(text)
}

/// `HeaderMap::new`: a map without entries.
#[verifier::external_body]
pub(crate) fn empty_header_map() -> (map: HeaderMap<HeaderValue>)
    ensures
        header_entries(map) == Multiset::<(Seq<char>, Seq<u8>)>::empty(),
{
    HeaderMap::new()
}

/// `HeaderMap::insert`, on a map without entries and with a plain name, for
/// which it neither panics nor finds an earlier value: the map then holds the
/// one entry, filed under the name in lower case, and nothing is returned.
#[verifier::external_body]
pub(crate) fn insert_header(
    map: &mut HeaderMap<HeaderValue>,
    name: &'static str,
    value: HeaderValue,
) -> (previous: Option<HeaderValue>)
    requires
        header_entries(*old(map)).len() == 0,
        is_plain_name(name@),
    ensures
        header_entries(*final(map)) == Multiset::singleton(
            (filed_name(name@), header_value_bytes(value)),
        ),
        previous is None,
{
    map.insert(name, value)
}

} // verus!
