//! The credential a connection presents: one `Authorization` header that
//! carries the secret as a bearer token.

use jsonrpsee::ws_client::HeaderMap;
use jsonrpsee::ws_client::HeaderValue;
use vstd::multiset::Multiset;
use vstd::prelude::*;
use vstd::string::StringExecFns;
use vstd::string::StringSliceAdditionalSpecFns;
use vstd::utf8::*;

use crate::error::Error;
use crate::header::are_value_bytes;
use crate::header::empty_header_map;
use crate::header::filed_name;
use crate::header::header_entries;
use crate::header::insert_header;
use crate::header::is_plain_name;
use crate::header::is_value_byte;
use crate::header::parse_header_value;

verus! {

/// The name of the header that carries the credential.
pub const AUTHORIZATION: &'static str = "Authorization";

/// What stands before the secret in the header's value.
pub const BEARER: &'static str = "Bearer ";

/// A character that a header value may hold: a tab, or anything from the
/// space upwards but the delete character. Control characters, a line break
/// among them, are not.
pub open spec fn is_value_char(c: char) -> bool {
    c == '\t' || (' ' <= c && c != '\u{7f}')
}

/// A secret that can be sent in a header: each of its characters may stand
/// in a header value.
pub open spec fn is_sendable(secret: Seq<char>) -> bool {
    forall|i: int| 0 <= i < secret.len() ==> is_value_char(#[trigger] secret[i])
}

/// The value of the header for a secret, as text.
pub open spec fn bearer_text(secret: Seq<char>) -> Seq<char> {
    BEARER@ + secret
}

/// The headers that carry a secret: the one header, with the bytes of its
/// value.
pub open spec fn bearer_entries(secret: Seq<char>) -> Multiset<(Seq<char>, Seq<u8>)> {
    Multiset::singleton((filed_name(AUTHORIZATION@), encode_utf8(bearer_text(secret))))
}

/// The bytes of a character may stand in a header value exactly when the
/// character may.
proof fn lemma_char_bytes(c: char)
    ensures
        are_value_bytes(encode_scalar(c as u32)) <==> is_value_char(c),
{
    let s = c as u32;
    char_is_scalar(c);
    let bytes = encode_scalar(s);
    if has_width_1_encoding(s) {
        assert(leading_byte_width_1(s) == s) by (bit_vector)
            requires
                s <= 0x7f,
        ;
        assert(bytes[0] == s);
    } else if has_width_2_encoding(s) {
        assert(leading_byte_width_2(s) >= 0x80 && last_continuation_byte(s) >= 0x80)
            by (bit_vector);
        assert(is_value_byte(bytes[0]) && is_value_byte(bytes[1]));
    } else if has_width_3_encoding(s) {
        assert(leading_byte_width_3(s) >= 0x80 && second_last_continuation_byte(s) >= 0x80
            && last_continuation_byte(s) >= 0x80) by (bit_vector);
        assert(is_value_byte(bytes[0]) && is_value_byte(bytes[1]) && is_value_byte(bytes[2]));
    } else {
        assert(leading_byte_width_4(s) >= 0x80 && third_last_continuation_byte(s) >= 0x80
            && second_last_continuation_byte(s) >= 0x80 && last_continuation_byte(s) >= 0x80)
            by (bit_vector);
        assert(is_value_byte(bytes[0]) && is_value_byte(bytes[1]) && is_value_byte(bytes[2])
            && is_value_byte(bytes[3]));
    }
}

/// The bytes of a text may stand in a header value exactly when each of its
/// characters may.
pub proof fn lemma_text_bytes(text: Seq<char>)
    ensures
        are_value_bytes(encode_utf8(text)) <==> is_sendable(text),
    decreases text.len(),
{
    if text.len() > 0 {
        let head = encode_scalar(text[0] as u32);
        let tail = encode_utf8(text.drop_first());
        lemma_char_bytes(text[0]);
        lemma_text_bytes(text.drop_first());
        assert(encode_utf8(text) == head + tail);
        if are_value_bytes(head + tail) {
            assert forall|i: int| 0 <= i < head.len() implies is_value_byte(#[trigger] head[i]) by {
                assert(head[i] == (head + tail)[i]);
            }
            assert forall|i: int| 0 <= i < tail.len() implies is_value_byte(#[trigger] tail[i]) by {
                assert(tail[i] == (head + tail)[i + head.len()]);
            }
            assert forall|i: int| 0 <= i < text.len() implies is_value_char(#[trigger] text[i]) by {
                if i > 0 {
                    assert(text[i] == text.drop_first()[i - 1]);
                }
            }
        }
        if is_sendable(text) {
            assert forall|i: int| 0 <= i < text.drop_first().len() implies is_value_char(
                #[trigger] text.drop_first()[i],
            ) by {
                assert(text.drop_first()[i] == text[i + 1]);
            }
            assert(are_value_bytes(head + tail));
        }
    }
}

/// The prefix holds nothing that a header value may not hold, so a secret
/// decides alone whether its header can be built.
pub proof fn lemma_bearer_sendable(secret: Seq<char>)
    ensures
        is_sendable(bearer_text(secret)) <==> is_sendable(secret),
{
    reveal_strlit("Bearer ");
    let text = bearer_text(secret);
    let n = BEARER@.len() as int;
    if is_sendable(text) {
        assert forall|i: int| 0 <= i < secret.len() implies is_value_char(#[trigger] secret[i]) by {
            assert(secret[i] == text[i + n]);
        }
    }
    if is_sendable(secret) {
        assert forall|i: int| 0 <= i < text.len() implies is_value_char(#[trigger] text[i]) by {
            if i >= n {
                assert(text[i] == secret[i - n]);
            }
        }
    }
}

/// The name of the header is a plain one, and a header map files it in lower
/// case.
pub proof fn lemma_authorization_name()
    ensures
        is_plain_name(AUTHORIZATION@),
        filed_name(AUTHORIZATION@) == "authorization"@,
{
    reveal_strlit("Authorization");
    reveal_strlit("authorization");
    assert(filed_name(AUTHORIZATION@) =~= "authorization"@);
}

/// The headers with which to open a connection that authenticates by
/// `secret`: the one header `Authorization`, whose value is `Bearer `
/// followed by the secret. A secret that holds a character which no header
/// may hold is refused.
pub fn bearer_headers(secret: &str) -> (headers: Result<HeaderMap<HeaderValue>, Error>)
    ensures
        headers is Ok <==> is_sendable(secret@),
        headers matches Ok(map) ==> header_entries(map) == bearer_entries(secret@),
{
    let mut text = String::from_str(BEARER);
    text.append(secret);
    proof {
        lemma_text_bytes(bearer_text(secret@));
        lemma_bearer_sendable(secret@);
        lemma_authorization_name();
    }
    match parse_header_value(text.as_str()) {
        Ok(value) => {
            let mut map = empty_header_map();
            let _ = insert_header(&mut map, AUTHORIZATION, value);
            Ok(map)
        },
        Err(_) => Err(Error),
    }
}

} // verus!
