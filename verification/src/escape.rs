//! Percent-decoding, modelled on bytes.
//!
//! An escape is a `%` followed by two hexadecimal digits and stands for one
//! byte. A text is accepted only if every `%` in it begins an escape and the
//! bytes that result are UTF-8.

use crate::error::CardError;
use std::borrow::Cow;
use std::string::FromUtf8Error;
use vstd::prelude::*;
use vstd::utf8::*;

verus! {

/// The error of `String::from_utf8`. Opaque.
#[verifier::external_type_specification]
#[verifier::external_body]
pub struct ExFromUtf8Error(FromUtf8Error);

/// The byte `%`.
pub const PERCENT: u8 = 0x25;

/// `0`-`9`, `A`-`F` or `a`-`f`.
pub open spec fn is_hex_digit(b: u8) -> bool {
    (0x30 <= b <= 0x39) || (0x41 <= b <= 0x46) || (0x61 <= b <= 0x66)
}

/// The number that a hexadecimal digit stands for.
pub open spec fn hex_value(b: u8) -> int
    recommends
        is_hex_digit(b),
{
    if 0x30 <= b <= 0x39 {
        b - 0x30
    } else if 0x41 <= b <= 0x46 {
        b - 0x41 + 10
    } else {
        b - 0x61 + 10
    }
}

/// The bytes begin with an escape.
pub open spec fn starts_with_escape(s: Seq<u8>) -> bool {
    s.len() >= 3 && s[0] == PERCENT && is_hex_digit(s[1]) && is_hex_digit(s[2])
}

/// The bytes with every escape replaced by the byte it stands for. A `%`
/// that begins no escape is kept as it is.
pub open spec fn unescape(s: Seq<u8>) -> Seq<u8>
    decreases s.len(),
{
    if s.len() == 0 {
        Seq::<u8>::empty()
    } else if starts_with_escape(s) {
        seq![(16 * hex_value(s[1]) + hex_value(s[2])) as u8] + unescape(s.skip(3))
    } else {
        seq![s[0]] + unescape(s.skip(1))
    }
}

/// Every `%` begins an escape.
pub open spec fn escapes_well_formed(s: Seq<u8>) -> bool {
    forall|i: int|
        0 <= i < s.len() && #[trigger] s[i] == PERCENT ==> i + 2 < s.len() && is_hex_digit(
            s[i + 1],
        ) && is_hex_digit(s[i + 2])
}

/// What a text decodes to: the characters that its unescaped bytes encode,
/// or a decoding failure if an escape is malformed or those bytes are not
/// UTF-8.
pub open spec fn decoded(text: Seq<char>) -> Result<Seq<char>, CardError> {
    let bytes = unescape(encode_utf8(text));
    if escapes_well_formed(encode_utf8(text)) && valid_utf8(bytes) {
        Ok(decode_utf8(bytes))
    } else {
        Err(CardError::Decode)
    }
}

/// The characters of a decoded text, or its failure.
pub open spec fn text_view(out: Result<String, CardError>) -> Result<Seq<char>, CardError> {
    match out {
        Ok(text) => Ok(text@),
        Err(kind) => Err(kind),
    }
}

/// Calls `urlencoding::decode`, which replaces each `%` that two hexadecimal
/// digits follow by the byte they spell, copies every other byte, and then
/// checks the bytes with `String::from_utf8`. It succeeds exactly when the
/// unescaped bytes are UTF-8, and the text it returns is made of them.
#[verifier::external_body]
fn percent_decode(text: &str) -> (made: Result<String, FromUtf8Error>)
    ensures
        made is Ok <==> valid_utf8(unescape(encode_utf8(text@))),
        made matches Ok(plain) ==> plain@ == decode_utf8(unescape(encode_utf8(text@))),
{
    urlencoding::decode(text).map(Cow::into_owned)
}

/// Whether the byte is a hexadecimal digit.
pub fn is_hex(b: u8) -> (yes: bool)
    ensures
        yes == is_hex_digit(b),
{
    (0x30 <= b && b <= 0x39) || (0x41 <= b && b <= 0x46) || (0x61 <= b && b <= 0x66)
}

/// Whether every `%` among the bytes begins an escape.
pub fn escapes_ok(bytes: &[u8]) -> (ok: bool)
    ensures
        ok == escapes_well_formed(bytes@),
{
    let n = bytes.len();
    let mut i: usize = 0;
    while i < n
        invariant
            i <= n,
            n == bytes@.len(),
            forall|j: int|
                0 <= j < i && #[trigger] bytes@[j] == PERCENT ==> j + 2 < n && is_hex_digit(
                    bytes@[j + 1],
                ) && is_hex_digit(bytes@[j + 2]),
        decreases n - i,
    {
        if bytes[i] == PERCENT {
            if n - i < 3 || !is_hex(bytes[i + 1]) || !is_hex(bytes[i + 2]) {
                assert(bytes@[i as int] == PERCENT);
                return false;
            }
        }
        i += 1;
    }
    true
}

/// Percent-decodes a text. A `%` that two hexadecimal digits do not follow,
/// or escapes that do not spell UTF-8, fail the whole text.
pub fn decode_text(text: &str) -> (out: Result<String, CardError>)
    ensures
        text_view(out) == decoded(text@),
{
    if !escapes_ok(text.as_bytes()) {
        return Err(CardError::Decode);
    }
    match percent_decode(text) {
        Ok(plain) => Ok(plain),
        Err(_) => Err(CardError::Decode),
    }
}

/// A scalar other than `%` has no `%` among the bytes of its encoding.
proof fn lemma_scalar_without_percent(c: u32)
    by (bit_vector)
    requires
        is_scalar(c),
        c != 0x25,
    ensures
        leading_byte_width_1(c) != 0x25 || !has_width_1_encoding(c),
        leading_byte_width_2(c) != 0x25,
        leading_byte_width_3(c) != 0x25,
        leading_byte_width_4(c) != 0x25,
        last_continuation_byte(c) != 0x25,
        second_last_continuation_byte(c) != 0x25,
        third_last_continuation_byte(c) != 0x25,
{
}

/// A text without `%` has no `%` among the bytes of its encoding.
proof fn lemma_encoding_without_percent(text: Seq<char>)
    requires
        !text.contains('%'),
    ensures
        !encode_utf8(text).contains(PERCENT),
    decreases text.len(),
{
    if text.len() > 0 {
        let first = text[0] as u32;
        let rest = text.drop_first();
        assert(text.contains(text[0]));
        assert(first != 0x25) by {
            char_u32_cast(text[0], first);
            char_u32_cast('%', 0x25u32);
        }
        char_is_scalar(text[0]);
        lemma_scalar_without_percent(first);
        assert(!rest.contains('%')) by {
            if rest.contains('%') {
                let k = choose|k: int| 0 <= k < rest.len() && rest[k] == '%';
                assert(text[k + 1] == '%');
            }
        }
        lemma_encoding_without_percent(rest);
        let head = encode_scalar(first);
        let tail = encode_utf8(rest);
        assert forall|j: int| 0 <= j < (head + tail).len() implies (head + tail)[j] != PERCENT by {
            if j < head.len() {
                assert((head + tail)[j] == head[j]);
            } else {
                assert((head + tail)[j] == tail[j - head.len()]);
                assert(tail.contains(tail[j - head.len()]));
            }
        }
    }
}

/// Bytes without `%` hold no escape: unescaping leaves them as they are.
proof fn lemma_unescape_without_percent(s: Seq<u8>)
    requires
        !s.contains(PERCENT),
    ensures
        unescape(s) == s,
        escapes_well_formed(s),
    decreases s.len(),
{
    assert forall|i: int| 0 <= i < s.len() implies #[trigger] s[i] != PERCENT by {
        assert(s.contains(s[i]));
    }
    if s.len() > 0 {
        let rest = s.skip(1);
        assert(!rest.contains(PERCENT)) by {
            if rest.contains(PERCENT) {
                let k = choose|k: int| 0 <= k < rest.len() && rest[k] == PERCENT;
                assert(s[k + 1] == PERCENT);
            }
        }
        lemma_unescape_without_percent(rest);
        assert(seq![s[0]] + rest =~= s);
    }
}

/// Decoding is the identity on a text that holds no `%`.
pub proof fn law_plain_text_decodes_to_itself(text: Seq<char>)
    requires
        !text.contains('%'),
    ensures
        decoded(text) == Ok::<Seq<char>, CardError>(text),
{
    lemma_encoding_without_percent(text);
    lemma_unescape_without_percent(encode_utf8(text));
    encode_utf8_valid_utf8(text);
    encode_utf8_decode_utf8(text);
}

} // verus!
