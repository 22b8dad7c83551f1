//! Decoding never makes a text longer.
//!
//! The characters of a UTF-8 stream are counted by the bytes that begin one.
//! Unescaping does not add such bytes: an escape spends three of them and
//! yields at most one.

use crate::escape::{decoded, hex_value, starts_with_escape, unescape};
use vstd::prelude::*;
use vstd::utf8::*;

verus! {

/// The number of bytes that are not continuation bytes.
spec fn starts(bytes: Seq<u8>) -> nat
    decreases bytes.len(),
{
    if bytes.len() == 0 {
        0
    } else if is_continuation_byte(bytes[0]) {
        starts(bytes.skip(1))
    } else {
        1 + starts(bytes.skip(1))
    }
}

/// Counting passes over continuation bytes.
proof fn lemma_starts_skip_continuation(bytes: Seq<u8>, n: int)
    requires
        0 <= n <= bytes.len(),
        forall|i: int| 0 <= i < n ==> is_continuation_byte(#[trigger] bytes[i]),
    ensures
        starts(bytes) == starts(bytes.skip(n)),
    decreases n,
{
    if n == 0 {
        assert(bytes.skip(0) =~= bytes);
    } else {
        let rest = bytes.skip(1);
        assert(is_continuation_byte(bytes[0]));
        assert forall|i: int| 0 <= i < n - 1 implies is_continuation_byte(#[trigger] rest[i]) by {
            assert(rest[i] == bytes[i + 1]);
        }
        lemma_starts_skip_continuation(rest, n - 1);
        assert(rest.skip(n - 1) =~= bytes.skip(n));
    }
}

/// Counting passes over the first `n` bytes when they are one character.
proof fn lemma_starts_after_scalar(bytes: Seq<u8>, n: int)
    requires
        1 <= n <= bytes.len(),
        !is_continuation_byte(bytes[0]),
        forall|i: int| 1 <= i < n ==> is_continuation_byte(#[trigger] bytes[i]),
    ensures
        starts(bytes) == 1 + starts(bytes.skip(n)),
{
    let rest = bytes.skip(1);
    assert forall|i: int| 0 <= i < n - 1 implies is_continuation_byte(#[trigger] rest[i]) by {
        assert(rest[i] == bytes[i + 1]);
    }
    lemma_starts_skip_continuation(rest, n - 1);
    assert(rest.skip(n - 1) =~= bytes.skip(n));
}

/// Counting is additive over concatenation.
proof fn lemma_starts_concat(a: Seq<u8>, b: Seq<u8>)
    ensures
        starts(a + b) == starts(a) + starts(b),
    decreases a.len(),
{
    if a.len() == 0 {
        assert(a + b =~= b);
    } else {
        assert((a + b).skip(1) =~= a.skip(1) + b);
        lemma_starts_concat(a.skip(1), b);
    }
}

/// The bytes of a valid UTF-8 stream that begin a character are as many as
/// its characters.
proof fn lemma_characters_are_starts(bytes: Seq<u8>)
    requires
        valid_utf8(bytes),
    ensures
        decode_utf8(bytes).len() == starts(bytes),
    decreases bytes.len(),
{
    if bytes.len() > 0 {
        let n = length_of_first_scalar(bytes);
        let rest = pop_first_scalar(bytes);
        assert(rest == bytes.skip(n));
        lemma_starts_after_scalar(bytes, n);
        lemma_characters_are_starts(rest);
    }
}

/// The encoding of a scalar begins with one byte that is no continuation
/// byte, and goes on with continuation bytes only.
proof fn lemma_scalar_shape(c: u32)
    by (bit_vector)
    requires
        is_scalar(c),
    ensures
        has_width_1_encoding(c) ==> !is_continuation_byte(leading_byte_width_1(c)),
        !is_continuation_byte(leading_byte_width_2(c)),
        !is_continuation_byte(leading_byte_width_3(c)),
        !is_continuation_byte(leading_byte_width_4(c)),
        is_continuation_byte(last_continuation_byte(c)),
        is_continuation_byte(second_last_continuation_byte(c)),
        is_continuation_byte(third_last_continuation_byte(c)),
{
}

/// The encoding of a text holds one character-beginning byte for each of its
/// characters.
proof fn lemma_starts_of_encoding(text: Seq<char>)
    ensures
        starts(encode_utf8(text)) == text.len(),
    decreases text.len(),
{
    if text.len() > 0 {
        let c = text[0] as u32;
        let head = encode_scalar(c);
        let tail = encode_utf8(text.drop_first());
        char_is_scalar(text[0]);
        lemma_scalar_shape(c);
        lemma_starts_after_scalar(head, head.len() as int);
        assert(head.skip(head.len() as int) =~= Seq::<u8>::empty());
        lemma_starts_concat(head, tail);
        lemma_starts_of_encoding(text.drop_first());
    }
}

/// Unescaping adds no byte that begins a character.
proof fn lemma_unescape_adds_no_start(s: Seq<u8>)
    ensures
        starts(unescape(s)) <= starts(s),
    decreases s.len(),
{
    if s.len() > 0 {
        if starts_with_escape(s) {
            let rest = s.skip(3);
            let byte = seq![(16 * hex_value(s[1]) + hex_value(s[2])) as u8];
            lemma_unescape_adds_no_start(rest);
            lemma_starts_concat(byte, unescape(rest));
            assert(starts(byte) <= 1) by {
                assert(starts(byte.skip(1)) == 0);
            }
            assert(starts(s) == 3 + starts(rest)) by {
                let s1 = s.skip(1);
                let s2 = s1.skip(1);
                assert(s1[0] == s[1] && s2[0] == s[2]);
                assert(s2.skip(1) =~= rest);
                assert(starts(s2) == 1 + starts(rest));
                assert(starts(s1) == 1 + starts(s2));
            }
        } else {
            let rest = s.skip(1);
            let byte = seq![s[0]];
            lemma_unescape_adds_no_start(rest);
            lemma_starts_concat(byte, unescape(rest));
            lemma_starts_concat(byte, rest);
            assert(byte + rest =~= s);
        }
    }
}

/// A decoded text has at most as many characters as the text it came from.
pub proof fn law_decoding_never_lengthens(text: Seq<char>)
    ensures
        decoded(text) matches Ok(plain) ==> plain.len() <= text.len(),
{
    let bytes = encode_utf8(text);
    if decoded(text) is Ok {
        lemma_characters_are_starts(unescape(bytes));
        lemma_unescape_adds_no_start(bytes);
        lemma_starts_of_encoding(text);
    }
}

} // verus!
