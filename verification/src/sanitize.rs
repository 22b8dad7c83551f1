//! The input sanitiser: a length guard, then percent-decoding.

use crate::error::CardError;
use crate::escape::{decode_text, decoded, law_plain_text_decodes_to_itself, text_view};
use crate::length::law_decoding_never_lengthens;
use vstd::prelude::*;

verus! {

/// The longest request text, in characters, that is drawn as it is.
pub const MAX_TEXT_CHARS: usize = 128;

/// What is drawn in place of a text that is too long.
pub const SENTINEL: &'static str = "Nope";

/// What is drawn when the request carries no text.
pub const DEFAULT_TEXT: &'static str = "Hello Worker!";

/// The text that passes the length guard: the raw text itself, or the
/// sentinel in place of one that is too long. Nothing is cut off.
pub open spec fn guarded(raw: Seq<char>) -> Seq<char> {
    if raw.len() > MAX_TEXT_CHARS {
        SENTINEL@
    } else {
        raw
    }
}

/// The canonical text of a raw request text, or the failure to decode it.
/// The guard looks at the raw text, before any escape is decoded.
pub open spec fn sanitized(raw: Seq<char>) -> Result<Seq<char>, CardError> {
    decoded(guarded(raw))
}

/// The text of a request: its query, or the greeting where it has none.
pub open spec fn requested(query: Option<Seq<char>>) -> Seq<char> {
    match query {
        Some(text) => text,
        None => DEFAULT_TEXT@,
    }
}

/// Chooses the text of a request.
pub fn request_text(query: Option<String>) -> (text: String)
    ensures
        text@ == requested(
            match query {
                Some(q) => Some(q@),
                None => None,
            },
        ),
{
    match query {
        Some(text) => text,
        None => DEFAULT_TEXT.to_owned(),
    }
}

/// Applies the length guard.
pub fn guard_length(raw: String) -> (text: String)
    ensures
        text@ == guarded(raw@),
{
    if raw.as_str().unicode_len() > MAX_TEXT_CHARS {
        SENTINEL.to_owned()
    } else {
        raw
    }
}

/// Turns a raw request text into the text to draw: the length guard first,
/// then percent-decoding. No trimming, no case folding, no normalisation.
/// What comes out is never longer than the limit.
pub fn sanitize(raw: String) -> (out: Result<String, CardError>)
    ensures
        text_view(out) == sanitized(raw@),
        out matches Ok(text) ==> text@.len() <= MAX_TEXT_CHARS,
{
    let text = guard_length(raw);
    proof {
        law_canonical_text_is_bounded(raw@);
    }
    decode_text(text.as_str())
}

/// The sentinel holds no `%`.
proof fn lemma_sentinel_is_plain()
    ensures
        !SENTINEL@.contains('%'),
        SENTINEL@.len() == 4,
{
    reveal_strlit("Nope");
}

/// A raw text within the limit is decoded and otherwise left alone.
pub proof fn law_short_text_is_only_decoded(raw: Seq<char>)
    requires
        raw.len() <= MAX_TEXT_CHARS,
    ensures
        sanitized(raw) == decoded(raw),
        !raw.contains('%') ==> sanitized(raw) == Ok::<Seq<char>, CardError>(raw),
{
    if !raw.contains('%') {
        law_plain_text_decodes_to_itself(raw);
    }
}

/// A raw text over the limit is replaced by the sentinel, whatever it holds.
pub proof fn law_long_text_becomes_sentinel(raw: Seq<char>)
    requires
        raw.len() > MAX_TEXT_CHARS,
    ensures
        sanitized(raw) == Ok::<Seq<char>, CardError>(SENTINEL@),
{
    lemma_sentinel_is_plain();
    law_plain_text_decodes_to_itself(SENTINEL@);
}

/// However long the raw text, the canonical text holds no more characters
/// than the limit.
pub proof fn law_canonical_text_is_bounded(raw: Seq<char>)
    ensures
        sanitized(raw) matches Ok(text) ==> text.len() <= MAX_TEXT_CHARS,
{
    lemma_sentinel_is_plain();
    law_decoding_never_lengthens(guarded(raw));
}

} // verus!
