use text_card::error::CardError;
use text_card::escape::{decode_text, escapes_ok, is_hex};
use text_card::sanitize::{
    guard_length, request_text, sanitize, DEFAULT_TEXT, MAX_TEXT_CHARS, SENTINEL,
};

#[test]
fn greeting_passes_unchanged() {
    assert_eq!(DEFAULT_TEXT, "Hello Worker!");
    assert_eq!(DEFAULT_TEXT.chars().count(), 13);
    assert_eq!(sanitize("Hello Worker!".to_string()), Ok("Hello Worker!".to_string()));
}

#[test]
fn absent_query_gives_the_greeting() {
    assert_eq!(request_text(None), "Hello Worker!");
    assert_eq!(request_text(Some("abc".to_string())), "abc");
    assert_eq!(request_text(Some(String::new())), "");
}

#[test]
fn two_hundred_letters_become_the_sentinel() {
    let raw = "a".repeat(200);
    assert_eq!(SENTINEL, "Nope");
    assert_eq!(sanitize(raw), Ok("Nope".to_string()));
}

#[test]
fn lone_percent_is_a_decoding_error() {
    assert_eq!(sanitize("%".to_string()), Err(CardError::Decode));
    assert_eq!(sanitize("100%".to_string()), Err(CardError::Decode));
    assert_eq!(sanitize("%4".to_string()), Err(CardError::Decode));
    assert_eq!(sanitize("%zz".to_string()), Err(CardError::Decode));
    assert_eq!(sanitize("%4g".to_string()), Err(CardError::Decode));
    assert_eq!(sanitize("a%%41".to_string()), Err(CardError::Decode));
}

#[test]
fn empty_text_passes_unchanged() {
    assert_eq!(sanitize(String::new()), Ok(String::new()));
}

#[test]
fn limit_is_inclusive() {
    assert_eq!(MAX_TEXT_CHARS, 128);
    let at_limit = "b".repeat(128);
    assert_eq!(sanitize(at_limit.clone()), Ok(at_limit));
    let over = "b".repeat(129);
    assert_eq!(sanitize(over), Ok("Nope".to_string()));
}

#[test]
fn guard_replaces_and_never_truncates() {
    let long = "x".repeat(500);
    assert_eq!(guard_length(long), "Nope");
    assert_eq!(guard_length("short".to_string()), "short");
}

#[test]
fn guard_counts_characters() {
    // 128 two-byte characters are within the limit, 129 are not.
    let within = "é".repeat(128);
    assert_eq!(guard_length(within.clone()), within);
    assert_eq!(guard_length("é".repeat(129)), "Nope");
}

#[test]
fn guard_looks_at_the_raw_text() {
    // 50 escapes are 150 raw characters, though they decode to 50.
    let raw = "%41".repeat(50);
    assert_eq!(sanitize(raw), Ok("Nope".to_string()));
    // 42 escapes are 126 raw characters.
    let raw = "%41".repeat(42);
    assert_eq!(sanitize(raw), Ok("A".repeat(42)));
}

#[test]
fn escapes_are_decoded() {
    assert_eq!(decode_text("Hello%20World"), Ok("Hello World".to_string()));
    assert_eq!(decode_text("%41%62%7a"), Ok("Abz".to_string()));
    assert_eq!(decode_text("%2f%2F"), Ok("//".to_string()));
    assert_eq!(decode_text("%25"), Ok("%".to_string()));
    assert_eq!(decode_text("%2541"), Ok("%41".to_string()));
    assert_eq!(decode_text("a+b"), Ok("a+b".to_string()));
    assert_eq!(decode_text("%00"), Ok("\u{0}".to_string()));
}

#[test]
fn escaped_utf8_is_decoded() {
    assert_eq!(
        decode_text("%F0%9F%91%BE%20Exterminate%21"),
        Ok("👾 Exterminate!".to_string())
    );
    assert_eq!(decode_text("%C3%A9"), Ok("é".to_string()));
    assert_eq!(decode_text("%c3%a9t%C3%A9"), Ok("été".to_string()));
}

#[test]
fn escapes_that_are_not_utf8_are_rejected() {
    assert_eq!(decode_text("%FF"), Err(CardError::Decode));
    assert_eq!(decode_text("%C3"), Err(CardError::Decode));
    assert_eq!(decode_text("%C3x"), Err(CardError::Decode));
    assert_eq!(decode_text("%ED%A0%80"), Err(CardError::Decode));
    assert_eq!(decode_text("%C0%80"), Err(CardError::Decode));
}

#[test]
fn text_without_percent_decodes_to_itself() {
    for text in ["", "plain", "été 👾", "a b\tc\n", "tab\u{7}bell", "+&=?#"] {
        assert_eq!(decode_text(text), Ok(text.to_string()));
    }
}

#[test]
fn no_other_normalisation() {
    assert_eq!(sanitize("  MiXed  ".to_string()), Ok("  MiXed  ".to_string()));
    assert_eq!(sanitize("%20x%20".to_string()), Ok(" x ".to_string()));
    assert_eq!(sanitize("e\u{301}".to_string()), Ok("e\u{301}".to_string()));
}

#[test]
fn well_formedness_of_escapes() {
    assert!(escapes_ok(b""));
    assert!(escapes_ok(b"abc"));
    assert!(escapes_ok(b"%41"));
    assert!(escapes_ok(b"x%41%42y"));
    assert!(!escapes_ok(b"%"));
    assert!(!escapes_ok(b"%4"));
    assert!(!escapes_ok(b"%%41"));
    assert!(!escapes_ok(b"%4%41"));
    assert!(!escapes_ok(b"abc%"));
    assert!(!escapes_ok(b"%G0"));
}

#[test]
fn hexadecimal_digits() {
    for b in 0u8..=255 {
        assert_eq!(is_hex(b), (b as char).is_ascii_hexdigit());
    }
}

#[test]
fn canonical_text_is_never_longer_than_the_limit() {
    let raws = [
        String::new(),
        "a".repeat(128),
        "a".repeat(129),
        "é".repeat(128),
        "%41".repeat(42),
        "%41".repeat(43),
        "%F0%9F%91%BE".repeat(10),
        format!("{}{}", "👾".repeat(100), "%20".repeat(9)),
        "x".repeat(100_000),
    ];
    for raw in raws {
        let shown = raw.chars().count();
        match sanitize(raw) {
            Ok(text) => {
                assert!(text.chars().count() <= 128);
                assert!(shown > 128 || text.chars().count() <= shown);
            }
            Err(kind) => assert_eq!(kind, CardError::Decode),
        }
    }
}

#[test]
fn decoding_never_lengthens() {
    for (raw, plain) in [("%41", 1), ("%C3%A9", 1), ("a%20b", 3), ("%F0%9F%91%BE", 1), ("é%C3%A9", 2)] {
        let text = decode_text(raw).expect("a text");
        assert_eq!(text.chars().count(), plain);
        assert!(text.chars().count() <= raw.chars().count());
    }
}
