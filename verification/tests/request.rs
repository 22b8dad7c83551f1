use og_image_writer::style::Style;
use og_image_writer::writer::OGImageWriter;
use text_card::error::CardError;
use text_card::request::{handle_request, reply_to, PNG_CONTENT_TYPE};
use text_card::style::StyleConfig;

fn small() -> StyleConfig {
    StyleConfig { width: 32, height: 16, ..StyleConfig::standard() }
}

#[test]
fn statuses_of_failures() {
    assert_eq!(CardError::Decode.status(), 400);
    assert_eq!(CardError::Config.status(), 500);
    assert_eq!(CardError::Raster.status(), 500);
    assert_eq!(CardError::Encode.status(), 500);
    assert!(CardError::Decode.is_client_fault());
    assert!(!CardError::Config.is_client_fault());
    assert!(!CardError::Raster.is_client_fault());
    assert!(!CardError::Encode.is_client_fault());
}

#[test]
fn image_is_replied_with_its_type() {
    let reply = reply_to(Ok(vec![1, 2, 3]));
    assert_eq!(reply.status, 200);
    assert_eq!(reply.body, vec![1, 2, 3]);
    assert_eq!(reply.content_type(), Some("image/png"));
    assert_eq!(PNG_CONTENT_TYPE, "image/png");
}

#[test]
fn failure_is_replied_without_body() {
    for (kind, status) in [
        (CardError::Decode, 400),
        (CardError::Config, 500),
        (CardError::Raster, 500),
        (CardError::Encode, 500),
    ] {
        let reply = reply_to(Err(kind));
        assert_eq!(reply.status, status);
        assert!(reply.body.is_empty());
        assert_eq!(reply.content_type(), None);
    }
}

#[test]
fn malformed_escape_is_answered_without_image() {
    let reply = handle_request("50%".to_string(), &small(), |_writer, _text| {
        panic!("drew a text that was rejected")
    });
    assert_eq!(reply.status, 400);
    assert!(reply.body.is_empty());
    assert_eq!(reply.content_type(), None);
}

#[test]
fn long_text_is_drawn_as_the_sentinel() {
    let mut seen = String::new();
    let reply = handle_request("a".repeat(200), &small(), |writer, text| {
        seen.push_str(text);
        Ok(writer)
    });
    assert_eq!(seen, "Nope");
    assert_eq!(reply.status, 200);
}

#[test]
fn decoded_text_is_drawn() {
    let mut seen = String::new();
    let reply = handle_request("Hello%20Worker%21".to_string(), &small(), |writer, text| {
        seen.push_str(text);
        Ok(writer)
    });
    assert_eq!(seen, "Hello Worker!");
    assert_eq!(reply.status, 200);
    assert_eq!(reply.content_type(), Some("image/png"));
    assert_eq!(reply.body[..8], [137, 80, 78, 71, 13, 10, 26, 10]);
}

#[test]
fn internal_failure_is_a_server_error() {
    let reply = handle_request("x".to_string(), &small(), |mut writer: OGImageWriter, text: &str| {
        writer.set_text(text, Style::default(), Some(Vec::new()))?;
        writer.paint()?;
        Ok(writer)
    });
    assert_eq!(reply.status, 500);
    assert!(reply.body.is_empty());
    let degenerate = StyleConfig { width: 0, ..StyleConfig::standard() };
    let reply = handle_request("x".to_string(), &degenerate, |writer, _text| Ok(writer));
    assert_eq!(reply.status, 500);
    assert!(reply.body.is_empty());
}
