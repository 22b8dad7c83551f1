//! One request from raw text to reply: sanitise, render, report.

use crate::error::CardError;
use crate::render::{generate_image, image_view, is_blank, png_signed, rendered};
use crate::sanitize::{sanitize, sanitized, MAX_TEXT_CHARS};
use crate::style::StyleConfig;
use og_image_writer::writer::OGImageWriter;
use vstd::prelude::*;

verus! {

/// The content type of every card.
pub const PNG_CONTENT_TYPE: &'static str = "image/png";

/// What goes back to the client: a status, and the image where there is one.
#[derive(Debug)]
pub struct Reply {
    pub status: u16,
    pub body: Vec<u8>,
}

/// The status and body that report an outcome: 200 with the image, or the
/// status of the failure with no body.
pub open spec fn reply_for(outcome: Result<Seq<u8>, CardError>) -> (u16, Seq<u8>) {
    match outcome {
        Ok(image) => (200u16, image),
        Err(kind) => (kind.status_code(), Seq::<u8>::empty()),
    }
}

impl Reply {
    /// The reply carries an image.
    pub open spec fn is_image(&self) -> bool {
        self.status == 200
    }

    /// The content type to send: that of PNG with an image, none without.
    pub fn content_type(&self) -> (kind: Option<&'static str>)
        ensures
            kind is Some <==> self.is_image(),
            kind matches Some(name) ==> name@ == PNG_CONTENT_TYPE@,
    {
        if self.status == 200 {
            Some(PNG_CONTENT_TYPE)
        } else {
            None
        }
    }
}

/// Reports an outcome to the client. No failure carries a body.
pub fn reply_to(outcome: Result<Vec<u8>, CardError>) -> (reply: Reply)
    ensures
        (reply.status, reply.body@) == reply_for(image_view(outcome)),
{
    match outcome {
        Ok(image) => Reply { status: 200, body: image },
        Err(kind) => Reply { status: kind.status(), body: Vec::new() },
    }
}

/// Answers one request. The raw text is sanitised; a text that cannot be
/// decoded is answered with 400 and is never drawn. Otherwise the canonical
/// text is rendered in the given style, with `draw` as the drawing stage, and
/// the reply reports what rendering gave: the image with 200, or a failure
/// with 500.
pub fn handle_request<F>(raw: String, style: &StyleConfig, draw: F) -> (reply: Reply) where
    F: FnOnce(OGImageWriter, &str) -> Result<OGImageWriter, og_image_writer::Error>,

    requires
        forall|canvas: OGImageWriter, text: &str| call_requires(draw, (canvas, text)),
    ensures
        sanitized(raw@) is Err ==> (reply.status, reply.body@) == reply_for(
            Err(CardError::Decode),
        ),
        sanitized(raw@) is Ok && !style.drawable() ==> (reply.status, reply.body@) == reply_for(
            Err(CardError::Config),
        ),
        sanitized(raw@) is Ok && style.drawable() ==> exists|
            text: &str,
            blank: OGImageWriter,
            drawing: Result<OGImageWriter, og_image_writer::Error>,
        |
            {
                &&& sanitized(raw@) == Ok::<Seq<char>, CardError>(text@)
                &&& text@.len() <= MAX_TEXT_CHARS
                &&& is_blank(blank, *style)
                &&& call_ensures(draw, (blank, text), drawing)
                &&& (reply.status, reply.body@) == reply_for(rendered(*style, drawing))
            },
        reply.status == 400 <==> sanitized(raw@) is Err,
        reply.status == 200 || reply.status == 400 || reply.status == 500,
        reply.is_image() ==> style.drawable() && png_signed(reply.body@),
        !reply.is_image() ==> reply.body@.len() == 0,
{
    let text = match sanitize(raw) {
        Ok(text) => text,
        Err(kind) => {
            return reply_to(Err(kind));
        },
    };
    let outcome = generate_image(text.as_str(), style, draw);
    reply_to(outcome)
}

} // verus!
