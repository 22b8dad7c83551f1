//! Text cards: a short request text is sanitised and drawn, centred, on a
//! fixed-size canvas that is then encoded as a PNG image.
//!
//! The sanitiser is verified against a byte-level model of percent-decoding:
//! what it returns is stated exactly, and is never longer than the limit.
//! The canvas and the PNG encoder are `og_image_writer`'s. The library opens
//! the canvas, hands it to the caller's drawing stage, checks what comes back,
//! encodes it, and reports every failure as one of four kinds.

pub mod error;
pub mod escape;
pub mod length;
pub mod style;
pub mod render;
pub mod request;
pub mod sanitize;
