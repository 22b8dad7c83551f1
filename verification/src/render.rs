//! The rendering engine: a blank canvas is opened, the text is drawn on it,
//! and the canvas is encoded as PNG. Each failure is reported as one
//! [`CardError`], and the contracts say for every stage when it succeeds.
//!
//! The canvas and the encoder are `og_image_writer`'s. Drawing the text needs
//! that crate's real-valued text style and a parsed font, so the caller
//! supplies that one stage.

use crate::error::CardError;
use crate::style::{Align, StyleConfig};
use og_image_writer::style::{AlignItems, FlexDirection, JustifyContent, Rgba, WindowStyle};
use og_image_writer::writer::OGImageWriter;
use vstd::prelude::*;

verus! {

/// `og_image_writer`'s canvas with the elements set on it.
#[verifier::external_type_specification]
#[verifier::external_body]
pub struct ExWriter(OGImageWriter);

/// `og_image_writer`'s error. [`fault_variant`] names its variant.
#[verifier::external_type_specification]
#[verifier::external_body]
pub struct ExWriterError(og_image_writer::Error);

/// The width of a canvas in pixels: what `OGImageWriter::width` returns.
pub uninterp spec fn canvas_width(canvas: OGImageWriter) -> u32;

/// The height of a canvas in pixels: what `OGImageWriter::height` returns.
pub uninterp spec fn canvas_height(canvas: OGImageWriter) -> u32;

/// The pixels of a canvas, row by row, four channels each.
pub uninterp spec fn canvas_pixels(canvas: OGImageWriter) -> Seq<u8>;

/// The canvas still holds the image that it was made with.
pub uninterp spec fn canvas_holds_image(canvas: OGImageWriter) -> bool;

/// The variant of one of the rasteriser's errors.
pub uninterp spec fn fault_variant(error: og_image_writer::Error) -> Fault;

/// The PNG stream that the encoder writes for pixels of the given width and
/// height.
pub uninterp spec fn png_stream(width: u32, height: u32, pixels: Seq<u8>) -> Seq<u8>;

/// The stages of rendering, in the order they run.
#[derive(Clone, Copy, Debug, PartialEq, Eq, Structural)]
pub enum Stage {
    /// Allocating the canvas and filling it with the background colour.
    Open,
    /// Loading the font, breaking the text into lines and painting them.
    Draw,
    /// Serialising the canvas.
    Encode,
}

/// What the rasteriser reported, one variant for each of its own.
#[derive(Clone, Copy, Debug, PartialEq, Eq, Structural)]
pub enum Fault {
    NullElement,
    Image,
    InvalidFont,
    NoContainerImage,
    TextOutOfRange,
    NoFontFamily,
}

/// The kind of failure that a fault at a given stage amounts to. A canvas
/// that cannot be opened and a font that cannot be parsed are defects of the
/// configuration; anything else that goes wrong while drawing is a
/// rasterisation failure; a fault while encoding is an encoding failure.
pub open spec fn failure_of(stage: Stage, fault: Fault) -> CardError {
    match stage {
        Stage::Open => CardError::Config,
        Stage::Draw => if fault == Fault::InvalidFont {
            CardError::Config
        } else {
            CardError::Raster
        },
        Stage::Encode => CardError::Encode,
    }
}

/// The canvas is as it was opened: it has the size of the style, holds its
/// image, and shows nothing but the background.
pub open spec fn is_blank(canvas: OGImageWriter, style: StyleConfig) -> bool {
    &&& has_size_of(canvas, style)
    &&& canvas_holds_image(canvas)
    &&& canvas_pixels(canvas) == style.blank_pixels()
}

/// The canvas has the size of the style.
pub open spec fn has_size_of(canvas: OGImageWriter, style: StyleConfig) -> bool {
    canvas_width(canvas) == style.width && canvas_height(canvas) == style.height
}

/// The PNG stream of a canvas.
pub open spec fn png_of(canvas: OGImageWriter) -> Seq<u8> {
    png_stream(canvas_width(canvas), canvas_height(canvas), canvas_pixels(canvas))
}

/// The first eight bytes of every PNG stream.
pub open spec fn png_signature() -> Seq<u8> {
    seq![137u8, 80u8, 78u8, 71u8, 13u8, 10u8, 26u8, 10u8]
}

/// The bytes begin with the PNG signature.
pub open spec fn png_signed(bytes: Seq<u8>) -> bool {
    bytes.len() >= 8 && bytes.subrange(0, 8) == png_signature()
}

/// The bytes of an image, or its failure.
pub open spec fn image_view(out: Result<Vec<u8>, CardError>) -> Result<Seq<u8>, CardError> {
    match out {
        Ok(bytes) => Ok(bytes@),
        Err(kind) => Err(kind),
    }
}

/// What encoding a canvas gives. A canvas without area is a configuration
/// error. One that has lost its image, or whose stream does not begin with
/// the PNG signature, is an encoding failure. Any other canvas gives its PNG
/// stream.
pub open spec fn encoded(canvas: OGImageWriter) -> Result<Seq<u8>, CardError> {
    if canvas_width(canvas) == 0 || canvas_height(canvas) == 0 {
        Err(CardError::Config)
    } else if canvas_holds_image(canvas) && png_signed(png_of(canvas)) {
        Ok(png_of(canvas))
    } else {
        Err(CardError::Encode)
    }
}

/// What rendering in a drawable style gives, by what the drawing stage
/// returned: the failure that its error amounts to, a rasterisation failure
/// for a canvas of another size, and otherwise what encoding its canvas
/// gives.
pub open spec fn rendered(
    style: StyleConfig,
    drawing: Result<OGImageWriter, og_image_writer::Error>,
) -> Result<Seq<u8>, CardError> {
    match drawing {
        Err(error) => Err(failure_of(Stage::Draw, fault_variant(error))),
        Ok(canvas) => if has_size_of(canvas, style) {
            encoded(canvas)
        } else {
            Err(CardError::Raster)
        },
    }
}

/// Calls `OGImageWriter::new` with a window of the configured size,
/// background colour and alignment, laid out as a column. It allocates the
/// image and fills it, and neither step can fail, so a canvas always comes
/// back: it has that size, holds its image, and each of its pixels is the
/// background colour. The precondition keeps the pixel buffer within the
/// longest vector there can be; the allocation inside panics beyond it.
/// Memory that the machine does not have ends the process here as it does
/// anywhere.
#[verifier::external_body]
fn new_writer(style: &StyleConfig) -> (made: Result<OGImageWriter, og_image_writer::Error>)
    requires
        style.fits_memory(),
    ensures
        made is Ok,
        made matches Ok(canvas) ==> canvas_holds_image(canvas),
        made matches Ok(canvas) ==> canvas_width(canvas) == style.width,
        made matches Ok(canvas) ==> canvas_height(canvas) == style.height,
        made matches Ok(canvas) ==> canvas_pixels(canvas) == style.blank_pixels(),
{
    let bg = style.background;
    OGImageWriter::new(WindowStyle {
        width: style.width,
        height: style.height,
        background_color: Some(Rgba([bg.r, bg.g, bg.b, bg.a])),
        align_items: match style.align_items {
            Align::Start => AlignItems::Start, Align::Center => AlignItems::Center, Align::End => AlignItems::End,
        },
        justify_content: match style.justify_content {
            Align::Start => JustifyContent::Start, Align::Center => JustifyContent::Center, Align::End => JustifyContent::End,
        },
        flex_direction: FlexDirection::Column,
    })
}

/// Calls `OGImageWriter::width`.
#[verifier::external_body]
fn writer_width(canvas: &OGImageWriter) -> (width: u32)
    ensures
        width == canvas_width(*canvas),
{
    canvas.width()
}

/// Calls `OGImageWriter::height`.
#[verifier::external_body]
fn writer_height(canvas: &OGImageWriter) -> (height: u32)
    ensures
        height == canvas_height(*canvas),
{
    canvas.height()
}

/// Calls `OGImageWriter::encode` for the PNG format, which hands the pixels
/// with their width and height to the PNG encoder. It fails if the canvas
/// has lost its image, and the encoder refuses a width or a height of zero;
/// nothing else can fail while the stream is written to memory. The
/// precondition leaves the canvases without area out, so that success rests
/// on the image alone. The bytes that come back are the encoder's stream for
/// the pixels.
#[verifier::external_body]
fn encode_writer(canvas: OGImageWriter) -> (made: Result<Vec<u8>, og_image_writer::Error>)
    requires
        canvas_width(canvas) > 0,
        canvas_height(canvas) > 0,
    ensures
        made is Ok <==> canvas_holds_image(canvas),
        made matches Ok(bytes) ==> bytes@ == png_stream(
            canvas_width(canvas),
            canvas_height(canvas),
            canvas_pixels(canvas),
        ),
{
    canvas.encode(image::ImageOutputFormat::Png)
}

/// Tells the variants of an `og_image_writer::Error` apart: what comes back
/// is the variant of the error, one of the library's for each of the
/// rasteriser's.
#[verifier::external_body]
fn fault_of(error: &og_image_writer::Error) -> (fault: Fault)
    ensures
        fault == fault_variant(*error),
{
    match error {
        og_image_writer::Error::NullElement => Fault::NullElement,
        og_image_writer::Error::ImageError(_) => Fault::Image,
        og_image_writer::Error::InvalidFontBytes => Fault::InvalidFont,
        og_image_writer::Error::NotFoundContainerImage => Fault::NoContainerImage,
        og_image_writer::Error::OutOfRangeText => Fault::TextOutOfRange,
        og_image_writer::Error::NotFoundSpecifiedFontFamily => Fault::NoFontFamily,
    }
}

/// The kind of failure that `fault` at `stage` amounts to.
pub fn failure_kind(stage: Stage, fault: Fault) -> (kind: CardError)
    ensures
        kind == failure_of(stage, fault),
{
    match stage {
        Stage::Open => CardError::Config,
        Stage::Draw => match fault {
            Fault::InvalidFont => CardError::Config,
            _ => CardError::Raster,
        },
        Stage::Encode => CardError::Encode,
    }
}

/// Turns the rasteriser's own result of a stage into the library's. A value
/// is handed on unchanged; an error becomes the kind of failure that its
/// variant amounts to at that stage.
pub fn stage_outcome<T>(stage: Stage, made: Result<T, og_image_writer::Error>) -> (out: Result<
    T,
    CardError,
>)
    ensures
        made is Ok ==> out == Ok::<T, CardError>(made->Ok_0),
        made matches Err(error) ==> out == Err::<T, CardError>(
            failure_of(stage, fault_variant(error)),
        ),
{
    match made {
        Ok(value) => Ok(value),
        Err(error) => {
            let fault = fault_of(&error);
            Err(failure_kind(stage, fault))
        },
    }
}

/// Whether the bytes begin with the PNG signature.
pub fn has_png_signature(bytes: &[u8]) -> (yes: bool)
    ensures
        yes == png_signed(bytes@),
{
    if bytes.len() < 8 {
        return false;
    }
    let yes = bytes[0] == 137 && bytes[1] == 80 && bytes[2] == 78 && bytes[3] == 71 && bytes[4]
        == 13 && bytes[5] == 10 && bytes[6] == 26 && bytes[7] == 10;
    proof {
        let head = bytes@.subrange(0, 8);
        if yes {
            assert(head =~= png_signature());
        } else {
            assert(head[0] == bytes@[0] && head[1] == bytes@[1] && head[2] == bytes@[2] && head[3]
                == bytes@[3]);
            assert(head[4] == bytes@[4] && head[5] == bytes@[5] && head[6] == bytes@[6] && head[7]
                == bytes@[7]);
        }
    }
    yes
}

/// Accepts encoded bytes only if they carry the PNG signature.
pub fn checked_png(bytes: Vec<u8>) -> (out: Result<Vec<u8>, CardError>)
    ensures
        png_signed(bytes@) ==> out == Ok::<Vec<u8>, CardError>(bytes),
        !png_signed(bytes@) ==> out == Err::<Vec<u8>, CardError>(CardError::Encode),
{
    if has_png_signature(bytes.as_slice()) {
        Ok(bytes)
    } else {
        Err(CardError::Encode)
    }
}

/// Opens a blank canvas of the configured size, filled with the background
/// colour. Degenerate dimensions are a configuration error and are refused
/// before anything is allocated; every other style gets its canvas.
pub fn open_canvas(style: &StyleConfig) -> (out: Result<OGImageWriter, CardError>)
    ensures
        out is Ok <==> style.drawable(),
        out is Err ==> out->Err_0 == CardError::Config,
        out matches Ok(canvas) ==> is_blank(canvas, *style),
{
    if !style.is_drawable() {
        return Err(CardError::Config);
    }
    stage_outcome(Stage::Open, new_writer(style))
}

/// Encodes a canvas as PNG. A canvas without area is refused as a
/// configuration error; one that has lost its image, or whose stream lacks
/// the PNG signature, is an encoding failure. Every other canvas gives its
/// PNG stream.
pub fn finish(canvas: OGImageWriter) -> (out: Result<Vec<u8>, CardError>)
    ensures
        image_view(out) == encoded(canvas),
        out is Ok <==> canvas_width(canvas) > 0 && canvas_height(canvas) > 0
            && canvas_holds_image(canvas) && png_signed(png_of(canvas)),
        out matches Ok(bytes) ==> bytes@ == png_of(canvas) && png_signed(bytes@),
{
    if writer_width(&canvas) == 0 || writer_height(&canvas) == 0 {
        return Err(CardError::Config);
    }
    match stage_outcome(Stage::Encode, encode_writer(canvas)) {
        Ok(bytes) => checked_png(bytes),
        Err(kind) => Err(kind),
    }
}

/// Renders `text` as a PNG image in the given style.
///
/// The stages run in order and the first failure ends the run. `draw` is the
/// one stage that the caller performs: it sets the text on the blank canvas
/// it is given, paints it, and hands the canvas back. In a style that is not
/// drawable nothing is drawn. In any other, `draw` is run once on the blank
/// canvas and the text, and what it returns decides the outcome: an image
/// that comes out is the PNG stream of exactly the canvas it handed back.
pub fn generate_image<F>(text: &str, style: &StyleConfig, draw: F) -> (out: Result<
    Vec<u8>,
    CardError,
>) where F: FnOnce(OGImageWriter, &str) -> Result<OGImageWriter, og_image_writer::Error>
    requires
        forall|canvas: OGImageWriter| call_requires(draw, (canvas, text)),
    ensures
        !style.drawable() ==> out == Err::<Vec<u8>, CardError>(CardError::Config),
        style.drawable() ==> exists|
            blank: OGImageWriter,
            drawing: Result<OGImageWriter, og_image_writer::Error>,
        |
            {
                &&& is_blank(blank, *style)
                &&& call_ensures(draw, (blank, text), drawing)
                &&& image_view(out) == rendered(*style, drawing)
            },
        out matches Ok(bytes) ==> style.drawable() && png_signed(bytes@),
        out matches Err(kind) ==> !kind.client_fault(),
{
    let blank = match open_canvas(style) {
        Ok(canvas) => canvas,
        Err(kind) => {
            return Err(kind);
        },
    };
    let ghost opened = blank;
    let drawing = draw(blank, text);
    let ghost returned = drawing;
    assert(call_ensures(draw, (opened, text), returned));
    let drawn = match stage_outcome(Stage::Draw, drawing) {
        Ok(canvas) => canvas,
        Err(kind) => {
            return Err(kind);
        },
    };
    if writer_width(&drawn) != style.width || writer_height(&drawn) != style.height {
        return Err(CardError::Raster);
    }
    finish(drawn)
}

} // verus!
