//! The fixed appearance of a card: canvas, colours, margins and text layout.

use vstd::prelude::*;

verus! {

/// A colour with an independent alpha channel.
#[derive(Clone, Copy, Debug, PartialEq, Eq, Structural)]
pub struct Rgba {
    pub r: u8,
    pub g: u8,
    pub b: u8,
    pub a: u8,
}

impl Rgba {
    /// The value of one of the four channels, in the order red, green, blue,
    /// alpha.
    pub open spec fn channel(self, index: int) -> u8 {
        if index == 0 {
            self.r
        } else if index == 1 {
            self.g
        } else if index == 2 {
            self.b
        } else {
            self.a
        }
    }
}

/// Insets of the text block from the canvas edges, in pixels.
#[derive(Clone, Copy, Debug, PartialEq, Eq, Structural)]
pub struct Margin {
    pub top: i32,
    pub right: i32,
    pub bottom: i32,
    pub left: i32,
}

/// A position along one axis.
#[derive(Clone, Copy, Debug, PartialEq, Eq, Structural)]
pub enum Align {
    Start,
    Center,
    End,
}

/// Where a line may be broken.
#[derive(Clone, Copy, Debug, PartialEq, Eq, Structural)]
pub enum WordBreak {
    /// Only at whitespace.
    Normal,
    /// Between any two characters.
    BreakAll,
}

/// Everything that decides how a text is drawn. The two real-valued settings
/// are kept as integers: the line height in hundredths of the font size, the
/// font size in whole pixels.
#[derive(Clone, Copy, Debug, PartialEq, Eq, Structural)]
pub struct StyleConfig {
    pub width: u32,
    pub height: u32,
    pub background: Rgba,
    /// Horizontal placement of the text block on the canvas.
    pub align_items: Align,
    /// Vertical placement of the text block on the canvas.
    pub justify_content: Align,
    pub text_color: Rgba,
    pub margin: Margin,
    pub line_height_percent: u32,
    pub font_size: u32,
    pub word_break: WordBreak,
    /// Placement of each line inside the text block.
    pub text_align: Align,
}

impl StyleConfig {
    /// The one style every card is drawn in.
    pub open spec fn standard_style() -> StyleConfig {
        StyleConfig {
            width: 1024,
            height: 512,
            background: Rgba { r: 70, g: 40, b: 90, a: 255 },
            align_items: Align::Center,
            justify_content: Align::Center,
            text_color: Rgba { r: 255, g: 255, b: 255, a: 255 },
            margin: Margin { top: 0, right: 20, bottom: 0, left: 20 },
            line_height_percent: 180,
            font_size: 100,
            word_break: WordBreak::Normal,
            text_align: Align::Start,
        }
    }

    /// The canvas holds at least one pixel.
    pub open spec fn has_area(&self) -> bool {
        self.width > 0 && self.height > 0
    }

    /// The four-channel pixel buffer of the canvas is no longer than a
    /// vector can be.
    pub open spec fn fits_memory(&self) -> bool {
        4 * self.width * self.height <= isize::MAX
    }

    /// The pixels of the canvas before anything is drawn: every one the
    /// background colour, row by row, four channels each.
    pub open spec fn blank_pixels(&self) -> Seq<u8> {
        Seq::new(
            (4 * self.width * self.height) as nat,
            |i: int| self.background.channel(i % 4),
        )
    }

    /// A canvas of these dimensions can be allocated and drawn on.
    pub open spec fn drawable(&self) -> bool {
        self.has_area() && self.fits_memory()
    }

    #[verifier::when_used_as_spec(standard_style)]
    pub fn standard() -> (style: StyleConfig)
        ensures
            style == StyleConfig::standard_style(),
            style.drawable(),
    {
        StyleConfig {
            width: 1024,
            height: 512,
            background: Rgba { r: 70, g: 40, b: 90, a: 255 },
            align_items: Align::Center,
            justify_content: Align::Center,
            text_color: Rgba { r: 255, g: 255, b: 255, a: 255 },
            margin: Margin { top: 0, right: 20, bottom: 0, left: 20 },
            line_height_percent: 180,
            font_size: 100,
            word_break: WordBreak::Normal,
            text_align: Align::Start,
        }
    }

    #[verifier::when_used_as_spec(drawable)]
    pub fn is_drawable(&self) -> (ok: bool)
        ensures
            ok == self.drawable(),
    {
        if self.width == 0 || self.height == 0 {
            return false;
        }
        let width: u64 = self.width as u64;
        let height: u64 = self.height as u64;
        assert(width * height <= 0xffff_ffff * 0xffff_ffff) by (nonlinear_arith)
            requires
                width <= 0xffff_ffff,
                height <= 0xffff_ffff,
        ;
        let pixels: u64 = width * height;
        let limit: u64 = (isize::MAX / 4) as u64;
        assert(4 * self.width * self.height == 4 * pixels) by (nonlinear_arith)
            requires
                pixels == self.width * self.height,
        ;
        pixels <= limit
    }
}

} // verus!
