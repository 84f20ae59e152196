//! The parts of text drawing that are decided on whole numbers: which font
//! an index names, and what pixel a glyph's coverage becomes.

use vstd::prelude::*;
use crate::words::{RColor, Vec2, WORD_ONE, WORD_ZERO};

verus! {

/// The word of 18.0, the size text is drawn at unless told otherwise.
pub const WORD_EIGHTEEN: u32 = 0x4190_0000;

/// The word of 2.0, the gap between glyphs unless told otherwise.
pub const WORD_TWO: u32 = 0x4000_0000;

/// One string to draw on the overlay, and where and how.
#[derive(Debug)]
pub struct StringPlacement {
    pub string: String,
    pub size: u32,
    pub color: RColor,
    pub base_point: Vec2,
    pub spacing: u32,
}

impl Default for StringPlacement {
    fn default() -> (p: Self)
        ensures
            p.string@.len() == 0,
            p.size == WORD_EIGHTEEN,
            p.color == (RColor { r: WORD_ONE, g: WORD_ONE, b: WORD_ONE, a: WORD_ONE }),
            p.base_point == (Vec2 { x: WORD_ZERO, y: WORD_ZERO }),
            p.spacing == WORD_TWO,
    {
        StringPlacement {
            string: String::new(),
            size: WORD_EIGHTEEN,
            color: RColor::white(),
            base_point: Vec2::zero(),
            spacing: WORD_TWO,
        }
    }
}

/// Why a piece of text could not be drawn.
#[derive(Debug, Clone, Copy, PartialEq, Eq, Structural)]
pub enum TextError {
    FileNotFound,
    FileLoadError,
    GlyphOutlineError,
    ExceedsBounds,
}

/// Coverage below this is drawn as nothing at all.
pub const MIN_COVERAGE: u8 = 10;

/// The font that an index names: the font at that position where the cache
/// has one, else the first font.
pub open spec fn spec_resolve_font(font_count: usize, font_idx: usize) -> usize {
    if font_count <= font_idx {
        0
    } else {
        font_idx
    }
}

/// The font that an index names, falling back to the first font.
pub fn resolve_font(font_count: usize, font_idx: usize) -> (idx: usize)
    ensures
        idx == spec_resolve_font(font_count, font_idx),
        font_count > 0 ==> idx < font_count,
{
    if font_count <= font_idx {
        0
    } else {
        font_idx
    }
}

/// The pixel of a cached glyph for one coverage value: the glyph's color
/// with the coverage as alpha, or a fully transparent pixel where the
/// coverage is too faint to show.
pub open spec fn spec_glyph_pixel(color: Seq<u8>, coverage: u8) -> Seq<u8> {
    if coverage < MIN_COVERAGE {
        seq![0u8, 0u8, 0u8, 0u8]
    } else {
        seq![color[0], color[1], color[2], coverage]
    }
}

/// The pixel of a cached glyph for one coverage value.
pub fn glyph_pixel(color: [u8; 3], coverage: u8) -> (pixel: [u8; 4])
    ensures
        pixel@ == spec_glyph_pixel(color@, coverage),
{
    let pixel = if coverage < MIN_COVERAGE {
        [0u8, 0u8, 0u8, 0u8]
    } else {
        [color[0], color[1], color[2], coverage]
    };
    assert(pixel@ =~= spec_glyph_pixel(color@, coverage));
    pixel
}

/// Where the pixel at column `x`, row `y` starts in a buffer of four bytes
/// per pixel and `width` pixels per row.
pub open spec fn spec_pixel_start(x: i32, y: i32, width: u32) -> int {
    (y * width + x) * 4
}

/// Where a pixel starts in a pixel buffer whose rows are `width` pixels
/// wide. A pixel that lies outside the buffer, wholly or in part, exceeds
/// the bounds.
pub fn pixel_offset(x: i32, y: i32, width: u32, buffer_len: usize) -> (at: Result<usize, TextError>)
    ensures
        at.is_ok() == (0 <= spec_pixel_start(x, y, width) && spec_pixel_start(x, y, width) + 3
            < buffer_len),
        at.is_ok() ==> at.unwrap() == spec_pixel_start(x, y, width),
        at.is_err() ==> at.unwrap_err() == TextError::ExceedsBounds,
{
    assert(-0x8000_0000 * 0xFFFF_FFFF <= y * width <= 0x7FFF_FFFF * 0xFFFF_FFFF)
        by (nonlinear_arith)
        requires
            -0x8000_0000 <= y <= 0x7FFF_FFFF,
            0 <= width <= 0xFFFF_FFFF,
    ;
    let row: i128 = y as i128 * width as i128;
    let start: i128 = (row + x as i128) * 4;
    if 0 <= start && start + 3 < buffer_len as i128 {
        Ok(start as usize)
    } else {
        Err(TextError::ExceedsBounds)
    }
}

/// Bytes in a pixel buffer of the given size, four per pixel.
pub fn pixel_buffer_len(width: u32, height: u32) -> (len: u64)
    requires
        width * height * 4 <= u64::MAX,
    ensures
        len == width * height * 4,
{
    assert(width * height <= 0xFFFF_FFFF * 0xFFFF_FFFF) by (nonlinear_arith)
        requires
            0 <= width <= 0xFFFF_FFFF,
            0 <= height <= 0xFFFF_FFFF,
    ;
    (width as u64) * (height as u64) * 4
}

} // verus!
