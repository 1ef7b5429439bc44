//! What the renderer keys and draws by, in integers: glyph atlas keys, coverage
//! bitmaps, and the xterm 256-color table.

use vstd::prelude::*;

use crate::vt::attrs::{Attrs, Color, Flags};

verus! {

/// Identifies a rasterized glyph. Size is quantised to 1/64 px so that a font size
/// expressed as a float does not produce a new atlas entry per redraw.
#[derive(Clone, Copy, PartialEq, Eq, Hash, Debug, Structural)]
pub struct GlyphKey {
    pub face_index: usize,
    pub glyph_id: u16,
    /// Font size in 1/64 px, quantised.
    size: u32,
}

impl GlyphKey {
    pub closed spec fn spec_face_index(&self) -> usize {
        self.face_index
    }

    pub closed spec fn spec_glyph_id(&self) -> u16 {
        self.glyph_id
    }

    pub closed spec fn spec_size(&self) -> u32 {
        self.size
    }

    /// The key of glyph `glyph_id` of face `face_index` at `size` 1/64 px.
    #[must_use]
    pub fn with_size(face_index: usize, glyph_id: u16, size: u32) -> (k: Self)
        ensures
            k.spec_face_index() == face_index,
            k.spec_glyph_id() == glyph_id,
            k.spec_size() == size,
    {
        GlyphKey { face_index, glyph_id, size }
    }

    /// The font size, in 1/64 px.
    #[must_use]
    pub fn size(&self) -> (s: u32)
        ensures
            s == self.spec_size(),
    {
        self.size
    }
}

/// An 8-bit coverage bitmap and where it sits relative to the pen.
#[derive(Clone, PartialEq, Eq, Debug)]
pub struct GlyphBitmap {
    pub width: u32,
    pub height: u32,
    /// Offset from the pen to the left edge of the bitmap.
    pub left: i32,
    /// Offset from the baseline up to the top edge of the bitmap.
    pub top: i32,
    /// One byte of coverage per pixel, row-major.
    pub coverage: Vec<u8>,
}

impl GlyphBitmap {
    /// Whitespace rasterizes to nothing. There is no point storing it in an atlas.
    #[must_use]
    pub fn is_empty(&self) -> (b: bool)
        ensures
            b == (self.width == 0 || self.height == 0),
    {
        self.width == 0 || self.height == 0
    }
}

/// What a 256-color palette index stands for: one of the sixteen ANSI slots, which
/// the theme decides, or a fixed color.
#[derive(Clone, Copy, PartialEq, Eq, Debug, Structural)]
pub enum IndexedColor {
    Ansi(u8),
    Rgb(u8, u8, u8),
}

/// A coordinate of the xterm color cube as a channel value: 0, then 95 to 255 in
/// steps of 40.
pub open spec fn cube_level(i: int) -> u8 {
    if i == 0 {
        0
    } else {
        (55 + 40 * i) as u8
    }
}

/// The xterm 256-color table: the first 16 are the ANSI slots, then a 6x6x6 color
/// cube, then 24 grays from 8 in steps of 10.
pub open spec fn spec_indexed_color(index: u8) -> IndexedColor {
    if index < 16 {
        IndexedColor::Ansi(index)
    } else if index < 232 {
        let i = index - 16;
        IndexedColor::Rgb(cube_level(i / 36), cube_level((i % 36) / 6), cube_level(i % 6))
    } else {
        let level = (8 + (index - 232) * 10) as u8;
        IndexedColor::Rgb(level, level, level)
    }
}

fn level(i: u8) -> (l: u8)
    requires
        i < 6,
    ensures
        l == cube_level(i as int),
{
    if i == 0 {
        0
    } else {
        55 + 40 * i
    }
}

/// The color a 256-color palette index stands for.
#[must_use]
pub fn indexed_color(index: u8) -> (c: IndexedColor)
    ensures
        c == spec_indexed_color(index),
{
    if index < 16 {
        IndexedColor::Ansi(index)
    } else if index < 232 {
        let i = index - 16;
        IndexedColor::Rgb(level(i / 36), level((i % 36) / 6), level(i % 6))
    } else {
        let gray = 8 + (index - 232) * 10;
        IndexedColor::Rgb(gray, gray, gray)
    }
}

/// A cell color together with the slot whose default it falls back to.
#[derive(Clone, Copy, PartialEq, Eq, Debug, Structural)]
pub enum Paint {
    /// A color written for the foreground: `Default` means the default foreground.
    Foreground(Color),
    /// A color written for the background: `Default` means the default background.
    Background(Color),
}

/// What a cell draws with: its glyph's paint, its background's paint, and whether
/// the glyph is dimmed.
#[derive(Clone, Copy, PartialEq, Eq, Debug, Structural)]
pub struct CellPaint {
    pub fg: Paint,
    pub bg: Paint,
    pub dim: bool,
}

/// The paints a rendition draws with. Reverse swaps the two, defaults included, so a
/// reversed cell paints the default foreground behind its glyph. Hidden draws the
/// glyph in the background's paint, undimmed; otherwise dim dims the glyph.
pub open spec fn spec_cell_paint(attrs: Attrs) -> CellPaint {
    let reverse = attrs.flags.has(Flags::REVERSE);
    let fg = if reverse { Paint::Background(attrs.bg) } else { Paint::Foreground(attrs.fg) };
    let bg = if reverse { Paint::Foreground(attrs.fg) } else { Paint::Background(attrs.bg) };
    if attrs.flags.has(Flags::HIDDEN) {
        CellPaint { fg: bg, bg, dim: false }
    } else {
        CellPaint { fg, bg, dim: attrs.flags.has(Flags::DIM) }
    }
}

/// The paints a cell with rendition `attrs` draws with.
#[must_use]
pub fn cell_paint(attrs: Attrs) -> (p: CellPaint)
    ensures
        p == spec_cell_paint(attrs),
{
    let reverse = attrs.flags.contains(Flags::REVERSE);
    let fg = if reverse { Paint::Background(attrs.bg) } else { Paint::Foreground(attrs.fg) };
    let bg = if reverse { Paint::Foreground(attrs.fg) } else { Paint::Background(attrs.bg) };
    if attrs.flags.contains(Flags::HIDDEN) {
        CellPaint { fg: bg, bg, dim: false }
    } else {
        CellPaint { fg, bg, dim: attrs.flags.contains(Flags::DIM) }
    }
}

} // verus!
