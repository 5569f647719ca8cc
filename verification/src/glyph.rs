//! What the text shaper reports of a glyph, in the form the renderer
//! works with.

use vstd::prelude::*;

verus! {

/// Where the shaper places a glyph: how far to advance after it and how
/// far to shift it, in 64ths of a pixel.
#[derive(Debug, Clone, Copy, PartialEq, Eq, Structural)]
pub struct GlyphPosition {
    pub x_advance: i32,
    pub y_advance: i32,
    pub x_offset: i32,
    pub y_offset: i32,
}

/// A shaped glyph: which glyph of which font to draw for a cluster of the
/// text, over how many cells, and where, in whole pixels.
#[derive(Debug, Clone, Copy, PartialEq, Eq, Structural)]
pub struct GlyphInfo {
    pub num_cells: u8,
    pub font_idx: usize,
    pub glyph_pos: u32,
    pub cluster: u32,
    pub x_advance: i32,
    pub y_advance: i32,
    pub x_offset: i32,
    pub y_offset: i32,
}

/// The number of columns that `text` takes on a display, by the width
/// rules of the Unicode standard, with ambiguous characters narrow.
pub uninterp spec fn display_width(text: Seq<char>) -> nat;

/// Calls `unicode_width::UnicodeWidthStr::width`: the result is the
/// displayed width of `text` in columns.
#[verifier::external_body]
pub(crate) fn str_width(text: &str) -> (width: usize)
    ensures
        width == display_width(text@),
{
    unicode_width::UnicodeWidthStr::width(text)
}

/// The whole pixels in `v` 64ths of a pixel: the fraction is dropped,
/// towards zero.
pub open spec fn whole_pixels(v: int) -> int {
    if v >= 0 {
        v / 64
    } else {
        -((-v) / 64)
    }
}

impl GlyphInfo {
    /// The glyph `codepoint` of the font `font_idx` for the cluster
    /// `cluster`, which is `width` columns wide and placed at `pos`. The
    /// number of cells is the low eight bits of the width.
    pub open spec fn of(
        width: usize,
        font_idx: usize,
        codepoint: u32,
        cluster: u32,
        pos: GlyphPosition,
    ) -> GlyphInfo {
        GlyphInfo {
            num_cells: width as u8,
            font_idx,
            glyph_pos: codepoint,
            cluster,
            x_advance: whole_pixels(pos.x_advance as int) as i32,
            y_advance: whole_pixels(pos.y_advance as int) as i32,
            x_offset: whole_pixels(pos.x_offset as int) as i32,
            y_offset: whole_pixels(pos.y_offset as int) as i32,
        }
    }

    /// The glyph for a cluster whose text is `width` columns wide.
    pub fn with_width(
        width: usize,
        font_idx: usize,
        codepoint: u32,
        cluster: u32,
        pos: &GlyphPosition,
    ) -> (info: GlyphInfo)
        ensures
            info == GlyphInfo::of(width, font_idx, codepoint, cluster, *pos),
    {
        GlyphInfo {
            num_cells: #[verifier::truncate]
            (width as u8),
            font_idx,
            glyph_pos: codepoint,
            cluster,
            x_advance: pos.x_advance / 64,
            y_advance: pos.y_advance / 64,
            x_offset: pos.x_offset / 64,
            y_offset: pos.y_offset / 64,
        }
    }

    /// The glyph for the cluster with the text `text`.
    pub fn new(text: &str, font_idx: usize, codepoint: u32, cluster: u32, pos: &GlyphPosition) -> (info:
        GlyphInfo)
        ensures
            info == GlyphInfo::of(
                display_width(text@) as usize,
                font_idx,
                codepoint,
                cluster,
                *pos,
            ),
    {
        GlyphInfo::with_width(str_width(text), font_idx, codepoint, cluster, pos)
    }
}

} // verus!
