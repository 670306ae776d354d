//! Late-bound resources of an encoding: gradient color stops, images,
//! glyph runs, and the patch list that defers their resolution.

use crate::draw::Color;
use crate::encoding::StreamOffsets;
use crate::math::{Transform, F32_BITS_NEG_ONE};
use vstd::prelude::*;

verus! {

/// How a gradient continues outside its stop range.
#[derive(Clone, Copy, PartialEq, Eq, Structural, Debug)]
pub enum Extend {
    /// Clamp to the edge color.
    Pad,
    /// Repeat the ramp.
    Repeat,
    /// Mirror the ramp.
    Reflect,
}

/// One gradient color stop: an offset in [0, 1] as a float bit pattern,
/// and a color.
#[derive(Clone, Copy, PartialEq, Eq, Structural, Debug)]
pub struct ColorStop {
    /// Bit pattern of the offset.
    pub offset: u32,
    /// Stop color.
    pub color: Color,
}

/// A positioned glyph.
#[derive(Clone, Copy, PartialEq, Eq, Structural, Debug)]
pub struct Glyph {
    /// Glyph identifier in the font.
    pub id: u32,
    /// Bit pattern of the x offset.
    pub x: u32,
    /// Bit pattern of the y offset.
    pub y: u32,
}

/// A font reference: an identifier the embedder resolves to font bytes,
/// and the index of the face within the font file.
#[derive(Clone, Copy, PartialEq, Eq, Structural, Debug)]
pub struct Font {
    /// Embedder-assigned identifier of the font data.
    pub id: u64,
    /// Face index within the font file.
    pub index: u32,
}

/// A fill or stroke style for a glyph run; the width is a float bit
/// pattern.
#[derive(Clone, Copy, PartialEq, Eq, Structural, Debug)]
pub enum Style {
    /// Fill with the non-zero or the even-odd rule.
    Fill {
        /// True for the even-odd rule.
        even_odd: bool,
    },
    /// Stroke with a width.
    Stroke {
        /// Bit pattern of the stroke width.
        width: u32,
    },
}

impl Style {
    /// The line-width sentinel this style encodes: `-1` for non-zero
    /// fills, `-2` for even-odd fills, the width itself for strokes.
    pub open spec fn spec_linewidth(self) -> u32 {
        match self {
            Style::Fill { even_odd } => if even_odd {
                crate::math::F32_BITS_NEG_TWO
            } else {
                F32_BITS_NEG_ONE
            },
            Style::Stroke { width } => width,
        }
    }
}

/// An image resource: an identifier the embedder resolves to pixel data,
/// plus the extent in pixels.
#[derive(Clone, Copy, PartialEq, Eq, Structural, Debug)]
pub struct Image {
    /// Embedder-assigned identifier of the pixel data.
    pub id: u64,
    /// Width in pixels.
    pub width: u32,
    /// Height in pixels.
    pub height: u32,
}

/// A sequence of glyphs sharing a font, transform and style. All index
/// ranges are relative to the owning encoding's resource tables.
#[derive(Clone, Copy, Debug)]
pub struct GlyphRun {
    /// The font.
    pub font: Font,
    /// Global run transform.
    pub transform: Transform,
    /// Optional per-glyph transform.
    pub glyph_transform: Option<Transform>,
    /// Bit pattern of the font size in pixels per em.
    pub font_size: u32,
    /// Whether hinting is requested.
    pub hint: bool,
    /// Start of the run's range in the normalized-coordinate table.
    pub normalized_coords_start: usize,
    /// End of the run's range in the normalized-coordinate table.
    pub normalized_coords_end: usize,
    /// Fill or stroke style.
    pub style: Style,
    /// Start of the run's range in the glyph table.
    pub glyphs_start: usize,
    /// End of the run's range in the glyph table.
    pub glyphs_end: usize,
    /// Lengths of the owning encoding's streams when the run was drawn.
    pub stream_offsets: StreamOffsets,
}

/// A deferred resource reference, recorded at the draw-data offset where
/// its resolution must later be patched in.
#[derive(Clone, Copy, Debug)]
pub enum Patch {
    /// A gradient ramp: a range of color stops and an extend mode.
    Ramp {
        /// Draw-data offset of the four bytes to patch.
        draw_data_offset: usize,
        /// Start of the stop range in the color-stop table.
        stops_start: usize,
        /// End of the stop range in the color-stop table.
        stops_end: usize,
        /// Extend mode.
        extend: Extend,
    },
    /// A glyph run, by index in the glyph-run table.
    GlyphRun {
        /// Index in the glyph-run table.
        index: usize,
    },
    /// An image.
    Image {
        /// The image resource.
        image: Image,
        /// Draw-data offset of the four bytes to patch.
        draw_data_offset: usize,
    },
}

/// Side tables of late-bound resources referenced by the patch list.
#[derive(Clone, Debug)]
pub struct Resources {
    /// Draw data patches for late bound resources.
    pub patches: Vec<Patch>,
    /// Color stop collection for gradients.
    pub color_stops: Vec<ColorStop>,
    /// Positioned glyph buffer.
    pub glyphs: Vec<Glyph>,
    /// Sequences of glyphs.
    pub glyph_runs: Vec<GlyphRun>,
    /// Normalized variation coordinates for variable fonts.
    pub normalized_coords: Vec<i16>,
}

impl Resources {
    /// Fresh, empty tables.
    pub fn new() -> (r: Resources)
        ensures
            r.patches@ =~= Seq::<Patch>::empty(),
            r.color_stops@ =~= Seq::<ColorStop>::empty(),
            r.glyphs@ =~= Seq::<Glyph>::empty(),
            r.glyph_runs@ =~= Seq::<GlyphRun>::empty(),
            r.normalized_coords@ =~= Seq::<i16>::empty(),
    {
        Resources {
            patches: Vec::new(),
            color_stops: Vec::new(),
            glyphs: Vec::new(),
            glyph_runs: Vec::new(),
            normalized_coords: Vec::new(),
        }
    }

    /// Clears every table.
    pub fn reset(&mut self)
        ensures
            final(self).patches@ =~= Seq::<Patch>::empty(),
            final(self).color_stops@ =~= Seq::<ColorStop>::empty(),
            final(self).glyphs@ =~= Seq::<Glyph>::empty(),
            final(self).glyph_runs@ =~= Seq::<GlyphRun>::empty(),
            final(self).normalized_coords@ =~= Seq::<i16>::empty(),
    {
        self.patches.clear();
        self.color_stops.clear();
        self.glyphs.clear();
        self.glyph_runs.clear();
        self.normalized_coords.clear();
    }
}

} // verus!
