//! Building a glyph run: a builder collects the run's parameters, and
//! `draw` registers the run, its glyphs and its brush in an encoding.

use crate::draw::Color;
use crate::encoding::{
    encoding_wf, offsets_within, patch_wf, run_wf, spec_encode_brush, Brush, Encoding,
    EncodingView,
};
use crate::bytes::extend_copy;
use crate::math::Transform;
use crate::resources::{Font, Glyph, GlyphRun, Patch, Style};
use vstd::prelude::*;

verus! {

/// Bit pattern of `16.0f32`, the default font size.
pub const F32_BITS_SIXTEEN: u32 = 0x4180_0000;

/// Builder for encoding a glyph run. Any alpha factor on the brush is
/// already folded into its colors by the caller that owns float
/// arithmetic.
#[derive(Clone, Debug)]
pub struct DrawGlyphs {
    /// The run under construction.
    pub run: GlyphRun,
    /// The brush glyphs are drawn with.
    pub brush: Brush,
    /// Normalized variation coordinates, staged until `draw`.
    pub coords: Vec<i16>,
}

impl DrawGlyphs {
    /// A builder for the given font, with the identity transform, a
    /// 16-pixel font size, no hinting, a non-zero fill and a solid
    /// opaque black brush.
    pub fn new(font: Font) -> (r: DrawGlyphs)
        ensures
            r.run.font == font,
            r.run.transform == Transform::spec_identity(),
            r.run.glyph_transform is None,
            r.run.font_size == F32_BITS_SIXTEEN,
            r.run.hint == false,
            r.run.style == (Style::Fill { even_odd: false }),
            r.brush == Brush::Solid(Color { r: 0, g: 0, b: 0, a: 255 }),
            r.coords@ == Seq::<i16>::empty(),
    {
        let r = DrawGlyphs {
            run: GlyphRun {
                font,
                transform: Transform::identity(),
                glyph_transform: None,
                font_size: F32_BITS_SIXTEEN,
                hint: false,
                normalized_coords_start: 0,
                normalized_coords_end: 0,
                style: Style::Fill { even_odd: false },
                glyphs_start: 0,
                glyphs_end: 0,
                stream_offsets: crate::encoding::StreamOffsets {
                    path_tags: 0,
                    path_data: 0,
                    draw_tags: 0,
                    draw_data: 0,
                    transforms: 0,
                    linewidths: 0,
                    dasharrays: 0,
                    patterns: 0,
                },
            },
            brush: Brush::Solid(Color { r: 0, g: 0, b: 0, a: 255 }),
            coords: Vec::new(),
        };
        proof {
            assert(r.coords@ =~= Seq::<i16>::empty());
        }
        r
    }

    /// Sets the global run transform.
    pub fn transform(self, transform: Transform) -> (r: DrawGlyphs)
        ensures
            r == (DrawGlyphs { run: GlyphRun { transform, ..self.run }, ..self }),
    {
        DrawGlyphs { run: GlyphRun { transform, ..self.run }, ..self }
    }

    /// Sets the per-glyph transform, commonly a shear for oblique text.
    pub fn glyph_transform(self, transform: Option<Transform>) -> (r: DrawGlyphs)
        ensures
            r == (DrawGlyphs { run: GlyphRun { glyph_transform: transform, ..self.run }, ..self }),
    {
        DrawGlyphs { run: GlyphRun { glyph_transform: transform, ..self.run }, ..self }
    }

    /// Sets the font size in pixels per em, as a float bit pattern.
    pub fn font_size(self, size: u32) -> (r: DrawGlyphs)
        ensures
            r == (DrawGlyphs { run: GlyphRun { font_size: size, ..self.run }, ..self }),
    {
        DrawGlyphs { run: GlyphRun { font_size: size, ..self.run }, ..self }
    }

    /// Sets whether to enable hinting.
    pub fn hint(self, hint: bool) -> (r: DrawGlyphs)
        ensures
            r == (DrawGlyphs { run: GlyphRun { hint, ..self.run }, ..self }),
    {
        DrawGlyphs { run: GlyphRun { hint, ..self.run }, ..self }
    }

    /// Sets the normalized design-space coordinates for a variable font
    /// instance.
    pub fn normalized_coords(self, coords: &Vec<i16>) -> (r: DrawGlyphs)
        ensures
            r.coords@ == coords@,
            r.run == self.run,
            r.brush == self.brush,
    {
        let mut staged: Vec<i16> = Vec::new();
        extend_copy(&mut staged, coords);
        proof {
            assert(staged@ =~= coords@);
        }
        DrawGlyphs { coords: staged, ..self }
    }

    /// Sets the brush.
    pub fn brush(self, brush: Brush) -> (r: DrawGlyphs)
        ensures
            r.brush == brush,
            r.run == self.run,
            r.coords == self.coords,
    {
        DrawGlyphs { brush, ..self }
    }

    /// Registers the run with the given style and glyphs and encodes its
    /// brush, consuming the builder. An empty glyph list leaves the
    /// encoding unchanged.
    pub fn draw(self, encoding: &mut Encoding, style: Style, glyphs: &Vec<Glyph>)
        requires
            self.brush matches Brush::Image(img) ==> img.width < 0x1_0000,
            old(encoding).view().normalized_coords.len() + self.coords@.len() <= usize::MAX,
            old(encoding).view().glyphs.len() + glyphs@.len() <= usize::MAX,
        ensures
            final(encoding).view() == spec_draw_glyph_run(
                old(encoding).view(),
                self.run,
                self.coords@,
                self.brush,
                style,
                glyphs@,
            ),
            encoding_wf(old(encoding).view()) ==> encoding_wf(final(encoding).view()),
    {
        if glyphs.len() == 0 {
            return;
        }
        let ghost v = old(encoding).view();
        let coords_start = encoding.resources.normalized_coords.len();
        extend_copy(&mut encoding.resources.normalized_coords, &self.coords);
        let coords_end = encoding.resources.normalized_coords.len();
        let glyphs_start = encoding.resources.glyphs.len();
        extend_copy(&mut encoding.resources.glyphs, glyphs);
        let glyphs_end = encoding.resources.glyphs.len();
        let offsets = encoding.stream_offsets();
        let run = GlyphRun {
            normalized_coords_start: coords_start,
            normalized_coords_end: coords_end,
            glyphs_start,
            glyphs_end,
            style,
            stream_offsets: offsets,
            ..self.run
        };
        let index = encoding.resources.glyph_runs.len();
        encoding.resources.glyph_runs.push(run);
        encoding.resources.patches.push(Patch::GlyphRun { index });
        let ghost mid = encoding.view();
        proof {
            if encoding_wf(v) {
                assert forall|i: int| 0 <= i < mid.patches.len() implies patch_wf(
                    #[trigger] mid.patches[i],
                    mid.draw_data.len(),
                    mid.color_stops.len(),
                    mid.glyph_runs.len(),
                ) by {
                    if i < v.patches.len() {
                        assert(patch_wf(
                            v.patches[i],
                            v.draw_data.len(),
                            v.color_stops.len(),
                            v.glyph_runs.len(),
                        ));
                    }
                }
                assert forall|i: int| 0 <= i < mid.glyph_runs.len() implies run_wf(
                    #[trigger] mid.glyph_runs[i],
                    mid.glyphs.len(),
                    mid.normalized_coords.len(),
                ) by {
                    if i < v.glyph_runs.len() {
                        assert(run_wf(v.glyph_runs[i], v.glyphs.len(), v.normalized_coords.len()));
                    }
                }
                assert forall|i: int| 0 <= i < mid.glyph_runs.len() implies offsets_within(
                    (#[trigger] mid.glyph_runs[i]).stream_offsets,
                    mid,
                ) by {
                    if i < v.glyph_runs.len() {
                        assert(offsets_within(v.glyph_runs[i].stream_offsets, v));
                    }
                }
                assert(encoding_wf(mid));
            }
        }
        encoding.encode_brush(&self.brush);
        proof {
            assert(encoding.view() =~= spec_draw_glyph_run(
                v,
                self.run,
                self.coords@,
                self.brush,
                style,
                glyphs@,
            ));
        }
    }
}

/// The effect of `draw`: with a non-empty glyph list, the coordinates
/// and glyphs join the tables, the run is registered with ranges
/// covering exactly them and the current stream snapshot, a glyph-run
/// patch points at it, and the brush is encoded.
pub open spec fn spec_draw_glyph_run(
    v: EncodingView,
    run: GlyphRun,
    coords: Seq<i16>,
    brush: Brush,
    style: Style,
    glyphs: Seq<Glyph>,
) -> EncodingView {
    if glyphs.len() == 0 {
        v
    } else {
        let run2 = GlyphRun {
            normalized_coords_start: v.normalized_coords.len() as usize,
            normalized_coords_end: (v.normalized_coords.len() + coords.len()) as usize,
            glyphs_start: v.glyphs.len() as usize,
            glyphs_end: (v.glyphs.len() + glyphs.len()) as usize,
            style,
            stream_offsets: v.spec_stream_offsets(),
            ..run
        };
        let v1 = EncodingView {
            normalized_coords: v.normalized_coords + coords,
            glyphs: v.glyphs + glyphs,
            glyph_runs: v.glyph_runs.push(run2),
            patches: v.patches.push(Patch::GlyphRun { index: v.glyph_runs.len() as usize }),
            ..v
        };
        spec_encode_brush(v1, brush)
    }
}

} // verus!
