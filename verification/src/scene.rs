//! The scene: the user-facing builder over an encoding. Geometry arrives
//! as path commands and scalars as float bit patterns; the callers that
//! own float arithmetic (shape flattening, alpha scaling, transform
//! composition) prepare those before calling in.

use crate::encoding::{
    encoding_wf, spec_encode_begin_clip, spec_encode_begin_pattern, spec_encode_brush,
    spec_encode_end_clip, spec_encode_end_pattern, spec_encode_linewidth, spec_encode_transform,
    Brush, Encoding, EncodingView,
};
use crate::compose::spec_append;
use crate::draw::DrawBeginClip;
use crate::glyphs::DrawGlyphs;
use crate::math::{PatternData, Transform, F32_BITS_NEG_ONE, F32_BITS_NEG_TWO, F32_EXACT_LIMIT};
use crate::path::PathCommand;
use crate::pathapi::spec_encode_shape;
use crate::resources::Font;
use vstd::prelude::*;

verus! {

/// A fill rule.
#[derive(Clone, Copy, PartialEq, Eq, Structural, Debug)]
pub enum Fill {
    /// The non-zero winding rule.
    NonZero,
    /// The even-odd rule.
    EvenOdd,
}

impl Fill {
    /// The line-width sentinel encoding this rule.
    pub open spec fn spec_linewidth(self) -> u32 {
        match self {
            Fill::NonZero => F32_BITS_NEG_ONE,
            Fill::EvenOdd => F32_BITS_NEG_TWO,
        }
    }
}

/// The commands of the canonical empty path, substituted when a shape
/// encodes no segments so that every draw object keeps exactly one
/// preceding path.
pub open spec fn spec_empty_path() -> Seq<PathCommand> {
    seq![
        PathCommand::MoveTo { x: 0, y: 0 },
        PathCommand::LineTo { x: 0, y: 0 },
        PathCommand::LineTo { x: 0, y: 0 },
        PathCommand::LineTo { x: 0, y: 0 },
        PathCommand::Close,
    ]
}

/// Builds the canonical empty path.
fn empty_path() -> (r: Vec<PathCommand>)
    ensures
        r@ == spec_empty_path(),
{
    let r = vec![
        PathCommand::MoveTo { x: 0, y: 0 },
        PathCommand::LineTo { x: 0, y: 0 },
        PathCommand::LineTo { x: 0, y: 0 },
        PathCommand::LineTo { x: 0, y: 0 },
        PathCommand::Close,
    ];
    proof {
        assert(r@ =~= spec_empty_path());
    }
    r
}

/// The effect of encoding a shape with the empty-path fallback.
pub open spec fn spec_shape_with_fallback(v: EncodingView, shape: Seq<PathCommand>, is_fill: bool) -> (
    EncodingView,
    bool,
) {
    let (v1, ok) = spec_encode_shape(v, shape, is_fill);
    if ok {
        (v1, true)
    } else {
        (spec_encode_shape(v1, spec_empty_path(), true).0, false)
    }
}

/// The effect of `fill` and the stroke operations after the line width
/// is written: the shape (with fallback), then for a valid shape the
/// optional pre-composed brush transform (whose tag swaps before the
/// path's terminator) and the brush.
pub open spec fn spec_shape_and_brush(
    v: EncodingView,
    shape: Seq<PathCommand>,
    is_fill: bool,
    brush: Brush,
    brush_transform: Option<Transform>,
) -> EncodingView {
    let (v1, ok) = spec_encode_shape(v, shape, is_fill);
    if ok {
        let v2 = match brush_transform {
            Some(bt) => {
                let (vt, pushed) = spec_encode_transform(v1, bt);
                if pushed {
                    EncodingView {
                        path_tags: vt.path_tags.update(
                            vt.path_tags.len() - 2,
                            vt.path_tags.last(),
                        ).update(vt.path_tags.len() - 1, vt.path_tags[vt.path_tags.len() - 2]),
                        ..vt
                    }
                } else {
                    vt
                }
            },
            None => v1,
        };
        spec_encode_brush(v2, brush)
    } else {
        v1
    }
}

/// Room the encoding must have before one drawing call: headroom in the
/// counters and the dash pool.
pub open spec fn scene_headroom(v: EncodingView, shape_len: nat) -> bool {
    &&& shape_len < 0xFFF_FFF0
    &&& v.n_path_segments + shape_len + 16 <= u32::MAX
    &&& v.n_paths + 4 < u32::MAX
    &&& v.dasharrays.len() + 16 < F32_EXACT_LIMIT
}

/// The pixel rectangle of an image, as path commands: from the origin
/// to the image's exact float extent.
pub open spec fn spec_image_rect(image: crate::resources::Image) -> Seq<PathCommand> {
    let w = crate::math::spec_f32_bits_of_small(image.width as nat) as u32;
    let h = crate::math::spec_f32_bits_of_small(image.height as nat) as u32;
    seq![
        PathCommand::MoveTo { x: 0, y: 0 },
        PathCommand::LineTo { x: w, y: 0 },
        PathCommand::LineTo { x: w, y: h },
        PathCommand::LineTo { x: 0, y: h },
        PathCommand::Close,
    ]
}

/// Encoded definition of a scene and associated resources.
#[derive(Clone, Debug)]
pub struct Scene {
    /// The underlying encoding.
    pub data: Encoding,
}

impl Scene {
    /// Creates a new scene, seeded with the default ambient state.
    pub fn new() -> (r: Scene)
        ensures
            r.data.view() == crate::encoding::spec_reset_encoding(false),
            encoding_wf(r.data.view()),
    {
        let mut data = Encoding::new();
        data.reset(false);
        Scene { data }
    }

    /// Clears the scene back to the seeded state.
    pub fn reset(&mut self)
        ensures
            final(self).data.view() == crate::encoding::spec_reset_encoding(false),
            encoding_wf(final(self).data.view()),
    {
        self.data.reset(false);
    }

    /// The raw encoded scene data streams.
    pub fn data(&self) -> (r: &Encoding)
        ensures
            r == &self.data,
    {
        &self.data
    }

    /// The underlying raw encoding.
    pub fn encoding(&self) -> (r: &Encoding)
        ensures
            r == &self.data,
    {
        &self.data
    }

    /// Brackets the start of a pattern region. The rotation inside
    /// `pattern` is already in radians, normalized to [0, 2*pi) by the
    /// caller that owns float arithmetic. Clips, supplementary paths and
    /// nested patterns are unsupported inside a pattern body by
    /// contract.
    pub fn push_pattern(&mut self, pattern: PatternData)
        requires
            old(self).data.view().n_patterns < u32::MAX,
            old(self).data.view().n_paths < u32::MAX,
        ensures
            final(self).data.view() == spec_encode_begin_pattern(old(self).data.view(), pattern),
            encoding_wf(old(self).data.view()) ==> encoding_wf(final(self).data.view()),
    {
        self.data.encode_begin_pattern(pattern);
    }

    /// Brackets the end of a pattern region.
    pub fn pop_pattern(&mut self)
        requires
            old(self).data.view().n_patterns < u32::MAX,
            old(self).data.view().n_paths < u32::MAX,
        ensures
            final(self).data.view() == spec_encode_end_pattern(old(self).data.view()),
            encoding_wf(old(self).data.view()) ==> encoding_wf(final(self).data.view()),
    {
        self.data.encode_end_pattern();
    }

    /// Pushes a layer bound by a shape, composed with the layers below
    /// through a packed filter color and an alpha (as a float bit
    /// pattern). An invalid shape encodes the canonical empty path,
    /// which suppresses drawing until the layer is popped.
    #[verifier::rlimit(30)]
    pub fn push_layer(
        &mut self,
        packed_filter_color: u32,
        alpha: u32,
        transform: Transform,
        shape: &Vec<PathCommand>,
    )
        requires
            scene_headroom(old(self).data.view(), shape@.len()),
            old(self).data.view().n_clips < u32::MAX,
            old(self).data.view().n_open_clips < u32::MAX,
        ensures
            final(self).data.view() == ({
                let (v1, _) = spec_encode_transform(old(self).data.view(), transform);
                let v2 = spec_encode_linewidth(v1, F32_BITS_NEG_ONE, Seq::empty());
                let (v3, _) = spec_shape_with_fallback(v2, shape@, true);
                spec_encode_begin_clip(
                    v3,
                    DrawBeginClip { blend: packed_filter_color, alpha },
                )
            }),
            encoding_wf(old(self).data.view()) ==> encoding_wf(final(self).data.view()),
    {
        self.data.encode_transform(transform);
        self.data.encode_linewidth(F32_BITS_NEG_ONE, None);
        if !self.data.encode_shape(shape, true) {
            let fallback = empty_path();
            self.data.encode_shape(&fallback, true);
        }
        self.data.encode_begin_clip_filter(packed_filter_color, alpha);
    }

    /// Pops the current layer; a no-op when none is open.
    pub fn pop_layer(&mut self)
        requires
            old(self).data.view().n_paths < u32::MAX,
            old(self).data.view().n_clips < u32::MAX,
        ensures
            final(self).data.view() == spec_encode_end_clip(old(self).data.view()),
            encoding_wf(old(self).data.view()) ==> encoding_wf(final(self).data.view()),
    {
        self.data.encode_end_clip();
    }

    /// Fills a shape with a brush. A brush transform, when given, is
    /// already composed with `transform` by the caller that owns float
    /// arithmetic; brush colors carry any alpha factor already applied.
    #[verifier::rlimit(30)]
    pub fn fill(
        &mut self,
        style: Fill,
        transform: Transform,
        brush: &Brush,
        brush_transform: Option<Transform>,
        shape: &Vec<PathCommand>,
    )
        requires
            scene_headroom(old(self).data.view(), shape@.len()),
            brush matches Brush::Image(img) ==> img.width < 0x1_0000,
        ensures
            final(self).data.view() == ({
                let (v1, _) = spec_encode_transform(old(self).data.view(), transform);
                let v2 = spec_encode_linewidth(v1, style.spec_linewidth(), Seq::empty());
                spec_shape_and_brush(v2, shape@, true, *brush, brush_transform)
            }),
            encoding_wf(old(self).data.view()) ==> encoding_wf(final(self).data.view()),
    {
        self.data.encode_transform(transform);
        let width = match style {
            Fill::NonZero => F32_BITS_NEG_ONE,
            Fill::EvenOdd => F32_BITS_NEG_TWO,
        };
        self.data.encode_linewidth(width, None);
        if self.data.encode_shape(shape, true) {
            match brush_transform {
                Some(bt) => {
                    if self.data.encode_transform(bt) {
                        self.data.swap_last_path_tags();
                    }
                },
                None => {},
            }
            self.data.encode_brush(brush);
        }
    }

    /// Strokes a shape with a brush; the width is a float bit pattern.
    #[verifier::rlimit(30)]
    pub fn stroke(
        &mut self,
        width: u32,
        transform: Transform,
        brush: &Brush,
        brush_transform: Option<Transform>,
        shape: &Vec<PathCommand>,
    )
        requires
            scene_headroom(old(self).data.view(), shape@.len()),
            brush matches Brush::Image(img) ==> img.width < 0x1_0000,
        ensures
            final(self).data.view() == ({
                let (v1, _) = spec_encode_transform(old(self).data.view(), transform);
                let v2 = spec_encode_linewidth(v1, width, Seq::empty());
                spec_shape_and_brush(v2, shape@, false, *brush, brush_transform)
            }),
            encoding_wf(old(self).data.view()) ==> encoding_wf(final(self).data.view()),
    {
        self.data.encode_transform(transform);
        self.data.encode_linewidth(width, None);
        if self.data.encode_shape(shape, false) {
            match brush_transform {
                Some(bt) => {
                    if self.data.encode_transform(bt) {
                        self.data.swap_last_path_tags();
                    }
                },
                None => {},
            }
            self.data.encode_brush(brush);
        }
    }

    /// Strokes a shape with a dash pattern: the plain width entry is
    /// written first, then a second entry referencing the dash array in
    /// the shared pool.
    #[verifier::rlimit(30)]
    pub fn stroke_dash(
        &mut self,
        width: u32,
        transform: Transform,
        brush: &Brush,
        brush_transform: Option<Transform>,
        shape: &Vec<PathCommand>,
        dash_array: Vec<u32>,
    )
        requires
            scene_headroom(old(self).data.view(), shape@.len()),
            old(self).data.view().dasharrays.len() + dash_array@.len() + 16 < F32_EXACT_LIMIT,
            brush matches Brush::Image(img) ==> img.width < 0x1_0000,
        ensures
            final(self).data.view() == ({
                let (v1, _) = spec_encode_transform(old(self).data.view(), transform);
                let v2 = spec_encode_linewidth(v1, width, Seq::empty());
                let v3 = spec_encode_linewidth(v2, width, dash_array@);
                spec_shape_and_brush(v3, shape@, false, *brush, brush_transform)
            }),
            encoding_wf(old(self).data.view()) ==> encoding_wf(final(self).data.view()),
    {
        self.data.encode_transform(transform);
        self.data.encode_linewidth(width, None);
        self.data.encode_linewidth(width, Some(dash_array));
        if self.data.encode_shape(shape, false) {
            match brush_transform {
                Some(bt) => {
                    if self.data.encode_transform(bt) {
                        self.data.swap_last_path_tags();
                    }
                },
                None => {},
            }
            self.data.encode_brush(brush);
        }
    }

    /// Draws an image at its natural size: a non-zero fill of the
    /// image's pixel rectangle with the image as the brush. The extent
    /// must be exactly representable as floats and fit the packed
    /// extent word.
    #[verifier::rlimit(30)]
    pub fn draw_image(&mut self, image: &crate::resources::Image, transform: Transform)
        requires
            scene_headroom(old(self).data.view(), 5),
            image.width < 0x1_0000,
            image.height < F32_EXACT_LIMIT,
        ensures
            final(self).data.view() == ({
                let (v1, _) = spec_encode_transform(old(self).data.view(), transform);
                let v2 = spec_encode_linewidth(v1, F32_BITS_NEG_ONE, Seq::empty());
                spec_shape_and_brush(
                    v2,
                    spec_image_rect(*image),
                    true,
                    Brush::Image(*image),
                    None,
                )
            }),
            encoding_wf(old(self).data.view()) ==> encoding_wf(final(self).data.view()),
    {
        let w = crate::math::f32_bits_of_small(image.width);
        let h = crate::math::f32_bits_of_small(image.height);
        let rect = vec![
            PathCommand::MoveTo { x: 0, y: 0 },
            PathCommand::LineTo { x: w, y: 0 },
            PathCommand::LineTo { x: w, y: h },
            PathCommand::LineTo { x: 0, y: h },
            PathCommand::Close,
        ];
        proof {
            assert(rect@ =~= spec_image_rect(*image));
        }
        self.fill(Fill::NonZero, transform, &Brush::Image(*image), None, &rect);
    }

    /// Returns a builder for a glyph run in the given font.
    pub fn draw_glyphs(&self, font: Font) -> (r: DrawGlyphs)
        ensures
            r.run.font == font,
    {
        let _ = self;
        DrawGlyphs::new(font)
    }

    /// Appends a fragment without a camera transform.
    pub fn append(&mut self, fragment: &Scene)
        requires
            encoding_wf(old(self).data.view()),
            encoding_wf(fragment.data.view()),
            old(self).data.view().n_paths + fragment.data.view().n_paths <= u32::MAX,
            old(self).data.view().n_path_segments + fragment.data.view().n_path_segments
                <= u32::MAX,
            old(self).data.view().n_clips + fragment.data.view().n_clips <= u32::MAX,
            old(self).data.view().n_patterns + fragment.data.view().n_patterns <= u32::MAX,
            old(self).data.view().n_open_clips + fragment.data.view().n_open_clips <= u32::MAX,
        ensures
            final(self).data.view() == spec_append(
                old(self).data.view(),
                fragment.data.view(),
                None,
                Seq::empty(),
                Seq::empty(),
            ),
            encoding_wf(final(self).data.view()),
    {
        self.data.append(&fragment.data);
    }

    /// Appends a fragment under a camera transform; the caller supplies
    /// the pre-multiplied transform and glyph-run streams, as the
    /// encoding's transformed append asks.
    pub fn append_with_transform(
        &mut self,
        fragment: &Scene,
        transform: Transform,
        mapped: &Vec<Transform>,
        mapped_runs: &Vec<Transform>,
    )
        requires
            encoding_wf(old(self).data.view()),
            encoding_wf(fragment.data.view()),
            mapped@.len() == fragment.data.view().transforms.len(),
            mapped_runs@.len() == fragment.data.view().glyph_runs.len(),
            old(self).data.view().n_paths + fragment.data.view().n_paths <= u32::MAX,
            old(self).data.view().n_path_segments + fragment.data.view().n_path_segments
                <= u32::MAX,
            old(self).data.view().n_clips + fragment.data.view().n_clips <= u32::MAX,
            old(self).data.view().n_patterns + fragment.data.view().n_patterns <= u32::MAX,
            old(self).data.view().n_open_clips + fragment.data.view().n_open_clips <= u32::MAX,
        ensures
            final(self).data.view() == spec_append(
                old(self).data.view(),
                fragment.data.view(),
                Some(transform),
                mapped@,
                mapped_runs@,
            ),
            encoding_wf(final(self).data.view()),
    {
        self.data.append_with_transform(&fragment.data, transform, mapped, mapped_runs);
    }
}

} // verus!
