//! The scene encoding: an incremental, appendable builder of the byte
//! and tag streams that describe a vector scene, together with its
//! late-bound resource tables.

use crate::bytes::{extend_copy, push_u32_le};
use crate::draw::{
    push_linear_gradient, push_radial_gradient, BlendMode, Color, DrawBeginClip, DrawColor,
    DrawImage, DrawLinearGradient, DrawRadialGradient, DrawTag, DRAW_TAG_BEGIN_CLIP,
    DRAW_TAG_BEGIN_PATTERN, DRAW_TAG_COLOR, DRAW_TAG_END_CLIP, DRAW_TAG_END_PATTERN,
    DRAW_TAG_IMAGE, DRAW_TAG_LINEAR_GRADIENT, DRAW_TAG_RADIAL_GRADIENT,
};
use crate::math::{spec_f32_bits_of_small, f32_bits_of_small, PatternData, Transform,
    F32_BITS_NEG_ONE, F32_EXACT_LIMIT};
use crate::path::{PathTag, PATH_TAG_LINEWIDTH, PATH_TAG_PATH, PATH_TAG_TRANSFORM};
use crate::resources::{ColorStop, Extend, Glyph, GlyphRun, Image, Patch, Resources};
use vstd::prelude::*;

verus! {

/// Transform-state value of entries that compose with an ambient camera
/// transform on composition.
pub const TRANSFORM_STATE_DEFAULT: u8 = 0x0;

/// Transform-state value of entries that ignore the camera transform and
/// render in screen space.
pub const TRANSFORM_STATE_IGNORED: u8 = 0x1;

/// Whether a transform entry composes with an externally supplied camera
/// transform when its encoding is appended into a parent.
#[derive(Clone, Copy, PartialEq, Eq, Structural, Debug)]
pub struct TransformState(pub u8);

/// A linear (unpremultiplied) color with each channel as a 32-bit float
/// bit pattern.
#[derive(Clone, Copy, PartialEq, Eq, Structural, Debug)]
pub struct LinearColor {
    /// Bit pattern of the red channel.
    pub r: u32,
    /// Bit pattern of the green channel.
    pub g: u32,
    /// Bit pattern of the blue channel.
    pub b: u32,
    /// Bit pattern of the alpha channel.
    pub a: u32,
}

impl LinearColor {
    /// A color from four channel bit patterns.
    pub fn new(r: u32, g: u32, b: u32, a: u32) -> (c: LinearColor)
        ensures
            c == (LinearColor { r, g, b, a }),
    {
        LinearColor { r, g, b, a }
    }
}

impl Default for LinearColor {
    /// Opaque white: every channel is 1.0.
    fn default() -> (c: Self)
        ensures
            c == (LinearColor {
                r: crate::math::F32_BITS_ONE,
                g: crate::math::F32_BITS_ONE,
                b: crate::math::F32_BITS_ONE,
                a: crate::math::F32_BITS_ONE,
            }),
    {
        LinearColor {
            r: crate::math::F32_BITS_ONE,
            g: crate::math::F32_BITS_ONE,
            b: crate::math::F32_BITS_ONE,
            a: crate::math::F32_BITS_ONE,
        }
    }
}

/// Snapshot of the length of every stream; used to report incremental
/// work and to rebase offsets when one encoding is spliced into another.
#[derive(Clone, Copy, PartialEq, Eq, Structural, Debug)]
pub struct StreamOffsets {
    /// Length of the path tag stream.
    pub path_tags: usize,
    /// Length of the path data stream.
    pub path_data: usize,
    /// Length of the draw tag stream.
    pub draw_tags: usize,
    /// Length of the draw data stream.
    pub draw_data: usize,
    /// Length of the transform stream.
    pub transforms: usize,
    /// Length of the line-width stream.
    pub linewidths: usize,
    /// Length of the dash-array stream.
    pub dasharrays: usize,
    /// Length of the pattern stream.
    pub patterns: usize,
}

/// Field-wise sum of two snapshots.
pub open spec fn spec_offsets_add(a: StreamOffsets, b: StreamOffsets) -> StreamOffsets {
    StreamOffsets {
        path_tags: (a.path_tags + b.path_tags) as usize,
        path_data: (a.path_data + b.path_data) as usize,
        draw_tags: (a.draw_tags + b.draw_tags) as usize,
        draw_data: (a.draw_data + b.draw_data) as usize,
        transforms: (a.transforms + b.transforms) as usize,
        linewidths: (a.linewidths + b.linewidths) as usize,
        dasharrays: (a.dasharrays + b.dasharrays) as usize,
        patterns: (a.patterns + b.patterns) as usize,
    }
}

impl StreamOffsets {
    /// Adds another snapshot onto this one, field by field.
    pub fn add(&mut self, other: &StreamOffsets)
        requires
            old(self).path_tags + other.path_tags <= usize::MAX,
            old(self).path_data + other.path_data <= usize::MAX,
            old(self).draw_tags + other.draw_tags <= usize::MAX,
            old(self).draw_data + other.draw_data <= usize::MAX,
            old(self).transforms + other.transforms <= usize::MAX,
            old(self).linewidths + other.linewidths <= usize::MAX,
            old(self).dasharrays + other.dasharrays <= usize::MAX,
            old(self).patterns + other.patterns <= usize::MAX,
        ensures
            *final(self) == spec_offsets_add(*old(self), *other),
    {
        self.path_tags = self.path_tags + other.path_tags;
        self.path_data = self.path_data + other.path_data;
        self.draw_tags = self.draw_tags + other.draw_tags;
        self.draw_data = self.draw_data + other.draw_data;
        self.transforms = self.transforms + other.transforms;
        self.linewidths = self.linewidths + other.linewidths;
        self.dasharrays = self.dasharrays + other.dasharrays;
        self.patterns = self.patterns + other.patterns;
    }
}

/// Result of registering a gradient's color stops.
#[derive(Clone, Copy, PartialEq, Eq, Structural, Debug)]
pub enum RampStops {
    /// The stop sequence was empty; the gradient degrades to transparent.
    Empty,
    /// A single stop; the gradient degrades to that solid color.
    One(Color),
    /// Two or more stops; a ramp patch was registered.
    Many,
}

/// A brush. Gradient stops arrive with any alpha factor already applied
/// to their colors; the callers that own float arithmetic do that before
/// encoding.
#[derive(Clone, Debug)]
pub enum Brush {
    /// A solid color.
    Solid(Color),
    /// A linear gradient.
    LinearGradient {
        /// The gradient payload; its ramp index is patched at resolution.
        gradient: DrawLinearGradient,
        /// Color stops.
        stops: Vec<ColorStop>,
        /// Extend mode.
        extend: Extend,
    },
    /// A radial gradient.
    RadialGradient {
        /// The gradient payload; its ramp index is patched at resolution.
        gradient: DrawRadialGradient,
        /// Color stops.
        stops: Vec<ColorStop>,
        /// Extend mode.
        extend: Extend,
        /// Whether the two radii differ by less than 2^-12; the caller
        /// computes this where float arithmetic lives.
        radii_nearly_equal: bool,
    },
    /// An image.
    Image(Image),
}

/// The value of an `Encoding`, as spec data.
#[verifier::ext_equal]
pub struct EncodingView {
    /// Path tag stream.
    pub path_tags: Seq<PathTag>,
    /// Path data stream.
    pub path_data: Seq<u8>,
    /// Draw tag stream.
    pub draw_tags: Seq<DrawTag>,
    /// Draw data stream.
    pub draw_data: Seq<u8>,
    /// Transform stream.
    pub transforms: Seq<Transform>,
    /// Line-width stream (float bit patterns).
    pub linewidths: Seq<u32>,
    /// Dash-array stream (float bit patterns).
    pub dasharrays: Seq<u32>,
    /// Ambient transform state for the next transform entries.
    pub transform_state: TransformState,
    /// Per-transform-entry state stream.
    pub states: Seq<TransformState>,
    /// Pattern parameter stream.
    pub pattern_data: Seq<PatternData>,
    /// Patch list.
    pub patches: Seq<Patch>,
    /// Color stop table.
    pub color_stops: Seq<ColorStop>,
    /// Glyph table.
    pub glyphs: Seq<Glyph>,
    /// Glyph-run table.
    pub glyph_runs: Seq<GlyphRun>,
    /// Normalized-coordinate table.
    pub normalized_coords: Seq<i16>,
    /// Number of encoded paths.
    pub n_paths: u32,
    /// Number of encoded path segments.
    pub n_path_segments: u32,
    /// Number of clip brackets (begins and ends together).
    pub n_clips: u32,
    /// Number of pattern brackets (begins and ends together).
    pub n_patterns: u32,
    /// Number of open (unmatched) clip brackets.
    pub n_open_clips: u32,
    /// Camera transform recorded by the latest transformed append.
    pub camera_transform: Option<Transform>,
}

/// Whether a patch's offsets lie inside streams of the given lengths.
pub open spec fn patch_wf(p: Patch, draw_len: nat, stops_len: nat, runs_len: nat) -> bool {
    match p {
        Patch::Ramp { draw_data_offset, stops_start, stops_end, .. } => {
            &&& draw_data_offset <= draw_len
            &&& stops_start <= stops_end <= stops_len
        },
        Patch::GlyphRun { index } => index < runs_len,
        Patch::Image { draw_data_offset, .. } => draw_data_offset <= draw_len,
    }
}

/// Whether a glyph run's ranges lie inside tables of the given lengths.
pub open spec fn run_wf(r: GlyphRun, glyphs_len: nat, coords_len: nat) -> bool {
    &&& r.glyphs_start <= r.glyphs_end <= glyphs_len
    &&& r.normalized_coords_start <= r.normalized_coords_end <= coords_len
}

/// Whether a snapshot lies within the stream lengths of a view.
pub open spec fn offsets_within(a: StreamOffsets, v: EncodingView) -> bool {
    &&& a.path_tags <= v.path_tags.len()
    &&& a.path_data <= v.path_data.len()
    &&& a.draw_tags <= v.draw_tags.len()
    &&& a.draw_data <= v.draw_data.len()
    &&& a.transforms <= v.transforms.len()
    &&& a.linewidths <= v.linewidths.len()
    &&& a.dasharrays <= v.dasharrays.len()
    &&& a.patterns <= v.pattern_data.len()
}

/// Well-formedness of an encoding: every transform entry has a state,
/// open clips never exceed total clip brackets, every offset-bearing
/// resource reference stays inside its table, and every glyph run's
/// captured stream snapshot lies within the current stream lengths.
pub open spec fn encoding_wf(v: EncodingView) -> bool {
    &&& v.states.len() == v.transforms.len()
    &&& v.n_open_clips <= v.n_clips
    &&& forall|i: int|
        0 <= i < v.patches.len() ==> patch_wf(
            #[trigger] v.patches[i],
            v.draw_data.len(),
            v.color_stops.len(),
            v.glyph_runs.len(),
        )
    &&& forall|i: int|
        0 <= i < v.glyph_runs.len() ==> run_wf(
            #[trigger] v.glyph_runs[i],
            v.glyphs.len(),
            v.normalized_coords.len(),
        )
    &&& forall|i: int|
        0 <= i < v.glyph_runs.len() ==> offsets_within(
            (#[trigger] v.glyph_runs[i]).stream_offsets,
            v,
        )
}

/// An encoding with all streams empty and no seeded ambient state.
pub open spec fn spec_empty_encoding() -> EncodingView {
    EncodingView {
        path_tags: Seq::empty(),
        path_data: Seq::empty(),
        draw_tags: Seq::empty(),
        draw_data: Seq::empty(),
        transforms: Seq::empty(),
        linewidths: Seq::empty(),
        dasharrays: Seq::empty(),
        transform_state: TransformState(TRANSFORM_STATE_DEFAULT),
        states: Seq::empty(),
        pattern_data: Seq::empty(),
        patches: Seq::empty(),
        color_stops: Seq::empty(),
        glyphs: Seq::empty(),
        glyph_runs: Seq::empty(),
        normalized_coords: Seq::empty(),
        n_paths: 0,
        n_path_segments: 0,
        n_clips: 0,
        n_patterns: 0,
        n_open_clips: 0,
        camera_transform: None,
    }
}

/// A reset encoding: empty streams, and for non-fragment use the seeded
/// ambient state of one identity transform, the three line-width
/// sentinels `-1, 0, 0`, and one default transform state.
pub open spec fn spec_reset_encoding(is_fragment: bool) -> EncodingView {
    if is_fragment {
        spec_empty_encoding()
    } else {
        EncodingView {
            transforms: seq![Transform::spec_identity()],
            linewidths: seq![F32_BITS_NEG_ONE, 0u32, 0u32],
            states: seq![TransformState(TRANSFORM_STATE_DEFAULT)],
            ..spec_empty_encoding()
        }
    }
}

/// Encoded data streams for a scene.
#[derive(Clone, Debug)]
pub struct Encoding {
    /// The path tag stream.
    pub path_tags: Vec<PathTag>,
    /// The path data stream.
    pub path_data: Vec<u8>,
    /// The draw tag stream.
    pub draw_tags: Vec<DrawTag>,
    /// The draw data stream.
    pub draw_data: Vec<u8>,
    /// The transform stream.
    pub transforms: Vec<Transform>,
    /// The line-width stream, as float bit patterns.
    pub linewidths: Vec<u32>,
    /// The dash-array stream, as float bit patterns.
    pub dasharrays: Vec<u32>,
    /// Ambient state recorded with the next transform entries.
    pub transform_state: TransformState,
    /// Whether each transform entry ignores the camera transform.
    pub should_ignore_camera_transforms: Vec<TransformState>,
    /// The pattern parameter stream.
    pub pattern_data: Vec<PatternData>,
    /// Late-bound resource tables.
    pub resources: Resources,
    /// Number of encoded paths.
    pub n_paths: u32,
    /// Number of encoded path segments.
    pub n_path_segments: u32,
    /// Number of encoded clip brackets.
    pub n_clips: u32,
    /// Number of encoded pattern brackets.
    pub n_patterns: u32,
    /// Number of unclosed clip brackets.
    pub n_open_clips: u32,
    /// Camera transform recorded by the latest transformed append.
    pub camera_transform: Option<Transform>,
}

impl Encoding {
    /// The encoding's value as spec data.
    pub open spec fn view(self) -> EncodingView {
        EncodingView {
            path_tags: self.path_tags@,
            path_data: self.path_data@,
            draw_tags: self.draw_tags@,
            draw_data: self.draw_data@,
            transforms: self.transforms@,
            linewidths: self.linewidths@,
            dasharrays: self.dasharrays@,
            transform_state: self.transform_state,
            states: self.should_ignore_camera_transforms@,
            pattern_data: self.pattern_data@,
            patches: self.resources.patches@,
            color_stops: self.resources.color_stops@,
            glyphs: self.resources.glyphs@,
            glyph_runs: self.resources.glyph_runs@,
            normalized_coords: self.resources.normalized_coords@,
            n_paths: self.n_paths,
            n_path_segments: self.n_path_segments,
            n_clips: self.n_clips,
            n_patterns: self.n_patterns,
            n_open_clips: self.n_open_clips,
            camera_transform: self.camera_transform,
        }
    }

    /// Creates a new, completely empty encoding. Callers that build a
    /// whole scene (rather than a fragment) seed the ambient state with
    /// `reset(false)` first.
    pub fn new() -> (r: Encoding)
        ensures
            r.view() == spec_empty_encoding(),
            encoding_wf(r.view()),
    {
        let r = Encoding {
            path_tags: Vec::new(),
            path_data: Vec::new(),
            draw_tags: Vec::new(),
            draw_data: Vec::new(),
            transforms: Vec::new(),
            linewidths: Vec::new(),
            dasharrays: Vec::new(),
            transform_state: TransformState(TRANSFORM_STATE_DEFAULT),
            should_ignore_camera_transforms: Vec::new(),
            pattern_data: Vec::new(),
            resources: Resources::new(),
            n_paths: 0,
            n_path_segments: 0,
            n_clips: 0,
            n_patterns: 0,
            n_open_clips: 0,
            camera_transform: None,
        };
        proof {
            assert(r.view() =~= spec_empty_encoding());
        }
        r
    }

    /// True when nothing has been encoded.
    pub fn is_empty(&self) -> (r: bool)
        ensures
            r == (self.view().path_tags.len() == 0),
    {
        self.path_tags.is_empty()
    }

    /// Clears the encoding; for non-fragment use the default ambient
    /// state is seeded again.
    pub fn reset(&mut self, is_fragment: bool)
        ensures
            final(self).view() == spec_reset_encoding(is_fragment),
            encoding_wf(final(self).view()),
    {
        self.pattern_data.clear();
        self.transforms.clear();
        self.should_ignore_camera_transforms.clear();
        self.path_tags.clear();
        self.path_data.clear();
        self.linewidths.clear();
        self.dasharrays.clear();
        self.draw_data.clear();
        self.draw_tags.clear();
        self.n_paths = 0;
        self.n_path_segments = 0;
        self.n_clips = 0;
        self.n_patterns = 0;
        self.n_open_clips = 0;
        self.transform_state = TransformState(TRANSFORM_STATE_DEFAULT);
        self.camera_transform = None;
        self.resources.reset();
        if !is_fragment {
            self.transforms.push(Transform::identity());
            self.linewidths.push(F32_BITS_NEG_ONE);
            self.linewidths.push(0);
            self.linewidths.push(0);
            self.should_ignore_camera_transforms.push(TransformState(TRANSFORM_STATE_DEFAULT));
        }
        proof {
            assert(self.view() =~= spec_reset_encoding(is_fragment));
        }
    }

    /// Returns a snapshot of the current stream lengths.
    pub fn stream_offsets(&self) -> (r: StreamOffsets)
        ensures
            r == self.view().spec_stream_offsets(),
    {
        StreamOffsets {
            path_tags: self.path_tags.len(),
            path_data: self.path_data.len(),
            draw_tags: self.draw_tags.len(),
            draw_data: self.draw_data.len(),
            transforms: self.transforms.len(),
            linewidths: self.linewidths.len(),
            dasharrays: self.dasharrays.len(),
            patterns: self.pattern_data.len(),
        }
    }
}

impl EncodingView {
    /// The stream lengths of this view.
    pub open spec fn spec_stream_offsets(self) -> StreamOffsets {
        StreamOffsets {
            path_tags: self.path_tags.len() as usize,
            path_data: self.path_data.len() as usize,
            draw_tags: self.draw_tags.len() as usize,
            draw_data: self.draw_data.len() as usize,
            transforms: self.transforms.len() as usize,
            linewidths: self.linewidths.len() as usize,
            dasharrays: self.dasharrays.len() as usize,
            patterns: self.pattern_data.len() as usize,
        }
    }
}

/// The effect of `encode_linewidth`: the dash array joins the shared
/// dash pool, and the line-width stream receives the width followed by
/// the dash range bounds written as floats.
pub open spec fn spec_encode_linewidth(v: EncodingView, width: u32, dash: Seq<u32>) -> EncodingView {
    EncodingView {
        dasharrays: v.dasharrays + dash,
        path_tags: v.path_tags.push(PathTag(PATH_TAG_LINEWIDTH)),
        linewidths: v.linewidths + seq![
            width,
            spec_f32_bits_of_small(v.dasharrays.len()) as u32,
            spec_f32_bits_of_small(v.dasharrays.len() + dash.len()) as u32,
        ],
        ..v
    }
}

/// The effect of `encode_transform`: a new entry is pushed only when the
/// transform or its state differs from the top of stream.
pub open spec fn spec_encode_transform(v: EncodingView, t: Transform) -> (EncodingView, bool) {
    let same = v.transforms.len() > 0 && v.transforms.last() == t && v.states.len() > 0
        && v.states.last() == v.transform_state;
    if same {
        (v, false)
    } else {
        (
            EncodingView {
                path_tags: v.path_tags.push(PathTag(PATH_TAG_TRANSFORM)),
                transforms: v.transforms.push(t),
                states: v.states.push(v.transform_state),
                ..v
            },
            true,
        )
    }
}

/// The effect of `encode_color`.
pub open spec fn spec_encode_color(v: EncodingView, color: Color) -> EncodingView {
    EncodingView {
        draw_tags: v.draw_tags.push(DrawTag(DRAW_TAG_COLOR)),
        draw_data: v.draw_data + DrawColor::spec_new(color).spec_bytes(),
        ..v
    }
}

/// The effect of `add_ramp`: zero stops degrade to nothing, one stop
/// degrades to its color, two or more register a ramp patch covering
/// exactly the given stops.
pub open spec fn spec_add_ramp(v: EncodingView, stops: Seq<ColorStop>, extend: Extend) -> (
    EncodingView,
    RampStops,
) {
    if stops.len() == 0 {
        (v, RampStops::Empty)
    } else if stops.len() == 1 {
        (v, RampStops::One(stops[0].color))
    } else {
        (
            EncodingView {
                color_stops: v.color_stops + stops,
                patches: v.patches.push(
                    Patch::Ramp {
                        draw_data_offset: v.draw_data.len() as usize,
                        stops_start: v.color_stops.len() as usize,
                        stops_end: (v.color_stops.len() + stops.len()) as usize,
                        extend,
                    },
                ),
                ..v
            },
            RampStops::Many,
        )
    }
}

/// The effect of `encode_linear_gradient`.
pub open spec fn spec_encode_linear_gradient(
    v: EncodingView,
    gradient: DrawLinearGradient,
    stops: Seq<ColorStop>,
    extend: Extend,
) -> EncodingView {
    let (v1, r) = spec_add_ramp(v, stops, extend);
    match r {
        RampStops::Empty => spec_encode_color(v1, Color { r: 0, g: 0, b: 0, a: 0 }),
        RampStops::One(color) => spec_encode_color(v1, color),
        RampStops::Many => EncodingView {
            draw_tags: v1.draw_tags.push(DrawTag(DRAW_TAG_LINEAR_GRADIENT)),
            draw_data: v1.draw_data + gradient.spec_bytes(),
            ..v1
        },
    }
}

/// The effect of `encode_radial_gradient`. Degenerate geometry (equal
/// centers with nearly equal radii) degrades to a single transparent
/// color entry, keeping exactly one draw object for the preceding path.
pub open spec fn spec_encode_radial_gradient(
    v: EncodingView,
    gradient: DrawRadialGradient,
    stops: Seq<ColorStop>,
    extend: Extend,
    radii_nearly_equal: bool,
) -> EncodingView {
    if gradient.p0x == gradient.p1x && gradient.p0y == gradient.p1y && radii_nearly_equal {
        spec_encode_color(v, Color { r: 0, g: 0, b: 0, a: 0 })
    } else {
        let (v1, r) = spec_add_ramp(v, stops, extend);
        match r {
            RampStops::Empty => spec_encode_color(v1, Color { r: 0, g: 0, b: 0, a: 0 }),
            RampStops::One(color) => spec_encode_color(v1, color),
            RampStops::Many => EncodingView {
                draw_tags: v1.draw_tags.push(DrawTag(DRAW_TAG_RADIAL_GRADIENT)),
                draw_data: v1.draw_data + gradient.spec_bytes(),
                ..v1
            },
        }
    }
}

/// The effect of `encode_image`: an image patch at the current draw-data
/// offset, then the image payload with a zero atlas position.
pub open spec fn spec_encode_image(v: EncodingView, image: Image) -> EncodingView {
    EncodingView {
        patches: v.patches.push(
            Patch::Image { image, draw_data_offset: v.draw_data.len() as usize },
        ),
        draw_tags: v.draw_tags.push(DrawTag(DRAW_TAG_IMAGE)),
        draw_data: v.draw_data + (DrawImage {
            xy: 0,
            width_height: ((image.width << 16) | (image.height & 0xFFFF)) as u32,
        }).spec_bytes(),
        ..v
    }
}

/// The effect of `encode_begin_pattern`: the ambient transform state
/// follows the screen-space flag, the pattern parameters are recorded,
/// and the bracket counts as a pattern and as a path.
pub open spec fn spec_encode_begin_pattern(v: EncodingView, pattern: PatternData) -> EncodingView {
    EncodingView {
        transform_state: if pattern.is_screen_space == 1 {
            TransformState(TRANSFORM_STATE_IGNORED)
        } else {
            TransformState(TRANSFORM_STATE_DEFAULT)
        },
        draw_tags: v.draw_tags.push(DrawTag(DRAW_TAG_BEGIN_PATTERN)),
        pattern_data: v.pattern_data.push(pattern),
        n_patterns: (v.n_patterns + 1) as u32,
        path_tags: v.path_tags.push(PathTag(PATH_TAG_PATH)),
        n_paths: (v.n_paths + 1) as u32,
        ..v
    }
}

/// The effect of `encode_end_pattern`: the ambient transform state
/// returns to default and the bracket counts as a pattern and as a path.
pub open spec fn spec_encode_end_pattern(v: EncodingView) -> EncodingView {
    EncodingView {
        transform_state: TransformState(TRANSFORM_STATE_DEFAULT),
        draw_tags: v.draw_tags.push(DrawTag(DRAW_TAG_END_PATTERN)),
        n_patterns: (v.n_patterns + 1) as u32,
        path_tags: v.path_tags.push(PathTag(PATH_TAG_PATH)),
        n_paths: (v.n_paths + 1) as u32,
        ..v
    }
}

/// The effect of a begin-clip bracket carrying the given payload.
pub open spec fn spec_encode_begin_clip(v: EncodingView, payload: DrawBeginClip) -> EncodingView {
    EncodingView {
        draw_tags: v.draw_tags.push(DrawTag(DRAW_TAG_BEGIN_CLIP)),
        draw_data: v.draw_data + payload.spec_bytes(),
        n_clips: (v.n_clips + 1) as u32,
        n_open_clips: (v.n_open_clips + 1) as u32,
        ..v
    }
}

/// The effect of `encode_end_clip`: a no-op unless a clip is open, so
/// over-popping is absorbed rather than an error.
pub open spec fn spec_encode_end_clip(v: EncodingView) -> EncodingView {
    if v.n_open_clips == 0 {
        v
    } else {
        EncodingView {
            draw_tags: v.draw_tags.push(DrawTag(DRAW_TAG_END_CLIP)),
            path_tags: v.path_tags.push(PathTag(PATH_TAG_PATH)),
            n_paths: (v.n_paths + 1) as u32,
            n_clips: (v.n_clips + 1) as u32,
            n_open_clips: (v.n_open_clips - 1) as u32,
            ..v
        }
    }
}

impl Encoding {
    /// Encodes a line width and an optional dash array. The sign of the
    /// width bit pattern carries the fill rule: the sentinel `-1` means
    /// non-zero fill, `-2` means even-odd fill, and a non-negative width
    /// means stroke. The dash array joins the shared dash pool and is
    /// referenced by its bounds, written as floats, which is why the pool
    /// may not grow past 2^24 entries.
    pub fn encode_linewidth(&mut self, linewidth: u32, dash_array: Option<Vec<u32>>)
        requires
            old(self).view().dasharrays.len() + spec_dash_len(dash_array)
                < F32_EXACT_LIMIT as nat,
        ensures
            final(self).view() == spec_encode_linewidth(
                old(self).view(),
                linewidth,
                spec_dash_seq(dash_array),
            ),
            encoding_wf(old(self).view()) ==> encoding_wf(final(self).view()),
    {
        let start = self.dasharrays.len();
        match dash_array {
            Some(array) => {
                extend_copy(&mut self.dasharrays, &array);
            },
            None => {
                proof {
                    assert(self.dasharrays@ =~= old(self).dasharrays@ + spec_dash_seq(
                        dash_array,
                    ));
                }
            },
        }
        let end = self.dasharrays.len();
        self.path_tags.push(PathTag(PATH_TAG_LINEWIDTH));
        self.linewidths.push(linewidth);
        let start_bits = f32_bits_of_small(start as u32);
        self.linewidths.push(start_bits);
        let end_bits = f32_bits_of_small(end as u32);
        self.linewidths.push(end_bits);
        proof {
            assert(self.linewidths@ =~= old(self).linewidths@ + seq![
                linewidth,
                spec_f32_bits_of_small(old(self).view().dasharrays.len()) as u32,
                spec_f32_bits_of_small(
                    old(self).view().dasharrays.len() + spec_dash_seq(dash_array).len(),
                ) as u32,
            ]);
            assert(self.view() =~= spec_encode_linewidth(
                old(self).view(),
                linewidth,
                spec_dash_seq(dash_array),
            ));
            lemma_wf_patches_unchanged(old(self).view(), self.view());
        }
    }

    /// Encodes a transform when it (or its state) differs from the top
    /// of the stream; returns whether a new entry was pushed.
    pub fn encode_transform(&mut self, transform: Transform) -> (pushed: bool)
        ensures
            (final(self).view(), pushed) == spec_encode_transform(old(self).view(), transform),
            encoding_wf(old(self).view()) ==> encoding_wf(final(self).view()),
    {
        let tl = self.transforms.len();
        let sl = self.should_ignore_camera_transforms.len();
        let same = tl > 0 && sl > 0 && self.transforms[tl - 1] == transform
            && self.should_ignore_camera_transforms[sl - 1] == self.transform_state;
        if !same {
            self.path_tags.push(PathTag(PATH_TAG_TRANSFORM));
            self.transforms.push(transform);
            self.should_ignore_camera_transforms.push(self.transform_state);
            proof {
                assert(self.view() =~= spec_encode_transform(old(self).view(), transform).0);
                lemma_wf_patches_unchanged(old(self).view(), self.view());
            }
            true
        } else {
            false
        }
    }

    /// Encodes a solid color.
    pub fn encode_color(&mut self, color: Color)
        ensures
            final(self).view() == spec_encode_color(old(self).view(), color),
            encoding_wf(old(self).view()) ==> encoding_wf(final(self).view()),
    {
        self.draw_tags.push(DrawTag(DRAW_TAG_COLOR));
        let packed = DrawColor::new(color);
        push_u32_le(&mut self.draw_data, packed.rgba);
        proof {
            assert(self.view() =~= spec_encode_color(old(self).view(), color));
            lemma_wf_patches_unchanged(old(self).view(), self.view());
        }
    }

    /// Registers a gradient's color stops. Zero stops degrade the
    /// gradient to transparent and one stop to that stop's color; only
    /// two or more stops spend a ramp patch.
    pub fn add_ramp(&mut self, color_stops: &Vec<ColorStop>, extend: Extend) -> (r: RampStops)
        ensures
            (final(self).view(), r) == spec_add_ramp(old(self).view(), color_stops@, extend),
            encoding_wf(old(self).view()) ==> encoding_wf(final(self).view()),
    {
        if color_stops.len() == 0 {
            return RampStops::Empty;
        }
        if color_stops.len() == 1 {
            return RampStops::One(color_stops[0].color);
        }
        let stops_start = self.resources.color_stops.len();
        let offset = self.draw_data.len();
        extend_copy(&mut self.resources.color_stops, color_stops);
        let stops_end = self.resources.color_stops.len();
        self.resources.patches.push(
            Patch::Ramp { draw_data_offset: offset, stops_start, stops_end, extend },
        );
        proof {
            assert(self.view() =~= spec_add_ramp(old(self).view(), color_stops@, extend).0);
            let v1 = old(self).view();
            let v2 = self.view();
            if encoding_wf(v1) {
                assert forall|i: int| 0 <= i < v2.patches.len() implies patch_wf(
                    #[trigger] v2.patches[i],
                    v2.draw_data.len(),
                    v2.color_stops.len(),
                    v2.glyph_runs.len(),
                ) by {
                    if i < v1.patches.len() {
                        assert(patch_wf(
                            v1.patches[i],
                            v1.draw_data.len(),
                            v1.color_stops.len(),
                            v1.glyph_runs.len(),
                        ));
                    }
                }
                assert forall|i: int| 0 <= i < v2.glyph_runs.len() implies run_wf(
                    #[trigger] v2.glyph_runs[i],
                    v2.glyphs.len(),
                    v2.normalized_coords.len(),
                ) by {
                    assert(run_wf(v1.glyph_runs[i], v1.glyphs.len(), v1.normalized_coords.len()));
                }
                assert forall|i: int| 0 <= i < v2.glyph_runs.len() implies offsets_within(
                    (#[trigger] v2.glyph_runs[i]).stream_offsets,
                    v2,
                ) by {
                    assert(offsets_within(v1.glyph_runs[i].stream_offsets, v1));
                }
                assert(encoding_wf(v2));
            }
        }
        RampStops::Many
    }

    /// Encodes a linear gradient, degrading degenerate stop lists to
    /// solid colors.
    pub fn encode_linear_gradient(
        &mut self,
        gradient: DrawLinearGradient,
        color_stops: &Vec<ColorStop>,
        extend: Extend,
    )
        ensures
            final(self).view() == spec_encode_linear_gradient(
                old(self).view(),
                gradient,
                color_stops@,
                extend,
            ),
            encoding_wf(old(self).view()) ==> encoding_wf(final(self).view()),
    {
        let r = self.add_ramp(color_stops, extend);
        match r {
            RampStops::Empty => self.encode_color(Color::transparent()),
            RampStops::One(color) => self.encode_color(color),
            RampStops::Many => {
                let ghost mid = self.view();
                self.draw_tags.push(DrawTag(DRAW_TAG_LINEAR_GRADIENT));
                push_linear_gradient(&mut self.draw_data, &gradient);
                proof {
                    assert(self.view() =~= spec_encode_linear_gradient(
                        old(self).view(),
                        gradient,
                        color_stops@,
                        extend,
                    ));
                    lemma_wf_draw_grow(mid, self.view());
                }
            },
        }
    }

    /// Encodes a radial gradient, degrading degenerate stop lists to
    /// solid colors. `radii_nearly_equal` reports whether the two radii
    /// differ by less than 2^-12; together with equal centers it marks a
    /// degenerate gradient, which first emits a transparent color.
    pub fn encode_radial_gradient(
        &mut self,
        gradient: DrawRadialGradient,
        color_stops: &Vec<ColorStop>,
        extend: Extend,
        radii_nearly_equal: bool,
    )
        ensures
            final(self).view() == spec_encode_radial_gradient(
                old(self).view(),
                gradient,
                color_stops@,
                extend,
                radii_nearly_equal,
            ),
            encoding_wf(old(self).view()) ==> encoding_wf(final(self).view()),
    {
        if gradient.p0x == gradient.p1x && gradient.p0y == gradient.p1y && radii_nearly_equal {
            // A point-like gradient cannot render; it degrades to a
            // single transparent entry so that the preceding path keeps
            // exactly one draw object.
            self.encode_color(Color::transparent());
            return;
        }
        let r = self.add_ramp(color_stops, extend);
        match r {
            RampStops::Empty => self.encode_color(Color::transparent()),
            RampStops::One(color) => self.encode_color(color),
            RampStops::Many => {
                let ghost mid = self.view();
                self.draw_tags.push(DrawTag(DRAW_TAG_RADIAL_GRADIENT));
                push_radial_gradient(&mut self.draw_data, &gradient);
                proof {
                    assert(self.view() =~= spec_encode_radial_gradient(
                        old(self).view(),
                        gradient,
                        color_stops@,
                        extend,
                        radii_nearly_equal,
                    ));
                    lemma_wf_draw_grow(mid, self.view());
                }
            },
        }
    }

    /// Encodes an image brush. The packed extent keeps the width in the
    /// high half-word, so the width must fit in sixteen bits.
    pub fn encode_image(&mut self, image: &Image)
        requires
            image.width < 0x1_0000,
        ensures
            final(self).view() == spec_encode_image(old(self).view(), *image),
            encoding_wf(old(self).view()) ==> encoding_wf(final(self).view()),
    {
        let offset = self.draw_data.len();
        self.resources.patches.push(Patch::Image { image: *image, draw_data_offset: offset });
        self.draw_tags.push(DrawTag(DRAW_TAG_IMAGE));
        push_u32_le(&mut self.draw_data, 0);
        push_u32_le(&mut self.draw_data, (image.width << 16) | (image.height & 0xFFFF));
        proof {
            assert(self.view().draw_data =~= spec_encode_image(old(self).view(), *image).draw_data);
            assert(self.view() =~= spec_encode_image(old(self).view(), *image));
            let v1 = old(self).view();
            let v2 = self.view();
            if encoding_wf(v1) {
                assert forall|i: int| 0 <= i < v2.patches.len() implies patch_wf(
                    #[trigger] v2.patches[i],
                    v2.draw_data.len(),
                    v2.color_stops.len(),
                    v2.glyph_runs.len(),
                ) by {
                    if i < v1.patches.len() {
                        assert(patch_wf(
                            v1.patches[i],
                            v1.draw_data.len(),
                            v1.color_stops.len(),
                            v1.glyph_runs.len(),
                        ));
                    }
                }
                assert forall|i: int| 0 <= i < v2.glyph_runs.len() implies run_wf(
                    #[trigger] v2.glyph_runs[i],
                    v2.glyphs.len(),
                    v2.normalized_coords.len(),
                ) by {
                    assert(run_wf(v1.glyph_runs[i], v1.glyphs.len(), v1.normalized_coords.len()));
                }
                assert forall|i: int| 0 <= i < v2.glyph_runs.len() implies offsets_within(
                    (#[trigger] v2.glyph_runs[i]).stream_offsets,
                    v2,
                ) by {
                    assert(offsets_within(v1.glyph_runs[i].stream_offsets, v1));
                }
                assert(encoding_wf(v2));
            }
        }
    }

    /// Encodes the start of a pattern bracket. The rotation inside
    /// `pattern` is in radians, normalized to [0, 2*pi) by the caller,
    /// where float arithmetic lives; a screen-space pattern flips the
    /// ambient transform state for the duration of the bracket.
    pub fn encode_begin_pattern(&mut self, pattern: PatternData)
        requires
            old(self).view().n_patterns < u32::MAX,
            old(self).view().n_paths < u32::MAX,
        ensures
            final(self).view() == spec_encode_begin_pattern(old(self).view(), pattern),
            encoding_wf(old(self).view()) ==> encoding_wf(final(self).view()),
    {
        self.transform_state = if pattern.is_screen_space == 1 {
            TransformState(TRANSFORM_STATE_IGNORED)
        } else {
            TransformState(TRANSFORM_STATE_DEFAULT)
        };
        self.draw_tags.push(DrawTag(DRAW_TAG_BEGIN_PATTERN));
        self.pattern_data.push(pattern);
        self.n_patterns = self.n_patterns + 1;
        self.path_tags.push(PathTag(PATH_TAG_PATH));
        self.n_paths = self.n_paths + 1;
        proof {
            assert(self.view() =~= spec_encode_begin_pattern(old(self).view(), pattern));
            lemma_wf_patches_unchanged(old(self).view(), self.view());
        }
    }

    /// Encodes the end of a pattern bracket, restoring the default
    /// ambient transform state.
    pub fn encode_end_pattern(&mut self)
        requires
            old(self).view().n_patterns < u32::MAX,
            old(self).view().n_paths < u32::MAX,
        ensures
            final(self).view() == spec_encode_end_pattern(old(self).view()),
            encoding_wf(old(self).view()) ==> encoding_wf(final(self).view()),
    {
        self.transform_state = TransformState(TRANSFORM_STATE_DEFAULT);
        self.draw_tags.push(DrawTag(DRAW_TAG_END_PATTERN));
        self.n_patterns = self.n_patterns + 1;
        self.path_tags.push(PathTag(PATH_TAG_PATH));
        self.n_paths = self.n_paths + 1;
        proof {
            assert(self.view() =~= spec_encode_end_pattern(old(self).view()));
            lemma_wf_patches_unchanged(old(self).view(), self.view());
        }
    }

    /// Encodes a begin-clip bracket with a blend mode and a layer alpha
    /// (as a float bit pattern).
    pub fn encode_begin_clip(&mut self, blend_mode: BlendMode, alpha: u32)
        requires
            old(self).view().n_clips < u32::MAX,
            old(self).view().n_open_clips < u32::MAX,
        ensures
            final(self).view() == spec_encode_begin_clip(
                old(self).view(),
                DrawBeginClip {
                    blend: (blend_mode.mix as u32) << 8 | (blend_mode.compose as u32),
                    alpha,
                },
            ),
            encoding_wf(old(self).view()) ==> encoding_wf(final(self).view()),
    {
        let payload = DrawBeginClip::new(blend_mode, alpha);
        self.encode_begin_clip_payload(payload);
    }

    /// Encodes a begin-clip bracket whose payload carries a packed
    /// filter color instead of a blend mode.
    pub fn encode_begin_clip_filter(&mut self, packed_color: u32, alpha: u32)
        requires
            old(self).view().n_clips < u32::MAX,
            old(self).view().n_open_clips < u32::MAX,
        ensures
            final(self).view() == spec_encode_begin_clip(
                old(self).view(),
                DrawBeginClip { blend: packed_color, alpha },
            ),
            encoding_wf(old(self).view()) ==> encoding_wf(final(self).view()),
    {
        let payload = DrawBeginClip::new_filter(packed_color, alpha);
        self.encode_begin_clip_payload(payload);
    }

    /// Shared body of the two begin-clip forms.
    fn encode_begin_clip_payload(&mut self, payload: DrawBeginClip)
        requires
            old(self).view().n_clips < u32::MAX,
            old(self).view().n_open_clips < u32::MAX,
        ensures
            final(self).view() == spec_encode_begin_clip(old(self).view(), payload),
            encoding_wf(old(self).view()) ==> encoding_wf(final(self).view()),
    {
        self.draw_tags.push(DrawTag(DRAW_TAG_BEGIN_CLIP));
        push_u32_le(&mut self.draw_data, payload.blend);
        push_u32_le(&mut self.draw_data, payload.alpha);
        self.n_clips = self.n_clips + 1;
        self.n_open_clips = self.n_open_clips + 1;
        proof {
            assert(self.view().draw_data =~= spec_encode_begin_clip(
                old(self).view(),
                payload,
            ).draw_data);
            assert(self.view() =~= spec_encode_begin_clip(old(self).view(), payload));
            lemma_wf_patches_unchanged(old(self).view(), self.view());
        }
    }

    /// Encodes an end-clip bracket; a no-op when no clip is open, so
    /// over-popping is silently absorbed.
    pub fn encode_end_clip(&mut self)
        requires
            old(self).view().n_paths < u32::MAX,
            old(self).view().n_clips < u32::MAX,
        ensures
            final(self).view() == spec_encode_end_clip(old(self).view()),
            encoding_wf(old(self).view()) ==> encoding_wf(final(self).view()),
    {
        if self.n_open_clips > 0 {
            self.draw_tags.push(DrawTag(DRAW_TAG_END_CLIP));
            // A placeholder path accompanies the bracket so that every
            // draw object keeps a matching path-stream entry.
            self.path_tags.push(PathTag(PATH_TAG_PATH));
            self.n_paths = self.n_paths + 1;
            self.n_clips = self.n_clips + 1;
            self.n_open_clips = self.n_open_clips - 1;
            proof {
                assert(self.view() =~= spec_encode_end_clip(old(self).view()));
                lemma_wf_patches_unchanged(old(self).view(), self.view());
            }
        }
    }

    /// Swaps the last two path tags; used when a brush transform follows
    /// the shape it applies to.
    pub fn swap_last_path_tags(&mut self)
        requires
            old(self).view().path_tags.len() >= 2,
        ensures
            final(self).view() == (EncodingView {
                path_tags: old(self).view().path_tags.update(
                    old(self).view().path_tags.len() - 2,
                    old(self).view().path_tags.last(),
                ).update(
                    old(self).view().path_tags.len() - 1,
                    old(self).view().path_tags[old(self).view().path_tags.len() - 2],
                ),
                ..old(self).view()
            }),
            encoding_wf(old(self).view()) ==> encoding_wf(final(self).view()),
    {
        let len = self.path_tags.len();
        let a = self.path_tags[len - 1];
        let b = self.path_tags[len - 2];
        let _ = self.path_tags.pop();
        let _ = self.path_tags.pop();
        self.path_tags.push(a);
        self.path_tags.push(b);
        proof {
            assert(self.view().path_tags =~= old(self).view().path_tags.update(
                old(self).view().path_tags.len() - 2,
                old(self).view().path_tags.last(),
            ).update(
                old(self).view().path_tags.len() - 1,
                old(self).view().path_tags[old(self).view().path_tags.len() - 2],
            ));
            assert(self.view() =~= (EncodingView {
                path_tags: self.view().path_tags,
                ..old(self).view()
            }));
            lemma_wf_patches_unchanged(old(self).view(), self.view());
        }
    }

    /// Encodes a brush. Colors and stops arrive with any alpha factor
    /// already applied; the callers that own float arithmetic scale them
    /// before encoding.
    pub fn encode_brush(&mut self, brush: &Brush)
        requires
            brush matches Brush::Image(img) ==> img.width < 0x1_0000,
        ensures
            final(self).view() == spec_encode_brush(old(self).view(), *brush),
            encoding_wf(old(self).view()) ==> encoding_wf(final(self).view()),
    {
        match brush {
            Brush::Solid(color) => self.encode_color(*color),
            Brush::LinearGradient { gradient, stops, extend } => self.encode_linear_gradient(
                *gradient,
                stops,
                *extend,
            ),
            Brush::RadialGradient { gradient, stops, extend, radii_nearly_equal } => self
                .encode_radial_gradient(*gradient, stops, *extend, *radii_nearly_equal),
            Brush::Image(image) => self.encode_image(image),
        }
    }
}

/// The effect of `encode_brush`.
pub open spec fn spec_encode_brush(v: EncodingView, b: Brush) -> EncodingView {
    match b {
        Brush::Solid(color) => spec_encode_color(v, color),
        Brush::LinearGradient { gradient, stops, extend } => spec_encode_linear_gradient(
            v,
            gradient,
            stops@,
            extend,
        ),
        Brush::RadialGradient { gradient, stops, extend, radii_nearly_equal } =>
            spec_encode_radial_gradient(v, gradient, stops@, extend, radii_nearly_equal),
        Brush::Image(image) => spec_encode_image(v, image),
    }
}

/// The dash entries carried by an optional dash array.
pub open spec fn spec_dash_seq(dash: Option<Vec<u32>>) -> Seq<u32> {
    match dash {
        Some(v) => v@,
        None => Seq::empty(),
    }
}

/// The number of dash entries carried by an optional dash array.
pub open spec fn spec_dash_len(dash: Option<Vec<u32>>) -> nat {
    spec_dash_seq(dash).len()
}

/// Well-formedness survives any change that leaves the patch and run
/// tables alone while streams only grow and the clip counts keep their
/// ordering.
pub proof fn lemma_wf_patches_unchanged(v1: EncodingView, v2: EncodingView)
    requires
        v2.patches == v1.patches,
        v2.glyph_runs == v1.glyph_runs,
        v2.glyphs == v1.glyphs,
        v2.normalized_coords == v1.normalized_coords,
        v2.draw_data.len() >= v1.draw_data.len(),
        v2.color_stops == v1.color_stops,
        v2.path_tags.len() >= v1.path_tags.len(),
        v2.path_data.len() >= v1.path_data.len(),
        v2.draw_tags.len() >= v1.draw_tags.len(),
        v2.transforms.len() >= v1.transforms.len(),
        v2.linewidths.len() >= v1.linewidths.len(),
        v2.dasharrays.len() >= v1.dasharrays.len(),
        v2.pattern_data.len() >= v1.pattern_data.len(),
        v1.states.len() == v1.transforms.len() ==> v2.states.len() == v2.transforms.len(),
        v1.n_open_clips <= v1.n_clips ==> v2.n_open_clips <= v2.n_clips,
    ensures
        encoding_wf(v1) ==> encoding_wf(v2),
{
    if encoding_wf(v1) {
        assert forall|i: int| 0 <= i < v2.patches.len() implies patch_wf(
            #[trigger] v2.patches[i],
            v2.draw_data.len(),
            v2.color_stops.len(),
            v2.glyph_runs.len(),
        ) by {
            assert(patch_wf(
                v1.patches[i],
                v1.draw_data.len(),
                v1.color_stops.len(),
                v1.glyph_runs.len(),
            ));
        }
        assert forall|i: int| 0 <= i < v2.glyph_runs.len() implies run_wf(
            #[trigger] v2.glyph_runs[i],
            v2.glyphs.len(),
            v2.normalized_coords.len(),
        ) by {
            assert(run_wf(v1.glyph_runs[i], v1.glyphs.len(), v1.normalized_coords.len()));
        }
        assert forall|i: int| 0 <= i < v2.glyph_runs.len() implies offsets_within(
            (#[trigger] v2.glyph_runs[i]).stream_offsets,
            v2,
        ) by {
            assert(offsets_within(v1.glyph_runs[i].stream_offsets, v1));
        }
    }
}

/// As `lemma_wf_patches_unchanged`, for steps that also grow the color
/// stop table.
pub proof fn lemma_wf_draw_grow(v1: EncodingView, v2: EncodingView)
    requires
        v2.patches == v1.patches,
        v2.glyph_runs == v1.glyph_runs,
        v2.glyphs == v1.glyphs,
        v2.normalized_coords == v1.normalized_coords,
        v2.draw_data.len() >= v1.draw_data.len(),
        v2.color_stops.len() >= v1.color_stops.len(),
        v2.path_tags.len() >= v1.path_tags.len(),
        v2.path_data.len() >= v1.path_data.len(),
        v2.draw_tags.len() >= v1.draw_tags.len(),
        v2.linewidths.len() >= v1.linewidths.len(),
        v2.dasharrays.len() >= v1.dasharrays.len(),
        v2.pattern_data.len() >= v1.pattern_data.len(),
        v2.states == v1.states,
        v2.transforms == v1.transforms,
        v2.n_clips == v1.n_clips,
        v2.n_open_clips == v1.n_open_clips,
    ensures
        encoding_wf(v1) ==> encoding_wf(v2),
{
    if encoding_wf(v1) {
        assert forall|i: int| 0 <= i < v2.patches.len() implies patch_wf(
            #[trigger] v2.patches[i],
            v2.draw_data.len(),
            v2.color_stops.len(),
            v2.glyph_runs.len(),
        ) by {
            assert(patch_wf(
                v1.patches[i],
                v1.draw_data.len(),
                v1.color_stops.len(),
                v1.glyph_runs.len(),
            ));
        }
        assert forall|i: int| 0 <= i < v2.glyph_runs.len() implies run_wf(
            #[trigger] v2.glyph_runs[i],
            v2.glyphs.len(),
            v2.normalized_coords.len(),
        ) by {
            assert(run_wf(v1.glyph_runs[i], v1.glyphs.len(), v1.normalized_coords.len()));
        }
        assert forall|i: int| 0 <= i < v2.glyph_runs.len() implies offsets_within(
            (#[trigger] v2.glyph_runs[i]).stream_offsets,
            v2,
        ) by {
            assert(offsets_within(v1.glyph_runs[i].stream_offsets, v1));
        }
    }
}

} // verus!
