//! Resolution: turning one encoding plus its late-bound resources into a
//! single packed buffer ready for upload, a gradient-ramp table, a
//! packed image atlas, and a `Layout` recording where each logical
//! stream sits inside the packed buffer.

use crate::bytes::{extend_copy, push_u32_le, spec_u32_le};
use crate::encoding::{encoding_wf, Encoding, EncodingView};
use crate::math::{PatternData, Transform};
use crate::path::PathTag;
use crate::resources::{ColorStop, Extend, Image, Patch};
use vstd::prelude::*;
use vstd::std_specs::vec::vec_index_mut;

verus! {

/// Offsets (in 32-bit words) and element counts of each logical stream
/// inside the packed scene buffer.
#[derive(Clone, Copy, PartialEq, Eq, Structural, Debug)]
pub struct Layout {
    /// Number of draw objects.
    pub n_draw_objects: u32,
    /// Number of paths.
    pub n_paths: u32,
    /// Number of clip brackets.
    pub n_clips: u32,
    /// Number of pattern brackets.
    pub n_patterns: u32,
    /// Word offset of the path tag stream (always zero).
    pub path_tag_base: u32,
    /// Word offset of the path data stream.
    pub path_data_base: u32,
    /// Word offset of the draw tag stream.
    pub draw_tag_base: u32,
    /// Word offset of the draw data stream.
    pub draw_data_base: u32,
    /// Word offset of the transform stream.
    pub transform_base: u32,
    /// Word offset of the line-width stream.
    pub linewidth_base: u32,
    /// Word offset of the dash-array stream.
    pub dasharray_base: u32,
    /// Word offset of the pattern stream.
    pub pattern_base: u32,
    /// Total size of the packed buffer in words.
    pub size_in_words: u32,
}

/// One gradient ramp: the stops of one atlas row, with its extend mode.
/// The engine rasterizes each row into `RAMP_WIDTH` pixels.
#[derive(Clone, Debug)]
pub struct RampRow {
    /// The color stops, alpha already applied.
    pub stops: Vec<ColorStop>,
    /// The extend mode.
    pub extend: Extend,
}

/// The value of a ramp row, as spec data.
pub struct RampRowView {
    /// The color stops.
    pub stops: Seq<ColorStop>,
    /// The extend mode.
    pub extend: Extend,
}

impl RampRow {
    /// The row's value as spec data.
    pub open spec fn view(self) -> RampRowView {
        RampRowView { stops: self.stops@, extend: self.extend }
    }
}

/// The rows' values as spec data.
pub open spec fn ramp_rows_view(rows: Seq<RampRow>) -> Seq<RampRowView> {
    rows.map_values(|r: RampRow| r.view())
}

/// Width in pixels of a rasterized ramp row.
pub const RAMP_WIDTH: u32 = 512;

/// One image placed in the atlas.
#[derive(Clone, Copy, PartialEq, Eq, Structural, Debug)]
pub struct ImagePlacement {
    /// The image.
    pub image: Image,
    /// Horizontal atlas position.
    pub x: u32,
    /// Vertical atlas position.
    pub y: u32,
}

/// A shelf-packed image atlas: images fill a row left to right and open
/// a fresh row when the current one is full.
#[derive(Clone, Debug)]
pub struct ImageAtlas {
    /// Fixed atlas width.
    pub width: u32,
    /// Height grown to cover every placement.
    pub height: u32,
    /// Horizontal cursor in the open row.
    pub x: u32,
    /// Top of the open row.
    pub y: u32,
    /// Height of the open row.
    pub row_height: u32,
    /// The placements made so far.
    pub placements: Vec<ImagePlacement>,
}

impl ImageAtlas {
    /// Every placement lies inside the atlas extent, and the cursor
    /// stays inside the open row.
    pub open spec fn inv(self) -> bool {
        &&& forall|i: int|
            0 <= i < self.placements@.len() ==> ((#[trigger] self.placements@[i]).x
                + self.placements@[i].image.width <= self.width && self.placements@[i].y
                + self.placements@[i].image.height <= self.height)
        &&& self.x <= self.width
        &&& self.y + self.row_height <= self.height
    }

    /// An empty atlas of the given width.
    pub fn new(width: u32) -> (r: ImageAtlas)
        ensures
            r.inv(),
            r.width == width,
            r.height == 0,
            r.placements@ == Seq::<ImagePlacement>::empty(),
    {
        let r = ImageAtlas { width, height: 0, x: 0, y: 0, row_height: 0, placements: Vec::new() };
        proof {
            assert(r.placements@ =~= Seq::<ImagePlacement>::empty());
        }
        r
    }

    /// Places an image, opening a new row when the current one cannot
    /// hold it; returns its position, or nothing for an image the atlas
    /// cannot hold (too wide, empty, or past the coordinate range), which
    /// the caller degrades rather than fails.
    pub fn place(&mut self, image: Image) -> (r: Option<(u32, u32)>)
        requires
            old(self).inv(),
        ensures
            final(self).inv(),
            final(self).width == old(self).width,
            r matches Some(pos) ==> {
                &&& final(self).placements@ == old(self).placements@.push(
                    ImagePlacement { image, x: pos.0, y: pos.1 },
                )
                &&& pos.0 + image.width <= final(self).width
                &&& pos.1 + image.height <= final(self).height
            },
            r is None ==> final(self).placements@ == old(self).placements@,
    {
        if image.width == 0 || image.height == 0 || image.width > self.width {
            return None;
        }
        if image.width > self.width - self.x {
            // Open a fresh row.
            self.x = 0;
            self.y = self.y + self.row_height;
            self.row_height = 0;
        }
        if image.height > self.row_height {
            let grown = self.y as u64 + image.height as u64;
            if grown > u32::MAX as u64 {
                return None;
            }
            self.row_height = image.height;
            if self.y + self.row_height > self.height {
                self.height = self.y + self.row_height;
            }
        }
        let pos = (self.x, self.y);
        self.x = self.x + image.width;
        self.placements.push(ImagePlacement { image, x: pos.0, y: pos.1 });
        proof {
            assert forall|i: int| 0 <= i < self.placements@.len() implies ((
            #[trigger] self.placements@[i]).x + self.placements@[i].image.width <= self.width
                && self.placements@[i].y + self.placements@[i].image.height <= self.height) by {
                if i < old(self).placements@.len() {
                    assert(old(self).placements@[i].x + old(self).placements@[i].image.width
                        <= old(self).width);
                    assert(old(self).placements@[i].y + old(self).placements@[i].image.height
                        <= old(self).height);
                }
            }
        }
        Some(pos)
    }
}

/// Compares two stop vectors for equality.
fn stops_eq(a: &Vec<ColorStop>, b: &Vec<ColorStop>) -> (r: bool)
    ensures
        r == (a@ == b@),
{
    if a.len() != b.len() {
        proof {
            assert(a@.len() != b@.len());
        }
        return false;
    }
    let mut i: usize = 0;
    while i < a.len()
        invariant
            i <= a@.len(),
            a@.len() == b@.len(),
            forall|j: int| 0 <= j < i ==> a@[j] == b@[j],
        decreases a@.len() - i,
    {
        if a[i] != b[i] {
            proof {
                assert(a@ != b@);
            }
            return false;
        }
        i = i + 1;
    }
    proof {
        assert(a@ =~= b@);
    }
    true
}

/// The numbering of extend modes the kernels read.
pub open spec fn spec_extend_mode(e: Extend) -> u32 {
    match e {
        Extend::Pad => 0,
        Extend::Repeat => 1,
        Extend::Reflect => 2,
    }
}

/// The numbering of extend modes the kernels read.
pub fn extend_mode(e: Extend) -> (r: u32)
    ensures
        r == spec_extend_mode(e),
{
    match e {
        Extend::Pad => 0,
        Extend::Repeat => 1,
        Extend::Reflect => 2,
    }
}

/// Adds a ramp to the cache, reusing a row whose stops and extend mode
/// match so that identical stop sequences share one atlas row.
fn add_ramp_row(rows: &mut Vec<RampRow>, stops: Vec<ColorStop>, extend: Extend) -> (r: usize)
    requires
        old(rows)@.len() < 0x1000_0000,
    ensures
        r < final(rows)@.len(),
        final(rows)@[r as int].stops@ == stops@,
        final(rows)@[r as int].extend == extend,
        old(rows)@.len() <= final(rows)@.len() <= old(rows)@.len() + 1,
        forall|i: int| 0 <= i < old(rows)@.len() ==> final(rows)@[i] == old(rows)@[i],
{
    let mut i: usize = 0;
    while i < rows.len()
        invariant
            i <= rows@.len(),
            rows@ == old(rows)@,
        decreases rows@.len() - i,
    {
        let same_mode = rows[i].extend == extend;
        if same_mode && stops_eq(&rows[i].stops, &stops) {
            return i;
        }
        i = i + 1;
    }
    rows.push(RampRow { stops, extend });
    rows.len() - 1
}

/// Streams small enough that every word offset in the packed buffer fits
/// comfortably in 32 bits.
pub open spec fn encoding_bounded(v: EncodingView) -> bool {
    &&& v.path_tags.len() < 0x100_0000
    &&& v.path_data.len() < 0x100_0000
    &&& v.draw_tags.len() < 0x100_0000
    &&& v.draw_data.len() < 0x100_0000
    &&& v.transforms.len() < 0x100_0000
    &&& v.linewidths.len() < 0x100_0000
    &&& v.dasharrays.len() < 0x100_0000
    &&& v.pattern_data.len() < 0x100_0000
    &&& v.patches.len() < 0x100_0000
    &&& v.color_stops.len() < 0x100_0000
}

/// Words a stream of `n` bytes occupies after padding to a word boundary.
pub open spec fn spec_words_of_bytes(n: nat) -> nat {
    (n + 3) / 4
}

/// The layout that packing an encoding produces: each base is the
/// running word total of the streams before it.
pub open spec fn spec_layout(v: EncodingView) -> Layout {
    let path_data_base = spec_words_of_bytes(v.path_tags.len());
    let draw_tag_base = path_data_base + spec_words_of_bytes(v.path_data.len());
    let draw_data_base = draw_tag_base + v.draw_tags.len();
    let transform_base = draw_data_base + spec_words_of_bytes(v.draw_data.len());
    let linewidth_base = transform_base + 6 * v.transforms.len();
    let dasharray_base = linewidth_base + v.linewidths.len();
    let pattern_base = dasharray_base + v.dasharrays.len();
    let total = pattern_base + 6 * v.pattern_data.len();
    Layout {
        n_draw_objects: v.draw_tags.len() as u32,
        n_paths: v.n_paths,
        n_clips: v.n_clips,
        n_patterns: v.n_patterns,
        path_tag_base: 0,
        path_data_base: path_data_base as u32,
        draw_tag_base: draw_tag_base as u32,
        draw_data_base: draw_data_base as u32,
        transform_base: transform_base as u32,
        linewidth_base: linewidth_base as u32,
        dasharray_base: dasharray_base as u32,
        pattern_base: pattern_base as u32,
        size_in_words: total as u32,
    }
}

/// The little-endian bytes of a word sequence.
pub open spec fn spec_u32s_le(ws: Seq<u32>) -> Seq<u8>
    decreases ws.len(),
{
    if ws.len() == 0 {
        Seq::empty()
    } else {
        spec_u32s_le(ws.drop_last()) + spec_u32_le(ws.last())
    }
}

/// The length of the little-endian bytes of a word sequence.
pub proof fn lemma_u32s_le_len(ws: Seq<u32>)
    ensures
        spec_u32s_le(ws).len() == 4 * ws.len(),
    decreases ws.len(),
{
    if ws.len() > 0 {
        lemma_u32s_le_len(ws.drop_last());
    }
}

/// Appends the little-endian bytes of every word.
fn push_words(out: &mut Vec<u8>, ws: &Vec<u32>)
    ensures
        final(out)@ == old(out)@ + spec_u32s_le(ws@),
{
    let mut i: usize = 0;
    while i < ws.len()
        invariant
            i <= ws@.len(),
            out@ == old(out)@ + spec_u32s_le(ws@.subrange(0, i as int)),
        decreases ws@.len() - i,
    {
        push_u32_le(out, ws[i]);
        i = i + 1;
        proof {
            assert(ws@.subrange(0, i as int).drop_last() =~= ws@.subrange(0, i as int - 1));
            assert(out@ =~= old(out)@ + spec_u32s_le(ws@.subrange(0, i as int)));
        }
    }
    proof {
        assert(ws@.subrange(0, ws@.len() as int) =~= ws@);
    }
}

/// The bytes of the path tag stream, padded with zero bytes to a word
/// boundary.
pub open spec fn spec_path_tag_bytes(tags: Seq<PathTag>) -> Seq<u8> {
    tags.map_values(|t: PathTag| t.0) + spec_padding(tags.len())
}

/// Zero bytes padding a stream of `n` bytes to a word boundary.
pub open spec fn spec_padding(n: nat) -> Seq<u8> {
    Seq::new((4 * spec_words_of_bytes(n) - n) as nat, |i: int| 0u8)
}

/// The words of the draw tag stream.
pub open spec fn spec_draw_tag_words(v: EncodingView) -> Seq<u32> {
    v.draw_tags.map_values(|t: crate::draw::DrawTag| t.0)
}

/// The words of the transform stream: six per transform.
pub open spec fn spec_transform_words(ts: Seq<Transform>) -> Seq<u32>
    decreases ts.len(),
{
    if ts.len() == 0 {
        Seq::empty()
    } else {
        spec_transform_words(ts.drop_last()) + seq![
            ts.last().m0,
            ts.last().m1,
            ts.last().m2,
            ts.last().m3,
            ts.last().t0,
            ts.last().t1,
        ]
    }
}

/// The words of the pattern stream: six per pattern bracket.
pub open spec fn spec_pattern_words(ps: Seq<PatternData>) -> Seq<u32>
    decreases ps.len(),
{
    if ps.len() == 0 {
        Seq::empty()
    } else {
        spec_pattern_words(ps.drop_last()) + seq![
            ps.last().start_x,
            ps.last().start_y,
            ps.last().box_scale_x,
            ps.last().box_scale_y,
            ps.last().rotate,
            ps.last().is_screen_space,
        ]
    }
}

/// Whether byte `k` of the draw data lies inside the four-byte span some
/// patch writes during resolution.
pub open spec fn in_patch_span(patches: Seq<Patch>, draw_len: nat, k: int) -> bool {
    exists|i: int|
        0 <= i < patches.len() && match #[trigger] patches[i] {
            Patch::Ramp { draw_data_offset, .. } => draw_data_offset + 4 <= draw_len
                && draw_data_offset <= k < draw_data_offset + 4,
            Patch::Image { draw_data_offset, .. } => draw_data_offset + 4 <= draw_len
                && draw_data_offset <= k < draw_data_offset + 4,
            Patch::GlyphRun { .. } => false,
        }
}

/// Writes the little-endian bytes of a word into the draw data at a
/// patch offset.
fn write_u32_at(data: &mut Vec<u8>, off: usize, val: u32)
    requires
        off + 4 <= old(data)@.len(),
    ensures
        final(data)@.len() == old(data)@.len(),
        final(data)@.subrange(off as int, off as int + 4) == spec_u32_le(val),
        forall|k: int|
            0 <= k < old(data)@.len() && !(off <= k < off + 4) ==> final(data)@[k] == old(
                data,
            )@[k],
{
    let l = data.len();
    *vec_index_mut(data, off) = (val & 0xff) as u8;
    *vec_index_mut(data, off + 1) = ((val >> 8) & 0xff) as u8;
    *vec_index_mut(data, off + 2) = ((val >> 16) & 0xff) as u8;
    *vec_index_mut(data, off + 3) = ((val >> 24) & 0xff) as u8;
    proof {
        assert(data@.subrange(off as int, off as int + 4) =~= spec_u32_le(val));
    }
}

/// Whether, for every ramp patch among the first `upto` patches, `rows`
/// holds a row whose stops are exactly the patch's referenced stop range
/// with its extend mode.
pub open spec fn ramp_cover(
    rows: Seq<RampRow>,
    patches: Seq<Patch>,
    stops_table: Seq<ColorStop>,
    upto: int,
) -> bool {
    forall|i: int|
        0 <= i < upto ==> match #[trigger] patches[i] {
            Patch::Ramp { stops_start, stops_end, extend, .. } => exists|j: int|
                0 <= j < rows.len() && (#[trigger] rows[j]).stops@ == stops_table.subrange(
                    stops_start as int,
                    stops_end as int,
                ) && rows[j].extend == extend,
            _ => true,
        }
}

/// Coverage survives any extension of the row table that keeps the
/// existing rows.
proof fn lemma_ramp_cover_extend(
    rows1: Seq<RampRow>,
    rows2: Seq<RampRow>,
    patches: Seq<Patch>,
    stops_table: Seq<ColorStop>,
    upto: int,
)
    requires
        ramp_cover(rows1, patches, stops_table, upto),
        rows2.len() >= rows1.len(),
        forall|i: int| 0 <= i < rows1.len() ==> rows2[i] == rows1[i],
    ensures
        ramp_cover(rows2, patches, stops_table, upto),
{
    assert forall|i: int| 0 <= i < upto implies match #[trigger] patches[i] {
        Patch::Ramp { stops_start, stops_end, extend, .. } => exists|j: int|
            0 <= j < rows2.len() && (#[trigger] rows2[j]).stops@ == stops_table.subrange(
                stops_start as int,
                stops_end as int,
            ) && rows2[j].extend == extend,
        _ => true,
    } by {
        match patches[i] {
            Patch::Ramp { stops_start, stops_end, extend, .. } => {
                let j = choose|j: int|
                    0 <= j < rows1.len() && (#[trigger] rows1[j]).stops@ == stops_table.subrange(
                        stops_start as int,
                        stops_end as int,
                    ) && rows1[j].extend == extend;
                assert(rows2[j] == rows1[j]);
            },
            _ => {},
        }
    }
}

/// Consumes encodings and produces packed buffers, ramp tables and image
/// atlases. The caches are rebuilt on every call; the atlas width is
/// fixed.
#[derive(Clone, Debug)]
pub struct Resolver {
    /// The deduplicated gradient ramp rows of the latest resolution.
    pub ramp_rows: Vec<RampRow>,
    /// The image atlas of the latest resolution.
    pub atlas: ImageAtlas,
}

/// Fixed width of the image atlas.
pub const ATLAS_WIDTH: u32 = 1024;

impl Resolver {
    /// A fresh resolver with empty caches.
    pub fn new() -> (r: Resolver)
        ensures
            r.ramp_rows@ == Seq::<RampRow>::empty(),
            r.atlas.inv(),
    {
        let r = Resolver { ramp_rows: Vec::new(), atlas: ImageAtlas::new(ATLAS_WIDTH) };
        proof {
            assert(r.ramp_rows@ =~= Seq::<RampRow>::empty());
        }
        r
    }

    /// Walks the patch list in draw-data order: assigns every gradient a
    /// (deduplicated) ramp row and every image an atlas position, and
    /// rewrites each patch's four draw-data bytes accordingly.
    fn apply_patches(&mut self, encoding: &Encoding, draw_data: &mut Vec<u8>)
        requires
            encoding_wf(encoding.view()),
            encoding_bounded(encoding.view()),
            old(draw_data)@ == encoding.view().draw_data,
            old(self).ramp_rows@.len() == 0,
            old(self).atlas.inv(),
        ensures
            final(draw_data)@.len() == encoding.view().draw_data.len(),
            forall|k: int|
                0 <= k < encoding.view().draw_data.len() && !in_patch_span(
                    encoding.view().patches,
                    encoding.view().draw_data.len(),
                    k,
                ) ==> final(draw_data)@[k] == encoding.view().draw_data[k],
            ramp_cover(
                final(self).ramp_rows@,
                encoding.view().patches,
                encoding.view().color_stops,
                encoding.view().patches.len() as int,
            ),
            final(self).atlas.inv(),
    {
        let ghost v = encoding.view();
        let mut pi: usize = 0;
        while pi < encoding.resources.patches.len()
            invariant
                pi <= v.patches.len(),
                v == encoding.view(),
                encoding_wf(v),
                encoding_bounded(v),
                draw_data@.len() == v.draw_data.len(),
                self.atlas.inv(),
                forall|k: int|
                    0 <= k < v.draw_data.len() && !in_patch_span(v.patches, v.draw_data.len(), k)
                        ==> draw_data@[k] == v.draw_data[k],
                ramp_cover(self.ramp_rows@, v.patches, v.color_stops, pi as int),
                self.ramp_rows@.len() <= pi,
            decreases v.patches.len() - pi,
        {
            proof {
                assert(crate::encoding::patch_wf(
                    v.patches[pi as int],
                    v.draw_data.len(),
                    v.color_stops.len(),
                    v.glyph_runs.len(),
                ));
            }
            let ghost rows_before = self.ramp_rows@;
            let p = encoding.resources.patches[pi];
            match p {
                Patch::Ramp { draw_data_offset, stops_start, stops_end, extend } => {
                    let mut stops: Vec<ColorStop> = Vec::new();
                    let mut si: usize = stops_start;
                    proof {
                        assert(stops@ =~= v.color_stops.subrange(
                            stops_start as int,
                            stops_start as int,
                        ));
                    }
                    while si < stops_end
                        invariant
                            stops_start <= si <= stops_end,
                            stops_end <= v.color_stops.len(),
                            v == encoding.view(),
                            stops@ == v.color_stops.subrange(stops_start as int, si as int),
                        decreases stops_end - si,
                    {
                        stops.push(encoding.resources.color_stops[si]);
                        si = si + 1;
                        proof {
                            assert(stops@ =~= v.color_stops.subrange(
                                stops_start as int,
                                si as int,
                            ));
                        }
                    }
                    proof {
                        assert(self.ramp_rows@.len() < 0x1000_0000);
                    }
                    let id = add_ramp_row(&mut self.ramp_rows, stops, extend);
                    proof {
                        lemma_ramp_cover_extend(
                            rows_before,
                            self.ramp_rows@,
                            v.patches,
                            v.color_stops,
                            pi as int,
                        );
                        assert(ramp_cover(self.ramp_rows@, v.patches, v.color_stops, pi + 1)) by {
                            assert forall|i: int| 0 <= i < pi + 1 implies match #[trigger] v.patches[i] {
                                Patch::Ramp { stops_start: ss, stops_end: se, extend: ex, .. } =>
                                    exists|j: int|
                                        0 <= j < self.ramp_rows@.len()
                                            && (#[trigger] self.ramp_rows@[j]).stops@
                                            == v.color_stops.subrange(ss as int, se as int)
                                            && self.ramp_rows@[j].extend == ex,
                                _ => true,
                            } by {
                                if i == pi as int {
                                    assert(self.ramp_rows@[id as int].stops@ == v.color_stops
                                        .subrange(stops_start as int, stops_end as int));
                                    assert(self.ramp_rows@[id as int].extend == extend);
                                }
                            }
                        }
                    }
                    let mode = extend_mode(extend);
                    if id < 0x2000_0000 && draw_data_offset + 4 <= draw_data.len() {
                        let word = ((id as u32) << 2) | mode;
                        write_u32_at(draw_data, draw_data_offset, word);
                        proof {
                            assert(in_patch_span(
                                v.patches,
                                v.draw_data.len(),
                                draw_data_offset as int,
                            ));
                        }
                    }
                },
                Patch::Image { image, draw_data_offset } => {
                    let pos = self.atlas.place(image);
                    match pos {
                        Some((x, y)) => {
                            if x < 0x1_0000 && y < 0x1_0000 && draw_data_offset + 4
                                <= draw_data.len() {
                                let word = (x << 16) | y;
                                write_u32_at(draw_data, draw_data_offset, word);
                                proof {
                                    assert(in_patch_span(
                                        v.patches,
                                        v.draw_data.len(),
                                        draw_data_offset as int,
                                    ));
                                }
                            }
                        },
                        None => {
                            // The image could not be placed; its draw
                            // object keeps a zero position and degrades.
                        },
                    }
                    proof {
                        assert(ramp_cover(self.ramp_rows@, v.patches, v.color_stops, pi + 1));
                    }
                },
                Patch::GlyphRun { .. } => {
                    // Embedders encode glyph outlines as ordinary paths;
                    // an unresolved run degrades to nothing.
                    proof {
                        assert(ramp_cover(self.ramp_rows@, v.patches, v.color_stops, pi + 1));
                    }
                },
            }
            pi = pi + 1;
        }
    }

    /// Resolves an encoding: walks the patch list in draw-data order,
    /// assigns every gradient its (deduplicated) ramp row and every
    /// image its atlas position, rewrites the patched draw-data words,
    /// and packs all streams into `packed`, returning the layout that
    /// locates them. Glyph-run patches are skipped: embedders encode
    /// outlines as ordinary paths before resolution, and a run that
    /// reaches this point degrades to nothing rather than failing.
    #[verifier::rlimit(60)]
    pub fn resolve(&mut self, encoding: &Encoding, packed: &mut Vec<u8>) -> (r: Layout)
        requires
            encoding_wf(encoding.view()),
            encoding_bounded(encoding.view()),
        ensures
            r == spec_layout(encoding.view()),
            final(packed)@.len() == 4 * r.size_in_words,
            // The path tag region holds the tag bytes, padded.
            final(packed)@.subrange(0, 4 * r.path_data_base as int) == spec_path_tag_bytes(
                encoding.view().path_tags,
            ),
            // The path data region holds the path data bytes, padded.
            final(packed)@.subrange(4 * r.path_data_base as int, 4 * r.draw_tag_base as int)
                == encoding.view().path_data + spec_padding(encoding.view().path_data.len()),
            // The draw tag region holds the draw tag words.
            final(packed)@.subrange(4 * r.draw_tag_base as int, 4 * r.draw_data_base as int)
                == spec_u32s_le(spec_draw_tag_words(encoding.view())),
            // The transform region holds the transform words.
            final(packed)@.subrange(4 * r.transform_base as int, 4 * r.linewidth_base as int)
                == spec_u32s_le(spec_transform_words(encoding.view().transforms)),
            // The line-width region holds the line-width words.
            final(packed)@.subrange(4 * r.linewidth_base as int, 4 * r.dasharray_base as int)
                == spec_u32s_le(encoding.view().linewidths),
            // The dash region holds the dash words.
            final(packed)@.subrange(4 * r.dasharray_base as int, 4 * r.pattern_base as int)
                == spec_u32s_le(encoding.view().dasharrays),
            // The pattern region holds the pattern words.
            final(packed)@.subrange(4 * r.pattern_base as int, 4 * r.size_in_words as int)
                == spec_u32s_le(spec_pattern_words(encoding.view().pattern_data)),
            // The draw data region differs from the raw stream only
            // inside the four-byte spans the patches rewrite.
            forall|k: int|
                0 <= k < encoding.view().draw_data.len() && !in_patch_span(
                    encoding.view().patches,
                    encoding.view().draw_data.len(),
                    k,
                ) ==> final(packed)@[4 * r.draw_data_base + k] == encoding.view().draw_data[k],
            // Every ramp patch has a row whose stops are exactly its
            // referenced stop range.
            ramp_cover(
                final(self).ramp_rows@,
                encoding.view().patches,
                encoding.view().color_stops,
                encoding.view().patches.len() as int,
            ),
            final(self).atlas.inv(),
    {
        let ghost v = encoding.view();
        self.ramp_rows = Vec::new();
        self.atlas = ImageAtlas::new(ATLAS_WIDTH);
        proof {
            assert(self.ramp_rows@ =~= Seq::<RampRow>::empty());
        }

        // Apply the patches to a copy of the draw data.
        let mut draw_data: Vec<u8> = Vec::new();
        extend_copy(&mut draw_data, &encoding.draw_data);
        proof {
            assert(draw_data@ =~= v.draw_data);
        }
        self.apply_patches(encoding, &mut draw_data);

        // Build each region on its own, then concatenate.
        let region_path_tags = build_path_tag_region(encoding);
        let ghost r1 = region_path_tags@;

        let mut region_path_data: Vec<u8> = Vec::new();
        extend_copy(&mut region_path_data, &encoding.path_data);
        pad_to_word(&mut region_path_data);
        let ghost r2 = region_path_data@;

        let region_draw_tags = build_draw_tag_region(encoding);
        let ghost r3 = region_draw_tags@;

        let ghost patched = draw_data@;
        pad_to_word(&mut draw_data);
        let ghost r4 = draw_data@;

        let region_transforms = build_transform_region(encoding);
        let ghost r5 = region_transforms@;

        let mut region_linewidths: Vec<u8> = Vec::new();
        push_words(&mut region_linewidths, &encoding.linewidths);
        proof {
            assert(region_linewidths@ =~= spec_u32s_le(v.linewidths));
        }
        let ghost r6 = region_linewidths@;

        let mut region_dashes: Vec<u8> = Vec::new();
        push_words(&mut region_dashes, &encoding.dasharrays);
        proof {
            assert(region_dashes@ =~= spec_u32s_le(v.dasharrays));
        }
        let ghost r7 = region_dashes@;

        let region_patterns = build_pattern_region(encoding);
        let ghost r8 = region_patterns@;

        // Concatenate the regions.
        packed.clear();
        extend_copy(packed, &region_path_tags);
        extend_copy(packed, &region_path_data);
        extend_copy(packed, &region_draw_tags);
        extend_copy(packed, &draw_data);
        extend_copy(packed, &region_transforms);
        extend_copy(packed, &region_linewidths);
        extend_copy(packed, &region_dashes);
        extend_copy(packed, &region_patterns);

        let n_draw_objects = encoding.draw_tags.len() as u32;
        let path_data_base = words_of(encoding.path_tags.len());
        let draw_tag_base = path_data_base + words_of(encoding.path_data.len());
        let draw_data_base = draw_tag_base + n_draw_objects;
        let transform_base = draw_data_base + words_of(encoding.draw_data.len());
        let linewidth_base = transform_base + 6 * (encoding.transforms.len() as u32);
        let dasharray_base = linewidth_base + (encoding.linewidths.len() as u32);
        let pattern_base = dasharray_base + (encoding.dasharrays.len() as u32);
        let size_in_words = pattern_base + 6 * (encoding.pattern_data.len() as u32);
        let layout = Layout {
            n_draw_objects,
            n_paths: encoding.n_paths,
            n_clips: encoding.n_clips,
            n_patterns: encoding.n_patterns,
            path_tag_base: 0,
            path_data_base,
            draw_tag_base,
            draw_data_base,
            transform_base,
            linewidth_base,
            dasharray_base,
            pattern_base,
            size_in_words,
        };
        proof {
            lemma_transform_words_len(v.transforms);
            lemma_pattern_words_len(v.pattern_data);
            lemma_u32s_le_len(spec_transform_words(v.transforms));
            lemma_u32s_le_len(spec_pattern_words(v.pattern_data));
            lemma_u32s_le_len(v.linewidths);
            lemma_u32s_le_len(v.dasharrays);
            lemma_u32s_le_len(spec_draw_tag_words(v));
            assert(packed@ =~= r1 + r2 + r3 + r4 + r5 + r6 + r7 + r8);
            assert(r1.len() == 4 * spec_words_of_bytes(v.path_tags.len()));
            assert(r2.len() == 4 * spec_words_of_bytes(v.path_data.len()));
            assert(r3.len() == 4 * v.draw_tags.len());
            assert(r4.len() == 4 * spec_words_of_bytes(v.draw_data.len()));
            assert(r5.len() == 4 * 6 * v.transforms.len());
            assert(r6.len() == 4 * v.linewidths.len());
            assert(r7.len() == 4 * v.dasharrays.len());
            assert(r8.len() == 4 * 6 * v.pattern_data.len());
            assert(packed@.subrange(0, 4 * layout.path_data_base as int) =~= r1);
            assert(packed@.subrange(
                4 * layout.path_data_base as int,
                4 * layout.draw_tag_base as int,
            ) =~= r2);
            assert(packed@.subrange(
                4 * layout.draw_tag_base as int,
                4 * layout.draw_data_base as int,
            ) =~= r3);
            assert(packed@.subrange(
                4 * layout.transform_base as int,
                4 * layout.linewidth_base as int,
            ) =~= r5);
            assert(packed@.subrange(
                4 * layout.linewidth_base as int,
                4 * layout.dasharray_base as int,
            ) =~= r6);
            assert(packed@.subrange(
                4 * layout.dasharray_base as int,
                4 * layout.pattern_base as int,
            ) =~= r7);
            assert(packed@.subrange(
                4 * layout.pattern_base as int,
                4 * layout.size_in_words as int,
            ) =~= r8);
            assert(r2 =~= v.path_data + spec_padding(v.path_data.len()));
            assert forall|k: int|
                0 <= k < v.draw_data.len() && !in_patch_span(v.patches, v.draw_data.len(), k)
                    implies packed@[4 * layout.draw_data_base + k] == v.draw_data[k] by {
                assert(patched[k] == v.draw_data[k]);
                assert(r4[k] == patched[k]);
                assert(packed@[4 * layout.draw_data_base + k] == r4[k]);
            }
        }
        layout
    }
}

/// The path tag region: the tag bytes, padded to a word boundary.
fn build_path_tag_region(encoding: &Encoding) -> (r: Vec<u8>)
    ensures
        r@ == spec_path_tag_bytes(encoding.view().path_tags),
        r@.len() == 4 * spec_words_of_bytes(encoding.view().path_tags.len()),
{
    let ghost v = encoding.view();
    let mut out: Vec<u8> = Vec::new();
    let mut ti: usize = 0;
    proof {
        assert(out@ =~= v.path_tags.subrange(0, 0).map_values(|t: PathTag| t.0));
    }
    while ti < encoding.path_tags.len()
        invariant
            ti <= v.path_tags.len(),
            v == encoding.view(),
            out@ == v.path_tags.subrange(0, ti as int).map_values(|t: PathTag| t.0),
        decreases v.path_tags.len() - ti,
    {
        out.push(encoding.path_tags[ti].0);
        ti = ti + 1;
        proof {
            assert(out@ =~= v.path_tags.subrange(0, ti as int).map_values(|t: PathTag| t.0));
        }
    }
    proof {
        assert(v.path_tags.subrange(0, v.path_tags.len() as int) =~= v.path_tags);
    }
    pad_to_word(&mut out);
    proof {
        assert(out@ =~= spec_path_tag_bytes(v.path_tags));
    }
    out
}

/// The draw tag region: one word per draw tag.
fn build_draw_tag_region(encoding: &Encoding) -> (r: Vec<u8>)
    ensures
        r@ == spec_u32s_le(spec_draw_tag_words(encoding.view())),
        r@.len() == 4 * encoding.view().draw_tags.len(),
{
    let ghost v = encoding.view();
    let mut out: Vec<u8> = Vec::new();
    let mut di: usize = 0;
    proof {
        assert(spec_draw_tag_words(v).subrange(0, 0) =~= Seq::<u32>::empty());
        assert(out@ =~= spec_u32s_le(spec_draw_tag_words(v).subrange(0, 0)));
    }
    while di < encoding.draw_tags.len()
        invariant
            di <= v.draw_tags.len(),
            v == encoding.view(),
            out@ == spec_u32s_le(spec_draw_tag_words(v).subrange(0, di as int)),
        decreases v.draw_tags.len() - di,
    {
        push_u32_le(&mut out, encoding.draw_tags[di].0);
        di = di + 1;
        proof {
            assert(spec_draw_tag_words(v).subrange(0, di as int).drop_last()
                =~= spec_draw_tag_words(v).subrange(0, di as int - 1));
            assert(out@ =~= spec_u32s_le(spec_draw_tag_words(v).subrange(0, di as int)));
        }
    }
    proof {
        assert(spec_draw_tag_words(v).subrange(0, v.draw_tags.len() as int) =~= spec_draw_tag_words(
            v,
        ));
        lemma_u32s_le_len(spec_draw_tag_words(v));
    }
    out
}

/// The transform region: six words per transform.
fn build_transform_region(encoding: &Encoding) -> (r: Vec<u8>)
    ensures
        r@ == spec_u32s_le(spec_transform_words(encoding.view().transforms)),
        r@.len() == 24 * encoding.view().transforms.len(),
{
    let ghost v = encoding.view();
    let mut out: Vec<u8> = Vec::new();
    let mut tfi: usize = 0;
    proof {
        assert(spec_transform_words(v.transforms.subrange(0, 0)) =~= Seq::<u32>::empty());
        assert(out@ =~= spec_u32s_le(spec_transform_words(v.transforms.subrange(0, 0))));
    }
    while tfi < encoding.transforms.len()
        invariant
            tfi <= v.transforms.len(),
            v == encoding.view(),
            out@ == spec_u32s_le(spec_transform_words(v.transforms.subrange(0, tfi as int))),
            out@.len() == 24 * tfi,
        decreases v.transforms.len() - tfi,
    {
        let t = encoding.transforms[tfi];
        push_u32_le(&mut out, t.m0);
        push_u32_le(&mut out, t.m1);
        push_u32_le(&mut out, t.m2);
        push_u32_le(&mut out, t.m3);
        push_u32_le(&mut out, t.t0);
        push_u32_le(&mut out, t.t1);
        tfi = tfi + 1;
        proof {
            let pre = v.transforms.subrange(0, tfi as int - 1);
            let cur = v.transforms.subrange(0, tfi as int);
            assert(cur.drop_last() =~= pre);
            assert(spec_transform_words(cur) =~= spec_transform_words(pre) + seq![
                t.m0,
                t.m1,
                t.m2,
                t.m3,
                t.t0,
                t.t1,
            ]);
            lemma_u32s_le_snoc6(spec_transform_words(pre), t.m0, t.m1, t.m2, t.m3, t.t0, t.t1);
            assert(out@ =~= spec_u32s_le(spec_transform_words(cur)));
            lemma_transform_words_len(cur);
            lemma_u32s_le_len(spec_transform_words(cur));
        }
    }
    proof {
        assert(v.transforms.subrange(0, v.transforms.len() as int) =~= v.transforms);
    }
    out
}

/// The pattern region: six words per pattern bracket.
fn build_pattern_region(encoding: &Encoding) -> (r: Vec<u8>)
    ensures
        r@ == spec_u32s_le(spec_pattern_words(encoding.view().pattern_data)),
        r@.len() == 24 * encoding.view().pattern_data.len(),
{
    let ghost v = encoding.view();
    let mut out: Vec<u8> = Vec::new();
    let mut pti: usize = 0;
    proof {
        assert(spec_pattern_words(v.pattern_data.subrange(0, 0)) =~= Seq::<u32>::empty());
        assert(out@ =~= spec_u32s_le(spec_pattern_words(v.pattern_data.subrange(0, 0))));
    }
    while pti < encoding.pattern_data.len()
        invariant
            pti <= v.pattern_data.len(),
            v == encoding.view(),
            out@ == spec_u32s_le(spec_pattern_words(v.pattern_data.subrange(0, pti as int))),
            out@.len() == 24 * pti,
        decreases v.pattern_data.len() - pti,
    {
        let p = encoding.pattern_data[pti];
        push_u32_le(&mut out, p.start_x);
        push_u32_le(&mut out, p.start_y);
        push_u32_le(&mut out, p.box_scale_x);
        push_u32_le(&mut out, p.box_scale_y);
        push_u32_le(&mut out, p.rotate);
        push_u32_le(&mut out, p.is_screen_space);
        pti = pti + 1;
        proof {
            let pre = v.pattern_data.subrange(0, pti as int - 1);
            let cur = v.pattern_data.subrange(0, pti as int);
            assert(cur.drop_last() =~= pre);
            assert(spec_pattern_words(cur) =~= spec_pattern_words(pre) + seq![
                p.start_x,
                p.start_y,
                p.box_scale_x,
                p.box_scale_y,
                p.rotate,
                p.is_screen_space,
            ]);
            lemma_u32s_le_snoc6(
                spec_pattern_words(pre),
                p.start_x,
                p.start_y,
                p.box_scale_x,
                p.box_scale_y,
                p.rotate,
                p.is_screen_space,
            );
            assert(out@ =~= spec_u32s_le(spec_pattern_words(cur)));
            lemma_pattern_words_len(cur);
            lemma_u32s_le_len(spec_pattern_words(cur));
        }
    }
    proof {
        assert(v.pattern_data.subrange(0, v.pattern_data.len() as int) =~= v.pattern_data);
    }
    out
}

/// Words occupied by `n` bytes after padding.
fn words_of(n: usize) -> (r: u32)
    requires
        n < 0x100_0000,
    ensures
        r == spec_words_of_bytes(n as nat),
{
    ((n + 3) / 4) as u32
}

/// Pads the buffer with zero bytes to a word boundary.
#[verifier::rlimit(30)]
fn pad_to_word(out: &mut Vec<u8>)
    ensures
        final(out)@ == old(out)@ + spec_padding(old(out)@.len()),
        final(out)@.len() == 4 * spec_words_of_bytes(old(out)@.len()),
{
    let n = out.len();
    let rem = out.len() % 4;
    let q = out.len() / 4;
    proof {
        vstd::arithmetic::div_mod::lemma_fundamental_div_mod(n as int, 4);
        if rem == 0 {
            vstd::arithmetic::div_mod::lemma_fundamental_div_mod_converse(
                n + 3,
                4,
                q as int,
                3,
            );
            assert(spec_words_of_bytes(n as nat) == q);
            assert(spec_padding(n as nat).len() == 0);
        } else {
            vstd::arithmetic::div_mod::lemma_fundamental_div_mod_converse(
                n + 3,
                4,
                q as int + 1,
                rem - 1,
            );
            assert(spec_words_of_bytes(n as nat) == q + 1);
            assert(spec_padding(n as nat).len() == 4 - rem);
        }
    }
    if rem != 0 {
        let mut k: usize = rem;
        while k < 4
            invariant
                1 <= rem < 4,
                rem <= k <= 4,
                out@ == old(out)@ + Seq::new((k - rem) as nat, |i: int| 0u8),
            decreases 4 - k,
        {
            out.push(0);
            k = k + 1;
            proof {
                assert(out@ =~= old(out)@ + Seq::new((k - rem) as nat, |i: int| 0u8));
            }
        }
    }
    proof {
        assert(out@ =~= old(out)@ + spec_padding(old(out)@.len()));
    }
}

/// The transform stream contributes six words per entry.
pub proof fn lemma_transform_words_len(ts: Seq<Transform>)
    ensures
        spec_transform_words(ts).len() == 6 * ts.len(),
    decreases ts.len(),
{
    if ts.len() > 0 {
        lemma_transform_words_len(ts.drop_last());
    }
}

/// The pattern stream contributes six words per entry.
pub proof fn lemma_pattern_words_len(ps: Seq<PatternData>)
    ensures
        spec_pattern_words(ps).len() == 6 * ps.len(),
    decreases ps.len(),
{
    if ps.len() > 0 {
        lemma_pattern_words_len(ps.drop_last());
    }
}

/// Serializing six more words appends their bytes.
pub proof fn lemma_u32s_le_snoc6(ws: Seq<u32>, a: u32, b: u32, c: u32, d: u32, e: u32, f: u32)
    ensures
        spec_u32s_le(ws + seq![a, b, c, d, e, f]) == spec_u32s_le(ws) + spec_u32_le(a)
            + spec_u32_le(b) + spec_u32_le(c) + spec_u32_le(d) + spec_u32_le(e) + spec_u32_le(f),
{
    let s1 = ws + seq![a];
    let s2 = ws + seq![a, b];
    let s3 = ws + seq![a, b, c];
    let s4 = ws + seq![a, b, c, d];
    let s5 = ws + seq![a, b, c, d, e];
    let s6 = ws + seq![a, b, c, d, e, f];
    assert(s6.drop_last() =~= s5);
    assert(s5.drop_last() =~= s4);
    assert(s4.drop_last() =~= s3);
    assert(s3.drop_last() =~= s2);
    assert(s2.drop_last() =~= s1);
    assert(s1.drop_last() =~= ws);
    assert(spec_u32s_le(s1) =~= spec_u32s_le(ws) + spec_u32_le(a));
    assert(spec_u32s_le(s2) =~= spec_u32s_le(s1) + spec_u32_le(b));
    assert(spec_u32s_le(s3) =~= spec_u32s_le(s2) + spec_u32_le(c));
    assert(spec_u32s_le(s4) =~= spec_u32s_le(s3) + spec_u32_le(d));
    assert(spec_u32s_le(s5) =~= spec_u32s_le(s4) + spec_u32_le(e));
    assert(spec_u32s_le(s6) =~= spec_u32s_le(s5) + spec_u32_le(f));
    assert(spec_u32s_le(s6) =~= spec_u32s_le(ws) + spec_u32_le(a) + spec_u32_le(b) + spec_u32_le(c)
        + spec_u32_le(d) + spec_u32_le(e) + spec_u32_le(f));
}

} // verus!
