//! Tests of the encoding: float bit conversion, transform deduplication,
//! clip balance, ramp collapse, reset, composition and path encoding.

use vello_core::encoding::{Brush, Encoding, RampStops, TRANSFORM_STATE_DEFAULT};
use vello_core::draw::{BlendMode, Color, DRAW_TAG_BEGIN_CLIP, DRAW_TAG_COLOR, DRAW_TAG_END_CLIP};
use vello_core::math::{f32_bits_of_small, Transform, F32_BITS_NEG_ONE};
use vello_core::path::{PathCommand, PathEncoder, PathTag};
use vello_core::glyphs::DrawGlyphs;
use vello_core::resources::{ColorStop, Extend, Font, Glyph, Patch, Style};

fn t(tx: f32, ty: f32) -> Transform {
    Transform {
        m0: 1f32.to_bits(),
        m1: 0,
        m2: 0,
        m3: 1f32.to_bits(),
        t0: tx.to_bits(),
        t1: ty.to_bits(),
    }
}

fn red() -> Color {
    Color { r: 255, g: 0, b: 0, a: 255 }
}

fn stop(offset: f32, c: Color) -> ColorStop {
    ColorStop { offset: offset.to_bits(), color: c }
}

#[test]
fn small_int_float_bits_match_hardware() {
    let cases: [u32; 9] = [0, 1, 2, 3, 7, 16, 255, 4096, 0xFF_FFFF];
    for n in cases {
        assert_eq!(f32_bits_of_small(n), (n as f32).to_bits(), "bits of {n}");
    }
}

#[test]
fn transform_dedup_same_pushes_once() {
    let mut e = Encoding::new();
    e.reset(false);
    let base_len = e.transforms.len();
    let tr = t(3.0, 4.0);
    assert!(e.encode_transform(tr));
    assert!(!e.encode_transform(tr));
    assert_eq!(e.transforms.len(), base_len + 1);
}

#[test]
fn transform_dedup_different_pushes_two() {
    let mut e = Encoding::new();
    e.reset(false);
    let base_len = e.transforms.len();
    assert!(e.encode_transform(t(3.0, 4.0)));
    assert!(e.encode_transform(t(5.0, 6.0)));
    assert_eq!(e.transforms.len(), base_len + 2);
}

#[test]
fn transform_dedup_state_change_pushes() {
    // The same matrix under a flipped ambient state is a new entry.
    let mut e = Encoding::new();
    e.reset(false);
    let tr = t(1.0, 2.0);
    assert!(e.encode_transform(tr));
    e.transform_state = vello_core::encoding::TransformState(1);
    assert!(e.encode_transform(tr));
    e.transform_state = vello_core::encoding::TransformState(TRANSFORM_STATE_DEFAULT);
    assert_eq!(e.transforms.len(), 3);
}

#[test]
fn clip_balance_matched_brackets() {
    let mut e = Encoding::new();
    e.reset(false);
    let blend = BlendMode { mix: 0, compose: 3 };
    e.encode_begin_clip(blend, 1f32.to_bits());
    e.encode_begin_clip(blend, 1f32.to_bits());
    e.encode_end_clip();
    e.encode_end_clip();
    assert_eq!(e.n_open_clips, 0);
    assert_eq!(e.n_clips, 4);
}

#[test]
fn clip_balance_overpop_absorbed() {
    let mut e = Encoding::new();
    e.reset(false);
    e.encode_end_clip();
    assert_eq!(e.n_open_clips, 0);
    assert_eq!(e.n_clips, 0);
    // An end before any begin is absorbed; the following begin opens one.
    e.encode_begin_clip(BlendMode { mix: 0, compose: 3 }, 1f32.to_bits());
    assert_eq!(e.n_open_clips, 1);
}

#[test]
fn clip_balance_partial_close() {
    let mut e = Encoding::new();
    e.reset(false);
    let blend = BlendMode { mix: 0, compose: 3 };
    for _ in 0..3 {
        e.encode_begin_clip(blend, 1f32.to_bits());
    }
    e.encode_end_clip();
    assert_eq!(e.n_open_clips, 2);
}

#[test]
fn ramp_collapse_empty() {
    let mut e = Encoding::new();
    e.reset(false);
    let stops: Vec<ColorStop> = vec![];
    assert_eq!(e.add_ramp(&stops, Extend::Pad), RampStops::Empty);
    assert_eq!(e.resources.patches.len(), 0);
    assert_eq!(e.resources.color_stops.len(), 0);
}

#[test]
fn ramp_collapse_one() {
    let mut e = Encoding::new();
    e.reset(false);
    let stops = vec![stop(0.0, red())];
    assert_eq!(e.add_ramp(&stops, Extend::Pad), RampStops::One(red()));
    assert_eq!(e.resources.patches.len(), 0);
    assert_eq!(e.resources.color_stops.len(), 0);
}

#[test]
fn ramp_collapse_many() {
    let mut e = Encoding::new();
    e.reset(false);
    let white = Color { r: 255, g: 255, b: 255, a: 255 };
    let stops = vec![stop(0.0, red()), stop(0.5, white), stop(1.0, red())];
    assert_eq!(e.add_ramp(&stops, Extend::Reflect), RampStops::Many);
    assert_eq!(e.resources.color_stops.len(), 3);
    assert_eq!(e.resources.patches.len(), 1);
    match e.resources.patches[0] {
        Patch::Ramp { draw_data_offset, stops_start, stops_end, extend } => {
            assert_eq!(draw_data_offset, 0);
            assert_eq!(stops_start, 0);
            assert_eq!(stops_end - stops_start, 3);
            assert_eq!(extend, Extend::Reflect);
        }
        _ => panic!("expected a ramp patch"),
    }
}

#[test]
fn reset_matches_fresh() {
    let mut e = Encoding::new();
    e.reset(false);
    e.encode_transform(t(9.0, 9.0));
    e.encode_linewidth(2f32.to_bits(), Some(vec![1f32.to_bits(), 2f32.to_bits()]));
    e.encode_color(red());
    e.encode_begin_clip(BlendMode { mix: 1, compose: 3 }, 1f32.to_bits());
    e.reset(false);

    let mut fresh = Encoding::new();
    fresh.reset(false);
    assert_eq!(e.path_tags, fresh.path_tags);
    assert_eq!(e.path_data, fresh.path_data);
    assert_eq!(e.draw_tags, fresh.draw_tags);
    assert_eq!(e.draw_data, fresh.draw_data);
    assert_eq!(e.transforms, fresh.transforms);
    assert_eq!(e.linewidths, fresh.linewidths);
    assert_eq!(e.dasharrays, fresh.dasharrays);
    assert_eq!(e.n_paths, 0);
    assert_eq!(e.n_path_segments, 0);
    assert_eq!(e.n_clips, 0);
    assert_eq!(e.n_open_clips, 0);
    assert_eq!(e.n_patterns, 0);
    // The seeded ambient state: one identity transform and the three
    // line-width sentinels.
    assert_eq!(e.transforms.len(), 1);
    assert_eq!(e.linewidths.len(), 3);
    assert_eq!(e.linewidths[0], (-1f32).to_bits());
    assert_eq!(e.linewidths[1], 0f32.to_bits());
    assert_eq!(e.linewidths[2], 0f32.to_bits());
}

fn square(size: f32) -> Vec<PathCommand> {
    let z = 0f32.to_bits();
    let s = size.to_bits();
    vec![
        PathCommand::MoveTo { x: z, y: z },
        PathCommand::LineTo { x: s, y: z },
        PathCommand::LineTo { x: s, y: s },
        PathCommand::LineTo { x: z, y: s },
        PathCommand::Close,
    ]
}

#[test]
fn append_round_trip_reads_back_tags() {
    let mut a = Encoding::new();
    a.reset(false);
    a.encode_linewidth(F32_BITS_NEG_ONE, None);
    a.encode_shape(&square(1.0), true);
    a.encode_color(red());

    let mut b = Encoding::new();
    b.reset(true);
    b.encode_shape(&square(2.0), true);
    let stops = vec![stop(0.0, red()), stop(1.0, Color { r: 0, g: 0, b: 255, a: 255 })];
    b.add_ramp(&stops, Extend::Pad);

    let a_tags = a.path_tags.len();
    let a_draw_tags = a.draw_tags.len();
    let a_draw_data = a.draw_data.len();
    let a_stops = a.resources.color_stops.len();
    let b_patch = b.resources.patches[0];

    let mut c = Encoding::new();
    c.reset(false);
    c.append(&a);
    // c now equals a; append b and read b back from the tail.
    let pre_tags = c.path_tags.len();
    let pre_draw = c.draw_tags.len();
    assert_eq!(pre_tags, a_tags);
    c.append(&b);
    assert_eq!(&c.path_tags[pre_tags..], &b.path_tags[..]);
    assert_eq!(&c.draw_tags[pre_draw..], &b.draw_tags[..]);
    assert_eq!(&c.path_data[a.path_data.len()..], &b.path_data[..]);
    // The appended ramp patch is shifted by exactly a's pre-append
    // lengths.
    let appended = c.resources.patches.last().unwrap();
    match (appended, b_patch) {
        (
            Patch::Ramp { draw_data_offset: c_off, stops_start: c_s, stops_end: c_e, .. },
            Patch::Ramp { draw_data_offset: b_off, stops_start: b_s, stops_end: b_e, .. },
        ) => {
            assert_eq!(*c_off, b_off + a_draw_data);
            assert_eq!(*c_s, b_s + a_stops);
            assert_eq!(*c_e, b_e + a_stops);
        }
        _ => panic!("expected ramp patches"),
    }
    assert_eq!(c.n_paths, a.n_paths + b.n_paths);
    assert_eq!(c.n_path_segments, a.n_path_segments + b.n_path_segments);
    assert_eq!(c.draw_tags[pre_draw - 1], vello_core::draw::DrawTag(DRAW_TAG_COLOR));
}

#[test]
fn path_encoder_square() {
    let mut e = Encoding::new();
    e.reset(false);
    let mut pe = PathEncoder::new(true);
    let z = 0f32.to_bits();
    let one = 1f32.to_bits();
    pe.move_to(z, z);
    pe.line_to(one, z);
    pe.line_to(one, one);
    pe.line_to(z, one);
    pe.close();
    let n = pe.finish(&mut e, true);
    assert_eq!(n, 4);
    assert_eq!(e.n_paths, 1);
    assert_eq!(e.n_path_segments, 4);
    // Three plain lines, a closing line with the subpath-end bit, and
    // the path terminator.
    assert_eq!(
        e.path_tags,
        vec![PathTag(0x9), PathTag(0x9), PathTag(0x9), PathTag(0x9 | 0x4), PathTag(0x10)]
    );
    // Five points of eight bytes each.
    assert_eq!(e.path_data.len(), 40);
    assert_eq!(&e.path_data[0..4], &0f32.to_bits().to_le_bytes());
    assert_eq!(&e.path_data[8..12], &1f32.to_bits().to_le_bytes());
}

#[test]
fn path_encoder_closed_square_marks_last() {
    // When the outline already returns to its first point, no closing
    // segment is added; the last segment gets the subpath-end bit.
    let mut e = Encoding::new();
    e.reset(false);
    let mut pe = PathEncoder::new(true);
    let z = 0f32.to_bits();
    let one = 1f32.to_bits();
    pe.move_to(z, z);
    pe.line_to(one, z);
    pe.line_to(one, one);
    pe.line_to(z, z);
    pe.close();
    let n = pe.finish(&mut e, true);
    assert_eq!(n, 3);
    assert_eq!(e.path_tags, vec![PathTag(0x9), PathTag(0x9), PathTag(0x9 | 0x4), PathTag(0x10)]);
}

#[test]
fn encode_shape_empty_is_invalid() {
    let mut e = Encoding::new();
    e.reset(false);
    let cmds = vec![PathCommand::Close];
    assert!(!e.encode_shape(&cmds, true));
    assert_eq!(e.n_paths, 0);
    assert_eq!(e.n_path_segments, 0);
}

#[test]
fn encode_brush_solid_writes_packed_color() {
    let mut e = Encoding::new();
    e.reset(false);
    e.encode_brush(&Brush::Solid(red()));
    assert_eq!(e.draw_tags.len(), 1);
    assert_eq!(e.draw_tags[0].0, DRAW_TAG_COLOR);
    // r g b a from the high byte down, little endian in the stream.
    assert_eq!(e.draw_data, 0xFF0000FFu32.to_le_bytes().to_vec());
}

#[test]
fn begin_end_clip_tags() {
    let mut e = Encoding::new();
    e.reset(false);
    e.encode_begin_clip(BlendMode { mix: 1, compose: 3 }, 0.5f32.to_bits());
    e.encode_end_clip();
    assert_eq!(e.draw_tags[0].0, DRAW_TAG_BEGIN_CLIP);
    assert_eq!(e.draw_tags[1].0, DRAW_TAG_END_CLIP);
    // The begin-clip payload: the packed blend word then the alpha bits.
    assert_eq!(&e.draw_data[0..4], &((1u32 << 8) | 3).to_le_bytes());
    assert_eq!(&e.draw_data[4..8], &0.5f32.to_bits().to_le_bytes());
}

#[test]
fn linewidth_dash_range_as_floats() {
    let mut e = Encoding::new();
    e.reset(true);
    e.encode_linewidth(2f32.to_bits(), Some(vec![1f32.to_bits(), 3f32.to_bits()]));
    e.encode_linewidth(4f32.to_bits(), Some(vec![2f32.to_bits()]));
    // The first entry covers dash pool [0, 2), the second [2, 3).
    assert_eq!(e.linewidths[0], 2f32.to_bits());
    assert_eq!(e.linewidths[1], 0f32.to_bits());
    assert_eq!(e.linewidths[2], 2f32.to_bits());
    assert_eq!(e.linewidths[3], 4f32.to_bits());
    assert_eq!(e.linewidths[4], 2f32.to_bits());
    assert_eq!(e.linewidths[5], 3f32.to_bits());
    assert_eq!(e.dasharrays.len(), 3);
}

#[test]
fn glyph_run_registers_patch() {
    let mut e = Encoding::new();
    e.reset(false);
    let dg = DrawGlyphs::new(Font { id: 7, index: 0 })
        .font_size(24f32.to_bits())
        .brush(Brush::Solid(red()));
    let glyphs = vec![
        Glyph { id: 10, x: 0f32.to_bits(), y: 0f32.to_bits() },
        Glyph { id: 11, x: 12f32.to_bits(), y: 0f32.to_bits() },
    ];
    dg.draw(&mut e, Style::Fill { even_odd: false }, &glyphs);
    assert_eq!(e.resources.glyphs.len(), 2);
    assert_eq!(e.resources.glyph_runs.len(), 1);
    let run = &e.resources.glyph_runs[0];
    assert_eq!(run.glyphs_start, 0);
    assert_eq!(run.glyphs_end, 2);
    assert_eq!(run.font_size, 24f32.to_bits());
    assert!(matches!(e.resources.patches[0], Patch::GlyphRun { index: 0 }));
    // The brush follows the run registration.
    assert_eq!(e.draw_tags.len(), 1);
    assert_eq!(e.draw_tags[0].0, DRAW_TAG_COLOR);
}

#[test]
fn glyph_run_empty_is_noop() {
    let mut e = Encoding::new();
    e.reset(false);
    let dg = DrawGlyphs::new(Font { id: 7, index: 0 });
    let glyphs: Vec<Glyph> = vec![];
    dg.draw(&mut e, Style::Fill { even_odd: false }, &glyphs);
    assert_eq!(e.resources.glyph_runs.len(), 0);
    assert_eq!(e.draw_tags.len(), 0);
}
